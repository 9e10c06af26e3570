//! Consumer side of one run of the OAuth2 authorization code grant, for
//! exercising an authorization server by hand: the configuration of the run,
//! the authorization request, the listener that takes the redirect and trades
//! the code for a token, and the steps of the run itself.

pub mod bindings;
pub mod error;
pub mod flow;
pub mod laws;
pub mod oauth2;
pub mod options;
pub mod text;

pub use error::Error;
pub use oauth2::Consumer;
pub use options::Options;
