//! The consumer's configuration: who asks, where, and for what.

use vstd::prelude::*;
use crate::error::{Error, ErrorView};

pub mod authorize;
pub mod callback;
pub mod error;
pub mod exchange;
pub mod listener;
pub mod render;
pub mod state;

verus! {

/// The configuration of a consumer. Every field may be missing; the scopes
/// keep the order in which they were given.
#[derive(Clone, Debug)]
pub struct Consumer {
    pub client_id: Option<String>,
    pub client_secret: Option<String>,
    pub auth_url: Option<String>,
    pub token_url: Option<String>,
    pub return_url: Option<String>,
    pub grant_type: Option<String>,
    pub scopes: Vec<String>,
}

/// What a `Consumer` holds, as texts.
pub ghost struct ConsumerView {
    pub client_id: Option<Seq<char>>,
    pub client_secret: Option<Seq<char>>,
    pub auth_url: Option<Seq<char>>,
    pub token_url: Option<Seq<char>>,
    pub return_url: Option<Seq<char>>,
    pub grant_type: Option<Seq<char>>,
    pub scopes: Seq<Seq<char>>,
}

impl View for Consumer {
    type V = ConsumerView;

    open spec fn view(&self) -> ConsumerView {
        ConsumerView {
            client_id: self.client_id.deep_view(),
            client_secret: self.client_secret.deep_view(),
            auth_url: self.auth_url.deep_view(),
            token_url: self.token_url.deep_view(),
            return_url: self.return_url.deep_view(),
            grant_type: self.grant_type.deep_view(),
            scopes: self.scopes.deep_view(),
        }
    }
}

impl ConsumerView {
    /// The configuration in which nothing is set.
    pub open spec fn empty() -> ConsumerView {
        ConsumerView {
            client_id: None,
            client_secret: None,
            auth_url: None,
            token_url: None,
            return_url: None,
            grant_type: None,
            scopes: Seq::empty(),
        }
    }
}

/// A configuration with which a run can start: it names the authorization
/// URL and the client, and asks for at least one scope.
#[derive(Debug)]
pub struct Resolved {
    auth_url: String,
    client_id: String,
    scopes: Vec<String>,
    client_secret: Option<String>,
    token_url: Option<String>,
    return_url: Option<String>,
    grant_type: Option<String>,
}

/// What a `Resolved` holds, as texts.
pub ghost struct ResolvedView {
    pub auth_url: Seq<char>,
    pub client_id: Seq<char>,
    pub scopes: Seq<Seq<char>>,
    pub client_secret: Option<Seq<char>>,
    pub token_url: Option<Seq<char>>,
    pub return_url: Option<Seq<char>>,
    pub grant_type: Option<Seq<char>>,
}

impl View for Resolved {
    type V = ResolvedView;

    closed spec fn view(&self) -> ResolvedView {
        ResolvedView {
            auth_url: self.auth_url@,
            client_id: self.client_id@,
            scopes: self.scopes.deep_view(),
            client_secret: self.client_secret.deep_view(),
            token_url: self.token_url.deep_view(),
            return_url: self.return_url.deep_view(),
            grant_type: self.grant_type.deep_view(),
        }
    }
}

impl Resolved {
    /// A run asks for at least one scope.
    #[verifier::type_invariant]
    spec fn has_scope(self) -> bool {
        self.scopes.len() > 0
    }
}

impl ConsumerView {
    /// What keeps a run from starting with this configuration, if anything
    /// does: no scope, no authorization URL or no client identifier, looked
    /// for in this order. The client secret and the token URL are not asked
    /// for here; they are missed only when a token is to be fetched.
    pub open spec fn missing(self) -> Option<ErrorView> {
        if self.scopes.len() == 0 {
            Some(ErrorView::Message("No scopes are requested"@))
        } else if self.auth_url is None {
            Some(ErrorView::Message("No auth URL defined in configuration"@))
        } else if self.client_id is None {
            Some(ErrorView::Message("No client ID defined in configuration"@))
        } else {
            None
        }
    }

    /// The same configuration, as one a run can start with.
    pub open spec fn resolved(self) -> ResolvedView
        recommends
            self.missing() is None,
    {
        ResolvedView {
            auth_url: self.auth_url->0,
            client_id: self.client_id->0,
            scopes: self.scopes,
            client_secret: self.client_secret,
            token_url: self.token_url,
            return_url: self.return_url,
            grant_type: self.grant_type,
        }
    }
}

impl Consumer {
    /// Checks that a run can start with this configuration, and says what is
    /// missing where it cannot.
    pub fn resolve(self) -> (r: Result<Resolved, Error>)
        ensures
            match r {
                Ok(resolved) => self@.missing() is None && resolved@ == self@.resolved(),
                Err(error) => self@.missing() == Some(error@),
            },
    {
        if self.scopes.len() == 0 {
            return Err(Error::new("No scopes are requested"));
        }
        let auth_url = match self.auth_url {
            Some(url) => url,
            None => {
                return Err(Error::new("No auth URL defined in configuration"));
            },
        };
        let client_id = match self.client_id {
            Some(id) => id,
            None => {
                return Err(Error::new("No client ID defined in configuration"));
            },
        };
        Ok(
            Resolved {
                auth_url,
                client_id,
                scopes: self.scopes,
                client_secret: self.client_secret,
                token_url: self.token_url,
                return_url: self.return_url,
                grant_type: self.grant_type,
            },
        )
    }

    /// A configuration in which nothing is set.
    pub fn empty() -> (consumer: Consumer)
        ensures
            consumer@ == ConsumerView::empty(),
    {
        let consumer = Consumer {
            client_id: None,
            client_secret: None,
            auth_url: None,
            token_url: None,
            return_url: None,
            grant_type: None,
            scopes: Vec::new(),
        };
        assert(consumer.scopes.deep_view() =~= Seq::<Seq<char>>::empty());
        consumer
    }
}

impl Resolved {
    /// Where the user is sent to authorize.
    pub fn auth_url(&self) -> (text: &str)
        ensures
            text@ == self@.auth_url,
    {
        self.auth_url.as_str()
    }

    /// The client's identifier.
    pub fn client_id(&self) -> (text: &str)
        ensures
            text@ == self@.client_id,
    {
        self.client_id.as_str()
    }

    /// The scopes asked for, in order; there is at least one.
    pub fn scopes(&self) -> (scopes: &Vec<String>)
        ensures
            scopes.deep_view() == self@.scopes,
            scopes.len() > 0,
    {
        proof {
            use_type_invariant(self);
        }
        &self.scopes
    }

    /// The client's secret, if one is set.
    pub fn client_secret(&self) -> (text: &Option<String>)
        ensures
            text.deep_view() == self@.client_secret,
    {
        &self.client_secret
    }

    /// Where a code is traded for a token, if that is set.
    pub fn token_url(&self) -> (text: &Option<String>)
        ensures
            text.deep_view() == self@.token_url,
    {
        &self.token_url
    }

    /// Where the authorization server sends the user back, if that is set.
    pub fn return_url(&self) -> (text: &Option<String>)
        ensures
            text.deep_view() == self@.return_url,
    {
        &self.return_url
    }

    /// The grant type to name when a token is fetched, if one is set.
    pub fn grant_type(&self) -> (text: &Option<String>)
        ensures
            text.deep_view() == self@.grant_type,
    {
        &self.grant_type
    }
}

} // verus!
