//! What the operator asked for on the command line.

use vstd::prelude::*;
use crate::oauth2::{Consumer, ConsumerView};
use crate::text::copy_texts;

verus! {

/// The operator's choices for one run. A choice that is present overrides the
/// matching field of the configuration file.
#[derive(Clone, Debug)]
pub struct Options {
    pub debug: bool,
    pub verbose: bool,
    pub client_id: Option<String>,
    pub client_secret: Option<String>,
    pub auth_url: Option<String>,
    pub token_url: Option<String>,
    pub return_url: Option<String>,
    pub grant_type: Option<String>,
    pub scopes: Vec<String>,
    pub state: Option<String>,
    pub config: Option<String>,
    pub passive: bool,
    pub interactive: bool,
}

/// What an `Options` holds, as texts.
pub ghost struct OptionsView {
    pub debug: bool,
    pub verbose: bool,
    pub client_id: Option<Seq<char>>,
    pub client_secret: Option<Seq<char>>,
    pub auth_url: Option<Seq<char>>,
    pub token_url: Option<Seq<char>>,
    pub return_url: Option<Seq<char>>,
    pub grant_type: Option<Seq<char>>,
    pub scopes: Seq<Seq<char>>,
    pub state: Option<Seq<char>>,
    pub config: Option<Seq<char>>,
    pub passive: bool,
    pub interactive: bool,
}

impl View for Options {
    type V = OptionsView;

    open spec fn view(&self) -> OptionsView {
        OptionsView {
            debug: self.debug,
            verbose: self.verbose,
            client_id: self.client_id.deep_view(),
            client_secret: self.client_secret.deep_view(),
            auth_url: self.auth_url.deep_view(),
            token_url: self.token_url.deep_view(),
            return_url: self.return_url.deep_view(),
            grant_type: self.grant_type.deep_view(),
            scopes: self.scopes.deep_view(),
            state: self.state.deep_view(),
            config: self.config.deep_view(),
            passive: self.passive,
            interactive: self.interactive,
        }
    }
}

/// The first of two values that is present.
pub open spec fn first_of(chosen: Option<Seq<char>>, fallback: Option<Seq<char>>) -> Option<Seq<char>> {
    if chosen is Some {
        chosen
    } else {
        fallback
    }
}

impl OptionsView {
    /// The configuration that results when these choices are laid over `conf`,
    /// field by field: a choice that is present wins, and the scopes of the
    /// command line replace those of the file as soon as there is one.
    pub open spec fn merged(self, conf: ConsumerView) -> ConsumerView {
        ConsumerView {
            client_id: first_of(self.client_id, conf.client_id),
            client_secret: first_of(self.client_secret, conf.client_secret),
            auth_url: first_of(self.auth_url, conf.auth_url),
            token_url: first_of(self.token_url, conf.token_url),
            return_url: first_of(self.return_url, conf.return_url),
            grant_type: first_of(self.grant_type, conf.grant_type),
            scopes: if self.scopes.len() == 0 {
                conf.scopes
            } else {
                self.scopes
            },
        }
    }
}

/// A copy of whichever of two texts is present, the first before the second.
fn first_present(chosen: &Option<String>, fallback: &Option<String>) -> (r: Option<String>)
    ensures
        r.deep_view() == first_of(chosen.deep_view(), fallback.deep_view()),
{
    match chosen {
        Some(text) => Some(text.clone()),
        None => match fallback {
            Some(text) => Some(text.clone()),
            None => None,
        },
    }
}

impl Options {
    /// Lays the choices of the command line over a configuration.
    pub fn merge_config(&self, conf: &Consumer) -> (merged: Consumer)
        ensures
            merged@ == self@.merged(conf@),
    {
        let scopes = if self.scopes.len() == 0 {
            copy_texts(&conf.scopes)
        } else {
            copy_texts(&self.scopes)
        };
        Consumer {
            client_id: first_present(&self.client_id, &conf.client_id),
            client_secret: first_present(&self.client_secret, &conf.client_secret),
            auth_url: first_present(&self.auth_url, &conf.auth_url),
            token_url: first_present(&self.token_url, &conf.token_url),
            return_url: first_present(&self.return_url, &conf.return_url),
            grant_type: first_present(&self.grant_type, &conf.grant_type),
            scopes,
        }
    }
}

} // verus!
