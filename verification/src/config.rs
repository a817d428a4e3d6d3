//! The settings that the upstream services ask for. They are looked up anew
//! for every request; a missing one fails that request and no other.

use crate::error::{outcome_of, Fault, ServiceError, Setting};
use vstd::prelude::*;

verus! {

/// The settings as they were found when a request came in.
#[derive(Debug, PartialEq, Eq)]
pub struct Config {
    pub embedding_key: Option<String>,
    pub store_url: Option<String>,
    pub store_key: Option<String>,
    pub platform_key: Option<String>,
}

/// The mathematical value of a `Config`.
pub struct ConfigModel {
    pub embedding_key: Option<Seq<char>>,
    pub store_url: Option<Seq<char>>,
    pub store_key: Option<Seq<char>>,
    pub platform_key: Option<Seq<char>>,
}

impl ConfigModel {
    /// The value of a setting, if it was found.
    pub open spec fn value(self, which: Setting) -> Option<Seq<char>> {
        match which {
            Setting::EmbeddingKey => self.embedding_key,
            Setting::StoreUrl => self.store_url,
            Setting::StoreKey => self.store_key,
            Setting::PlatformKey => self.platform_key,
        }
    }

    /// What resolving a setting gives: its value, or the error that names it.
    pub open spec fn resolved(self, which: Setting) -> Result<Seq<char>, Fault> {
        match self.value(which) {
            Some(v) => Ok(v),
            None => Err(Fault::Configuration(which)),
        }
    }
}

impl DeepView for Config {
    type V = ConfigModel;

    open spec fn deep_view(&self) -> ConfigModel {
        ConfigModel {
            embedding_key: self.embedding_key.deep_view(),
            store_url: self.store_url.deep_view(),
            store_key: self.store_key.deep_view(),
            platform_key: self.platform_key.deep_view(),
        }
    }
}

impl Config {
    /// The value of a setting, or the error that says which one is missing.
    pub fn resolve(&self, which: Setting) -> (r: Result<String, ServiceError>)
        ensures
            outcome_of(r) == self.deep_view().resolved(which),
    {
        let found = match which {
            Setting::EmbeddingKey => &self.embedding_key,
            Setting::StoreUrl => &self.store_url,
            Setting::StoreKey => &self.store_key,
            Setting::PlatformKey => &self.platform_key,
        };
        match found {
            Some(v) => Ok(v.clone()),
            None => Err(ServiceError::Configuration(which)),
        }
    }
}

} // verus!
