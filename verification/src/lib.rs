use vstd::prelude::*;

pub mod common;
pub mod error;
pub mod media_collection;
pub mod parse;
pub mod search;

verus! {

/// Base configuration a session was granted: the CMS bucket that endpoint
/// paths are built from and whether the account holds a premium entitlement.
pub struct Config {
    pub bucket: String,
    pub premium: bool,
}

impl Clone for Config {
    fn clone(&self) -> (r: Self)
        ensures
            r == *self,
    {
        Config { bucket: self.bucket.clone(), premium: self.premium }
    }
}

/// The shared execution context: every decoded object receives a copy of it
/// after a successful decode (the hydration step), so that it can later build
/// and issue authenticated follow-up requests of its own.
///
/// The context is established at session construction and never mutated by
/// request execution.
pub struct Executor {
    pub config: Config,
    pub locale: String,
}

impl Executor {
    /// The state a freshly decoded object carries before hydration.
    pub open spec fn is_default(&self) -> bool {
        &&& self.config.bucket@ == Seq::<char>::empty()
        &&& self.config.premium == false
        &&& self.locale@ == Seq::<char>::empty()
    }
}

impl Clone for Executor {
    fn clone(&self) -> (r: Self)
        ensures
            r == *self,
    {
        Executor { config: self.config.clone(), locale: self.locale.clone() }
    }
}

impl Default for Executor {
    fn default() -> (r: Self)
        ensures
            r.is_default(),
    {
        Executor {
            config: Config { bucket: String::new(), premium: false },
            locale: String::new(),
        }
    }
}

/// The top-level client session. It owns the execution context that is
/// injected into every object returned by a request.
pub struct Crunchyroll {
    pub executor: Executor,
}

} // verus!
