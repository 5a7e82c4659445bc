//! The service-configuration handle: the mutable capability through which
//! the secret key, once obtained, is installed into the running service.
//!
//! Installation is infallible and idempotent on the last write: the handle
//! remembers exactly the most recently installed key. The core only ever
//! writes through it; it never reads the key back out.

use vstd::prelude::*;

use crate::keystore::SecretKey;

verus! {

/// Handle to control the service configuration.
pub struct Handle {
    installed: Option<SecretKey>,
}

impl View for Handle {
    type V = Option<Seq<u8>>;

    closed spec fn view(&self) -> Option<Seq<u8>> {
        match self.installed {
            Option::Some(k) => Option::Some(k@),
            Option::None => Option::None,
        }
    }
}

impl Handle {
    /// A handle with no key installed yet, for contexts built outside a
    /// running service.
    pub fn dummy() -> (h: Handle)
        ensures
            h@ == Option::<Seq<u8>>::None,
    {
        Handle { installed: None }
    }

    /// Install the secret key into the service configuration, replacing
    /// whatever was installed before.
    pub fn set_secret_key(&mut self, key: SecretKey)
        ensures
            final(self)@ == Option::Some(key@),
    {
        self.installed = Some(key);
    }

    /// Whether a secret key has been installed.
    pub fn has_secret_key(&self) -> (r: bool)
        ensures
            r == (self@ is Some),
    {
        self.installed.is_some()
    }
}

} // verus!
