//! The session context: the shared dependencies of the service, in exactly
//! one of two states — sealed, before the operator has proved knowledge of
//! the passphrase, or unsealed, once the secret key is available.
//!
//! Both variants carry the same shared resources: the persistent store, the
//! test-mode flag, the service-configuration handle, the token guard, and
//! the key-store reference. The unsealed variant additionally carries the
//! handles to the now-running peer and its repository state.
//!
//! `unseal_keystore` and `create_key` drive the one transition the core
//! governs: a successful key-store call installs the key into the service
//! handle, then mints a fresh bearer token, in that order, and returns the
//! token. On any key-store failure, nothing is mutated.

use vstd::prelude::*;

use crate::keystore::AuthError;
use crate::keystore::Keystore;
use crate::keystore::MemoryKeystore;
use crate::keystore::Passphrase;
use crate::service::Handle;
use crate::token::TokenGuard;
use crate::token::compare_spec;
use crate::token::is_well_formed_token;

verus! {

/// Opaque handle to the persistent store. The core passes it through
/// unchanged and never interprets its contents.
pub struct Store {}

impl Store {
    /// A store handle.
    pub fn new() -> Store {
        Store {}
    }
}

/// Opaque handle to inspect and control the running peer. Only held and
/// forwarded; the core never drives its protocol.
pub struct PeerControl {}

/// Opaque handle to the peer's repository state. Only held and forwarded.
pub struct RepoState {}

/// Context for requests while the key store is still sealed.
pub struct Sealed<K: Keystore> {
    /// Persistent store used for session state and cache.
    pub store: Store,
    /// Flag to control if the stack is set up in test mode.
    pub test: bool,
    /// Handle to control the service configuration.
    pub service_handle: Handle,
    /// Guard holding the token set on unsealing the key store.
    pub auth_token: TokenGuard,
    /// Reference to the key store.
    pub keystore: K,
}

/// Context for requests once the peer is unsealed and available.
pub struct Unsealed<K: Keystore> {
    /// Handle to inspect state and perform actions on the running peer.
    pub peer_control: PeerControl,
    /// Handle to operate on the peer's repository state.
    pub state: RepoState,
    /// Persistent store used for session state and cache.
    pub store: Store,
    /// Flag to control if the stack is set up in test mode.
    pub test: bool,
    /// Handle to control the service configuration.
    pub service_handle: Handle,
    /// Guard holding the token set on unsealing the key store.
    pub auth_token: TokenGuard,
    /// Reference to the key store.
    pub keystore: K,
}

/// Container to pass the common dependencies down into request handlers.
pub enum Context<K: Keystore> {
    /// The peer is sealed and unavailable.
    Sealed(Sealed<K>),
    /// The peer is unsealed and available.
    Unsealed(Unsealed<K>),
}

impl<K: Keystore> Context<K> {
    /// Whether the context is still in the sealed state.
    pub open spec fn is_sealed(&self) -> bool {
        self is Sealed
    }

    /// The test-mode flag, identical in both states.
    pub open spec fn test_spec(&self) -> bool {
        match self {
            Context::Sealed(s) => s.test,
            Context::Unsealed(u) => u.test,
        }
    }

    /// The persistent store handle, identical in both states.
    pub open spec fn store_spec(&self) -> Store {
        match self {
            Context::Sealed(s) => s.store,
            Context::Unsealed(u) => u.store,
        }
    }

    /// The token guard's contents, identical in both states.
    pub open spec fn token_spec(&self) -> Option<Seq<char>> {
        match self {
            Context::Sealed(s) => s.auth_token@,
            Context::Unsealed(u) => u.auth_token@,
        }
    }

    /// The service-configuration handle, identical in both states.
    pub open spec fn service_handle_spec(&self) -> Handle {
        match self {
            Context::Sealed(s) => s.service_handle,
            Context::Unsealed(u) => u.service_handle,
        }
    }

    /// The key most recently installed into the service configuration.
    pub open spec fn installed_key_spec(&self) -> Option<Seq<u8>> {
        self.service_handle_spec()@
    }

    /// The key-store reference, identical in both states.
    pub open spec fn keystore_spec(&self) -> K {
        match self {
            Context::Sealed(s) => s.keystore,
            Context::Unsealed(u) => u.keystore,
        }
    }

    /// Returns `true` if the stack is set up in test mode.
    pub fn test(&self) -> (r: bool)
        ensures
            r == self.test_spec(),
    {
        match self {
            Context::Sealed(sealed) => sealed.test,
            Context::Unsealed(unsealed) => unsealed.test,
        }
    }

    /// Returns the handle for persistent storage.
    pub fn store(&self) -> (r: &Store)
        ensures
            *r == self.store_spec(),
    {
        match self {
            Context::Sealed(sealed) => &sealed.store,
            Context::Unsealed(unsealed) => &unsealed.store,
        }
    }

    /// Returns the guard holding the current authentication token.
    pub fn auth_token(&self) -> (r: &TokenGuard)
        ensures
            r@ == self.token_spec(),
    {
        match self {
            Context::Sealed(sealed) => &sealed.auth_token,
            Context::Unsealed(unsealed) => &unsealed.auth_token,
        }
    }

    /// Returns a handle to control the service configuration.
    pub fn service_handle(&mut self) -> (r: &mut Handle)
        ensures
            *r == old(self).service_handle_spec(),
            final(self).service_handle_spec() == *final(r),
            final(self).is_sealed() == old(self).is_sealed(),
            final(self).test_spec() == old(self).test_spec(),
            final(self).store_spec() == old(self).store_spec(),
            final(self).token_spec() == old(self).token_spec(),
            final(self).keystore_spec() == old(self).keystore_spec(),
    {
        match self {
            Context::Sealed(sealed) => &mut sealed.service_handle,
            Context::Unsealed(unsealed) => &mut unsealed.service_handle,
        }
    }

    /// The shared key-store reference.
    fn keystore(&self) -> (r: &K)
        ensures
            *r == self.keystore_spec(),
    {
        match self {
            Context::Sealed(sealed) => &sealed.keystore,
            Context::Unsealed(unsealed) => &unsealed.keystore,
        }
    }

    /// The shared key-store reference, for the operation that writes to it.
    fn keystore_mut(&mut self) -> (r: &mut K)
        ensures
            *r == old(self).keystore_spec(),
            final(self).keystore_spec() == *final(r),
            final(self).is_sealed() == old(self).is_sealed(),
            final(self).test_spec() == old(self).test_spec(),
            final(self).store_spec() == old(self).store_spec(),
            final(self).token_spec() == old(self).token_spec(),
            final(self).service_handle_spec() == old(self).service_handle_spec(),
    {
        match self {
            Context::Sealed(sealed) => &mut sealed.keystore,
            Context::Unsealed(unsealed) => &mut unsealed.keystore,
        }
    }

    /// The guard holding the current authentication token, for the operation
    /// that replaces it.
    fn auth_token_mut(&mut self) -> (r: &mut TokenGuard)
        ensures
            r@ == old(self).token_spec(),
            final(self).token_spec() == final(r)@,
            final(self).is_sealed() == old(self).is_sealed(),
            final(self).test_spec() == old(self).test_spec(),
            final(self).store_spec() == old(self).store_spec(),
            final(self).keystore_spec() == old(self).keystore_spec(),
            final(self).service_handle_spec() == old(self).service_handle_spec(),
    {
        match self {
            Context::Sealed(sealed) => &mut sealed.auth_token,
            Context::Unsealed(unsealed) => &mut unsealed.auth_token,
        }
    }

    /// Generate a new authentication token and store it, replacing any
    /// previous one wholesale.
    fn reset_auth_token(&mut self) -> (t: String)
        ensures
            final(self).token_spec() == Option::Some(t@),
            is_well_formed_token(t@),
            final(self).is_sealed() == old(self).is_sealed(),
            final(self).test_spec() == old(self).test_spec(),
            final(self).store_spec() == old(self).store_spec(),
            final(self).keystore_spec() == old(self).keystore_spec(),
            final(self).service_handle_spec() == old(self).service_handle_spec(),
    {
        let guard = self.auth_token_mut();
        guard.generate_and_store()
    }

    /// Returns `true` if `token` matches the stored authentication token.
    /// A missing token never matches, not even while no token is stored; and
    /// whatever authenticates is a fully formed token, never an intermediate
    /// state.
    pub fn check_auth_token(&self, token: Option<String>) -> (r: bool)
        ensures
            r == compare_spec(self.token_spec(), token.deep_view()),
            r ==> (self.token_spec() matches Option::Some(t) && is_well_formed_token(t)),
    {
        self.auth_token().compare(&token)
    }

    /// Unseal the key store: retrieve the key sealed under `passphrase`,
    /// install it into the service configuration, then mint and return the
    /// authentication token required from now on.
    ///
    /// On any failure nothing is mutated; the error says exactly why the
    /// key store declined.
    pub fn unseal_keystore(&mut self, passphrase: Passphrase) -> (r: Result<String, AuthError>)
        ensures
            final(self).is_sealed() == old(self).is_sealed(),
            final(self).test_spec() == old(self).test_spec(),
            final(self).store_spec() == old(self).store_spec(),
            final(self).keystore_spec() == old(self).keystore_spec(),
            match r {
                Result::Ok(t) => {
                    &&& old(self).keystore_spec().has_key()
                    &&& passphrase@ == old(self).keystore_spec().sealing_passphrase()
                    &&& final(self).installed_key_spec() == Option::Some(
                        old(self).keystore_spec().stored_key(),
                    )
                    &&& final(self).token_spec() == Option::Some(t@)
                    &&& is_well_formed_token(t@)
                    &&& compare_spec(final(self).token_spec(), Option::Some(t@))
                },
                Result::Err(e) => {
                    &&& *final(self) == *old(self)
                    &&& match e {
                        AuthError::WrongPassphrase => old(self).keystore_spec().has_key()
                            && passphrase@ != old(self).keystore_spec().sealing_passphrase(),
                        AuthError::NoKeyPresent => !old(self).keystore_spec().has_key(),
                        AuthError::BackendUnavailable => true,
                        AuthError::KeyAlreadyExists => false,
                    }
                },
            },
            (old(self).keystore_spec().has_key() && passphrase@
                == old(self).keystore_spec().sealing_passphrase()) ==> (r is Ok || r
                == Result::<String, AuthError>::Err(AuthError::BackendUnavailable)),
    {
        let key = match self.keystore().get(&passphrase) {
            Ok(key) => key,
            Err(e) => {
                return Err(e);
            },
        };
        self.service_handle().set_secret_key(key);
        let auth_token = self.reset_auth_token();
        Ok(auth_token)
    }

    /// Create a key, store it sealed under the given passphrase, install it
    /// into the service configuration, then mint and return the
    /// authentication token required from now on.
    ///
    /// Fails if the store already holds a key or the backend cannot be
    /// reached; on failure the session — token guard and service handle —
    /// is left untouched.
    pub fn create_key(&mut self, passphrase: Passphrase) -> (r: Result<String, AuthError>)
        ensures
            final(self).is_sealed() == old(self).is_sealed(),
            final(self).test_spec() == old(self).test_spec(),
            final(self).store_spec() == old(self).store_spec(),
            match r {
                Result::Ok(t) => {
                    &&& !old(self).keystore_spec().has_key()
                    &&& final(self).keystore_spec().has_key()
                    &&& final(self).keystore_spec().sealing_passphrase() == passphrase@
                    &&& final(self).installed_key_spec() == Option::Some(
                        final(self).keystore_spec().stored_key(),
                    )
                    &&& final(self).token_spec() == Option::Some(t@)
                    &&& is_well_formed_token(t@)
                    &&& compare_spec(final(self).token_spec(), Option::Some(t@))
                },
                Result::Err(e) => {
                    &&& final(self).token_spec() == old(self).token_spec()
                    &&& final(self).service_handle_spec() == old(self).service_handle_spec()
                    &&& final(self).keystore_spec().has_key() == old(
                        self,
                    ).keystore_spec().has_key()
                    &&& match e {
                        AuthError::KeyAlreadyExists => old(self).keystore_spec().has_key(),
                        AuthError::BackendUnavailable => true,
                        AuthError::WrongPassphrase => false,
                        AuthError::NoKeyPresent => false,
                    }
                },
            },
            !old(self).keystore_spec().has_key() ==> (r is Ok || r
                == Result::<String, AuthError>::Err(AuthError::BackendUnavailable)),
    {
        let key = match self.keystore_mut().create_key(passphrase) {
            Ok(key) => key,
            Err(e) => {
                return Err(e);
            },
        };
        self.service_handle().set_secret_key(key);
        let auth_token = self.reset_auth_token();
        Ok(auth_token)
    }
}

impl<K: Keystore> From<Unsealed<K>> for Context<K> {
    fn from(unsealed: Unsealed<K>) -> (r: Self) {
        Context::Unsealed(unsealed)
    }
}

impl<K: Keystore> vstd::std_specs::convert::FromSpecImpl<Unsealed<K>> for Context<K> {
    open spec fn obeys_from_spec() -> bool {
        true
    }

    open spec fn from_spec(unsealed: Unsealed<K>) -> Self {
        Context::Unsealed(unsealed)
    }
}

impl<K: Keystore> From<Sealed<K>> for Context<K> {
    fn from(sealed: Sealed<K>) -> (r: Self) {
        Context::Sealed(sealed)
    }
}

impl<K: Keystore> vstd::std_specs::convert::FromSpecImpl<Sealed<K>> for Context<K> {
    open spec fn obeys_from_spec() -> bool {
        true
    }

    open spec fn from_spec(sealed: Sealed<K>) -> Self {
        Context::Sealed(sealed)
    }
}

impl Unsealed<MemoryKeystore> {
    /// An unsealed context for tests and initialization paths: a fresh
    /// store, an empty in-memory key store, a dummy service handle, and no
    /// token issued yet.
    pub fn tmp() -> (u: Unsealed<MemoryKeystore>)
        ensures
            u.test == false,
            u.auth_token@ == Option::<Seq<char>>::None,
            u.service_handle@ == Option::<Seq<u8>>::None,
            !u.keystore.has_key(),
    {
        Unsealed {
            peer_control: PeerControl {},
            state: RepoState {},
            store: Store::new(),
            test: false,
            service_handle: Handle::dummy(),
            auth_token: TokenGuard::new(),
            keystore: MemoryKeystore::memory(),
        }
    }
}

} // verus!
