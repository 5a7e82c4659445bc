//! The key-store collaborator: the party that derives, stores and retrieves
//! the long-lived secret key from a passphrase.
//!
//! The cryptography itself is out of scope here; what matters is the
//! interface contract. The `Keystore` trait states it: retrieval succeeds
//! exactly on the sealing passphrase, creation refuses a second key, and a
//! backend may always report itself unavailable. `MemoryKeystore` is the
//! in-memory implementation used by test and initialization paths; its
//! backend never fails, so its contract is exact.

use vstd::prelude::*;

use crate::token::random_bytes_32;

verus! {

/// A passphrase as presented by the operator. It is compared, never
/// interpreted.
pub struct Passphrase {
    value: String,
}

impl View for Passphrase {
    type V = Seq<char>;

    closed spec fn view(&self) -> Seq<char> {
        self.value@
    }
}

impl Passphrase {
    /// Wrap a passphrase string.
    pub fn new(value: String) -> (p: Passphrase)
        ensures
            p@ == value@,
    {
        Passphrase { value }
    }
}

/// The secret key guarded by the seal. The core never reads it; it only
/// forwards it to the service configuration.
pub struct SecretKey {
    bytes: Vec<u8>,
}

impl View for SecretKey {
    type V = Seq<u8>;

    closed spec fn view(&self) -> Seq<u8> {
        self.bytes@
    }
}

impl SecretKey {
    /// Wrap raw key bytes.
    pub fn new(bytes: Vec<u8>) -> (k: SecretKey)
        ensures
            k@ == bytes@,
    {
        SecretKey { bytes }
    }
}

/// Why an unseal or create-key request failed. All variants are recoverable
/// by the operator; none of them partially mutates the session.
#[derive(Clone, Copy, PartialEq, Eq, Debug)]
pub enum AuthError {
    /// The presented passphrase does not open the stored key.
    WrongPassphrase,
    /// The store holds no key yet, so there is nothing to unseal.
    NoKeyPresent,
    /// The store already holds a key, so a second one cannot be created.
    KeyAlreadyExists,
    /// The storage backend cannot be reached.
    BackendUnavailable,
}

/// An exact byte-for-byte copy of a byte vector.
fn copy_bytes(src: &Vec<u8>) -> (r: Vec<u8>)
    ensures
        r@ == src@,
{
    let mut r: Vec<u8> = Vec::new();
    let mut i: usize = 0;
    while i < src.len()
        invariant
            i <= src@.len(),
            r@ == src@.subrange(0, i as int),
        decreases src@.len() - i,
    {
        r.push(src[i]);
        i = i + 1;
    }
    proof {
        assert(r@ == src@.subrange(0, src@.len() as int));
        assert(src@.subrange(0, src@.len() as int) == src@);
    }
    r
}

/// The contract the core requires from a key store: a shared capability that
/// retrieves the stored key given its sealing passphrase, or creates and
/// stores a fresh one. A backend is always allowed to report itself
/// unavailable; every other outcome is pinned to the store's state.
pub trait Keystore: Sized {
    /// Whether the store currently holds a key.
    spec fn has_key(&self) -> bool;

    /// The passphrase under which the stored key is sealed.
    spec fn sealing_passphrase(&self) -> Seq<char>;

    /// The bytes of the stored secret key.
    spec fn stored_key(&self) -> Seq<u8>;

    /// Retrieve the stored key, given the passphrase it was sealed with.
    fn get(&self, passphrase: &Passphrase) -> (r: Result<SecretKey, AuthError>)
        ensures
            match r {
                Result::Ok(key) => self.has_key() && passphrase@ == self.sealing_passphrase()
                    && key@ == self.stored_key(),
                Result::Err(e) => match e {
                    AuthError::WrongPassphrase => self.has_key() && passphrase@
                        != self.sealing_passphrase(),
                    AuthError::NoKeyPresent => !self.has_key(),
                    AuthError::BackendUnavailable => true,
                    AuthError::KeyAlreadyExists => false,
                },
            },
    ;

    /// Create a fresh key, seal it under `passphrase`, store it, and return
    /// it. Refuses to replace an existing key.
    fn create_key(&mut self, passphrase: Passphrase) -> (r: Result<SecretKey, AuthError>)
        ensures
            match r {
                Result::Ok(key) => {
                    &&& !old(self).has_key()
                    &&& final(self).has_key()
                    &&& final(self).sealing_passphrase() == passphrase@
                    &&& final(self).stored_key() == key@
                },
                Result::Err(e) => {
                    &&& final(self).has_key() == old(self).has_key()
                    &&& final(self).sealing_passphrase() == old(self).sealing_passphrase()
                    &&& final(self).stored_key() == old(self).stored_key()
                    &&& match e {
                        AuthError::KeyAlreadyExists => old(self).has_key(),
                        AuthError::BackendUnavailable => true,
                        AuthError::WrongPassphrase => false,
                        AuthError::NoKeyPresent => false,
                    }
                },
            },
    ;
}

/// What the in-memory store holds: one key, sealed under one passphrase.
struct StoredEntry {
    passphrase: Passphrase,
    key: SecretKey,
}

/// A key store kept entirely in memory. Its backend can never be
/// unreachable, so retrieval and creation succeed or fail exactly according
/// to the store's state.
pub struct MemoryKeystore {
    stored: Option<StoredEntry>,
}

impl MemoryKeystore {
    /// A fresh in-memory key store holding no key.
    pub fn memory() -> (k: MemoryKeystore)
        ensures
            !k.has_key(),
    {
        MemoryKeystore { stored: None }
    }
}

impl Keystore for MemoryKeystore {
    closed spec fn has_key(&self) -> bool {
        self.stored is Some
    }

    closed spec fn sealing_passphrase(&self) -> Seq<char> {
        match self.stored {
            Option::Some(e) => e.passphrase@,
            Option::None => Seq::empty(),
        }
    }

    closed spec fn stored_key(&self) -> Seq<u8> {
        match self.stored {
            Option::Some(e) => e.key@,
            Option::None => Seq::empty(),
        }
    }

    /// In memory, the backend never fails: the outcome is exactly determined
    /// by whether the key is present and the passphrase matches.
    fn get(&self, passphrase: &Passphrase) -> (r: Result<SecretKey, AuthError>)
        ensures
            !(r matches Result::Err(AuthError::BackendUnavailable)),
            (r is Ok) <==> self.has_key() && passphrase@ == self.sealing_passphrase(),
    {
        match &self.stored {
            None => Err(AuthError::NoKeyPresent),
            Some(entry) => {
                if passphrase.value.eq(&entry.passphrase.value) {
                    Ok(SecretKey { bytes: copy_bytes(&entry.key.bytes) })
                } else {
                    Err(AuthError::WrongPassphrase)
                }
            },
        }
    }

    /// In memory, creation succeeds exactly when no key is present yet.
    fn create_key(&mut self, passphrase: Passphrase) -> (r: Result<SecretKey, AuthError>)
        ensures
            !(r matches Result::Err(AuthError::BackendUnavailable)),
            (r is Ok) <==> !old(self).has_key(),
    {
        if self.stored.is_some() {
            return Err(AuthError::KeyAlreadyExists);
        }
        let bytes = random_bytes_32();
        let returned = copy_bytes(&bytes);
        self.stored = Some(StoredEntry { passphrase, key: SecretKey { bytes } });
        Ok(SecretKey { bytes: returned })
    }
}

} // verus!
