use keyseal::context::Context;
use keyseal::context::Sealed;
use keyseal::context::Store;
use keyseal::context::Unsealed;
use keyseal::keystore::AuthError;
use keyseal::keystore::MemoryKeystore;
use keyseal::keystore::Passphrase;
use keyseal::service::Handle;
use keyseal::token::TokenGuard;

fn sealed_context() -> Context<MemoryKeystore> {
    Context::from(Sealed {
        store: Store::new(),
        test: false,
        service_handle: Handle::dummy(),
        auth_token: TokenGuard::new(),
        keystore: MemoryKeystore::memory(),
    })
}

fn passphrase(s: &str) -> Passphrase {
    Passphrase::new(String::from(s))
}

fn is_lower_hex(s: &str) -> bool {
    s.chars().all(|c| ('0'..='9').contains(&c) || ('a'..='f').contains(&c))
}

#[test]
fn create_key_succeeds_installs_key_and_token_authenticates() {
    let mut ctx = sealed_context();
    let token = ctx.create_key(passphrase("correct horse battery")).unwrap();
    assert!(ctx.service_handle().has_secret_key());
    assert!(ctx.check_auth_token(Some(token)));
}

#[test]
fn create_key_rejects_a_second_key() {
    let mut ctx = sealed_context();
    ctx.create_key(passphrase("first")).unwrap();
    let before = ctx.create_key(passphrase("first")).err();
    assert_eq!(before, Some(AuthError::KeyAlreadyExists));
    let after = ctx.create_key(passphrase("second")).err();
    assert_eq!(after, Some(AuthError::KeyAlreadyExists));
}

#[test]
fn absence_never_authenticates() {
    let mut ctx = sealed_context();
    assert!(!ctx.check_auth_token(None));
    ctx.create_key(passphrase("s3cr3t")).unwrap();
    assert!(!ctx.check_auth_token(None));
    let token = ctx.unseal_keystore(passphrase("s3cr3t")).unwrap();
    assert!(!ctx.check_auth_token(None));
    assert!(ctx.check_auth_token(Some(token)));
}

#[test]
fn unseal_with_correct_passphrase_returns_64_char_hex_token() {
    let mut ctx = sealed_context();
    ctx.create_key(passphrase("for real")).unwrap();
    let token = ctx.unseal_keystore(passphrase("for real")).unwrap();
    assert_eq!(token.len(), 64);
    assert!(is_lower_hex(&token));
    assert!(ctx.check_auth_token(Some(token)));
}

#[test]
fn unseal_with_wrong_passphrase_fails_and_leaves_token_unchanged() {
    let mut ctx = sealed_context();
    let issued = ctx.create_key(passphrase("right")).unwrap();
    let err = ctx.unseal_keystore(passphrase("wrong")).err();
    assert_eq!(err, Some(AuthError::WrongPassphrase));
    assert!(ctx.check_auth_token(Some(issued)));
}

#[test]
fn unseal_on_empty_store_reports_no_key_present() {
    let mut ctx = sealed_context();
    let err = ctx.unseal_keystore(passphrase("anything")).err();
    assert_eq!(err, Some(AuthError::NoKeyPresent));
    assert!(!ctx.check_auth_token(None));
}

#[test]
fn second_transition_replaces_the_token_wholesale() {
    let mut ctx = sealed_context();
    let a = ctx.create_key(passphrase("pw")).unwrap();
    let b = ctx.unseal_keystore(passphrase("pw")).unwrap();
    assert_ne!(a, b);
    assert!(!ctx.check_auth_token(Some(a)));
    assert!(ctx.check_auth_token(Some(b)));
}

#[test]
fn accessors_reach_both_variants() {
    let mut sealed = sealed_context();
    assert!(!sealed.test());
    let _store = sealed.store();
    assert!(!sealed.auth_token().compare(&None));
    assert!(!sealed.service_handle().has_secret_key());

    let mut unsealed: Context<MemoryKeystore> = Context::from(Unsealed::tmp());
    assert!(!unsealed.test());
    let _store = unsealed.store();
    assert!(!unsealed.auth_token().compare(&None));
    assert!(!unsealed.service_handle().has_secret_key());
}

#[test]
fn tmp_context_starts_without_key_or_token() {
    let mut ctx: Context<MemoryKeystore> = Context::from(Unsealed::tmp());
    assert!(!ctx.check_auth_token(None));
    let err = ctx.unseal_keystore(passphrase("unset")).err();
    assert_eq!(err, Some(AuthError::NoKeyPresent));
    let token = ctx.create_key(passphrase("fresh")).unwrap();
    assert!(ctx.check_auth_token(Some(token)));
}
