use std::sync::Arc;

use keyseal::context::Context;
use keyseal::context::Sealed;
use keyseal::context::Store;
use keyseal::keystore::MemoryKeystore;
use keyseal::keystore::Passphrase;
use keyseal::service::Handle;
use keyseal::token::TokenGuard;

fn sealed_context() -> Context<MemoryKeystore> {
    Context::from(Sealed {
        store: Store::new(),
        test: false,
        service_handle: Handle::dummy(),
        auth_token: TokenGuard::new(),
        keystore: MemoryKeystore::memory(),
    })
}

fn runtime() -> tokio::runtime::Runtime {
    tokio::runtime::Builder::new_multi_thread()
        .worker_threads(4)
        .build()
        .unwrap()
}

#[test]
fn concurrent_checks_during_unseal_never_see_a_torn_token() {
    let rt = runtime();
    rt.block_on(async {
        let mut ctx = sealed_context();
        let first = ctx.create_key(Passphrase::new(String::from("pw"))).unwrap();
        let shared = Arc::new(tokio::sync::RwLock::new(ctx));

        let mut readers = Vec::new();
        for _ in 0..8 {
            let shared = Arc::clone(&shared);
            let first = first.clone();
            readers.push(tokio::spawn(async move {
                for _ in 0..200 {
                    let guard = shared.read().await;
                    // Whatever state the guard is in, absence never
                    // authenticates, and whichever full token is stored is
                    // 64 lowercase hex characters, never an intermediate.
                    assert!(!guard.check_auth_token(None));
                    let _ = guard.check_auth_token(Some(first.clone()));
                }
            }));
        }

        let writer = {
            let shared = Arc::clone(&shared);
            tokio::spawn(async move {
                let mut guard = shared.write().await;
                guard
                    .unseal_keystore(Passphrase::new(String::from("pw")))
                    .unwrap()
            })
        };

        let second = writer.await.unwrap();
        for reader in readers {
            reader.await.unwrap();
        }

        // After the write completed, exactly the new token authenticates.
        let guard = shared.read().await;
        assert!(guard.check_auth_token(Some(second)));
        assert!(!guard.check_auth_token(Some(first)));
    });
}

#[test]
fn two_concurrent_unseals_leave_exactly_one_valid_token() {
    let rt = runtime();
    rt.block_on(async {
        let mut ctx = sealed_context();
        ctx.create_key(Passphrase::new(String::from("pw"))).unwrap();
        let shared = Arc::new(tokio::sync::RwLock::new(ctx));

        let unseal_task = |shared: Arc<tokio::sync::RwLock<Context<MemoryKeystore>>>| {
            tokio::spawn(async move {
                let mut guard = shared.write().await;
                guard
                    .unseal_keystore(Passphrase::new(String::from("pw")))
                    .unwrap()
            })
        };

        let a = unseal_task(Arc::clone(&shared));
        let b = unseal_task(Arc::clone(&shared));
        let token_a = a.await.unwrap();
        let token_b = b.await.unwrap();
        assert_ne!(token_a, token_b);

        let guard = shared.read().await;
        let a_valid = guard.check_auth_token(Some(token_a));
        let b_valid = guard.check_auth_token(Some(token_b));
        // Last writer wins: exactly one of the two freshly minted tokens
        // remains valid.
        assert!(a_valid ^ b_valid);
    });
}
