use ancore_account::account::AncoreAccount;
use ancore_account::errors::ContractError;
use ancore_account::errors::ExecuteError;
use ancore_account::host::AuthDecision;
use ancore_account::host::DispatchOutcome;
use ancore_account::host::Identity;

fn owner_auth(owner: Identity) -> AuthDecision {
    AuthDecision { identity: owner, granted: true }
}

#[test]
fn test_initialize() {
    let mut account = AncoreAccount::new();
    let owner = Identity { id: 1 };
    account.initialize(owner).unwrap();

    assert_eq!(account.get_owner(), Ok(owner));
    assert_eq!(account.get_nonce(), Ok(0));
}

#[test]
fn test_add_session_key() {
    let mut account = AncoreAccount::new();
    let owner = Identity { id: 1 };
    account.initialize(owner).unwrap();

    let session_pk = vec![1u8; 32];
    let expires_at = 1000u64;
    let permissions: Vec<u32> = Vec::new();

    account
        .add_session_key(session_pk.clone(), expires_at, permissions, &owner_auth(owner))
        .unwrap();

    let session_key = account.get_session_key(session_pk);
    assert!(session_key.is_some());
}

#[test]
#[should_panic]
fn test_double_initialize() {
    let mut account = AncoreAccount::new();
    let owner = Identity { id: 1 };
    account.initialize(owner).unwrap();
    account.initialize(owner).unwrap(); // must fail: already initialized
}

#[test]
#[should_panic]
fn test_execute_rejects_invalid_nonce() {
    let mut account = AncoreAccount::new();
    let owner = Identity { id: 1 };
    account.initialize(owner).unwrap();

    let to = Identity { id: 2 };
    let function = "transfer".to_owned();
    let args: Vec<u64> = Vec::new();

    // Current nonce is 0; passing expected_nonce = 1 must fail with an
    // invalid nonce.
    account
        .execute(
            to,
            function,
            args,
            1u64,
            &owner_auth(owner),
            &DispatchOutcome::Completed(0),
        )
        .unwrap();
}

#[test]
fn test_execute_validates_nonce_then_increments() {
    let mut account = AncoreAccount::new();
    let owner = Identity { id: 1 };
    account.initialize(owner).unwrap();

    assert_eq!(account.get_nonce(), Ok(0));

    let to = Identity { id: 2 };
    let function = "get_nonce".to_owned();
    let args: Vec<u64> = Vec::new();

    // Execute with expected_nonce = 0 (matches current); the host completed
    // the delegated call.
    let _result = account.execute(
        to,
        function,
        args,
        0u64,
        &owner_auth(owner),
        &DispatchOutcome::Completed(0),
    );

    assert_eq!(account.get_nonce(), Ok(1));
}

#[test]
fn initialize_is_single_shot_with_any_second_owner() {
    let mut account = AncoreAccount::new();
    let first = Identity { id: 10 };
    let second = Identity { id: 11 };
    assert_eq!(account.initialize(first), Ok(()));
    assert_eq!(
        account.initialize(second),
        Err(ContractError::AlreadyInitialized)
    );
    assert_eq!(
        account.initialize(first),
        Err(ContractError::AlreadyInitialized)
    );
    assert_eq!(account.get_owner(), Ok(first));
}

#[test]
fn get_owner_fails_before_initialization() {
    let account = AncoreAccount::new();
    assert_eq!(account.get_owner(), Err(ContractError::NotInitialized));
}

#[test]
fn get_nonce_defaults_to_zero_before_initialization() {
    let account = AncoreAccount::new();
    assert_eq!(account.get_nonce(), Ok(0));
}

#[test]
fn execute_fails_before_initialization() {
    let mut account = AncoreAccount::new();
    let auth = owner_auth(Identity { id: 1 });
    let result = account.execute(
        Identity { id: 2 },
        "f".to_owned(),
        Vec::new(),
        0,
        &auth,
        &DispatchOutcome::Completed(0),
    );
    assert_eq!(
        result,
        Err(ExecuteError::Contract(ContractError::NotInitialized))
    );
}

#[test]
fn nonce_counts_only_successful_executes() {
    let mut account = AncoreAccount::new();
    let owner = Identity { id: 1 };
    account.initialize(owner).unwrap();
    let auth = owner_auth(owner);
    let to = Identity { id: 2 };

    for expected in 0..3u64 {
        let result = account.execute(
            to,
            "f".to_owned(),
            Vec::new(),
            expected,
            &auth,
            &DispatchOutcome::Completed(expected),
        );
        assert_eq!(result, Ok(expected));
        assert_eq!(account.get_nonce(), Ok(expected + 1));
    }
}

#[test]
fn replay_with_wrong_nonce_leaves_nonce_unchanged() {
    let mut account = AncoreAccount::new();
    let owner = Identity { id: 1 };
    account.initialize(owner).unwrap();
    let auth = owner_auth(owner);
    let to = Identity { id: 2 };

    // advance to nonce 1 so that current - 1 exists
    account
        .execute(to, "f".to_owned(), Vec::new(), 0, &auth, &DispatchOutcome::Completed(0))
        .unwrap();
    assert_eq!(account.get_nonce(), Ok(1));

    // current + 1
    let above = account.execute(
        to,
        "f".to_owned(),
        Vec::new(),
        2,
        &auth,
        &DispatchOutcome::Completed(0),
    );
    assert_eq!(
        above,
        Err(ExecuteError::Contract(ContractError::InvalidNonce))
    );
    assert_eq!(account.get_nonce(), Ok(1));

    // current - 1
    let below = account.execute(
        to,
        "f".to_owned(),
        Vec::new(),
        0,
        &auth,
        &DispatchOutcome::Completed(0),
    );
    assert_eq!(
        below,
        Err(ExecuteError::Contract(ContractError::InvalidNonce))
    );
    assert_eq!(account.get_nonce(), Ok(1));
}

#[test]
fn failed_dispatch_does_not_advance_nonce() {
    let mut account = AncoreAccount::new();
    let owner = Identity { id: 1 };
    account.initialize(owner).unwrap();
    let auth = owner_auth(owner);

    let result = account.execute(
        Identity { id: 2 },
        "f".to_owned(),
        Vec::new(),
        0,
        &auth,
        &DispatchOutcome::Aborted,
    );
    assert_eq!(result, Err(ExecuteError::DispatchFailed));
    assert_eq!(account.get_nonce(), Ok(0));

    // the same expected nonce can then be retried successfully
    let retry = account.execute(
        Identity { id: 2 },
        "f".to_owned(),
        Vec::new(),
        0,
        &auth,
        &DispatchOutcome::Completed(9),
    );
    assert_eq!(retry, Ok(9));
    assert_eq!(account.get_nonce(), Ok(1));
}

#[test]
fn session_key_round_trip_returns_exact_record() {
    let mut account = AncoreAccount::new();
    let owner = Identity { id: 1 };
    account.initialize(owner).unwrap();
    let auth = owner_auth(owner);

    let pk = vec![7u8; 32];
    let perms = vec![1u32, 2, 2, 99];
    assert_eq!(
        account.add_session_key(pk.clone(), 12345, perms.clone(), &auth),
        Ok(())
    );

    let record = account.get_session_key(pk.clone()).expect("record must be present");
    assert_eq!(record.public_key, pk);
    assert_eq!(record.expires_at, 12345);
    assert_eq!(record.permissions, perms);

    assert_eq!(account.revoke_session_key(pk.clone(), &auth), Ok(()));
    assert!(account.get_session_key(pk).is_none());
}

#[test]
fn add_session_key_overwrites_existing_record() {
    let mut account = AncoreAccount::new();
    let owner = Identity { id: 1 };
    account.initialize(owner).unwrap();
    let auth = owner_auth(owner);

    let pk = vec![3u8; 32];
    account
        .add_session_key(pk.clone(), 10, vec![1u32], &auth)
        .unwrap();
    account
        .add_session_key(pk.clone(), 20, vec![2u32, 4], &auth)
        .unwrap();

    let record = account.get_session_key(pk).expect("record must be present");
    assert_eq!(record.expires_at, 20);
    assert_eq!(record.permissions, vec![2u32, 4]);
}

#[test]
fn add_session_key_accepts_past_expiry_verbatim() {
    let mut account = AncoreAccount::new();
    let owner = Identity { id: 1 };
    account.initialize(owner).unwrap();
    let auth = owner_auth(owner);

    let pk = vec![9u8; 32];
    // a timestamp in the past produces an immediately-expired record, stored
    // all the same
    account.add_session_key(pk.clone(), 0, Vec::new(), &auth).unwrap();
    let record = account.get_session_key(pk).expect("record must be present");
    assert_eq!(record.expires_at, 0);
    assert!(record.permissions.is_empty());
}

#[test]
fn revoke_absent_session_key_is_a_no_op() {
    let mut account = AncoreAccount::new();
    let owner = Identity { id: 1 };
    account.initialize(owner).unwrap();
    let auth = owner_auth(owner);

    assert_eq!(account.revoke_session_key(vec![5u8; 32], &auth), Ok(()));
    assert!(account.get_session_key(vec![5u8; 32]).is_none());
}

#[test]
fn get_session_key_needs_no_initialization() {
    let account = AncoreAccount::new();
    assert!(account.get_session_key(vec![1u8; 32]).is_none());
}

#[test]
fn distinct_keys_are_kept_apart() {
    let mut account = AncoreAccount::new();
    let owner = Identity { id: 1 };
    account.initialize(owner).unwrap();
    let auth = owner_auth(owner);

    let pk_a = vec![1u8; 32];
    let mut pk_b = vec![1u8; 32];
    pk_b[31] = 2;

    account.add_session_key(pk_a.clone(), 111, vec![1u32], &auth).unwrap();
    account.add_session_key(pk_b.clone(), 222, vec![2u32], &auth).unwrap();

    assert_eq!(account.get_session_key(pk_a.clone()).unwrap().expires_at, 111);
    assert_eq!(account.get_session_key(pk_b.clone()).unwrap().expires_at, 222);

    account.revoke_session_key(pk_a.clone(), &auth).unwrap();
    assert!(account.get_session_key(pk_a).is_none());
    assert_eq!(account.get_session_key(pk_b).unwrap().expires_at, 222);
}

#[test]
fn unauthorized_invocations_fail_and_mutate_nothing() {
    let mut account = AncoreAccount::new();
    let owner = Identity { id: 1 };
    account.initialize(owner).unwrap();

    let pk = vec![4u8; 32];
    account
        .add_session_key(pk.clone(), 50, vec![1u32], &owner_auth(owner))
        .unwrap();

    // wrong identity, and owner identity without a grant
    let wrong_identity = AuthDecision { identity: Identity { id: 2 }, granted: true };
    let no_grant = AuthDecision { identity: owner, granted: false };

    for auth in [wrong_identity, no_grant] {
        let exec = account.execute(
            Identity { id: 2 },
            "f".to_owned(),
            Vec::new(),
            0,
            &auth,
            &DispatchOutcome::Completed(0),
        );
        assert_eq!(
            exec,
            Err(ExecuteError::Contract(ContractError::Unauthorized))
        );
        assert_eq!(
            account.add_session_key(vec![8u8; 32], 60, Vec::new(), &auth),
            Err(ContractError::Unauthorized)
        );
        assert_eq!(
            account.revoke_session_key(pk.clone(), &auth),
            Err(ContractError::Unauthorized)
        );
    }

    // nothing moved: nonce still 0, the old record still there, no new record
    assert_eq!(account.get_nonce(), Ok(0));
    assert_eq!(account.get_session_key(pk).unwrap().expires_at, 50);
    assert!(account.get_session_key(vec![8u8; 32]).is_none());
}

#[test]
fn concrete_scenario_replay_blocked_then_next_nonce_succeeds() {
    let mut account = AncoreAccount::new();
    let owner_a = Identity { id: 100 };
    account.initialize(owner_a).unwrap();
    assert_eq!(account.get_nonce(), Ok(0));

    let auth = owner_auth(owner_a);
    let target_b = Identity { id: 200 };

    let first = account.execute(
        target_b,
        "f".to_owned(),
        Vec::new(),
        0,
        &auth,
        &DispatchOutcome::Completed(1),
    );
    assert!(first.is_ok());
    assert_eq!(account.get_nonce(), Ok(1));

    let replay = account.execute(
        target_b,
        "f".to_owned(),
        Vec::new(),
        0,
        &auth,
        &DispatchOutcome::Completed(1),
    );
    assert_eq!(
        replay,
        Err(ExecuteError::Contract(ContractError::InvalidNonce))
    );

    let second = account.execute(
        target_b,
        "f".to_owned(),
        Vec::new(),
        1,
        &auth,
        &DispatchOutcome::Completed(1),
    );
    assert!(second.is_ok());
    assert_eq!(account.get_nonce(), Ok(2));
}

#[test]
fn check_authorization_reports_the_verdict() {
    let mut account = AncoreAccount::new();
    let owner = Identity { id: 1 };

    assert_eq!(
        account.check_authorization(&owner_auth(owner)),
        Err(ContractError::NotInitialized)
    );

    account.initialize(owner).unwrap();
    assert_eq!(account.check_authorization(&owner_auth(owner)), Ok(()));
    assert_eq!(
        account.check_authorization(&AuthDecision { identity: owner, granted: false }),
        Err(ContractError::Unauthorized)
    );
    assert_eq!(
        account.check_authorization(&owner_auth(Identity { id: 2 })),
        Err(ContractError::Unauthorized)
    );
}

#[test]
fn prepare_execute_reports_checks_without_moving_state() {
    let mut account = AncoreAccount::new();
    let owner = Identity { id: 1 };

    let early = account.prepare_execute(
        Identity { id: 2 },
        "f".to_owned(),
        Vec::new(),
        0,
        &owner_auth(owner),
    );
    assert_eq!(early.unwrap_err(), ContractError::NotInitialized);

    account.initialize(owner).unwrap();

    let wrong_nonce = account.prepare_execute(
        Identity { id: 2 },
        "f".to_owned(),
        Vec::new(),
        5,
        &owner_auth(owner),
    );
    assert_eq!(wrong_nonce.unwrap_err(), ContractError::InvalidNonce);

    let request = account
        .prepare_execute(
            Identity { id: 2 },
            "transfer".to_owned(),
            vec![42u64],
            0,
            &owner_auth(owner),
        )
        .unwrap();
    assert_eq!(request.to, Identity { id: 2 });
    assert_eq!(request.function, "transfer");
    assert_eq!(request.args, vec![42u64]);

    // preparing alone reserves only; the nonce moves with the commit
    assert_eq!(account.get_nonce(), Ok(0));
}
