use membership::{
    init, respond, AuthorityConfig, CheckPlan, CheckSummary, LicenseStore, MachineFingerprint,
    CachedState, RemoteError, RemoteOperation, SingleFlight, Verdict, VerdictStatus,
    DEFAULT_GRACE_PERIOD,
};

#[test]
fn test_membership() {
    let engine = init();
    assert_eq!(engine.config, AuthorityConfig::fixed());
    assert_eq!(engine.policy.grace_period, DEFAULT_GRACE_PERIOD);
}

#[test]
fn init_hands_the_configuration_to_the_client() {
    keygen_rs::config::reset_config();
    assert_eq!(keygen_rs::config::get_config().account, "");
    let engine = init();
    let installed = keygen_rs::config::get_config();
    assert_eq!(installed.api_url, "https://api.keygen.sh");
    assert_eq!(installed.api_version, "1.8");
    assert_eq!(installed.api_prefix, "v1");
    assert_eq!(installed.account, "fastrepl");
    assert_eq!(installed.product, "a5a28e7d-f1b9-4ef3-b29a-4579ecf0dab7");
    assert_eq!(installed.public_key, Some(String::new()));
    assert_eq!(installed.license_key, None);
    assert_eq!(installed.account, engine.config.account);
}

#[test]
fn fixed_configuration_names_the_authority() {
    let config = AuthorityConfig::fixed();
    assert_eq!(config.api_url, "https://api.keygen.sh");
    assert_eq!(config.api_version, "1.8");
    assert_eq!(config.api_prefix, "v1");
    assert_eq!(config.account, "fastrepl");
    assert_eq!(config.product, "a5a28e7d-f1b9-4ef3-b29a-4579ecf0dab7");
    assert_eq!(config.public_key, Some(String::new()));
}

#[test]
fn whole_check_on_a_fresh_install() {
    let engine = init();
    let store = LicenseStore::new(None);
    let step = engine.begin(store.load(), 100).unwrap();
    let verdict = match step {
        CheckPlan::Settled(verdict) => verdict,
        CheckPlan::Remote(_) => panic!("no request is due without a key"),
    };
    assert_eq!(
        respond(Ok(verdict)),
        Ok(CheckSummary { status: VerdictStatus::NotActivated, checked_at: 100, grace_expires_at: None })
    );
    assert_eq!(store.record, None);
}

#[test]
fn whole_check_with_a_key_and_a_reachable_authority() {
    let engine = init();
    let mut store = LicenseStore::new(None);
    store.save(&CachedState::with_key("KEY-1234".to_string()));

    let now = 1_700_000_000;
    let pending = match engine.begin(store.load(), now).unwrap() {
        CheckPlan::Remote(pending) => pending,
        CheckPlan::Settled(_) => panic!("a stored key asks for a request"),
    };
    assert_eq!(pending.operation, RemoteOperation::Activate);
    let call = engine
        .request(&pending.state, pending.operation, Ok(MachineFingerprint::derive("machine-0001")))
        .unwrap();
    assert_eq!(call.license_key, "KEY-1234");
    assert_eq!(call.operation, RemoteOperation::Activate);
    let end = engine.conclude(pending.state, Ok(Verdict::Valid), now);
    store.save(&end.state);
    let summary = respond(engine.finish(end.verdict, Ok(())));
    assert_eq!(
        summary,
        Ok(CheckSummary { status: VerdictStatus::Valid, checked_at: now, grace_expires_at: None })
    );
    let persisted = store.load().unwrap().unwrap();
    assert_eq!(persisted.last_verdict, Verdict::Valid);
    assert_eq!(persisted.last_checked_at, now);
    assert_eq!(persisted.last_successful_remote_at, Some(now));
}

#[test]
fn whole_check_while_the_authority_is_away() {
    let engine = init();
    let mut store = LicenseStore::new(None);
    let last_success = 1_700_000_000;
    store.save(&CachedState {
        license_key: "KEY-1234".to_string(),
        last_verdict: Verdict::Valid,
        last_checked_at: last_success,
        last_successful_remote_at: Some(last_success),
    });

    let now = last_success + 2 * 3600;
    let state = store.load().unwrap().unwrap();
    let end = engine.conclude(state, Err(RemoteError::Unreachable), now);
    store.save(&end.state);
    assert_eq!(
        respond(engine.finish(end.verdict, Ok(()))),
        Ok(CheckSummary {
            status: VerdictStatus::OfflineGraceValid,
            checked_at: now,
            grace_expires_at: Some(last_success + 72 * 3600),
        })
    );

    let now = last_success + 100 * 3600;
    let state = store.load().unwrap().unwrap();
    let end = engine.conclude(state, Err(RemoteError::Unreachable), now);
    store.save(&end.state);
    assert_eq!(
        respond(engine.finish(end.verdict, Ok(()))),
        Ok(CheckSummary { status: VerdictStatus::GraceExpired, checked_at: now, grace_expires_at: None })
    );
    assert_eq!(store.load().unwrap().unwrap().license_key, "KEY-1234");
}

#[test]
fn two_callers_make_one_request_and_one_write() {
    let engine = init();
    let mut store = LicenseStore::new(None);
    store.save(&CachedState::with_key("KEY-1234".to_string()));
    let mut guard = SingleFlight::new();
    let mut requests = 0;
    let mut writes = 0;

    let tickets = [guard.arrive(), guard.arrive()];
    for ticket in tickets {
        if ticket.leads {
            let state = store.load().unwrap().unwrap();
            requests += 1;
            let end = engine.conclude(state, Ok(Verdict::Valid), 500);
            store.save(&end.state);
            writes += 1;
            assert!(guard.settle(ticket, engine.finish(end.verdict, Ok(()))));
        }
    }
    assert_eq!(requests, 1);
    assert_eq!(writes, 1);
    let seen = [guard.observe(tickets[0]), guard.observe(tickets[1])];
    assert!(seen[0].is_some());
    assert_eq!(seen[0], seen[1]);
    assert_eq!(seen[0].unwrap().unwrap().kind, Verdict::Valid);
}
