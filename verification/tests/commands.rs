use membership::{
    respond, summarize, CheckError, CheckSummary, IdentityError, InvalidReason, StoreError,
    ValidationVerdict, Verdict, VerdictStatus,
};

#[test]
fn summary_names_the_status_and_the_time() {
    let summary = summarize(&ValidationVerdict::fresh(Verdict::Valid, 1_700_000_000));
    assert_eq!(
        summary,
        CheckSummary { status: VerdictStatus::Valid, checked_at: 1_700_000_000, grace_expires_at: None }
    );
}

#[test]
fn summary_of_grace_carries_the_deadline() {
    let summary = summarize(&ValidationVerdict::cached(Verdict::OfflineGraceValid(1_700_259_200), 1_700_007_200));
    assert_eq!(
        summary,
        CheckSummary {
            status: VerdictStatus::OfflineGraceValid,
            checked_at: 1_700_007_200,
            grace_expires_at: Some(1_700_259_200),
        }
    );
}

#[test]
fn every_verdict_has_its_status() {
    let cases = [
        (Verdict::Invalid(InvalidReason::UnknownKey), VerdictStatus::Invalid),
        (Verdict::Expired, VerdictStatus::Expired),
        (Verdict::Suspended, VerdictStatus::Suspended),
        (Verdict::NotActivated, VerdictStatus::NotActivated),
        (Verdict::GraceExpired, VerdictStatus::GraceExpired),
    ];
    for (kind, status) in cases {
        let summary = summarize(&ValidationVerdict::cached(kind, 3));
        assert_eq!(summary, CheckSummary { status, checked_at: 3, grace_expires_at: None });
    }
}

#[test]
fn denial_is_an_answer_and_failure_an_error() {
    assert_eq!(
        respond(Ok(ValidationVerdict::fresh(Verdict::Expired, 9))),
        Ok(CheckSummary { status: VerdictStatus::Expired, checked_at: 9, grace_expires_at: None })
    );
    assert_eq!(
        respond(Err(CheckError::Store(StoreError::Corrupt))),
        Err(CheckError::Store(StoreError::Corrupt))
    );
    assert_eq!(
        respond(Err(CheckError::Identity(IdentityError::Unavailable))),
        Err(CheckError::Identity(IdentityError::Unavailable))
    );
}
