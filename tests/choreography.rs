use private_pass::choreography::{
    Choreography, ContextStatus, JournalEntry, LedgerAction, LedgerOutcome, RunPhase,
};
use private_pass::error::ConfidentialError;

fn ok(sig: &str) -> LedgerOutcome {
    LedgerOutcome::Confirmed { signature: sig.to_string() }
}

fn fail(msg: &str) -> LedgerOutcome {
    LedgerOutcome::Failed { message: msg.to_string() }
}

#[test]
fn successful_transfer_run_orders_submissions() {
    let mut run = Choreography::new(3);
    assert_eq!(run.next_action(), LedgerAction::CreateContext { index: 0 });
    run.record(ok("c0"));
    assert_eq!(run.next_action(), LedgerAction::CreateContext { index: 1 });
    run.record(ok("c1"));
    assert_eq!(run.next_action(), LedgerAction::CreateContext { index: 2 });
    run.record(ok("c2"));
    assert_eq!(run.phase(), RunPhase::ContextsStaged);
    assert_eq!(run.next_action(), LedgerAction::SubmitOperation);
    run.record(ok("transfer-sig"));
    assert_eq!(run.context_status(1), ContextStatus::Referenced);
    for i in 0..3 {
        assert_eq!(run.next_action(), LedgerAction::CloseContext { index: i });
        run.record(ok("close"));
    }
    assert_eq!(run.phase(), RunPhase::Done);
    assert_eq!(run.next_action(), LedgerAction::Finish);
    let journal = run.journal();
    let actions: Vec<LedgerAction> = journal.iter().map(|e| e.action).collect();
    assert_eq!(
        actions,
        vec![
            LedgerAction::CreateContext { index: 0 },
            LedgerAction::CreateContext { index: 1 },
            LedgerAction::CreateContext { index: 2 },
            LedgerAction::SubmitOperation,
            LedgerAction::CloseContext { index: 0 },
            LedgerAction::CloseContext { index: 1 },
            LedgerAction::CloseContext { index: 2 },
        ]
    );
    assert!(journal.iter().all(|e| e.confirmed));
    assert!(!run.is_abandoned());
    assert_eq!(run.into_result(), Ok("transfer-sig".to_string()));
}

#[test]
fn close_failures_never_change_the_result() {
    let mut run = Choreography::new(2);
    run.record(ok("c0"));
    run.record(ok("c1"));
    run.record(ok("withdraw-sig"));
    run.record(fail("already closed"));
    run.record(fail("rpc timeout"));
    assert_eq!(run.phase(), RunPhase::Done);
    assert_eq!(run.cleanup_failures(), 2);
    assert_eq!(run.context_status(0), ContextStatus::Abandoned);
    assert!(!run.is_abandoned());
    assert_eq!(run.into_result(), Ok("withdraw-sig".to_string()));
}

#[test]
fn second_context_creation_failure_abandons_and_cleans_first() {
    let mut run = Choreography::new(3);
    run.record(ok("c0"));
    run.record(fail("ledger refused"));
    assert!(run.is_abandoned());
    assert_eq!(run.phase(), RunPhase::Cleanup);
    assert_eq!(run.context_status(1), ContextStatus::Abandoned);
    assert_eq!(run.context_status(2), ContextStatus::Pending);
    assert_eq!(run.next_action(), LedgerAction::CloseContext { index: 0 });
    run.record(ok("close"));
    assert_eq!(run.context_status(0), ContextStatus::Closed);
    assert_eq!(run.phase(), RunPhase::Done);
    assert_eq!(
        run.journal(),
        vec![
            JournalEntry { action: LedgerAction::CreateContext { index: 0 }, confirmed: true },
            JournalEntry { action: LedgerAction::CreateContext { index: 1 }, confirmed: false },
            JournalEntry { action: LedgerAction::CloseContext { index: 0 }, confirmed: true },
        ]
    );
    assert_eq!(
        run.into_result(),
        Err(ConfidentialError::ContextCreationFailed { index: 1, message: "ledger refused".to_string() })
    );
}

#[test]
fn first_context_creation_failure_needs_no_cleanup() {
    let mut run = Choreography::new(1);
    run.record(fail("no funds"));
    assert_eq!(run.phase(), RunPhase::Done);
    assert_eq!(run.next_action(), LedgerAction::Finish);
    assert_eq!(
        run.into_result(),
        Err(ConfidentialError::ContextCreationFailed { index: 0, message: "no funds".to_string() })
    );
}

#[test]
fn operation_failure_still_closes_every_context() {
    let mut run = Choreography::new(2);
    run.record(ok("c0"));
    run.record(ok("c1"));
    run.record(fail("proof rejected"));
    assert!(run.is_abandoned());
    assert_eq!(run.context_status(0), ContextStatus::Created);
    assert_eq!(run.next_action(), LedgerAction::CloseContext { index: 0 });
    run.record(ok("close"));
    assert_eq!(run.next_action(), LedgerAction::CloseContext { index: 1 });
    run.record(ok("close"));
    assert_eq!(run.phase(), RunPhase::Done);
    assert_eq!(
        run.into_result(),
        Err(ConfidentialError::OperationSubmissionFailed { message: "proof rejected".to_string() })
    );
}
