use crypta::identity::CommitIdentity;
use crypta::rebase::{
    PendingCommit, Rebase, RebaseAction, RebaseEvent, RebaseFailure, RebaseState,
};

fn pending(id: &str, message: &str) -> PendingCommit {
    PendingCommit { id: id.to_string(), message: message.to_string() }
}

fn opened(plan: Vec<PendingCommit>) -> Rebase {
    let mut rebase = Rebase::new(CommitIdentity::crypta(), "r".to_string());
    rebase = rebase.step(RebaseEvent::Started { pre_rebase_tip: "b".to_string(), plan });
    rebase
}

#[test]
fn replay_goes_from_not_started_to_finished() {
    let mut rebase = Rebase::new(CommitIdentity::crypta(), "r".to_string());
    assert_eq!(rebase.state(), RebaseState::NotStarted);
    assert_eq!(rebase.branch_tip(), None);
    assert!(matches!(rebase.pending(), RebaseAction::Begin { onto } if onto == "r"));

    rebase = rebase.step(RebaseEvent::Started {
        pre_rebase_tip: "b".to_string(),
        plan: vec![pending("a", "A"), pending("b", "B")],
    });
    let action = rebase.pending();
    assert_eq!(rebase.state(), RebaseState::InProgress(0));
    match action {
        RebaseAction::Replay(request) => {
            assert_eq!(request.index, 0);
            assert_eq!(request.source, "a");
            assert_eq!(request.base, "r");
            assert_eq!(request.message, "A");
            assert_eq!(request.identity.name, "crypta");
            assert_eq!(request.identity.email, "crypta@local");
        }
        other => panic!("expected a replay, got {:?}", other),
    }

    rebase = rebase.step(RebaseEvent::Replayed { id: "a2".to_string() });
    let action = rebase.pending();
    assert_eq!(rebase.state(), RebaseState::InProgress(1));
    assert_eq!(rebase.branch_tip(), Some("b".to_string()));
    match action {
        RebaseAction::Replay(request) => {
            assert_eq!(request.index, 1);
            assert_eq!(request.source, "b");
            assert_eq!(request.base, "a2");
            assert_eq!(request.message, "B");
        }
        other => panic!("expected a replay, got {:?}", other),
    }

    rebase = rebase.step(RebaseEvent::Replayed { id: "b2".to_string() });
    let action = rebase.pending();
    assert_eq!(rebase.state(), RebaseState::InProgress(2));
    assert!(matches!(action, RebaseAction::Finalize));
    assert_eq!(rebase.branch_tip(), Some("b".to_string()));

    rebase = rebase.step(RebaseEvent::Finalized);
    let action = rebase.pending();
    assert_eq!(rebase.state(), RebaseState::Finished);
    assert!(matches!(action, RebaseAction::Rest));
    assert_eq!(rebase.branch_tip(), Some("b2".to_string()));
    assert_eq!(rebase.failure(), None);
    assert_eq!(rebase.plan().len(), 2);
    let replayed = rebase.replayed();
    assert_eq!(replayed.len(), 2);
    assert_eq!((replayed[0].id.as_str(), replayed[0].parent.as_str()), ("a2", "r"));
    assert_eq!((replayed[1].id.as_str(), replayed[1].parent.as_str()), ("b2", "a2"));
    assert_eq!(replayed[0].message, "A");
    assert_eq!(replayed[1].message, "B");
}

#[test]
fn replay_without_operations_moves_the_branch_to_the_fetched_tip() {
    let mut rebase = opened(Vec::new());
    assert!(matches!(rebase.pending(), RebaseAction::Finalize));
    rebase = rebase.step(RebaseEvent::Finalized);
    assert_eq!(rebase.state(), RebaseState::Finished);
    assert_eq!(rebase.branch_tip(), Some("r".to_string()));
}

#[test]
fn conflict_is_aborted_and_restores_the_tip() {
    let mut rebase = opened(vec![pending("a", "A"), pending("b", "B")]);
    rebase = rebase.step(RebaseEvent::Replayed { id: "a2".to_string() });
    rebase = rebase.step(RebaseEvent::Conflicted);
    let action = rebase.pending();
    assert!(matches!(action, RebaseAction::Abort));
    assert_eq!(rebase.state(), RebaseState::InProgress(1));
    assert_eq!(rebase.failure(), Some(RebaseFailure::Conflict));
    assert_eq!(rebase.branch_tip(), Some("b".to_string()));

    rebase = rebase.step(RebaseEvent::Replayed { id: "late".to_string() });
    let action = rebase.pending();
    assert!(matches!(action, RebaseAction::Abort));
    rebase = rebase.step(RebaseEvent::Finalized);
    let action = rebase.pending();
    assert!(matches!(action, RebaseAction::Abort));

    rebase = rebase.step(RebaseEvent::Aborted);
    let action = rebase.pending();
    assert!(matches!(action, RebaseAction::Rest));
    assert_eq!(rebase.state(), RebaseState::Aborted);
    assert_eq!(rebase.failure(), Some(RebaseFailure::Conflict));
    assert_eq!(rebase.branch_tip(), Some("b".to_string()));
    assert_eq!(rebase.replayed().len(), 1);

    rebase = rebase.step(RebaseEvent::Finalized);
    assert_eq!(rebase.state(), RebaseState::Aborted);
}

#[test]
fn other_failures_are_errors() {
    let mut rebase = Rebase::new(CommitIdentity::crypta(), "r".to_string());
    rebase = rebase.step(RebaseEvent::StartFailed);
    let action = rebase.pending();
    assert!(matches!(action, RebaseAction::Rest));
    assert_eq!(rebase.state(), RebaseState::Aborted);
    assert_eq!(rebase.failure(), Some(RebaseFailure::Error));
    assert_eq!(rebase.branch_tip(), None);

    let mut rebase = opened(vec![pending("a", "A")]);
    rebase = rebase.step(RebaseEvent::ReplayFailed);
    let action = rebase.pending();
    assert!(matches!(action, RebaseAction::Abort));
    assert_eq!(rebase.failure(), Some(RebaseFailure::Error));
    rebase = rebase.step(RebaseEvent::Aborted);
    assert_eq!(rebase.state(), RebaseState::Aborted);
    assert_eq!(rebase.branch_tip(), Some("b".to_string()));

    let mut rebase = opened(vec![pending("a", "A")]);
    rebase = rebase.step(RebaseEvent::Finalized);
    let action = rebase.pending();
    assert!(matches!(action, RebaseAction::Replay(_)));
    assert_eq!(rebase.state(), RebaseState::InProgress(0));
    rebase = rebase.step(RebaseEvent::Replayed { id: "a2".to_string() });
    rebase = rebase.step(RebaseEvent::FinalizeFailed);
    let action = rebase.pending();
    assert!(matches!(action, RebaseAction::Abort));
    assert_eq!(rebase.failure(), Some(RebaseFailure::Error));
}

#[test]
fn injected_identity_stamps_the_replays() {
    let mut rebase = Rebase::new(CommitIdentity::new("test", "test@example.com"), "r".to_string());
    rebase = rebase.step(RebaseEvent::Started {
        pre_rebase_tip: "a".to_string(),
        plan: vec![pending("a", "A")],
    });
    rebase = rebase.step(RebaseEvent::Replayed { id: "a2".to_string() });
    assert_eq!(rebase.replayed()[0].identity.name, "test");
    assert_eq!(rebase.replayed()[0].identity.email, "test@example.com");
}
