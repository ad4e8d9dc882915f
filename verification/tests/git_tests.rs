use crypta::engine::{CommitRequest, SyncAction, SyncEngine, SyncEvent};
use crypta::errors::{FetchError, PushError, SyncError, SyncReport};
use crypta::identity::{commit_message, CommitIdentity, RemoteRef};
use crypta::rebase::{PendingCommit, RebaseAction, RebaseEvent, RebaseFailure, ReplayRequest};
use crypta::status::{ChangeKind, WorkingTreeStatus};
use git2::{
    ErrorCode, IndexAddOption, Oid, Repository, RepositoryInitOptions, RepositoryState, Signature,
};
use std::io::Write;
use std::path::Path;
use tempfile::TempDir;

// What follows drives a synchronization on repositories on disk, with a
// bare repository beside them as the remote.

fn init(path: &Path) -> Repository {
    let mut options = RepositoryInitOptions::new();
    options.initial_head("main");
    Repository::init_opts(path, &options).unwrap()
}

fn init_remote(path: &Path) -> Repository {
    let mut options = RepositoryInitOptions::new();
    options.initial_head("main");
    options.bare(true);
    Repository::init_opts(path, &options).unwrap()
}

fn write_file(dir: &Path, name: &str, content: &str) {
    let mut file = tempfile::NamedTempFile::new_in(dir).unwrap();
    file.write_all(content.as_bytes()).unwrap();
    file.persist(dir.join(name)).unwrap();
}

/// A working repository with `origin` set to a bare repository.
fn pair() -> (TempDir, Repository, TempDir, Repository) {
    let local_dir = TempDir::new().unwrap();
    let remote_dir = TempDir::new().unwrap();
    let local = init(local_dir.path());
    let remote = init_remote(remote_dir.path());
    local.remote("origin", remote_dir.path().to_str().unwrap()).unwrap();
    (local_dir, local, remote_dir, remote)
}

fn human() -> Signature<'static> {
    Signature::now("human", "human@example.com").unwrap()
}

/// Commits the file `name` with `content` on the local branch, as a human.
fn commit_file(repo: &Repository, dir: &Path, name: &str, content: &str, message: &str) -> Oid {
    write_file(dir, name, content);
    let mut index = repo.index().unwrap();
    index.add_all(["*"].iter(), IndexAddOption::DEFAULT, None).unwrap();
    index.write().unwrap();
    let tree = repo.find_tree(index.write_tree().unwrap()).unwrap();
    let parent = repo.head().ok().and_then(|head| head.peel_to_commit().ok());
    let parents: Vec<&git2::Commit<'_>> = parent.iter().collect();
    repo.commit(Some("HEAD"), &human(), &human(), message, &tree, &parents).unwrap()
}

/// Commits the file `name` with `content` on the branch of the remote.
fn commit_on_remote(remote: &Repository, name: &str, content: &str, message: &str) -> Oid {
    let parent = remote.find_commit(remote.refname_to_id("refs/heads/main").unwrap()).unwrap();
    let blob = remote.blob(content.as_bytes()).unwrap();
    let mut builder = remote.treebuilder(Some(&parent.tree().unwrap())).unwrap();
    builder.insert(name, blob, 0o100644).unwrap();
    let tree = remote.find_tree(builder.write().unwrap()).unwrap();
    remote
        .commit(Some("refs/heads/main"), &human(), &human(), message, &tree, &[&parent])
        .unwrap()
}

fn push_main(repo: &Repository) {
    let mut origin = repo.find_remote("origin").unwrap();
    origin.push(&["refs/heads/main:refs/heads/main"], None).unwrap();
}

/// The messages of the branch, oldest first.
fn messages(repo: &Repository, branch: &str) -> Vec<String> {
    let mut found = Vec::new();
    let mut next = repo.refname_to_id(branch).ok().and_then(|id| repo.find_commit(id).ok());
    while let Some(commit) = next {
        found.push(commit.message().unwrap_or("").to_string());
        next = commit.parent(0).ok();
    }
    found.reverse();
    found
}

fn tip(repo: &Repository, branch: &str) -> Option<String> {
    repo.refname_to_id(branch).ok().map(|id| id.to_string())
}

fn read_status(repo: &Repository) -> Result<WorkingTreeStatus, git2::Error> {
    let statuses = repo.statuses(None)?;
    let mut status = WorkingTreeStatus::clean();
    for entry in statuses.iter() {
        let flags = entry.status();
        let kind = if flags.is_wt_new() {
            ChangeKind::Untracked
        } else if flags.is_index_new() {
            ChangeKind::Added
        } else if flags.is_wt_deleted() || flags.is_index_deleted() {
            ChangeKind::Deleted
        } else {
            ChangeKind::Modified
        };
        status.record(entry.path().unwrap_or(""), kind);
    }
    Ok(status)
}

/// Whether the repository holds no reference at all, so that its first
/// commit is still to come.
fn without_history(repo: &Repository) -> bool {
    match repo.references() {
        Ok(mut references) => references.next().is_none(),
        Err(_) => false,
    }
}

fn stage_all(repo: &Repository) -> Result<String, git2::Error> {
    let mut index = repo.index()?;
    index.add_all(["*"].iter(), IndexAddOption::DEFAULT, None)?;
    index.write()?;
    Ok(index.write_tree()?.to_string())
}

fn signature(identity: &CommitIdentity) -> Result<Signature<'static>, git2::Error> {
    Signature::now(&identity.name, &identity.email)
}

fn create_commit(repo: &Repository, request: &CommitRequest) -> Result<String, git2::Error> {
    let tree = repo.find_tree(Oid::from_str(&request.tree)?)?;
    let author = signature(&request.author)?;
    let committer = signature(&request.committer)?;
    let parent = match &request.parent {
        Some(id) => Some(repo.find_commit(Oid::from_str(id)?)?),
        None => None,
    };
    let parents: Vec<&git2::Commit<'_>> = parent.iter().collect();
    let id = repo.commit(Some("HEAD"), &author, &committer, &request.message, &tree, &parents)?;
    Ok(id.to_string())
}

fn fetch(repo: &Repository, target: &RemoteRef) -> Result<Option<String>, git2::Error> {
    let mut remote = repo.find_remote(&target.remote)?;
    remote.fetch(&[target.branch.as_str()], None, None)?;
    let fetched = repo
        .find_reference("FETCH_HEAD")
        .and_then(|head| repo.reference_to_annotated_commit(&head));
    Ok(fetched.ok().map(|commit| commit.id().to_string()))
}

fn push(repo: &Repository, remote: &str, refspec: &str) -> Result<(), PushError> {
    let classify = |error: git2::Error| match error.code() {
        ErrorCode::Auth => PushError::Auth,
        ErrorCode::NotFastForward => PushError::NonFastForward,
        _ => PushError::Network,
    };
    let mut remote = repo.find_remote(remote).map_err(classify)?;
    remote.push(&[refspec], None).map_err(classify)
}

fn begin_rebase<'r>(
    repo: &'r Repository,
    onto: &str,
) -> Result<(git2::Rebase<'r>, String, Vec<PendingCommit>), git2::Error> {
    let upstream = repo.find_annotated_commit(Oid::from_str(onto)?)?;
    let mut opened = repo.rebase(None, Some(&upstream), None, None)?;
    let mut plan = Vec::new();
    for index in 0..opened.len() {
        let id = match opened.nth(index) {
            Some(operation) => operation.id(),
            None => continue,
        };
        let commit = repo.find_commit(id)?;
        plan.push(PendingCommit {
            id: id.to_string(),
            message: commit.message().unwrap_or("").to_string(),
        });
    }
    let pre_rebase_tip = match opened.orig_head_id() {
        Some(id) => id.to_string(),
        None => repo.refname_to_id("HEAD")?.to_string(),
    };
    Ok((opened, pre_rebase_tip, plan))
}

fn replay(open: &mut git2::Rebase<'_>, request: &ReplayRequest) -> Result<String, git2::Error> {
    match open.next() {
        Some(Ok(_)) => {}
        Some(Err(error)) => return Err(error),
        None => return Err(git2::Error::from_str("no operation is left to replay")),
    }
    let stamp = signature(&request.identity)?;
    let id = open.commit(Some(&stamp), &stamp, None)?;
    Ok(id.to_string())
}

fn rebase_step<'r>(
    repo: &'r Repository,
    rebase: &mut Option<git2::Rebase<'r>>,
    action: RebaseAction,
) -> RebaseEvent {
    match action {
        RebaseAction::Begin { onto } => match begin_rebase(repo, &onto) {
            Ok((opened, pre_rebase_tip, plan)) => {
                *rebase = Some(opened);
                RebaseEvent::Started { pre_rebase_tip, plan }
            }
            Err(_) => RebaseEvent::StartFailed,
        },
        RebaseAction::Replay(request) => match replay(rebase.as_mut().unwrap(), &request) {
            Ok(id) => RebaseEvent::Replayed { id },
            Err(error) => match error.code() {
                ErrorCode::Unmerged | ErrorCode::Conflict | ErrorCode::MergeConflict => {
                    RebaseEvent::Conflicted
                }
                _ => RebaseEvent::ReplayFailed,
            },
        },
        RebaseAction::Finalize => match rebase.as_mut().unwrap().finish(None) {
            Ok(()) => RebaseEvent::Finalized,
            Err(_) => RebaseEvent::FinalizeFailed,
        },
        RebaseAction::Abort => {
            let _ = rebase.as_mut().unwrap().abort();
            RebaseEvent::Aborted
        }
        RebaseAction::Rest => panic!("the replay is over"),
    }
}

/// Carries out one action on the repository and says what came of it.
fn perform<'r>(
    repo: &'r Repository,
    rebase: &mut Option<git2::Rebase<'r>>,
    action: SyncAction,
) -> SyncEvent {
    match action {
        SyncAction::OpenRepository { .. } => SyncEvent::Opened,
        SyncAction::ReadStatus => match read_status(repo) {
            Ok(status) => SyncEvent::StatusRead(status),
            Err(_) => SyncEvent::StatusFailed,
        },
        SyncAction::StageAll => match stage_all(repo) {
            Ok(tree) => SyncEvent::Staged { tree },
            Err(_) => SyncEvent::StageFailed,
        },
        SyncAction::InspectHead => SyncEvent::Head {
            tip: repo
                .head()
                .ok()
                .and_then(|head| head.peel_to_commit().ok())
                .map(|commit| commit.id().to_string()),
            initial: without_history(repo),
        },
        SyncAction::CreateCommit(request) => match create_commit(repo, &request) {
            Ok(id) => SyncEvent::Committed { id },
            Err(_) => SyncEvent::CommitFailed,
        },
        SyncAction::Fetch(target) => match fetch(repo, &target) {
            Ok(remote_tip) => SyncEvent::Fetched { remote_tip },
            Err(error) if error.code() == ErrorCode::Auth => {
                SyncEvent::FetchFailed(FetchError::Auth)
            }
            Err(_) => SyncEvent::FetchFailed(FetchError::Network),
        },
        SyncAction::Rebase(inner) => SyncEvent::Rebase(rebase_step(repo, rebase, inner)),
        SyncAction::Push { remote, refspec } => match push(repo, &remote, &refspec) {
            Ok(()) => SyncEvent::Pushed,
            Err(kind) => SyncEvent::PushFailed(kind),
        },
        SyncAction::Report(_) | SyncAction::Fail(_) => panic!("nothing is left to do"),
    }
}

/// Synchronizes the repository in `dir`. `before_push` runs when the push
/// is next.
fn sync_with(
    dir: &Path,
    message: Option<&str>,
    before_push: &dyn Fn(),
) -> (SyncEngine, Result<SyncReport, SyncError>) {
    let mut engine = crypta::engine::sync(dir.to_str().unwrap(), message);
    let repo = match engine.pending() {
        SyncAction::OpenRepository { directory } => match Repository::open(&directory) {
            Ok(repo) => {
                engine = engine.step(SyncEvent::Opened);
                repo
            }
            Err(_) => {
                engine = engine.step(SyncEvent::OpenFailed);
                return (engine, Err(SyncError::Open));
            }
        },
        other => panic!("expected to open the repository, got {:?}", other),
    };
    let mut rebase = None;
    let mut action = engine.pending();
    loop {
        let event = match action {
            SyncAction::Report(report) => break (engine, Ok(report)),
            SyncAction::Fail(error) => break (engine, Err(error)),
            other => {
                if matches!(other, SyncAction::Push { .. }) {
                    before_push();
                }
                perform(&repo, &mut rebase, other)
            }
        };
        engine = engine.step(event);
        action = engine.pending();
    }
}

fn sync(dir: &Path, message: Option<&str>) -> (SyncEngine, Result<SyncReport, SyncError>) {
    sync_with(dir, message, &|| {})
}

#[test]
fn test_repository_operations() {
    let temp_dir = TempDir::new().unwrap();
    let repo = Repository::init(temp_dir.path()).unwrap();

    assert!(!repo.is_bare());
    assert!(repo.is_empty().unwrap());
}

#[test]
fn test_signature_creation() {
    let identity = CommitIdentity::crypta();
    assert_eq!(identity.name, "crypta");
    assert_eq!(identity.email, "crypta@local");
    let sig = signature(&identity).unwrap();
    assert_eq!(sig.name().unwrap(), "crypta");
    assert_eq!(sig.email().unwrap(), "crypta@local");
}

#[test]
fn test_git_status() {
    let temp_dir = TempDir::new().unwrap();
    let repo = Repository::init(temp_dir.path()).unwrap();

    let statuses = read_status(&repo).unwrap();
    assert!(statuses.is_clean());

    write_file(temp_dir.path(), "test.txt", "content");

    let statuses = read_status(&repo).unwrap();
    assert!(!statuses.is_clean());
    assert_eq!(statuses.len(), 1);
    assert_eq!(statuses.changes[0].path, "test.txt");
    assert_eq!(statuses.changes[0].kind, ChangeKind::Untracked);
}

#[test]
fn test_git_index() {
    let temp_dir = TempDir::new().unwrap();
    let repo = Repository::init(temp_dir.path()).unwrap();

    let index = repo.index().unwrap();
    assert_eq!(index.len(), 0);
}

#[test]
fn test_git_repository_init() {
    let temp_dir = TempDir::new().unwrap();
    let repo = Repository::init(temp_dir.path()).unwrap();

    assert!(!repo.is_bare());
    assert!(repo.is_empty().unwrap());
}

#[test]
fn test_git_status_empty() {
    let temp_dir = TempDir::new().unwrap();
    let repo = Repository::init(temp_dir.path()).unwrap();

    let statuses = read_status(&repo).unwrap();
    assert!(statuses.is_clean());
    assert_eq!(statuses.len(), 0);
    assert!(WorkingTreeStatus::clean().is_clean());
}

#[test]
fn test_git_add_file() {
    let temp_dir = TempDir::new().unwrap();
    let repo = Repository::init(temp_dir.path()).unwrap();

    write_file(temp_dir.path(), "test.txt", "test content");

    let statuses = read_status(&repo).unwrap();
    assert!(!statuses.is_clean());

    let mut engine = SyncEngine::new("repo", None, CommitIdentity::crypta());
    engine = engine.step(SyncEvent::Opened);
    engine = engine.step(SyncEvent::StatusRead(statuses));
    let action = engine.pending();
    assert!(matches!(action, SyncAction::StageAll));
}

#[test]
fn test_git_signature() {
    let identity = CommitIdentity::new("test", "test@example.com");
    let sig = signature(&identity.duplicate()).unwrap();
    assert_eq!(sig.name().unwrap(), "test");
    assert_eq!(sig.email().unwrap(), "test@example.com");
}

#[test]
fn test_git_commit_creation() {
    let temp_dir = TempDir::new().unwrap();
    let repo = Repository::init(temp_dir.path()).unwrap();

    write_file(temp_dir.path(), "test.txt", "initial content");

    let sig = CommitIdentity::new("test", "test@example.com");
    let mut engine = SyncEngine::new("repo", Some("Initial commit"), sig);
    let mut rebase = None;
    engine = engine.step(SyncEvent::Opened);
    let mut action = engine.pending();
    let request = loop {
        match action {
            SyncAction::CreateCommit(request) => break request,
            other => {
                let event = perform(&repo, &mut rebase, other);
                engine = engine.step(event);
                action = engine.pending();
            }
        }
    };
    assert_eq!(request.message, "Initial commit");
    assert_eq!(request.author.name, "test");
    assert_eq!(request.author.email, "test@example.com");
    assert_eq!(request.committer.name, "test");
    assert_eq!(request.committer.email, "test@example.com");
    assert_eq!(request.parent, None);

    let commit_id = create_commit(&repo, &request).unwrap();
    engine = engine.step(SyncEvent::Committed { id: commit_id.clone() });
    let action = engine.pending();
    assert!(matches!(action, SyncAction::Fetch(_)));
    assert_eq!(engine.created(), Some(commit_id.clone()));

    let made = repo.find_commit(Oid::from_str(&commit_id).unwrap());
    assert!(made.is_ok());
    let made = made.unwrap();
    assert_eq!(made.message().unwrap(), "Initial commit");
    assert_eq!(made.author().name().unwrap(), "test");
    assert_eq!(made.parent_count(), 0);
    assert!(read_status(&repo).unwrap().is_clean());
}

#[test]
fn message_defaults_to_sync_secrets() {
    assert_eq!(commit_message(None), "Sync secrets");
    assert_eq!(commit_message(Some("note")), "note");
    assert_eq!(commit_message(Some("")), "");
}

#[test]
fn remote_is_origin_main_on_both_sides() {
    let target = RemoteRef::origin_main();
    assert_eq!(target.remote, "origin");
    assert_eq!(target.branch, "main");
    assert_eq!(target.refspec(), "refs/heads/main:refs/heads/main");
}

#[test]
fn directory_without_repository_fails_to_open() {
    let temp_dir = TempDir::new().unwrap();
    let (engine, outcome) = sync(temp_dir.path(), None);
    assert_eq!(outcome, Err(SyncError::Open));
    assert_eq!(engine.outcome(), Some(Err(SyncError::Open)));
}

#[test]
fn empty_repository_gets_one_commit_and_is_then_up_to_date() {
    let (local_dir, local, _remote_dir, remote) = pair();
    write_file(local_dir.path(), "secrets.yml", "token: ENC[...]\n");

    let (engine, outcome) = sync(local_dir.path(), None);
    assert_eq!(outcome, Ok(SyncReport::Completed));
    assert_eq!(messages(&local, "refs/heads/main"), vec!["Sync secrets"]);
    assert_eq!(messages(&remote, "refs/heads/main"), vec!["Sync secrets"]);
    let made = local.head().unwrap().peel_to_commit().unwrap();
    assert_eq!(made.author().name().unwrap(), "crypta");
    assert_eq!(made.author().email().unwrap(), "crypta@local");
    assert_eq!(made.committer().name().unwrap(), "crypta");
    assert_eq!(made.committer().email().unwrap(), "crypta@local");
    assert_eq!(engine.branch_tip(), tip(&local, "refs/heads/main"));
    assert_eq!(engine.created(), tip(&local, "refs/heads/main"));
    assert!(read_status(&local).unwrap().is_clean());

    let before = tip(&local, "refs/heads/main");
    let (second, outcome) = sync(local_dir.path(), None);
    assert_eq!(outcome, Ok(SyncReport::UpToDate));
    assert_eq!(second.created(), None);
    assert_eq!(tip(&local, "refs/heads/main"), before);
    assert_eq!(second.branch_tip(), before);
    assert_eq!(tip(&remote, "refs/heads/main"), before);
}

#[test]
fn change_is_committed_with_the_message_given() {
    let (local_dir, local, _remote_dir, remote) = pair();
    commit_file(&local, local_dir.path(), "readme", "hello", "first");
    push_main(&local);
    write_file(local_dir.path(), "secrets.yml", "a: 1\n");

    let (_, outcome) = sync(local_dir.path(), Some("rotate the database password"));
    assert_eq!(outcome, Ok(SyncReport::Completed));
    assert_eq!(
        messages(&local, "refs/heads/main"),
        vec!["first", "rotate the database password"]
    );
    assert_eq!(tip(&remote, "refs/heads/main"), tip(&local, "refs/heads/main"));
    let made = local.head().unwrap().peel_to_commit().unwrap();
    assert_eq!(made.author().name().unwrap(), "crypta");
    assert_eq!(made.committer().email().unwrap(), "crypta@local");
}

#[test]
fn clean_tree_makes_no_commit() {
    let (local_dir, local, _remote_dir, remote) = pair();
    commit_file(&local, local_dir.path(), "readme", "hello", "first");
    push_main(&local);
    let before = tip(&local, "refs/heads/main");

    let (engine, outcome) = sync(local_dir.path(), None);
    assert_eq!(outcome, Ok(SyncReport::UpToDate));
    assert_eq!(engine.created(), None);
    assert_eq!(engine.rebase().unwrap().replayed().len(), 0);
    assert_eq!(tip(&local, "refs/heads/main"), before);
    assert_eq!(tip(&remote, "refs/heads/main"), before);
    assert_eq!(engine.branch_tip(), before);
}

#[test]
fn local_commits_are_replayed_in_order_on_the_remote_tip() {
    let (local_dir, local, _remote_dir, remote) = pair();
    commit_file(&local, local_dir.path(), "base.txt", "base", "base");
    push_main(&local);
    commit_file(&local, local_dir.path(), "a.txt", "a", "A");
    commit_file(&local, local_dir.path(), "b.txt", "b", "B");
    let r = commit_on_remote(&remote, "r.txt", "r", "R");

    let (engine, outcome) = sync(local_dir.path(), None);
    assert_eq!(outcome, Ok(SyncReport::Completed));
    assert_eq!(messages(&local, "refs/heads/main"), vec!["base", "R", "A", "B"]);
    assert_eq!(messages(&remote, "refs/heads/main"), vec!["base", "R", "A", "B"]);

    let replayed = engine.rebase().unwrap().replayed();
    assert_eq!(replayed.len(), 2);
    assert_eq!(replayed[0].parent, r.to_string());
    assert_eq!(replayed[1].parent, replayed[0].id);
    assert_eq!(Some(replayed[1].id.clone()), tip(&local, "refs/heads/main"));
    let b = local.head().unwrap().peel_to_commit().unwrap();
    assert_eq!(b.message().unwrap(), "B");
    assert_eq!(b.committer().name().unwrap(), "crypta");
    assert_eq!(b.author().name().unwrap(), "crypta");
    let a = b.parent(0).unwrap();
    assert_eq!(a.id().to_string(), replayed[0].id);
    assert_eq!(a.message().unwrap(), "A");
    assert_eq!(a.parent(0).unwrap().id(), r);
    assert_eq!(local.state(), RepositoryState::Clean);
}

#[test]
fn conflict_leaves_the_branch_where_it_was() {
    let (local_dir, local, _remote_dir, remote) = pair();
    commit_file(&local, local_dir.path(), "secrets.yml", "a: 1\n", "base");
    push_main(&local);
    commit_file(&local, local_dir.path(), "other.txt", "x", "A");
    commit_file(&local, local_dir.path(), "secrets.yml", "a: mine\n", "B");
    commit_on_remote(&remote, "secrets.yml", "a: theirs\n", "R");
    let before = tip(&local, "refs/heads/main");
    let remote_before = tip(&remote, "refs/heads/main");

    let (engine, outcome) = sync(local_dir.path(), None);
    assert_eq!(outcome, Err(SyncError::Rebase(RebaseFailure::Conflict)));
    assert_eq!(tip(&local, "refs/heads/main"), before);
    assert_eq!(tip(&local, "HEAD"), before);
    assert_eq!(messages(&local, "refs/heads/main"), vec!["base", "A", "B"]);
    assert_eq!(tip(&remote, "refs/heads/main"), remote_before);
    assert_eq!(local.state(), RepositoryState::Clean);
    assert_eq!(engine.branch_tip(), before);
    assert_eq!(engine.rebase().unwrap().failure(), Some(RebaseFailure::Conflict));
    assert_eq!(engine.rebase().unwrap().replayed().len(), 1);
}

#[test]
fn remote_that_moved_on_refuses_the_push() {
    let (local_dir, local, _remote_dir, remote) = pair();
    commit_file(&local, local_dir.path(), "base.txt", "base", "base");
    push_main(&local);
    write_file(local_dir.path(), "secrets.yml", "a: 1\n");

    let (engine, outcome) = sync_with(local_dir.path(), None, &|| {
        commit_on_remote(&remote, "late.txt", "late", "late");
    });
    assert_eq!(outcome, Err(SyncError::Push(PushError::NonFastForward)));
    assert_eq!(messages(&local, "refs/heads/main"), vec!["base", "Sync secrets"]);
    assert_eq!(messages(&remote, "refs/heads/main"), vec!["base", "late"]);
    assert!(engine.created().is_some());

    let (_, outcome) = sync(local_dir.path(), None);
    assert_eq!(outcome, Ok(SyncReport::Completed));
    assert_eq!(messages(&local, "refs/heads/main"), vec!["base", "late", "Sync secrets"]);
    assert_eq!(tip(&remote, "refs/heads/main"), tip(&local, "refs/heads/main"));
}

#[test]
fn missing_remote_is_a_fetch_failure() {
    let local_dir = TempDir::new().unwrap();
    let local = init(local_dir.path());
    commit_file(&local, local_dir.path(), "base.txt", "base", "base");
    write_file(local_dir.path(), "secrets.yml", "a: 1\n");

    let (engine, outcome) = sync(local_dir.path(), None);
    assert_eq!(outcome, Err(SyncError::Fetch(FetchError::Network)));
    assert_eq!(messages(&local, "refs/heads/main"), vec!["base", "Sync secrets"]);
    assert_eq!(engine.created(), tip(&local, "refs/heads/main"));
}
