use crate::errors::{CommitError, FetchError, PushError, SyncError, SyncReport};
use crate::identity::{
    effective_message, origin_main, refspec_of, tool_identity, CommitIdentity, IdentityModel,
    RemoteRef, RemoteRefModel,
};
use crate::rebase::{
    lemma_next_keeps_wf, Rebase, RebaseAction, RebaseActionModel, RebaseEvent, RebaseEventModel,
    RebaseFailure, RebaseModel, RebaseState, RebaseStateModel,
};
use crate::status::WorkingTreeStatus;
use vstd::prelude::*;

verus! {

/// What a synchronization is waiting for.
#[derive(Clone, Copy, Debug, PartialEq, Eq, Structural)]
pub enum SyncPhase {
    Opening,
    ReadingStatus,
    Staging,
    InspectingHead,
    Committing,
    Fetching,
    Rebasing,
    Pushing,
    Done,
    Failed(SyncError),
}

/// The commit that a synchronization asks for.
#[derive(Debug)]
pub struct CommitRequest {
    pub message: String,
    pub author: CommitIdentity,
    pub committer: CommitIdentity,
    /// The snapshot of the staged state.
    pub tree: String,
    /// The tip of the branch, on which the commit is built; none for the
    /// first commit of a repository.
    pub parent: Option<String>,
}

pub struct CommitRequestModel {
    pub message: Seq<char>,
    pub author: IdentityModel,
    pub committer: IdentityModel,
    pub tree: Seq<char>,
    pub parent: Option<Seq<char>>,
}

/// An optional text as an optional character sequence.
pub open spec fn text_of(text: Option<String>) -> Option<Seq<char>> {
    match text {
        Some(t) => Some(t@),
        None => None,
    }
}

impl View for CommitRequest {
    type V = CommitRequestModel;

    open spec fn view(&self) -> CommitRequestModel {
        CommitRequestModel {
            message: self.message@,
            author: self.author@,
            committer: self.committer@,
            tree: self.tree@,
            parent: text_of(self.parent),
        }
    }
}

/// A commit that a synchronization has made.
#[derive(Debug)]
pub struct CommitRecord {
    pub id: String,
    pub message: String,
    /// The commit it is built on; none for the first commit of a
    /// repository.
    pub parent: Option<String>,
    /// The snapshot it holds.
    pub tree: String,
}

pub struct CommitRecordModel {
    pub id: Seq<char>,
    pub message: Seq<char>,
    pub parent: Option<Seq<char>>,
    pub tree: Seq<char>,
}

impl View for CommitRecord {
    type V = CommitRecordModel;

    open spec fn view(&self) -> CommitRecordModel {
        CommitRecordModel {
            id: self.id@,
            message: self.message@,
            parent: text_of(self.parent),
            tree: self.tree@,
        }
    }
}

/// What the driver has to do next.
#[derive(Debug)]
pub enum SyncAction {
    /// Open the repository in `directory`.
    OpenRepository { directory: String },
    /// List the changes of the working tree.
    ReadStatus,
    /// Stage every change, deletions included, and take the snapshot.
    StageAll,
    /// Look up the commit the branch points to.
    InspectHead,
    /// Write the commit and move the branch to it.
    CreateCommit(CommitRequest),
    /// Fetch the branch from the remote.
    Fetch(RemoteRef),
    /// Go on with the replay of the local commits on the fetched tip.
    Rebase(RebaseAction),
    /// Push the branch to the branch of the same name.
    Push { remote: String, refspec: String },
    /// The synchronization has succeeded: report it.
    Report(SyncReport),
    /// The synchronization has failed: report it.
    Fail(SyncError),
}

pub enum SyncActionModel {
    OpenRepository { directory: Seq<char> },
    ReadStatus,
    StageAll,
    InspectHead,
    CreateCommit(CommitRequestModel),
    Fetch(RemoteRefModel),
    Rebase(RebaseActionModel),
    Push { remote: Seq<char>, refspec: Seq<char> },
    Report(SyncReport),
    Fail(SyncError),
}

impl View for SyncAction {
    type V = SyncActionModel;

    open spec fn view(&self) -> SyncActionModel {
        match self {
            SyncAction::OpenRepository { directory } => SyncActionModel::OpenRepository {
                directory: directory@,
            },
            SyncAction::ReadStatus => SyncActionModel::ReadStatus,
            SyncAction::StageAll => SyncActionModel::StageAll,
            SyncAction::InspectHead => SyncActionModel::InspectHead,
            SyncAction::CreateCommit(request) => SyncActionModel::CreateCommit(request@),
            SyncAction::Fetch(target) => SyncActionModel::Fetch(target@),
            SyncAction::Rebase(action) => SyncActionModel::Rebase(action@),
            SyncAction::Push { remote, refspec } => SyncActionModel::Push {
                remote: remote@,
                refspec: refspec@,
            },
            SyncAction::Report(report) => SyncActionModel::Report(*report),
            SyncAction::Fail(error) => SyncActionModel::Fail(*error),
        }
    }
}

/// What the driver reports back.
#[derive(Debug)]
pub enum SyncEvent {
    Opened,
    OpenFailed,
    StatusRead(WorkingTreeStatus),
    StatusFailed,
    /// Everything is staged; `tree` is the snapshot.
    Staged { tree: String },
    StageFailed,
    /// `tip` is the commit the branch points to, if it points to one;
    /// `initial` says whether the repository is still without history.
    Head { tip: Option<String>, initial: bool },
    Committed { id: String },
    CommitFailed,
    /// The fetch went through. `remote_tip` is the commit the remote branch
    /// points to, or nothing where the remote has no such branch yet.
    Fetched { remote_tip: Option<String> },
    FetchFailed(FetchError),
    Rebase(RebaseEvent),
    Pushed,
    PushFailed(PushError),
}

pub enum SyncEventModel {
    Opened,
    OpenFailed,
    /// Of the status only the number of changed paths counts.
    StatusRead { changes: nat },
    StatusFailed,
    Staged { tree: Seq<char> },
    StageFailed,
    Head { tip: Option<Seq<char>>, initial: bool },
    Committed { id: Seq<char> },
    CommitFailed,
    Fetched { remote_tip: Option<Seq<char>> },
    FetchFailed(FetchError),
    Rebase(RebaseEventModel),
    Pushed,
    PushFailed(PushError),
}

impl View for SyncEvent {
    type V = SyncEventModel;

    open spec fn view(&self) -> SyncEventModel {
        match self {
            SyncEvent::Opened => SyncEventModel::Opened,
            SyncEvent::OpenFailed => SyncEventModel::OpenFailed,
            SyncEvent::StatusRead(status) => SyncEventModel::StatusRead {
                changes: status.changes@.len(),
            },
            SyncEvent::StatusFailed => SyncEventModel::StatusFailed,
            SyncEvent::Staged { tree } => SyncEventModel::Staged { tree: tree@ },
            SyncEvent::StageFailed => SyncEventModel::StageFailed,
            SyncEvent::Head { tip, initial } => SyncEventModel::Head {
                tip: text_of(*tip),
                initial: *initial,
            },
            SyncEvent::Committed { id } => SyncEventModel::Committed { id: id@ },
            SyncEvent::CommitFailed => SyncEventModel::CommitFailed,
            SyncEvent::Fetched { remote_tip } => SyncEventModel::Fetched {
                remote_tip: text_of(*remote_tip),
            },
            SyncEvent::FetchFailed(error) => SyncEventModel::FetchFailed(*error),
            SyncEvent::Rebase(event) => SyncEventModel::Rebase(event@),
            SyncEvent::Pushed => SyncEventModel::Pushed,
            SyncEvent::PushFailed(error) => SyncEventModel::PushFailed(*error),
        }
    }
}

/// A synchronization as plain mathematics.
pub struct SyncModel {
    pub directory: Seq<char>,
    /// The message of the commit, should one be made.
    pub message: Seq<char>,
    pub identity: IdentityModel,
    pub phase: SyncPhase,
    /// The number of changed paths that the status read found.
    pub changes: Option<nat>,
    /// The snapshot of the staged state.
    pub tree: Option<Seq<char>>,
    /// The tip of the branch before the commit.
    pub parent: Option<Seq<char>>,
    /// The commit that this synchronization has made.
    pub created: Option<Seq<char>>,
    /// The replay on the fetched tip, from the fetch on.
    pub rebase: Option<RebaseModel>,
}

impl SyncModel {
    /// A synchronization of `directory` that has done nothing yet.
    pub open spec fn initial(
        directory: Seq<char>,
        message: Seq<char>,
        identity: IdentityModel,
    ) -> SyncModel {
        SyncModel {
            directory,
            message,
            identity,
            phase: SyncPhase::Opening,
            changes: None,
            tree: None,
            parent: None,
            created: None,
            rebase: None,
        }
    }

    /// The local changes were committed before the remote was contacted:
    /// either there were none, and no commit was made, or there were some,
    /// and the commit exists.
    pub open spec fn committed_first(self) -> bool {
        match self.changes {
            Some(n) => if n == 0 {
                self.created is None && self.tree is None && self.parent is None
            } else {
                self.created is Some && self.tree is Some
            },
            None => false,
        }
    }

    /// The commit is still to be made.
    pub open spec fn committing(self) -> bool {
        &&& self.changes matches Some(n)
        &&& n > 0
        &&& self.created is None
        &&& self.rebase is None
    }

    /// Nothing is on record yet.
    pub open spec fn untouched(self) -> bool {
        &&& self.changes is None
        &&& self.tree is None
        &&& self.parent is None
        &&& self.created is None
        &&& self.rebase is None
    }

    /// The replay belongs to this synchronization and is under way
    /// (`open`), finished or aborted, as the arguments allow.
    pub open spec fn replaying(self, open: bool, finished: bool, aborted: bool) -> bool {
        &&& self.rebase matches Some(rebase)
        &&& rebase.wf()
        &&& rebase.identity == self.identity
        &&& match rebase.state {
            RebaseStateModel::NotStarted => open,
            RebaseStateModel::InProgress(_) => open,
            RebaseStateModel::Finished => finished,
            RebaseStateModel::Aborted => aborted,
        }
    }

    /// The replay is finished, or there was nothing to replay on: the
    /// remote had no such branch yet.
    pub open spec fn replayed_or_first(self) -> bool {
        self.rebase is None || self.replaying(false, true, false)
    }

    /// What is on record fits the phase: nothing before the status is read,
    /// no commit and no replay while the commit is being made, the commit
    /// (if there were changes) from the fetch on, and from then on a replay
    /// that stands where the phase says.
    pub open spec fn wf(self) -> bool {
        match self.phase {
            SyncPhase::Opening => self.untouched(),
            SyncPhase::ReadingStatus => self.untouched(),
            SyncPhase::Staging => self.committing() && self.tree is None && self.parent is None,
            SyncPhase::InspectingHead => self.committing() && self.tree is Some
                && self.parent is None,
            SyncPhase::Committing => self.committing() && self.tree is Some,
            SyncPhase::Fetching => self.committed_first() && self.rebase is None,
            SyncPhase::Rebasing => self.committed_first() && self.replaying(true, false, false),
            SyncPhase::Pushing => self.committed_first() && self.replayed_or_first(),
            SyncPhase::Done => self.committed_first() && self.replayed_or_first(),
            SyncPhase::Failed(error) => match error {
                SyncError::Open => self.untouched(),
                SyncError::Status => self.untouched(),
                SyncError::Commit(_) => self.committing(),
                SyncError::Fetch(_) => self.committed_first() && self.rebase is None,
                SyncError::Rebase(failure) => {
                    &&& self.committed_first()
                    &&& self.replaying(false, false, true)
                    &&& self.rebase->0.failure == Some(failure)
                },
                SyncError::Push(_) => self.committed_first() && self.replayed_or_first(),
            },
        }
    }

    /// The state that follows `self` when the driver reports `event`. An
    /// event that does not answer the pending action changes nothing, and
    /// nothing changes once the synchronization is done or has failed.
    pub open spec fn next(self, event: SyncEventModel) -> SyncModel {
        match self.phase {
            SyncPhase::Opening => match event {
                SyncEventModel::Opened => SyncModel { phase: SyncPhase::ReadingStatus, ..self },
                SyncEventModel::OpenFailed => SyncModel {
                    phase: SyncPhase::Failed(SyncError::Open),
                    ..self
                },
                _ => self,
            },
            SyncPhase::ReadingStatus => match event {
                SyncEventModel::StatusRead { changes } => SyncModel {
                    phase: if changes > 0 {
                        SyncPhase::Staging
                    } else {
                        SyncPhase::Fetching
                    },
                    changes: Some(changes),
                    ..self
                },
                SyncEventModel::StatusFailed => SyncModel {
                    phase: SyncPhase::Failed(SyncError::Status),
                    ..self
                },
                _ => self,
            },
            SyncPhase::Staging => match event {
                SyncEventModel::Staged { tree } => SyncModel {
                    phase: SyncPhase::InspectingHead,
                    tree: Some(tree),
                    ..self
                },
                SyncEventModel::StageFailed => SyncModel {
                    phase: SyncPhase::Failed(SyncError::Commit(CommitError::Stage)),
                    ..self
                },
                _ => self,
            },
            SyncPhase::InspectingHead => match event {
                SyncEventModel::Head { tip, initial } => if tip is Some || initial {
                    SyncModel { phase: SyncPhase::Committing, parent: tip, ..self }
                } else {
                    SyncModel {
                        phase: SyncPhase::Failed(SyncError::Commit(CommitError::NoParent)),
                        ..self
                    }
                },
                _ => self,
            },
            SyncPhase::Committing => match event {
                SyncEventModel::Committed { id } => SyncModel {
                    phase: SyncPhase::Fetching,
                    created: Some(id),
                    ..self
                },
                SyncEventModel::CommitFailed => SyncModel {
                    phase: SyncPhase::Failed(SyncError::Commit(CommitError::Create)),
                    ..self
                },
                _ => self,
            },
            SyncPhase::Fetching => match event {
                SyncEventModel::Fetched { remote_tip } => match remote_tip {
                    Some(tip) => SyncModel {
                        phase: SyncPhase::Rebasing,
                        rebase: Some(RebaseModel::fresh(self.identity, tip)),
                        ..self
                    },
                    None => SyncModel { phase: SyncPhase::Pushing, ..self },
                },
                SyncEventModel::FetchFailed(error) => SyncModel {
                    phase: SyncPhase::Failed(SyncError::Fetch(error)),
                    ..self
                },
                _ => self,
            },
            SyncPhase::Rebasing => match (event, self.rebase) {
                (SyncEventModel::Rebase(inner), Some(rebase)) => {
                    let after = rebase.next(inner);
                    SyncModel {
                        phase: match after.state {
                            RebaseStateModel::Finished => SyncPhase::Pushing,
                            RebaseStateModel::Aborted => SyncPhase::Failed(
                                SyncError::Rebase(
                                    match after.failure {
                                        Some(failure) => failure,
                                        None => RebaseFailure::Error,
                                    },
                                ),
                            ),
                            _ => SyncPhase::Rebasing,
                        },
                        rebase: Some(after),
                        ..self
                    }
                },
                _ => self,
            },
            SyncPhase::Pushing => match event {
                SyncEventModel::Pushed => SyncModel { phase: SyncPhase::Done, ..self },
                SyncEventModel::PushFailed(error) => SyncModel {
                    phase: SyncPhase::Failed(SyncError::Push(error)),
                    ..self
                },
                _ => self,
            },
            SyncPhase::Done => self,
            SyncPhase::Failed(_) => self,
        }
    }

    /// The commit that is asked for while the phase is `Committing`.
    pub open spec fn commit_request(self) -> CommitRequestModel {
        CommitRequestModel {
            message: self.message,
            author: self.identity,
            committer: self.identity,
            tree: match self.tree {
                Some(tree) => tree,
                None => Seq::empty(),
            },
            parent: self.parent,
        }
    }

    /// The commit that this synchronization has made, as it was asked for.
    pub open spec fn commit_record(self) -> Option<CommitRecordModel> {
        match self.created {
            Some(id) => Some(
                CommitRecordModel {
                    id,
                    message: self.commit_request().message,
                    parent: self.commit_request().parent,
                    tree: self.commit_request().tree,
                },
            ),
            None => None,
        }
    }

    /// What a synchronization that succeeds reports: up to date where it
    /// made no commit and replayed none.
    pub open spec fn report(self) -> SyncReport {
        if self.created is None && (match self.rebase {
            Some(rebase) => rebase.replayed.len() == 0,
            None => true,
        }) {
            SyncReport::UpToDate
        } else {
            SyncReport::Completed
        }
    }

    /// What the driver has to do in this state.
    pub open spec fn pending(self) -> SyncActionModel {
        match self.phase {
            SyncPhase::Opening => SyncActionModel::OpenRepository { directory: self.directory },
            SyncPhase::ReadingStatus => SyncActionModel::ReadStatus,
            SyncPhase::Staging => SyncActionModel::StageAll,
            SyncPhase::InspectingHead => SyncActionModel::InspectHead,
            SyncPhase::Committing => SyncActionModel::CreateCommit(self.commit_request()),
            SyncPhase::Fetching => SyncActionModel::Fetch(origin_main()),
            SyncPhase::Rebasing => SyncActionModel::Rebase(
                match self.rebase {
                    Some(rebase) => rebase.pending(),
                    None => RebaseActionModel::Rest,
                },
            ),
            SyncPhase::Pushing => SyncActionModel::Push {
                remote: origin_main().remote,
                refspec: refspec_of(origin_main().branch),
            },
            SyncPhase::Done => SyncActionModel::Report(self.report()),
            SyncPhase::Failed(error) => SyncActionModel::Fail(error),
        }
    }

    /// The commit the local branch points to, as far as the synchronization
    /// knows: what the replay says, once the rebase was opened; before that
    /// the commit that was made, or the tip it was to be built on.
    pub open spec fn branch_tip(self) -> Option<Seq<char>> {
        match self.rebase {
            Some(rebase) if !(rebase.state is NotStarted) => rebase.branch_tip(),
            _ => if self.created is Some {
                self.created
            } else {
                self.parent
            },
        }
    }

    /// The state reached from `self` after the events of `events`, in order.
    pub open spec fn run(self, events: Seq<SyncEventModel>) -> SyncModel
        decreases events.len(),
    {
        if events.len() == 0 {
            self
        } else {
            self.run(events.drop_last()).next(events.last())
        }
    }
}

/// One synchronization of a secrets directory with its remote, one event at
/// a time: local changes are committed first, then the remote branch is
/// fetched, the local commits are replayed on it, and the result is pushed.
/// The driver carries out [`SyncEngine::pending`] and reports what came of
/// it to [`SyncEngine::step`].
#[derive(Debug)]
pub struct SyncEngine {
    directory: String,
    message: String,
    identity: CommitIdentity,
    phase: SyncPhase,
    changes: Option<usize>,
    tree: Option<String>,
    parent: Option<String>,
    created: Option<String>,
    rebase: Option<Rebase>,
}

impl View for SyncEngine {
    type V = SyncModel;

    closed spec fn view(&self) -> SyncModel {
        SyncModel {
            directory: self.directory@,
            message: self.message@,
            identity: self.identity@,
            phase: self.phase,
            changes: match self.changes {
                Some(n) => Some(n as nat),
                None => None,
            },
            tree: text_of(self.tree),
            parent: text_of(self.parent),
            created: text_of(self.created),
            rebase: match self.rebase {
                Some(rebase) => Some(rebase@),
                None => None,
            },
        }
    }
}

fn copy_of(text: &Option<String>) -> (copy: Option<String>)
    ensures
        text_of(copy) == text_of(*text),
{
    match text {
        Some(t) => Some(t.clone()),
        None => None,
    }
}

impl SyncEngine {
    /// Whatever is done to a synchronization, what it has on record fits
    /// its phase.
    #[verifier::type_invariant]
    spec fn well_formed(&self) -> bool {
        self@.wf()
    }

    /// A synchronization of the repository in `directory`. A commit, should
    /// one be made, carries `message`, or the default message where none is
    /// given, and every commit this synchronization writes bears
    /// `identity`.
    pub fn new(directory: &str, message: Option<&str>, identity: CommitIdentity) -> (engine:
        SyncEngine)
        ensures
            engine@ == SyncModel::initial(
                directory@,
                effective_message(
                    match message {
                        Some(m) => Some(m@),
                        None => None,
                    },
                ),
                identity@,
            ),
            engine@.wf(),
    {
        SyncEngine {
            directory: String::from_str(directory),
            message: crate::identity::commit_message(message),
            identity,
            phase: SyncPhase::Opening,
            changes: None,
            tree: None,
            parent: None,
            created: None,
            rebase: None,
        }
    }

    pub fn phase(&self) -> (phase: SyncPhase)
        ensures
            phase == self@.phase,
    {
        self.phase
    }

    /// Whether nothing is left to do.
    pub fn is_settled(&self) -> (settled: bool)
        ensures
            settled == (self@.phase is Done || self@.phase is Failed),
    {
        match self.phase {
            SyncPhase::Done => true,
            SyncPhase::Failed(_) => true,
            _ => false,
        }
    }

    /// The commit that this synchronization has made, if it has made one.
    pub fn created(&self) -> (id: Option<String>)
        ensures
            text_of(id) == self@.created,
    {
        copy_of(&self.created)
    }

    /// The commit that this synchronization has made, if it has made one,
    /// with what it holds.
    pub fn commit_record(&self) -> (record: Option<CommitRecord>)
        ensures
            match record {
                Some(made) => self@.commit_record() == Some(made@),
                None => self@.commit_record() is None,
            },
    {
        match &self.created {
            Some(id) => Some(
                CommitRecord {
                    id: id.clone(),
                    message: self.message.clone(),
                    parent: copy_of(&self.parent),
                    tree: match &self.tree {
                        Some(tree) => tree.clone(),
                        None => String::new(),
                    },
                },
            ),
            None => None,
        }
    }

    /// The replay of the local commits, once the remote branch is fetched.
    pub fn rebase(&self) -> (rebase: Option<&Rebase>)
        ensures
            match rebase {
                Some(r) => self@.rebase == Some(r@),
                None => self@.rebase is None,
            },
    {
        self.rebase.as_ref()
    }

    /// The commit the local branch points to, as far as the synchronization
    /// knows.
    pub fn branch_tip(&self) -> (tip: Option<String>)
        ensures
            text_of(tip) == self@.branch_tip(),
    {
        let opened = match &self.rebase {
            Some(rebase) => match rebase.state() {
                RebaseState::NotStarted => false,
                _ => true,
            },
            None => false,
        };
        if opened {
            match &self.rebase {
                Some(rebase) => rebase.branch_tip(),
                None => None,
            }
        } else if self.created.is_some() {
            copy_of(&self.created)
        } else {
            copy_of(&self.parent)
        }
    }

    /// How the synchronization ended: the report where it succeeded, the
    /// error where it failed, and nothing while it is under way.
    pub fn outcome(&self) -> (outcome: Option<Result<SyncReport, SyncError>>)
        ensures
            outcome == match self@.phase {
                SyncPhase::Done => Some(Ok::<SyncReport, SyncError>(self@.report())),
                SyncPhase::Failed(error) => Some(Err::<SyncReport, SyncError>(error)),
                _ => None::<Result<SyncReport, SyncError>>,
            },
    {
        match self.phase {
            SyncPhase::Done => Some(Ok(self.report())),
            SyncPhase::Failed(error) => Some(Err(error)),
            _ => None,
        }
    }

    fn report(&self) -> (report: SyncReport)
        ensures
            report == self@.report(),
    {
        let replayed = match &self.rebase {
            Some(rebase) => rebase.replayed().len(),
            None => 0,
        };
        if self.created.is_none() && replayed == 0 {
            SyncReport::UpToDate
        } else {
            SyncReport::Completed
        }
    }

    /// What the driver has to do now.
    pub fn pending(&self) -> (action: SyncAction)
        ensures
            action@ == self@.pending(),
            self@.wf(),
    {
        proof {
            use_type_invariant(self);
        }
        match self.phase {
            SyncPhase::Opening => SyncAction::OpenRepository { directory: self.directory.clone() },
            SyncPhase::ReadingStatus => SyncAction::ReadStatus,
            SyncPhase::Staging => SyncAction::StageAll,
            SyncPhase::InspectingHead => SyncAction::InspectHead,
            SyncPhase::Committing => {
                let tree = match &self.tree {
                    Some(tree) => tree.clone(),
                    None => String::new(),
                };
                SyncAction::CreateCommit(
                    CommitRequest {
                        message: self.message.clone(),
                        author: self.identity.duplicate(),
                        committer: self.identity.duplicate(),
                        tree,
                        parent: copy_of(&self.parent),
                    },
                )
            },
            SyncPhase::Fetching => SyncAction::Fetch(RemoteRef::origin_main()),
            SyncPhase::Rebasing => match &self.rebase {
                Some(rebase) => SyncAction::Rebase(rebase.pending()),
                None => SyncAction::Rebase(RebaseAction::Rest),
            },
            SyncPhase::Pushing => {
                let target = RemoteRef::origin_main();
                let refspec = target.refspec();
                SyncAction::Push { remote: target.remote, refspec }
            },
            SyncPhase::Done => SyncAction::Report(self.report()),
            SyncPhase::Failed(error) => SyncAction::Fail(error),
        }
    }

    /// Takes in what the driver reports: the synchronization as it stands
    /// after it.
    pub fn step(self, event: SyncEvent) -> (after: SyncEngine)
        ensures
            after@ == self@.next(event@),
            after@.wf(),
    {
        proof {
            use_type_invariant(&self);
            lemma_sync_next_keeps_wf(self@, event@);
        }
        match self.phase {
            SyncPhase::Opening => match event {
                SyncEvent::Opened => SyncEngine { phase: SyncPhase::ReadingStatus, ..self },
                SyncEvent::OpenFailed => SyncEngine {
                    phase: SyncPhase::Failed(SyncError::Open),
                    ..self
                },
                _ => self,
            },
            SyncPhase::ReadingStatus => match event {
                SyncEvent::StatusRead(status) => {
                    let count = status.len();
                    SyncEngine {
                        phase: if count > 0 {
                            SyncPhase::Staging
                        } else {
                            SyncPhase::Fetching
                        },
                        changes: Some(count),
                        ..self
                    }
                },
                SyncEvent::StatusFailed => SyncEngine {
                    phase: SyncPhase::Failed(SyncError::Status),
                    ..self
                },
                _ => self,
            },
            SyncPhase::Staging => match event {
                SyncEvent::Staged { tree } => SyncEngine {
                    phase: SyncPhase::InspectingHead,
                    tree: Some(tree),
                    ..self
                },
                SyncEvent::StageFailed => SyncEngine {
                    phase: SyncPhase::Failed(SyncError::Commit(CommitError::Stage)),
                    ..self
                },
                _ => self,
            },
            SyncPhase::InspectingHead => match event {
                SyncEvent::Head { tip, initial } => {
                    if tip.is_some() || initial {
                        SyncEngine { phase: SyncPhase::Committing, parent: tip, ..self }
                    } else {
                        SyncEngine {
                            phase: SyncPhase::Failed(SyncError::Commit(CommitError::NoParent)),
                            ..self
                        }
                    }
                },
                _ => self,
            },
            SyncPhase::Committing => match event {
                SyncEvent::Committed { id } => SyncEngine {
                    phase: SyncPhase::Fetching,
                    created: Some(id),
                    ..self
                },
                SyncEvent::CommitFailed => SyncEngine {
                    phase: SyncPhase::Failed(SyncError::Commit(CommitError::Create)),
                    ..self
                },
                _ => self,
            },
            SyncPhase::Fetching => match event {
                SyncEvent::Fetched { remote_tip } => match remote_tip {
                    Some(tip) => {
                        let rebase = Rebase::new(self.identity.duplicate(), tip);
                        SyncEngine { phase: SyncPhase::Rebasing, rebase: Some(rebase), ..self }
                    },
                    None => SyncEngine { phase: SyncPhase::Pushing, ..self },
                },
                SyncEvent::FetchFailed(error) => SyncEngine {
                    phase: SyncPhase::Failed(SyncError::Fetch(error)),
                    ..self
                },
                _ => self,
            },
            SyncPhase::Rebasing => match event {
                SyncEvent::Rebase(inner) => match self.rebase {
                    Some(rebase) => {
                        let after = rebase.step(inner);
                        let phase = match after.state() {
                            RebaseState::Finished => SyncPhase::Pushing,
                            RebaseState::Aborted => SyncPhase::Failed(
                                SyncError::Rebase(
                                    match after.failure() {
                                        Some(failure) => failure,
                                        None => RebaseFailure::Error,
                                    },
                                ),
                            ),
                            _ => SyncPhase::Rebasing,
                        };
                        SyncEngine {
                            directory: self.directory,
                            message: self.message,
                            identity: self.identity,
                            phase,
                            changes: self.changes,
                            tree: self.tree,
                            parent: self.parent,
                            created: self.created,
                            rebase: Some(after),
                        }
                    },
                    None => SyncEngine {
                        directory: self.directory,
                        message: self.message,
                        identity: self.identity,
                        phase: self.phase,
                        changes: self.changes,
                        tree: self.tree,
                        parent: self.parent,
                        created: self.created,
                        rebase: None,
                    },
                },
                _ => self,
            },
            SyncPhase::Pushing => match event {
                SyncEvent::Pushed => SyncEngine { phase: SyncPhase::Done, ..self },
                SyncEvent::PushFailed(error) => SyncEngine {
                    phase: SyncPhase::Failed(SyncError::Push(error)),
                    ..self
                },
                _ => self,
            },
            SyncPhase::Done => self,
            SyncPhase::Failed(_) => self,
        }
    }
}

/// Sets up the synchronization of the secrets in `secrets_dir` with their
/// remote: nothing is done yet, the commit, should one be made, will carry
/// `message` or else the default message, and every commit will bear the
/// identity of the tool.
pub fn sync(secrets_dir: &str, message: Option<&str>) -> (engine: SyncEngine)
    ensures
        engine@ == SyncModel::initial(
            secrets_dir@,
            effective_message(
                match message {
                    Some(m) => Some(m@),
                    None => None,
                },
            ),
            tool_identity(),
        ),
        engine@.wf(),
{
    SyncEngine::new(secrets_dir, message, CommitIdentity::crypta())
}

/// A well-formed synchronization stays well-formed whatever the driver
/// reports.
pub proof fn lemma_sync_next_keeps_wf(sync: SyncModel, event: SyncEventModel)
    requires
        sync.wf(),
    ensures
        sync.next(event).wf(),
{
    if let (SyncPhase::Rebasing, SyncEventModel::Rebase(inner), Some(rebase)) = (
        sync.phase,
        event,
        sync.rebase,
    ) {
        lemma_next_keeps_wf(rebase, inner);
    }
}

/// A well-formed synchronization stays well-formed over any run of events.
pub proof fn lemma_sync_run_keeps_wf(sync: SyncModel, events: Seq<SyncEventModel>)
    requires
        sync.wf(),
    ensures
        sync.run(events).wf(),
    decreases events.len(),
{
    if events.len() > 0 {
        lemma_sync_run_keeps_wf(sync, events.drop_last());
        lemma_sync_next_keeps_wf(sync.run(events.drop_last()), events.last());
    }
}

} // verus!
