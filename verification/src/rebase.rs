use crate::identity::{CommitIdentity, IdentityModel};
use vstd::prelude::*;

verus! {

/// Where a replay of local commits stands.
#[derive(Clone, Copy, Debug, PartialEq, Eq, Structural)]
pub enum RebaseState {
    NotStarted,
    /// The payload is the index of the next operation.
    InProgress(usize),
    Finished,
    Aborted,
}

/// A [`RebaseState`] with an unbounded operation index.
pub enum RebaseStateModel {
    NotStarted,
    InProgress(nat),
    Finished,
    Aborted,
}

impl View for RebaseState {
    type V = RebaseStateModel;

    open spec fn view(&self) -> RebaseStateModel {
        match self {
            RebaseState::NotStarted => RebaseStateModel::NotStarted,
            RebaseState::InProgress(index) => RebaseStateModel::InProgress(*index as nat),
            RebaseState::Finished => RebaseStateModel::Finished,
            RebaseState::Aborted => RebaseStateModel::Aborted,
        }
    }
}

/// Why a replay was given up.
#[derive(Clone, Copy, Debug, PartialEq, Eq, Structural)]
pub enum RebaseFailure {
    /// A commit could not be applied cleanly on its new base.
    Conflict,
    /// The rebase machinery itself failed.
    Error,
}

/// A local commit that the fetched history lacks.
#[derive(Debug)]
pub struct PendingCommit {
    pub id: String,
    pub message: String,
}

pub struct PendingModel {
    pub id: Seq<char>,
    pub message: Seq<char>,
}

impl View for PendingCommit {
    type V = PendingModel;

    open spec fn view(&self) -> PendingModel {
        PendingModel { id: self.id@, message: self.message@ }
    }
}

/// A commit that a replay has written.
#[derive(Debug)]
pub struct ReplayedCommit {
    pub id: String,
    pub parent: String,
    pub message: String,
    pub identity: CommitIdentity,
}

pub struct ReplayedModel {
    pub id: Seq<char>,
    pub parent: Seq<char>,
    pub message: Seq<char>,
    pub identity: IdentityModel,
}

impl View for ReplayedCommit {
    type V = ReplayedModel;

    open spec fn view(&self) -> ReplayedModel {
        ReplayedModel {
            id: self.id@,
            parent: self.parent@,
            message: self.message@,
            identity: self.identity@,
        }
    }
}

/// What the driver is asked to replay: the commit `source`, on top of `base`,
/// with the message it had and the identity of the tool.
#[derive(Debug)]
pub struct ReplayRequest {
    pub index: usize,
    pub source: String,
    pub base: String,
    pub message: String,
    pub identity: CommitIdentity,
}

pub struct ReplayRequestModel {
    pub index: nat,
    pub source: Seq<char>,
    pub base: Seq<char>,
    pub message: Seq<char>,
    pub identity: IdentityModel,
}

impl View for ReplayRequest {
    type V = ReplayRequestModel;

    open spec fn view(&self) -> ReplayRequestModel {
        ReplayRequestModel {
            index: self.index as nat,
            source: self.source@,
            base: self.base@,
            message: self.message@,
            identity: self.identity@,
        }
    }
}

/// What the driver has to do next for the replay.
#[derive(Debug)]
pub enum RebaseAction {
    /// Open a rebase of the local branch onto the commit `onto`.
    Begin { onto: String },
    /// Replay one commit.
    Replay(ReplayRequest),
    /// Close the rebase: move the local branch to the last replayed commit.
    Finalize,
    /// Give the rebase up and put everything back where it was.
    Abort,
    /// Nothing is left to do.
    Rest,
}

pub enum RebaseActionModel {
    Begin { onto: Seq<char> },
    Replay(ReplayRequestModel),
    Finalize,
    Abort,
    Rest,
}

impl View for RebaseAction {
    type V = RebaseActionModel;

    open spec fn view(&self) -> RebaseActionModel {
        match self {
            RebaseAction::Begin { onto } => RebaseActionModel::Begin { onto: onto@ },
            RebaseAction::Replay(request) => RebaseActionModel::Replay(request@),
            RebaseAction::Finalize => RebaseActionModel::Finalize,
            RebaseAction::Abort => RebaseActionModel::Abort,
            RebaseAction::Rest => RebaseActionModel::Rest,
        }
    }
}

/// What the driver reports back.
#[derive(Debug)]
pub enum RebaseEvent {
    /// The rebase is open. `pre_rebase_tip` is where the local branch stands,
    /// `plan` the local commits to replay, oldest first.
    Started { pre_rebase_tip: String, plan: Vec<PendingCommit> },
    /// The rebase could not be opened.
    StartFailed,
    /// The commit asked for was replayed as the commit `id`.
    Replayed { id: String },
    /// The commit asked for does not apply cleanly.
    Conflicted,
    /// The commit asked for could not be replayed for another reason.
    ReplayFailed,
    /// The rebase is closed.
    Finalized,
    /// The rebase could not be closed.
    FinalizeFailed,
    /// The rebase was given up.
    Aborted,
}

pub enum RebaseEventModel {
    Started { pre_rebase_tip: Seq<char>, plan: Seq<PendingModel> },
    StartFailed,
    Replayed { id: Seq<char> },
    Conflicted,
    ReplayFailed,
    Finalized,
    FinalizeFailed,
    Aborted,
}

pub open spec fn plan_model(plan: Seq<PendingCommit>) -> Seq<PendingModel> {
    plan.map_values(|c: PendingCommit| c@)
}

pub open spec fn replayed_model(replayed: Seq<ReplayedCommit>) -> Seq<ReplayedModel> {
    replayed.map_values(|c: ReplayedCommit| c@)
}

impl View for RebaseEvent {
    type V = RebaseEventModel;

    open spec fn view(&self) -> RebaseEventModel {
        match self {
            RebaseEvent::Started { pre_rebase_tip, plan } => RebaseEventModel::Started {
                pre_rebase_tip: pre_rebase_tip@,
                plan: plan_model(plan@),
            },
            RebaseEvent::StartFailed => RebaseEventModel::StartFailed,
            RebaseEvent::Replayed { id } => RebaseEventModel::Replayed { id: id@ },
            RebaseEvent::Conflicted => RebaseEventModel::Conflicted,
            RebaseEvent::ReplayFailed => RebaseEventModel::ReplayFailed,
            RebaseEvent::Finalized => RebaseEventModel::Finalized,
            RebaseEvent::FinalizeFailed => RebaseEventModel::FinalizeFailed,
            RebaseEvent::Aborted => RebaseEventModel::Aborted,
        }
    }
}

/// The replay as plain mathematics.
pub struct RebaseModel {
    pub state: RebaseStateModel,
    pub identity: IdentityModel,
    /// The fetched tip, on which the local commits are replayed.
    pub onto: Seq<char>,
    /// Where the local branch stood when the rebase was opened.
    pub pre_rebase_tip: Option<Seq<char>>,
    pub plan: Seq<PendingModel>,
    pub replayed: Seq<ReplayedModel>,
    pub failure: Option<RebaseFailure>,
}

impl RebaseModel {
    /// A replay that has not been opened yet.
    pub open spec fn fresh(identity: IdentityModel, onto: Seq<char>) -> RebaseModel {
        RebaseModel {
            state: RebaseStateModel::NotStarted,
            identity,
            onto,
            pre_rebase_tip: None,
            plan: Seq::empty(),
            replayed: Seq::empty(),
            failure: None,
        }
    }

    /// The commit on which operation `index` is replayed: the fetched tip
    /// for the first, the previous replayed commit for the others.
    pub open spec fn base(self, index: int) -> Seq<char> {
        if index == 0 {
            self.onto
        } else {
            self.replayed[index - 1].id
        }
    }

    /// Every replayed commit keeps the message of the commit it stands for,
    /// bears the identity of the replay, and sits on the one before it.
    pub open spec fn chained(self) -> bool {
        &&& self.replayed.len() <= self.plan.len()
        &&& forall|k: int|
            0 <= k < self.replayed.len() ==> {
                &&& (#[trigger] self.replayed[k]).message == self.plan[k].message
                &&& self.replayed[k].identity == self.identity
                &&& self.replayed[k].parent == self.base(k)
            }
    }

    /// What is on record fits the state: nothing before the rebase is
    /// opened, as many replayed commits as the index says while it is under
    /// way, all of the plan and no failure once it is finished, and a
    /// failure once it is aborted.
    pub open spec fn wf(self) -> bool {
        &&& self.chained()
        &&& match self.state {
            RebaseStateModel::NotStarted => {
                &&& self.pre_rebase_tip is None
                &&& self.plan.len() == 0
                &&& self.failure is None
            },
            RebaseStateModel::InProgress(index) => {
                &&& self.pre_rebase_tip is Some
                &&& self.replayed.len() == index
            },
            RebaseStateModel::Finished => {
                &&& self.pre_rebase_tip is Some
                &&& self.replayed.len() == self.plan.len()
                &&& self.failure is None
            },
            RebaseStateModel::Aborted => self.failure is Some,
        }
    }

    /// The state that follows `self` when the driver reports `event`. An
    /// event that does not answer the pending action changes nothing.
    pub open spec fn next(self, event: RebaseEventModel) -> RebaseModel {
        match self.state {
            RebaseStateModel::NotStarted => match event {
                RebaseEventModel::Started { pre_rebase_tip, plan } => RebaseModel {
                    state: RebaseStateModel::InProgress(0),
                    pre_rebase_tip: Some(pre_rebase_tip),
                    plan,
                    ..self
                },
                RebaseEventModel::StartFailed => RebaseModel {
                    state: RebaseStateModel::Aborted,
                    failure: Some(RebaseFailure::Error),
                    ..self
                },
                _ => self,
            },
            RebaseStateModel::InProgress(index) => if self.failure is Some {
                match event {
                    RebaseEventModel::Aborted => RebaseModel {
                        state: RebaseStateModel::Aborted,
                        ..self
                    },
                    _ => self,
                }
            } else if index < self.plan.len() {
                match event {
                    RebaseEventModel::Replayed { id } => RebaseModel {
                        state: RebaseStateModel::InProgress(index + 1),
                        replayed: self.replayed.push(
                            ReplayedModel {
                                id,
                                parent: self.base(index as int),
                                message: self.plan[index as int].message,
                                identity: self.identity,
                            },
                        ),
                        ..self
                    },
                    RebaseEventModel::Conflicted => RebaseModel {
                        failure: Some(RebaseFailure::Conflict),
                        ..self
                    },
                    RebaseEventModel::ReplayFailed => RebaseModel {
                        failure: Some(RebaseFailure::Error),
                        ..self
                    },
                    _ => self,
                }
            } else {
                match event {
                    RebaseEventModel::Finalized => RebaseModel {
                        state: RebaseStateModel::Finished,
                        ..self
                    },
                    RebaseEventModel::FinalizeFailed => RebaseModel {
                        failure: Some(RebaseFailure::Error),
                        ..self
                    },
                    _ => self,
                }
            },
            RebaseStateModel::Finished => self,
            RebaseStateModel::Aborted => self,
        }
    }

    /// What the driver has to do in this state.
    pub open spec fn pending(self) -> RebaseActionModel {
        match self.state {
            RebaseStateModel::NotStarted => RebaseActionModel::Begin { onto: self.onto },
            RebaseStateModel::InProgress(index) => if self.failure is Some {
                RebaseActionModel::Abort
            } else if index < self.plan.len() {
                RebaseActionModel::Replay(
                    ReplayRequestModel {
                        index: index as nat,
                        source: self.plan[index as int].id,
                        base: self.base(index as int),
                        message: self.plan[index as int].message,
                        identity: self.identity,
                    },
                )
            } else {
                RebaseActionModel::Finalize
            },
            RebaseStateModel::Finished => RebaseActionModel::Rest,
            RebaseStateModel::Aborted => RebaseActionModel::Rest,
        }
    }

    /// The state reached from `self` after the events of `events`, in order.
    pub open spec fn run(self, events: Seq<RebaseEventModel>) -> RebaseModel
        decreases events.len(),
    {
        if events.len() == 0 {
            self
        } else {
            self.run(events.drop_last()).next(events.last())
        }
    }

    /// The commit the local branch points to, as far as the replay knows:
    /// the last replayed commit (the fetched tip, where nothing was
    /// replayed) once the replay is finished, and until then the commit it
    /// pointed to when the rebase was opened.
    pub open spec fn branch_tip(self) -> Option<Seq<char>> {
        if self.state is Finished {
            if self.replayed.len() == 0 {
                Some(self.onto)
            } else {
                Some(self.replayed.last().id)
            }
        } else {
            self.pre_rebase_tip
        }
    }

    /// The history of the local branch after a finished replay: the fetched
    /// tip, then the replayed commits, oldest first.
    pub open spec fn history(self) -> Seq<Seq<char>> {
        seq![self.onto] + self.replayed.map_values(|c: ReplayedModel| c.id)
    }
}

/// The replay of local commits on a fetched tip, one event at a time. The
/// driver carries out [`Rebase::pending`] and reports what came of it to
/// [`Rebase::step`].
#[derive(Debug)]
pub struct Rebase {
    state: RebaseState,
    identity: CommitIdentity,
    onto: String,
    pre_rebase_tip: Option<String>,
    plan: Vec<PendingCommit>,
    replayed: Vec<ReplayedCommit>,
    failure: Option<RebaseFailure>,
}

impl View for Rebase {
    type V = RebaseModel;

    closed spec fn view(&self) -> RebaseModel {
        RebaseModel {
            state: self.state@,
            identity: self.identity@,
            onto: self.onto@,
            pre_rebase_tip: match self.pre_rebase_tip {
                Some(tip) => Some(tip@),
                None => None,
            },
            plan: plan_model(self.plan@),
            replayed: replayed_model(self.replayed@),
            failure: self.failure,
        }
    }
}

impl Rebase {
    /// Whatever is done to a replay, what it has on record fits its state.
    #[verifier::type_invariant]
    spec fn well_formed(&self) -> bool {
        self@.wf()
    }

    /// A replay onto the commit `onto` that has not been opened yet.
    pub fn new(identity: CommitIdentity, onto: String) -> (rebase: Rebase)
        ensures
            rebase@ == RebaseModel::fresh(identity@, onto@),
            rebase@.wf(),
    {
        let plan: Vec<PendingCommit> = Vec::new();
        let replayed: Vec<ReplayedCommit> = Vec::new();
        assert(plan_model(plan@) =~= Seq::empty());
        assert(replayed_model(replayed@) =~= Seq::empty());
        Rebase {
            state: RebaseState::NotStarted,
            identity,
            onto,
            pre_rebase_tip: None,
            plan,
            replayed,
            failure: None,
        }
    }

    pub fn state(&self) -> (state: RebaseState)
        ensures
            state@ == self@.state,
            self@.wf(),
    {
        proof {
            use_type_invariant(self);
        }
        self.state
    }

    pub fn failure(&self) -> (failure: Option<RebaseFailure>)
        ensures
            failure == self@.failure,
    {
        self.failure
    }

    pub fn plan(&self) -> (plan: &Vec<PendingCommit>)
        ensures
            plan_model(plan@) == self@.plan,
    {
        &self.plan
    }

    pub fn replayed(&self) -> (replayed: &Vec<ReplayedCommit>)
        ensures
            replayed_model(replayed@) == self@.replayed,
    {
        &self.replayed
    }

    fn base(&self, index: usize) -> (base: String)
        requires
            index <= self.replayed@.len(),
        ensures
            base@ == self@.base(index as int),
    {
        if index == 0 {
            self.onto.clone()
        } else {
            self.replayed[index - 1].id.clone()
        }
    }

    /// The commit the local branch points to, as far as the replay knows.
    pub fn branch_tip(&self) -> (tip: Option<String>)
        ensures
            match tip {
                Some(t) => self@.branch_tip() == Some(t@),
                None => self@.branch_tip() is None,
            },
    {
        match self.state {
            RebaseState::Finished => Some(self.base(self.replayed.len())),
            _ => match &self.pre_rebase_tip {
                Some(tip) => Some(tip.clone()),
                None => None,
            },
        }
    }

    /// What the driver has to do now.
    pub fn pending(&self) -> (action: RebaseAction)
        ensures
            action@ == self@.pending(),
            self@.wf(),
    {
        proof {
            use_type_invariant(self);
        }
        match self.state {
            RebaseState::NotStarted => RebaseAction::Begin { onto: self.onto.clone() },
            RebaseState::InProgress(index) => {
                if self.failure.is_some() {
                    RebaseAction::Abort
                } else if index < self.plan.len() {
                    RebaseAction::Replay(
                        ReplayRequest {
                            index,
                            source: self.plan[index].id.clone(),
                            base: self.base(index),
                            message: self.plan[index].message.clone(),
                            identity: self.identity.duplicate(),
                        },
                    )
                } else {
                    RebaseAction::Finalize
                }
            },
            RebaseState::Finished => RebaseAction::Rest,
            RebaseState::Aborted => RebaseAction::Rest,
        }
    }

    /// Takes in what the driver reports: the replay as it stands after it.
    pub fn step(self, event: RebaseEvent) -> (after: Rebase)
        ensures
            after@ == self@.next(event@),
            after@.wf(),
    {
        proof {
            use_type_invariant(&self);
            lemma_next_keeps_wf(self@, event@);
        }
        match self.state {
            RebaseState::NotStarted => match event {
                RebaseEvent::Started { pre_rebase_tip, plan } => Rebase {
                    state: RebaseState::InProgress(0),
                    pre_rebase_tip: Some(pre_rebase_tip),
                    plan,
                    ..self
                },
                RebaseEvent::StartFailed => Rebase {
                    state: RebaseState::Aborted,
                    failure: Some(RebaseFailure::Error),
                    ..self
                },
                _ => self,
            },
            RebaseState::InProgress(index) => {
                if self.failure.is_some() {
                    match event {
                        RebaseEvent::Aborted => Rebase { state: RebaseState::Aborted, ..self },
                        _ => self,
                    }
                } else if index < self.plan.len() {
                    match event {
                        RebaseEvent::Replayed { id } => {
                            let commit = ReplayedCommit {
                                id,
                                parent: self.base(index),
                                message: self.plan[index].message.clone(),
                                identity: self.identity.duplicate(),
                            };
                            let ghost before = self.replayed@;
                            let ghost added = commit@;
                            let mut replayed = self.replayed;
                            replayed.push(commit);
                            assert(replayed_model(replayed@) =~= replayed_model(before).push(
                                added,
                            ));
                            Rebase {
                                state: RebaseState::InProgress(index + 1),
                                identity: self.identity,
                                onto: self.onto,
                                pre_rebase_tip: self.pre_rebase_tip,
                                plan: self.plan,
                                replayed,
                                failure: self.failure,
                            }
                        },
                        RebaseEvent::Conflicted => Rebase {
                            failure: Some(RebaseFailure::Conflict),
                            ..self
                        },
                        RebaseEvent::ReplayFailed => Rebase {
                            failure: Some(RebaseFailure::Error),
                            ..self
                        },
                        _ => self,
                    }
                } else {
                    match event {
                        RebaseEvent::Finalized => Rebase { state: RebaseState::Finished, ..self },
                        RebaseEvent::FinalizeFailed => Rebase {
                            failure: Some(RebaseFailure::Error),
                            ..self
                        },
                        _ => self,
                    }
                }
            },
            RebaseState::Finished => self,
            RebaseState::Aborted => self,
        }
    }
}

/// A well-formed replay stays well-formed whatever the driver reports.
pub proof fn lemma_next_keeps_wf(rebase: RebaseModel, event: RebaseEventModel)
    requires
        rebase.wf(),
    ensures
        rebase.next(event).wf(),
{
    let after = rebase.next(event);
    if after.replayed.len() == rebase.replayed.len() + 1 {
        assert forall|k: int| 0 <= k < after.replayed.len() implies {
            &&& (#[trigger] after.replayed[k]).message == after.plan[k].message
            &&& after.replayed[k].identity == after.identity
            &&& after.replayed[k].parent == after.base(k)
        } by {
            if k < rebase.replayed.len() {
                assert(after.replayed[k] == rebase.replayed[k]);
                assert(after.base(k) == rebase.base(k));
            }
        }
    }
}

/// The events of a replay in which nothing goes wrong, up to and including
/// the first `done` commits: the rebase is opened with `plan`, and commit
/// `k` of the plan is replayed as `ids[k]`.
pub open spec fn replay_events(
    pre_rebase_tip: Seq<char>,
    plan: Seq<PendingModel>,
    ids: Seq<Seq<char>>,
    done: nat,
) -> Seq<RebaseEventModel> {
    seq![RebaseEventModel::Started { pre_rebase_tip, plan }] + Seq::new(
        done,
        |k: int| RebaseEventModel::Replayed { id: ids[k] },
    )
}

/// The commit that the replay of operation `k` writes in such a run.
pub open spec fn replayed_commit(
    identity: IdentityModel,
    onto: Seq<char>,
    plan: Seq<PendingModel>,
    ids: Seq<Seq<char>>,
    k: int,
) -> ReplayedModel {
    ReplayedModel {
        id: ids[k],
        parent: if k == 0 {
            onto
        } else {
            ids[k - 1]
        },
        message: plan[k].message,
        identity,
    }
}

proof fn lemma_replay_prefix(
    identity: IdentityModel,
    onto: Seq<char>,
    pre_rebase_tip: Seq<char>,
    plan: Seq<PendingModel>,
    ids: Seq<Seq<char>>,
    done: nat,
)
    requires
        ids.len() == plan.len(),
        done <= plan.len(),
    ensures
        RebaseModel::fresh(identity, onto).run(replay_events(pre_rebase_tip, plan, ids, done))
            == (RebaseModel {
            state: RebaseStateModel::InProgress(done),
            identity,
            onto,
            pre_rebase_tip: Some(pre_rebase_tip),
            plan,
            replayed: Seq::new(done, |k: int| replayed_commit(identity, onto, plan, ids, k)),
            failure: None,
        }),
    decreases done,
{
    let start = RebaseModel::fresh(identity, onto);
    let events = replay_events(pre_rebase_tip, plan, ids, done);
    let expected = RebaseModel {
        state: RebaseStateModel::InProgress(done),
        identity,
        onto,
        pre_rebase_tip: Some(pre_rebase_tip),
        plan,
        replayed: Seq::new(done, |k: int| replayed_commit(identity, onto, plan, ids, k)),
        failure: None,
    };
    if done == 0 {
        assert(events.drop_last() =~= Seq::empty());
        assert(start.run(events.drop_last()) == start);
        assert(start.run(events).replayed =~= expected.replayed);
    } else {
        let before = (done - 1) as nat;
        lemma_replay_prefix(identity, onto, pre_rebase_tip, plan, ids, before);
        assert(events.drop_last() =~= replay_events(pre_rebase_tip, plan, ids, before));
        assert(events.last() == RebaseEventModel::Replayed { id: ids[before as int] });
        let previous = start.run(events.drop_last());
        assert(previous.next(events.last()).replayed =~= expected.replayed);
    }
}

/// Replay keeps the order and the messages of the local commits: when
/// every commit of `plan` is replayed (commit `k` as `ids[k]`) and the
/// rebase is closed, the replay is finished, commit `k` carries the message
/// of `plan[k]` and the identity of the replay, the first sits on the
/// fetched tip and each other on the one before it, and the branch, which
/// now points to the last of them, reads: the fetched tip, then `ids` in
/// the order of the plan.
pub proof fn law_replay_keeps_order_and_messages(
    identity: IdentityModel,
    onto: Seq<char>,
    pre_rebase_tip: Seq<char>,
    plan: Seq<PendingModel>,
    ids: Seq<Seq<char>>,
)
    requires
        ids.len() == plan.len(),
    ensures
        ({
            let events = replay_events(pre_rebase_tip, plan, ids, plan.len()).push(
                RebaseEventModel::Finalized,
            );
            let end = RebaseModel::fresh(identity, onto).run(events);
            &&& end.state is Finished
            &&& end.failure is None
            &&& end.replayed.len() == plan.len()
            &&& forall|k: int|
                0 <= k < plan.len() ==> #[trigger] end.replayed[k] == replayed_commit(
                    identity,
                    onto,
                    plan,
                    ids,
                    k,
                )
            &&& end.history() == seq![onto] + ids
            &&& end.branch_tip() == Some(end.history().last())
        }),
{
    let start = RebaseModel::fresh(identity, onto);
    let opened = replay_events(pre_rebase_tip, plan, ids, plan.len());
    let events = opened.push(RebaseEventModel::Finalized);
    lemma_replay_prefix(identity, onto, pre_rebase_tip, plan, ids, plan.len());
    assert(events.drop_last() =~= opened);
    let end = start.run(events);
    assert(end == start.run(opened).next(RebaseEventModel::Finalized));
    assert(end.replayed.map_values(|c: ReplayedModel| c.id) =~= ids);
}

/// A replay finishes only after every commit of the plan was replayed and
/// the rebase was closed: whatever the driver reports, a finished replay
/// has as many replayed commits as the plan has commits, each with the
/// message of its commit and on top of the one before it, and no failure.
pub proof fn law_finished_means_all_replayed(
    identity: IdentityModel,
    onto: Seq<char>,
    events: Seq<RebaseEventModel>,
)
    ensures
        ({
            let end = RebaseModel::fresh(identity, onto).run(events);
            &&& end.wf()
            &&& end.identity == identity
            &&& end.onto == onto
            &&& (end.state is Finished ==> {
                &&& end.replayed.len() == end.plan.len()
                &&& end.failure is None
                &&& end.chained()
            })
        }),
    decreases events.len(),
{
    if events.len() > 0 {
        law_finished_means_all_replayed(identity, onto, events.drop_last());
        lemma_next_keeps_wf(RebaseModel::fresh(identity, onto).run(events.drop_last()), events.last());
    }
}

/// A replay step that does not apply cleanly moves nothing: the driver is
/// told to abort, and whatever it reports from then on, the failure stays a
/// conflict, the replay never finishes, and the local branch points where
/// it pointed before the rebase. Once the driver reports the abort, the
/// replay is aborted.
pub proof fn law_conflict_leaves_branch_in_place(
    rebase: RebaseModel,
    events: Seq<RebaseEventModel>,
)
    requires
        rebase.wf(),
        rebase.pending() is Replay,
    ensures
        ({
            let stopped = rebase.next(RebaseEventModel::Conflicted);
            let end = stopped.run(events);
            &&& stopped.pending() == RebaseActionModel::Abort
            &&& stopped.next(RebaseEventModel::Aborted).state is Aborted
            &&& end.failure == Some(RebaseFailure::Conflict)
            &&& (end.state is InProgress || end.state is Aborted)
            &&& end.branch_tip() == rebase.branch_tip()
            &&& end.branch_tip() == rebase.pre_rebase_tip
            &&& end.replayed == rebase.replayed
        }),
    decreases events.len(),
{
    let stopped = rebase.next(RebaseEventModel::Conflicted);
    if events.len() > 0 {
        law_conflict_leaves_branch_in_place(rebase, events.drop_last());
    }
}

/// The same holds of any other failure while a rebase is open: whatever
/// follows it, the replay never finishes and the branch stays where it was.
pub proof fn law_failure_leaves_branch_in_place(
    rebase: RebaseModel,
    events: Seq<RebaseEventModel>,
)
    requires
        rebase.wf(),
        rebase.state is InProgress,
        rebase.failure is Some,
    ensures
        ({
            let end = rebase.run(events);
            &&& end.failure == rebase.failure
            &&& (end.state is InProgress || end.state is Aborted)
            &&& end.branch_tip() == rebase.pre_rebase_tip
            &&& end.replayed == rebase.replayed
        }),
    decreases events.len(),
{
    if events.len() > 0 {
        law_failure_leaves_branch_in_place(rebase, events.drop_last());
    }
}

} // verus!
