use crate::engine::{lemma_sync_run_keeps_wf, SyncActionModel, SyncEventModel, SyncModel};
use crate::rebase::RebaseActionModel;
use crate::errors::SyncReport;
use crate::identity::{effective_message, tool_identity, IdentityModel};
use vstd::prelude::*;

verus! {

/// A working tree without changes is never committed: once the status read
/// has found nothing, whatever the driver reports, no commit is made, and
/// the driver is never asked to stage, to look up the branch tip or to
/// write a commit. And where the replay then finds no local commit that the
/// remote lacks, nothing is replayed, and a synchronization that succeeds
/// reports that all is up to date.
pub proof fn law_clean_tree_is_not_committed(
    directory: Seq<char>,
    message: Seq<char>,
    identity: IdentityModel,
    events: Seq<SyncEventModel>,
)
    ensures
        ({
            let sync = SyncModel::initial(directory, message, identity).run(events);
            sync.changes == Some(0nat) ==> {
                &&& sync.created is None
                &&& !(sync.pending() is StageAll)
                &&& !(sync.pending() is InspectHead)
                &&& !(sync.pending() is CreateCommit)
                &&& (sync.rebase matches Some(rebase) ==> (rebase.plan.len() == 0 ==> {
                    &&& rebase.replayed.len() == 0
                    &&& !(rebase.pending() is Replay)
                    &&& (sync.phase is Done ==> sync.pending() == SyncActionModel::Report(
                        SyncReport::UpToDate,
                    ))
                }))
            }
        }),
{
    lemma_sync_run_keeps_wf(SyncModel::initial(directory, message, identity), events);
}

/// Every commit that a synchronization asks for is written and signed by
/// the identity it was set up with, and carries the message it was set up
/// with: for the tool, the fixed identity, and the caller's message or the
/// default one.
pub proof fn law_commit_bears_identity_and_message(
    directory: Seq<char>,
    message: Option<Seq<char>>,
    events: Seq<SyncEventModel>,
)
    ensures
        ({
            let sync = SyncModel::initial(
                directory,
                effective_message(message),
                tool_identity(),
            ).run(events);
            sync.pending() matches SyncActionModel::CreateCommit(request) ==> {
                &&& request.author == tool_identity()
                &&& request.committer == tool_identity()
                &&& request.message == match message {
                    Some(m) => m,
                    None => "Sync secrets"@,
                }
            }
        }),
{
    let start = SyncModel::initial(directory, effective_message(message), tool_identity());
    lemma_settings_are_kept(start, events);
}

/// Every commit that a replay writes bears the identity of the tool too:
/// whatever the driver reports, a replay that is asked for is asked for
/// under the fixed identity, and every replayed commit on record bears it.
pub proof fn law_replays_bear_the_identity(
    directory: Seq<char>,
    message: Seq<char>,
    events: Seq<SyncEventModel>,
)
    ensures
        ({
            let sync = SyncModel::initial(directory, message, tool_identity()).run(events);
            &&& sync.pending() matches SyncActionModel::Rebase(RebaseActionModel::Replay(request))
                ==> request.identity == tool_identity()
            &&& sync.rebase matches Some(rebase) ==> forall|k: int|
                0 <= k < rebase.replayed.len() ==> (#[trigger] rebase.replayed[k]).identity
                    == tool_identity()
        }),
{
    let start = SyncModel::initial(directory, message, tool_identity());
    lemma_settings_are_kept(start, events);
    lemma_sync_run_keeps_wf(start, events);
}

/// A run changes neither the directory, nor the message, nor the identity.
pub proof fn lemma_settings_are_kept(sync: SyncModel, events: Seq<SyncEventModel>)
    ensures
        sync.run(events).directory == sync.directory,
        sync.run(events).message == sync.message,
        sync.run(events).identity == sync.identity,
    decreases events.len(),
{
    if events.len() > 0 {
        lemma_settings_are_kept(sync, events.drop_last());
    }
}

/// A working tree with changes is committed: when the repository opens,
/// the status read finds `changes > 0` changed paths, they are staged as
/// `tree`, and the branch points to `tip` (or nowhere, in a repository
/// without history), the driver is asked for one commit of `tree` on `tip`,
/// by the identity and with the message of the synchronization. Once it
/// reports the commit `id`, that commit is on record and the fetch is next.
pub proof fn law_changes_are_committed(
    start: SyncModel,
    changes: nat,
    tree: Seq<char>,
    tip: Option<Seq<char>>,
    id: Seq<char>,
)
    requires
        start.wf(),
        start.phase is Opening,
        changes > 0,
    ensures
        ({
            let asked = start.next(SyncEventModel::Opened).next(
                SyncEventModel::StatusRead { changes },
            ).next(SyncEventModel::Staged { tree }).next(
                SyncEventModel::Head { tip, initial: tip is None },
            );
            let made = asked.next(SyncEventModel::Committed { id });
            &&& asked.pending() matches SyncActionModel::CreateCommit(request)
            &&& request.author == start.identity
            &&& request.committer == start.identity
            &&& request.message == start.message
            &&& request.tree == tree
            &&& request.parent == tip
            &&& made.created == Some(id)
            &&& made.pending() is Fetch
        }),
{
}

/// Local changes are committed before the remote is contacted: whenever
/// the driver is asked to fetch, to replay or to push, either the working
/// tree had no changes, or the commit that holds them exists.
pub proof fn law_commit_comes_before_fetch(
    directory: Seq<char>,
    message: Seq<char>,
    identity: IdentityModel,
    events: Seq<SyncEventModel>,
)
    ensures
        ({
            let sync = SyncModel::initial(directory, message, identity).run(events);
            sync.pending() is Fetch || sync.pending() is Rebase || sync.pending() is Push ==> {
                ||| sync.changes == Some(0nat)
                ||| sync.created is Some
            }
        }),
{
    lemma_sync_run_keeps_wf(SyncModel::initial(directory, message, identity), events);
}

/// What was done is not undone: the commit that a synchronization has
/// made stays on record whatever follows, a failure included; and a
/// synchronization that has failed stays failed, with the same error, and
/// asks for nothing more.
pub proof fn law_commit_outlives_failure(sync: SyncModel, events: Seq<SyncEventModel>)
    requires
        sync.wf(),
    ensures
        sync.created is Some ==> sync.run(events).created == sync.created,
        sync.phase is Failed ==> sync.run(events) == sync,
        sync.phase is Failed ==> sync.pending() is Fail,
    decreases events.len(),
{
    if events.len() > 0 {
        law_commit_outlives_failure(sync, events.drop_last());
        lemma_sync_run_keeps_wf(sync, events.drop_last());
    }
}

/// A second synchronization right after a first one moves nothing. Let
/// `first` be a synchronization that succeeded, and `second` one that
/// succeeds after it with the working tree unchanged (its status read finds
/// nothing) and the remote unchanged (it fetches the commit that `first`
/// left the branch on, the branch still points there, and holds nothing
/// that the remote lacks). Then `second` makes no commit, replays none,
/// leaves the branch on that same commit, and reports that all is up to
/// date.
pub proof fn law_second_run_moves_nothing(
    first: SyncModel,
    directory: Seq<char>,
    message: Seq<char>,
    identity: IdentityModel,
    events: Seq<SyncEventModel>,
)
    requires
        first.wf(),
        first.phase is Done,
        first.branch_tip() is Some,
        ({
            let second = SyncModel::initial(directory, message, identity).run(events);
            &&& second.phase is Done
            &&& second.changes == Some(0nat)
            &&& second.rebase matches Some(replay)
            &&& Some(replay.onto) == first.branch_tip()
            &&& replay.pre_rebase_tip == first.branch_tip()
            &&& replay.plan.len() == 0
        }),
    ensures
        ({
            let second = SyncModel::initial(directory, message, identity).run(events);
            &&& second.created is None
            &&& second.rebase->0.replayed.len() == 0
            &&& second.branch_tip() == first.branch_tip()
            &&& second.report() == SyncReport::UpToDate
        }),
{
    lemma_sync_run_keeps_wf(SyncModel::initial(directory, message, identity), events);
}

/// The phases come in one order: a synchronization that is done has read
/// the status and, unless the remote had no such branch yet, has a finished
/// replay behind it, in which every local commit of the plan was replayed.
pub proof fn law_done_means_replayed_and_pushed(
    directory: Seq<char>,
    message: Seq<char>,
    identity: IdentityModel,
    events: Seq<SyncEventModel>,
)
    ensures
        ({
            let sync = SyncModel::initial(directory, message, identity).run(events);
            sync.phase is Done ==> {
                &&& sync.changes is Some
                &&& (sync.rebase matches Some(rebase) ==> {
                    &&& rebase.state is Finished
                    &&& rebase.replayed.len() == rebase.plan.len()
                })
            }
        }),
{
    lemma_sync_run_keeps_wf(SyncModel::initial(directory, message, identity), events);
}

} // verus!
