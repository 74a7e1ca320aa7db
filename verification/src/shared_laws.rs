//! What holds of silent updates in several processes that share one state file, however they take
//! turns.

use vstd::prelude::*;

use crate::auto::{auto_action, Auto, AutoAction, AutoEvent, AutoStage, EventModel, StageModel};
use crate::auto_laws::{answers, auto_step, installed};
use crate::state::{CheckState, PathBelow};

verus! {

/// A request for the latest release that was answered.
pub struct Request {
    /// The process that asked.
    pub by: int,
    /// When the answer came.
    pub at: u64,
    /// The seconds that the process leaves between two checks.
    pub interval_secs: u64,
    /// The check was stored.
    pub kept: bool,
}

/// A state file, the lock next to it, and the processes that use them.
pub struct Shared {
    /// The path of the state file.
    pub state_path: PathBelow,
    /// The state that is stored, if any.
    pub stored: Option<CheckState>,
    /// The process that holds the lock, if any.
    pub holder: Option<int>,
    /// The silent updates that were begun and are not over, by process.
    pub runs: Map<int, Auto>,
    /// The time, in seconds since the Unix epoch.
    pub clock: u64,
    /// The requests that were answered so far, in order.
    pub requests: Seq<Request>,
}

/// What can happen.
pub enum Move {
    /// A process begins a silent update.
    Begin(int, Auto),
    /// The silent update of a process hears how its action went.
    Hear(int, EventModel),
    /// A process is done, or dies, and its lock is released.
    End(int),
    /// A check that is no part of a silent update is stored.
    CheckElsewhere(CheckState),
}

/// Nothing has happened yet.
pub open spec fn begins(shared: Shared) -> bool {
    shared.holder is None && shared.runs == Map::<int, Auto>::empty() && shared.requests == Seq::<
        Request,
    >::empty()
}

/// The requests, the last of them kept.
pub open spec fn with_last_kept(requests: Seq<Request>) -> Seq<Request> {
    requests.drop_last().push(Request { kept: true, ..requests.last() })
}

/// Process `p` performs the action of its silent update and hears `event`. What was stored is read
/// back, the lock is acquired only while nobody holds it, and a state may fail to be stored.
pub open spec fn hears(before: Shared, after: Shared, p: int, event: EventModel) -> bool {
    let auto = before.runs[p];
    let told = Shared {
        runs: before.runs.insert(p, auto_step(auto, event)),
        clock: after.clock,
        ..before
    };
    &&& before.runs.dom().contains(p)
    &&& answers(auto_action(auto), event)
    &&& match (auto_action(auto), event) {
        (AutoAction::Load, AutoEvent::Loaded(state, now)) => {
            &&& state == before.stored && now == Some(after.clock)
            &&& after == told
        },
        (AutoAction::Lock(_), AutoEvent::Locked(acquired)) => {
            &&& acquired ==> before.holder is None
            &&& after == if acquired {
                Shared { holder: Some(p), ..told }
            } else {
                told
            }
        },
        (AutoAction::Fetch, AutoEvent::Fetched(_, now)) => {
            let request = Request {
                by: p,
                at: after.clock,
                interval_secs: auto.interval.secs,
                kept: false,
            };
            &&& now == Some(after.clock)
            &&& after == (Shared { requests: before.requests.push(request), ..told })
        },
        (AutoAction::Save(state), AutoEvent::Saved) => {
            ||| after == told
            ||| after == (Shared {
                stored: Some(state),
                requests: with_last_kept(before.requests),
                ..told
            })
        },
        _ => after == told,
    }
}

/// One thing happens; the clock does not go back.
pub open spec fn follows(before: Shared, after: Shared, what: Move) -> bool {
    &&& before.clock <= after.clock
    &&& match what {
        Move::Begin(p, auto) => {
            &&& auto.stage is Loading && auto.state_path == before.state_path
            &&& !before.runs.dom().contains(p)
            &&& forall|i: int| 0 <= i < before.requests.len() ==> #[trigger] before.requests[i].by != p
            &&& after == (Shared {
                runs: before.runs.insert(p, auto),
                clock: after.clock,
                ..before
            })
        },
        Move::Hear(p, event) => hears(before, after, p, event),
        Move::End(p) => after == (Shared {
            runs: before.runs.remove(p),
            holder: if before.holder == Some(p) {
                None
            } else {
                before.holder
            },
            clock: after.clock,
            ..before
        }),
        Move::CheckElsewhere(state) => {
            &&& state.last_checked_unix == after.clock
            &&& after == (Shared { stored: Some(state), clock: after.clock, ..before })
        },
    }
}

/// A history: from the beginning one thing happens after the other.
pub open spec fn history(shared: Seq<Shared>, moves: Seq<Move>) -> bool {
    &&& shared.len() == moves.len() + 1
    &&& begins(shared[0])
    &&& forall|i: int|
        #![trigger moves[i]]
        0 <= i < moves.len() ==> follows(shared[i], shared[i + 1], moves[i])
}

/// The stage is one that needs the lock.
pub open spec fn needs_lock(stage: StageModel) -> bool {
    stage is Confirming || stage is Fetching || stage is Saving || stage is Locating
        || stage is Downloading
}

/// The latest release was asked for, and a newer one is being installed or was.
pub open spec fn installs(stage: StageModel) -> bool {
    stage is Locating || stage is Downloading || installed(stage)
}

/// The process has not been answered yet.
spec fn unanswered(stage: StageModel) -> bool {
    stage is Loading || stage is Locking || stage is Confirming || stage is Fetching
}

/// Request `i` was made by process `p`.
pub open spec fn made_by(requests: Seq<Request>, i: int, p: int) -> bool {
    0 <= i < requests.len() && requests[i].by == p
}

/// Of two requests, the later one came an interval after the earlier one, if that was kept.
pub open spec fn an_interval_apart(requests: Seq<Request>, i: int, j: int) -> bool {
    i < j && requests[i].kept ==> requests[j].at >= requests[i].at + requests[j].interval_secs
}

/// What is kept of the requests: they are in order, those that were kept are no later than the
/// stored check, and each came an interval after those that were kept before it.
spec fn requests_hold(shared: Shared) -> bool {
    let requests = shared.requests;
    &&& forall|i: int| 0 <= i < requests.len() ==> #[trigger] requests[i].at <= shared.clock
    &&& forall|i: int|
        0 <= i < requests.len() && (#[trigger] requests[i]).kept ==> shared.stored is Some
            && requests[i].at <= shared.stored->0.last_checked_unix
    &&& forall|i: int, j: int|
        0 <= i < j < requests.len() ==> (#[trigger] requests[i]).at <= (#[trigger] requests[j]).at
    &&& forall|i: int, j: int|
        0 <= i < j < requests.len() ==> (#[trigger] requests[i]).by != (#[trigger] requests[j]).by
    &&& forall|i: int, j: int|
        0 <= i < j < requests.len() ==> #[trigger] an_interval_apart(requests, i, j)
}

/// What is kept of the silent update of process `p`.
spec fn run_holds(shared: Shared, p: int) -> bool {
    let requests = shared.requests;
    let auto = shared.runs[p];
    &&& needs_lock(auto.stage) ==> shared.holder == Some(p)
    &&& auto.stage is Fetching ==> forall|i: int|
        0 <= i < requests.len() && (#[trigger] requests[i]).kept ==> requests[i].at
            + auto.interval.secs <= shared.clock
    &&& auto.stage matches AutoStage::Saving { state, .. } ==> requests.len() > 0
        && requests.last().by == p && requests.last().at == state.last_checked_unix
    &&& unanswered(auto.stage) ==> forall|i: int|
        0 <= i < requests.len() ==> #[trigger] requests[i].by != p
    &&& installs(auto.stage) ==> exists|i: int| #[trigger] made_by(requests, i, p)
}

/// What every move keeps.
spec fn holds(shared: Shared) -> bool {
    &&& requests_hold(shared)
    &&& forall|p: int| #[trigger] shared.runs.dom().contains(p) ==> run_holds(shared, p)
}

proof fn lemma_hearing_keeps_requests(before: Shared, after: Shared, p: int, event: EventModel)
    requires
        holds(before),
        before.clock <= after.clock,
        hears(before, after, p, event),
    ensures
        requests_hold(after),
{
    let auto = before.runs[p];
    let requests = before.requests;
    assert(run_holds(before, p));
    if auto.stage is Fetching {
        assert forall|i: int, j: int| 0 <= i < j < after.requests.len() implies #[trigger]
            an_interval_apart(after.requests, i, j) by {
            if j < requests.len() {
                assert(an_interval_apart(requests, i, j));
            } else {
                assert(after.requests[i] == requests[i]);
            }
        }
    } else if auto.stage is Saving {
        if after.requests != requests {
            assert(after.requests.len() == requests.len());
            assert forall|i: int| 0 <= i < requests.len() implies (#[trigger] after.requests[i]).at
                == requests[i].at && after.requests[i].by == requests[i].by && (i < requests.len() - 1
                ==> after.requests[i] == requests[i]) by {}
            assert forall|i: int, j: int| 0 <= i < j < after.requests.len() implies #[trigger]
                an_interval_apart(after.requests, i, j) by {
                assert(an_interval_apart(requests, i, j));
            }
            assert forall|i: int|
                0 <= i < after.requests.len() && (
                #[trigger] after.requests[i]).kept implies after.requests[i].at
                <= after.stored->0.last_checked_unix by {
                if i < requests.len() - 1 {
                    assert(requests[i].at <= requests[requests.len() - 1].at);
                }
            }
        } else {
            assert forall|i: int, j: int| 0 <= i < j < after.requests.len() implies #[trigger]
                an_interval_apart(after.requests, i, j) by {
                assert(an_interval_apart(requests, i, j));
            }
        }
    } else {
        assert(after.requests == requests);
        assert(after.stored == before.stored);
    }
}

proof fn lemma_hearing_keeps_other_runs(
    before: Shared,
    after: Shared,
    p: int,
    event: EventModel,
    q: int,
)
    requires
        holds(before),
        before.clock <= after.clock,
        hears(before, after, p, event),
        q != p,
        before.runs.dom().contains(q),
    ensures
        run_holds(after, q),
{
    let requests = before.requests;
    let stage = before.runs[q].stage;
    assert(run_holds(before, p));
    assert(run_holds(before, q));
    assert(after.runs[q] == before.runs[q]);
    assert(after.requests.len() >= requests.len());
    assert(forall|i: int| 0 <= i < requests.len() ==> (#[trigger] after.requests[i]).by == requests[i].by);
    if installs(stage) {
        let i = choose|i: int| #[trigger] made_by(requests, i, q);
        assert(made_by(after.requests, i, q));
    }
    if unanswered(stage) {
        assert forall|i: int| 0 <= i < after.requests.len() implies #[trigger] after.requests[i].by
            != q by {
            if i < requests.len() {
                assert(requests[i].by != q);
            }
        }
    }
    if needs_lock(stage) {
        assert(after.requests == requests);
    }
}

proof fn lemma_hearing_keeps_its_run(before: Shared, after: Shared, p: int, event: EventModel)
    requires
        holds(before),
        before.clock <= after.clock,
        hears(before, after, p, event),
    ensures
        run_holds(after, p),
{
    let requests = before.requests;
    let auto = before.runs[p];
    let stage = after.runs[p].stage;
    assert(run_holds(before, p));
    if auto.stage is Saving {
        assert(after.requests.len() == requests.len());
        assert(made_by(after.requests, requests.len() - 1, p));
    } else if installs(auto.stage) {
        let i = choose|i: int| #[trigger] made_by(requests, i, p);
        assert(made_by(after.requests, i, p));
    } else if auto.stage is Confirming && stage is Fetching {
        assert forall|i: int|
            0 <= i < requests.len() && (#[trigger] requests[i]).kept implies requests[i].at
            + auto.interval.secs <= after.clock by {
            assert(requests[i].at <= before.stored->0.last_checked_unix);
        }
    }
}

proof fn lemma_moves_keep(before: Shared, after: Shared, what: Move)
    requires
        holds(before),
        follows(before, after, what),
    ensures
        holds(after),
{
    match what {
        Move::Hear(p, event) => {
            lemma_hearing_keeps_requests(before, after, p, event);
            assert forall|q: int| #[trigger] after.runs.dom().contains(q) implies run_holds(
                after,
                q,
            ) by {
                if q == p {
                    lemma_hearing_keeps_its_run(before, after, p, event);
                } else {
                    lemma_hearing_keeps_other_runs(before, after, p, event, q);
                }
            }
        },
        _ => {
            assert(after.requests == before.requests);
            assert forall|q: int| #[trigger] after.runs.dom().contains(q) implies run_holds(
                after,
                q,
            ) by {
                if before.runs.dom().contains(q) {
                    assert(run_holds(before, q));
                    assert(after.runs[q] == before.runs[q]);
                }
            }
        },
    }
}

/// What every move keeps holds all along a history.
proof fn lemma_histories_hold(shared: Seq<Shared>, moves: Seq<Move>, k: int)
    requires
        history(shared, moves),
        0 <= k < shared.len(),
    ensures
        holds(shared[k]),
    decreases k,
{
    if k > 0 {
        lemma_histories_hold(shared, moves, k - 1);
        let what = moves[k - 1];
        assert(follows(shared[k - 1], shared[k], what));
        lemma_moves_keep(shared[k - 1], shared[k], what);
    }
}

/// At most one request per interval, over all processes: a request whose check was stored is
/// followed by the next one only an interval later. That holds of the time at which the next one is
/// sent, too: whenever the latest release is to be asked for, the interval is over.
pub proof fn law_requests_are_an_interval_apart(
    shared: Seq<Shared>,
    moves: Seq<Move>,
    k: int,
    i: int,
)
    requires
        history(shared, moves),
        0 <= k < shared.len(),
        0 <= i < shared[k].requests.len(),
        shared[k].requests[i].kept,
    ensures
        forall|j: int|
            i < j < shared[k].requests.len() ==> (#[trigger] shared[k].requests[j]).at
                >= shared[k].requests[i].at + shared[k].requests[j].interval_secs,
        forall|p: int|
            #![trigger shared[k].runs[p]]
            shared[k].runs.dom().contains(p) && auto_action(shared[k].runs[p]) is Fetch
                ==> shared[k].clock >= shared[k].requests[i].at + shared[k].runs[p].interval.secs,
{
    lemma_histories_hold(shared, moves, k);
    assert forall|j: int| i < j < shared[k].requests.len() implies (
    #[trigger] shared[k].requests[j]).at >= shared[k].requests[i].at
        + shared[k].requests[j].interval_secs by {
        assert(an_interval_apart(shared[k].requests, i, j));
    }
    assert forall|p: int|
        #![trigger shared[k].runs[p]]
        shared[k].runs.dom().contains(p) && auto_action(
            shared[k].runs[p],
        ) is Fetch implies shared[k].clock >= shared[k].requests[i].at
        + shared[k].runs[p].interval.secs by {
        assert(run_holds(shared[k], p));
    }
}

/// Whatever the processes do: a silent update that reads the state within the interval after a
/// request whose check was stored is over, with nothing asked and nothing installed.
pub proof fn law_within_the_interval_nothing_is_asked(
    shared: Seq<Shared>,
    moves: Seq<Move>,
    k: int,
    i: int,
    p: int,
    event: EventModel,
)
    requires
        history(shared, moves),
        0 <= k < moves.len(),
        moves[k] == Move::Hear(p, event),
        auto_action(shared[k].runs[p]) is Load,
        0 <= i < shared[k].requests.len(),
        shared[k].requests[i].kept,
        shared[k].runs[p].interval.secs > 0,
        shared[k + 1].clock < shared[k].requests[i].at + shared[k].runs[p].interval.secs,
    ensures
        shared[k + 1].runs[p].stage == StageModel::Finished(Ok(None)),
{
    lemma_histories_hold(shared, moves, k);
    assert(follows(shared[k], shared[k + 1], moves[k]));
}

/// One at a time: of all processes at most one has anything to do with the network, the stored
/// state of its check, or the executable.
pub proof fn law_one_process_at_a_time(
    shared: Seq<Shared>,
    moves: Seq<Move>,
    k: int,
    p: int,
    q: int,
)
    requires
        history(shared, moves),
        0 <= k < shared.len(),
        shared[k].runs.dom().contains(p),
        shared[k].runs.dom().contains(q),
        needs_lock(shared[k].runs[p].stage),
        needs_lock(shared[k].runs[q].stage),
    ensures
        p == q,
{
    lemma_histories_hold(shared, moves, k);
    assert(run_holds(shared[k], p));
    assert(run_holds(shared[k], q));
}

/// Two processes that begin at once do not both replace the executable: where two of them come to
/// install a release, each has made a request of its own, and the later request came an interval
/// after the earlier one, if the check of that one was stored.
pub proof fn law_two_processes_do_not_both_install(
    shared: Seq<Shared>,
    moves: Seq<Move>,
    k: int,
    p: int,
    q: int,
)
    requires
        history(shared, moves),
        0 <= k < shared.len(),
        p != q,
        shared[k].runs.dom().contains(p),
        shared[k].runs.dom().contains(q),
        installs(shared[k].runs[p].stage),
        installs(shared[k].runs[q].stage),
    ensures
        exists|i: int, j: int|
            {
                &&& #[trigger] made_by(shared[k].requests, i, p)
                &&& #[trigger] made_by(shared[k].requests, j, q)
                &&& i != j
                &&& an_interval_apart(shared[k].requests, i, j)
                &&& an_interval_apart(shared[k].requests, j, i)
            },
{
    lemma_histories_hold(shared, moves, k);
    assert(run_holds(shared[k], p));
    assert(run_holds(shared[k], q));
    let requests = shared[k].requests;
    let i = choose|i: int| #[trigger] made_by(requests, i, p);
    let j = choose|j: int| #[trigger] made_by(requests, j, q);
    assert(an_interval_apart(requests, i, j));
    assert(an_interval_apart(requests, j, i));
}

/// No process makes two requests in one silent update.
pub proof fn law_each_update_asks_once(shared: Seq<Shared>, moves: Seq<Move>, k: int, p: int)
    requires
        history(shared, moves),
        0 <= k < shared.len(),
    ensures
        forall|i: int, j: int|
            #[trigger] made_by(shared[k].requests, i, p) && #[trigger] made_by(
                shared[k].requests,
                j,
                p,
            ) ==> i == j,
{
    lemma_histories_hold(shared, moves, k);
}

} // verus!
