//! Runs of the poller over whole sequences of poll observations, and the
//! proof that it keeps at most one request outstanding at any tick.

use vstd::prelude::*;
use crate::poller::ActionModel;
use crate::poller::EventModel;
use crate::poller::PollerModel;
use crate::poller::StateModel;
use crate::poller::event_fits;
use crate::poller::init_model;
use crate::poller::step;

verus! {

/// How many hardware requests the poller believes are outstanding: its state
/// records none, or exactly the one it last asked for.
pub open spec fn outstanding(s: StateModel) -> int {
    if s is Idle {
        0
    } else {
        1
    }
}

/// How many requests an action issues.
pub open spec fn issued_by(a: ActionModel) -> int {
    if a is Wait {
        0
    } else {
        1
    }
}

/// How many requests an observation consumes: a resolution discards the
/// request it came from, `Pending` consumes nothing.
pub open spec fn resolved_by(ev: EventModel) -> int {
    if ev is Pending {
        0
    } else {
        1
    }
}

/// The poller after a fresh start and one tick per observation in `evs`.
pub open spec fn run(evs: Seq<EventModel>) -> PollerModel
    decreases evs.len(),
{
    if evs.len() == 0 {
        init_model()
    } else {
        step(run(evs.drop_last()), evs.last()).0
    }
}

/// Every observation in `evs` is one the driver can deliver in the state the
/// poller has reached by then.
pub open spec fn feasible(evs: Seq<EventModel>) -> bool {
    forall|i: int|
        0 <= i < evs.len() ==> event_fits(#[trigger] run(evs.take(i)).state, evs[i])
}

/// The number of driver requests alive after the ticks in `evs`: each issue
/// action creates one, each resolution consumes one.
pub open spec fn live_requests(evs: Seq<EventModel>) -> int
    decreases evs.len(),
{
    if evs.len() == 0 {
        0
    } else {
        live_requests(evs.drop_last()) - resolved_by(evs.last()) + issued_by(
            step(run(evs.drop_last()), evs.last()).1,
        )
    }
}

/// A prefix of a feasible sequence of observations is feasible.
pub proof fn lemma_feasible_prefix(evs: Seq<EventModel>, n: int)
    requires
        feasible(evs),
        0 <= n <= evs.len(),
    ensures
        feasible(evs.take(n)),
{
    assert forall|i: int| 0 <= i < n implies event_fits(
        #[trigger] run(evs.take(n).take(i)).state,
        evs.take(n)[i],
    ) by {
        assert(evs.take(n).take(i) =~= evs.take(i));
    }
}

/// The poller's state is an exact ledger of the driver's outstanding
/// requests: after any feasible sequence of observations, the number of
/// requests issued and not yet resolved equals what the state records.
pub proof fn lemma_state_counts_requests(evs: Seq<EventModel>)
    requires
        feasible(evs),
    ensures
        live_requests(evs) == outstanding(run(evs).state),
    decreases evs.len(),
{
    if evs.len() > 0 {
        let prefix = evs.drop_last();
        assert(prefix =~= evs.take(evs.len() - 1));
        lemma_feasible_prefix(evs, evs.len() - 1);
        lemma_state_counts_requests(prefix);
        assert(event_fits(run(evs.take(evs.len() - 1)).state, evs[evs.len() - 1]));
    }
}

/// At most one request is outstanding at any tick: after every prefix of a
/// feasible sequence of observations, the requests alive number zero or one.
pub proof fn lemma_at_most_one_outstanding(evs: Seq<EventModel>, n: int)
    requires
        feasible(evs),
        0 <= n <= evs.len(),
    ensures
        0 <= live_requests(evs.take(n)) <= 1,
{
    lemma_feasible_prefix(evs, n);
    lemma_state_counts_requests(evs.take(n));
}

} // verus!
