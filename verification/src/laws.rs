//! The guarantees the transition relation gives, stated once and proved for
//! every state and observation.

use vstd::prelude::*;
use crate::poller::ActionModel;
use crate::poller::DisplayModel;
use crate::poller::EventModel;
use crate::poller::LookupModel;
use crate::poller::PollerModel;
use crate::poller::ScanModel;
use crate::poller::StateModel;
use crate::poller::event_fits;
use crate::poller::step;

verus! {

/// A tag scan that resolves to a found tag produces exactly one user lookup,
/// keyed by that tag: a tick asks for a lookup of `tag` precisely when it
/// consumes such a resolution, and the poller then awaits that very lookup.
pub proof fn lemma_found_tag_issues_one_lookup(s: PollerModel, ev: EventModel, tag: Seq<char>)
    requires
        event_fits(s.state, ev),
    ensures
        step(s, ev).1 == ActionModel::IssueUserLookup(tag) <==> ev == EventModel::TagScan(
            ScanModel::Found(tag),
        ),
        ev == EventModel::TagScan(ScanModel::Found(tag)) ==> step(s, ev).0.state
            == StateModel::AwaitingUser(tag),
{
}

/// A tag scan that resolves without a tag, or in error, resets the display
/// to no user, and the next idle tick issues a fresh tag scan.
pub proof fn lemma_missed_tag_resets_and_rescans(s: PollerModel, ev: EventModel)
    requires
        event_fits(s.state, ev),
        ev == EventModel::TagScan(ScanModel::Absent) || ev == EventModel::TagScan(
            ScanModel::Failed,
        ),
    ensures
        step(s, ev).0.display is NoUser,
        step(s, ev).0.state is Idle,
        step(s, ev).1 is Wait,
        step(step(s, ev).0, EventModel::Pending).1 is IssueTagScan,
        step(step(s, ev).0, EventModel::Pending).0.state is AwaitingTag,
{
}

/// A user lookup that resolves to a record sets the display to that record's
/// username, and the poller goes idle.
pub proof fn lemma_found_user_is_displayed(s: PollerModel, name: Seq<char>)
    requires
        event_fits(s.state, EventModel::UserLookup(LookupModel::Found(name))),
    ensures
        step(s, EventModel::UserLookup(LookupModel::Found(name))).0.display == DisplayModel::User(
            name,
        ),
        step(s, EventModel::UserLookup(LookupModel::Found(name))).0.state is Idle,
{
}

/// A user lookup that resolves in error leaves the display exactly as it was
/// before the request: the last identified user stays visible.
pub proof fn lemma_failed_lookup_keeps_display(s: PollerModel)
    requires
        event_fits(s.state, EventModel::UserLookup(LookupModel::Failed)),
    ensures
        step(s, EventModel::UserLookup(LookupModel::Failed)).0.display == s.display,
        step(s, EventModel::UserLookup(LookupModel::Failed)).0.state is Idle,
{
}

} // verus!
