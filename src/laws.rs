//! Properties of the session core that span several steps, stated over the
//! models that the steps' contracts use.
use crate::table::{held_slot, RequestId};
use crate::write_unit::{following_id, WriteUnit};
use vstd::prelude::*;

verus! {

proof fn ids_count_up(units: Seq<WriteUnit>, ids: Seq<RequestId>, k: int)
    requires
        units.len() == ids.len() + 1,
        ids.len() <= i32::MAX + 1,
        units[0].spec_next_id() == 0,
        forall|i: int|
            0 <= i < ids.len() ==> #[trigger] ids[i] == units[i].spec_next_id()
                && units[i + 1].spec_next_id() == following_id(units[i].spec_next_id()),
        0 <= k < ids.len(),
    ensures
        units[k].spec_next_id() == k,
    decreases k,
{
    if k > 0 {
        ids_count_up(units, ids, k - 1);
        assert(ids[k - 1] == units[k - 1].spec_next_id());
    }
}

/// Requests that a fresh write unit serves one after another get the ids
/// 0, 1, ..., N-1, in the order in which they were submitted. `units[i]` is
/// the unit as it takes the i-th request and `ids[i]` the id that request
/// got; between two requests the id counter moves on by one step, as
/// `WriteUnit::dispatch` states.
pub proof fn consecutive_requests_get_ids_from_zero(units: Seq<WriteUnit>, ids: Seq<RequestId>)
    requires
        units.len() == ids.len() + 1,
        ids.len() <= i32::MAX + 1,
        units[0].spec_next_id() == 0,
        forall|i: int|
            0 <= i < ids.len() ==> #[trigger] ids[i] == units[i].spec_next_id()
                && units[i + 1].spec_next_id() == following_id(units[i].spec_next_id()),
    ensures
        forall|i: int| 0 <= i < ids.len() ==> ids[i] == i,
{
    assert forall|i: int| 0 <= i < ids.len() implies ids[i] == i by {
        ids_count_up(units, ids, i);
    }
}

/// A request whose write fails leaves no trace: registering its slot under
/// a fresh id (`WriteUnit::dispatch`) and then removing that entry on the
/// failure (`WriteUnit::write_finished`) gives back the table as it was, and
/// the slot handed back for dropping is the failed request's own.
pub proof fn failed_write_leaves_table_as_before<S>(
    before: Map<RequestId, S>,
    id: RequestId,
    slot: S,
)
    requires
        !before.contains_key(id),
    ensures
        before.insert(id, slot).remove(id) == before,
        !before.insert(id, slot).remove(id).contains_key(id),
        held_slot(before.insert(id, slot), id) == Some(slot),
{
    assert(before.insert(id, slot).remove(id) =~= before);
}

/// A reply to a pending id reaches exactly one caller, and at most once:
/// the slot it completes is the one registered under its id, every other
/// pending request keeps its slot, and a second frame with the same id
/// finds no entry and goes to subscribers (`ReadUnit::on_event`).
pub proof fn reply_completes_only_its_own_request<S>(before: Map<RequestId, S>, id: RequestId)
    requires
        before.contains_key(id),
    ensures
        held_slot(before, id) == Some(before[id]),
        forall|other: RequestId|
            other != id && before.contains_key(other) ==> #[trigger] before.remove(id).contains_key(
                other,
            ) && before.remove(id)[other] == before[other],
        held_slot(before.remove(id), id) is None,
{
}

} // verus!
