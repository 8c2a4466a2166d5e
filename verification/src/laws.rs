//! The laws the queue obeys, stated over the actor's step function and
//! proved once and for all. Each proof function here is part of what the
//! library promises, not a helper.

use crate::actor::{is_read_only, spec_run, spec_step, Command, ResponseModel};
use crate::queue::{
    lemma_spec_find_is_first_match, spec_add_index, spec_add_state, spec_find, spec_pop_result,
    spec_pop_state, spec_remove_result, spec_remove_state, EntryModel, QueueModel,
};
use vstd::prelude::*;

verus! {

/// The name an `AddUser` command carries (and nothing, for any other).
pub open spec fn add_name(cmd: Command) -> Seq<char> {
    match cmd {
        Command::AddUser { name } => name@,
        _ => Seq::empty(),
    }
}

/// A name is absent from the queue exactly when the scan finds nothing.
pub proof fn lemma_find_none_iff_absent(q: QueueModel, name: Seq<char>)
    ensures
        (spec_find(q.entries, name) is None) <==> !q.names().contains(name),
{
    lemma_spec_find_is_first_match(q.entries, name);
    match spec_find(q.entries, name) {
        Some(i) => {
            assert(q.names()[i] == name);
            assert(q.names().contains(name));
        },
        None => {
            assert forall|j: int| 0 <= j < q.names().len() implies q.names()[j] != name by {
                assert(q.names()[j] == q.entries[j].nickname);
            }
        },
    }
}

/// Appending a fresh name keeps the queue well formed.
pub proof fn lemma_add_fresh_preserves_wf(q: QueueModel, name: Seq<char>, ts: i64)
    requires
        q.wf(),
        q.next_id < u64::MAX,
        spec_find(q.entries, name) is None,
    ensures
        spec_add_state(q, name, ts).wf(),
{
    lemma_spec_find_is_first_match(q.entries, name);
    let q1 = spec_add_state(q, name, ts);
    let n = q.entries.len() as int;
    assert forall|i: int, j: int|
        0 <= i < j < q1.entries.len() implies (#[trigger] q1.entries[i]).nickname != (
    #[trigger] q1.entries[j]).nickname by {
        if j < n {
            assert(q1.entries[i] == q.entries[i] && q1.entries[j] == q.entries[j]);
        } else {
            assert(q1.entries[i] == q.entries[i]);
        }
    }
    assert forall|i: int, j: int|
        0 <= i < j < q1.entries.len() implies (#[trigger] q1.entries[i]).id < (
    #[trigger] q1.entries[j]).id by {
        if j < n {
            assert(q1.entries[i] == q.entries[i] && q1.entries[j] == q.entries[j]);
        } else {
            assert(q1.entries[i] == q.entries[i]);
            assert(q.entries[i].id < q.next_id);
        }
    }
}

/// FIFO arrival order: when the actor consumes any stretch of `AddUser`
/// commands whose names are pairwise distinct and not yet waiting, the
/// resulting order of names is the queue's old order followed by the
/// commands' arrival order, exactly.
pub proof fn lemma_adds_keep_arrival_order(q: QueueModel, cmds: Seq<Command>, tss: Seq<i64>)
    requires
        q.wf(),
        cmds.len() == tss.len(),
        q.next_id + cmds.len() <= u64::MAX,
        forall|i: int| 0 <= i < cmds.len() ==> (#[trigger] cmds[i]) matches Command::AddUser { .. },
        forall|i: int, j: int|
            0 <= i < j < cmds.len() ==> add_name(cmds[i]) != add_name(cmds[j]),
        forall|i: int| 0 <= i < cmds.len() ==> !q.names().contains(#[trigger] add_name(cmds[i])),
    ensures
        spec_run(q, cmds, tss).wf(),
        spec_run(q, cmds, tss).names() == q.names() + cmds.map_values(|c: Command| add_name(c)),
        spec_run(q, cmds, tss).is_open == q.is_open,
        spec_run(q, cmds, tss).next_id == q.next_id + cmds.len(),
    decreases cmds.len(),
{
    let added = cmds.map_values(|c: Command| add_name(c));
    if cmds.len() == 0 {
        assert(q.names() + added =~= q.names());
    } else {
        let n0 = add_name(cmds[0]);
        lemma_find_none_iff_absent(q, n0);
        lemma_add_fresh_preserves_wf(q, n0, tss[0]);
        let q1 = spec_add_state(q, n0, tss[0]);
        assert(spec_step(q, cmds[0], tss[0]).0 == q1);
        assert(q1.names() =~= q.names().push(n0));
        let rest = cmds.drop_first();
        let trest = tss.drop_first();
        assert forall|i: int|
            0 <= i < rest.len() implies !q1.names().contains(
            #[trigger] add_name(rest[i]),
        ) by {
            assert(rest[i] == cmds[i + 1]);
            assert(add_name(cmds[i + 1]) != n0);
            if q1.names().contains(add_name(rest[i])) {
                let w = choose|w: int|
                    0 <= w < q1.names().len() && q1.names()[w] == add_name(rest[i]);
                assert(w < q.names().len() ==> q.names().contains(add_name(cmds[i + 1])));
            }
        }
        assert forall|i: int, j: int|
            0 <= i < j < rest.len() implies add_name(rest[i]) != add_name(rest[j]) by {
            assert(rest[i] == cmds[i + 1] && rest[j] == cmds[j + 1]);
        }
        assert forall|i: int|
            0 <= i < rest.len() implies (#[trigger] rest[i]) matches Command::AddUser {
                ..
            } by {
            assert(rest[i] == cmds[i + 1]);
        }
        lemma_adds_keep_arrival_order(q1, rest, trest);
        assert(spec_run(q, cmds, tss) == spec_run(q1, rest, trest));
        let radded = rest.map_values(|c: Command| add_name(c));
        assert(q.names() + added =~= (q.names().push(n0)) + radded);
        assert(spec_run(q, cmds, tss).names() == q1.names() + radded);
    }
}

/// No join is lost and none is duplicated: after the actor has applied `N`
/// racing `AddUser` commands with pairwise-distinct fresh names — in
/// whatever arrival order the race produced — every one of the `N` names
/// waits exactly once, behind the earlier entries, in that arrival order.
pub proof fn lemma_concurrent_adds_all_land(q: QueueModel, cmds: Seq<Command>, tss: Seq<i64>)
    requires
        q.wf(),
        cmds.len() == tss.len(),
        q.next_id + cmds.len() <= u64::MAX,
        forall|i: int| 0 <= i < cmds.len() ==> (#[trigger] cmds[i]) matches Command::AddUser { .. },
        forall|i: int, j: int|
            0 <= i < j < cmds.len() ==> add_name(cmds[i]) != add_name(cmds[j]),
        forall|i: int| 0 <= i < cmds.len() ==> !q.names().contains(#[trigger] add_name(cmds[i])),
    ensures
        spec_run(q, cmds, tss).entries.len() == q.entries.len() + cmds.len(),
        forall|k: int|
            0 <= k < cmds.len() ==> spec_run(q, cmds, tss).names()[q.entries.len() + k]
                == add_name(cmds[k]),
        forall|k: int, l: int|
            0 <= k < l < spec_run(q, cmds, tss).entries.len() ==> (#[trigger] spec_run(
                q,
                cmds,
                tss,
            ).entries[k]).nickname != (#[trigger] spec_run(q, cmds, tss).entries[l]).nickname,
{
    lemma_adds_keep_arrival_order(q, cmds, tss);
    let q2 = spec_run(q, cmds, tss);
    assert(q2.names().len() == q2.entries.len());
    assert(q.names().len() == q.entries.len());
    let added = cmds.map_values(|c: Command| add_name(c));
    assert forall|k: int|
        0 <= k < cmds.len() implies q2.names()[q.entries.len() + k] == add_name(
        cmds[k],
    ) by {
        assert((q.names() + added)[q.names().len() + k] == added[k]);
    }
}

/// Rejoin idempotence: adding a name already waiting reports its current
/// zero-based position and changes nothing at all.
pub proof fn lemma_rejoin_is_noop(q: QueueModel, name: Seq<char>, ts: i64)
    requires
        q.names().contains(name),
    ensures
        spec_add_state(q, name, ts) == q,
        0 <= spec_add_index(q, name) < q.entries.len(),
        q.entries[spec_add_index(q, name)].nickname == name,
{
    lemma_find_none_iff_absent(q, name);
    lemma_spec_find_is_first_match(q.entries, name);
}

/// Read-only commands — peeking any count among them — never change the
/// state, however many of them the actor consumes and in whatever order.
pub proof fn lemma_read_only_run_leaves_state(q: QueueModel, cmds: Seq<Command>, tss: Seq<i64>)
    requires
        cmds.len() == tss.len(),
        forall|i: int| 0 <= i < cmds.len() ==> is_read_only(#[trigger] cmds[i]),
    ensures
        spec_run(q, cmds, tss) == q,
    decreases cmds.len(),
{
    if cmds.len() != 0 {
        assert(spec_step(q, cmds[0], tss[0]).0 == q);
        lemma_read_only_run_leaves_state(q, cmds.drop_first(), tss.drop_first());
    }
}

/// Popping takes exactly `min(count, length)` entries off the front, in
/// their waiting order, and the survivors keep theirs. Only an empty queue
/// reports nothing popped: a zero count on a non-empty queue yields an empty
/// batch, which is a different answer.
pub proof fn lemma_pop_takes_min_off_the_front(q: QueueModel, count: int)
    requires
        0 <= count,
    ensures
        (spec_pop_result(q, count) is None) <==> q.entries.len() == 0,
        spec_pop_result(q, count) is None ==> spec_pop_state(q, count) == q,
        q.entries.len() > 0 ==> {
            let k = if count <= q.entries.len() {
                count
            } else {
                q.entries.len() as int
            };
            &&& spec_pop_result(q, count) == Some(q.entries.take(k))
            &&& spec_pop_state(q, count).entries.len() == q.entries.len() - k
            &&& forall|i: int|
                0 <= i < q.entries.len() - k ==> spec_pop_state(q, count).entries[i]
                    == q.entries[k + i]
            &&& spec_pop_state(q, count).is_open == q.is_open
        },
        q.entries.len() > 0 && count == 0 ==> spec_pop_result(q, count) == Some(
            Seq::<EntryModel>::empty(),
        ),
{
    if q.entries.len() > 0 && count == 0 {
        assert(q.entries.take(0) =~= Seq::<EntryModel>::empty());
    }
}

/// Toggling reports the post-flip value, and toggling twice brings the
/// whole state — flag, entries and identifier counter — back.
pub proof fn lemma_toggle_round_trip(q: QueueModel, ts1: i64, ts2: i64)
    ensures
        spec_step(q, Command::ToggleQueue, ts1).1 == ResponseModel::Open(!q.is_open),
        spec_step(q, Command::ToggleQueue, ts1).0.is_open == !q.is_open,
        spec_step(spec_step(q, Command::ToggleQueue, ts1).0, Command::ToggleQueue, ts2).0 == q,
        spec_step(spec_step(q, Command::ToggleQueue, ts1).0, Command::ToggleQueue, ts2).1
            == ResponseModel::Open(q.is_open),
{
}

/// Removing an absent name is a no-op answered with "not found".
pub proof fn lemma_remove_absent_is_noop(q: QueueModel, name: Seq<char>)
    requires
        !q.names().contains(name),
    ensures
        spec_remove_state(q, name) == q,
        spec_remove_result(q, name) is None,
{
    lemma_find_none_iff_absent(q, name);
}

/// Removing a waiting name takes out exactly its first entry and no other:
/// everything before it stays put, everything after moves up one, and — the
/// queue being well formed — the name is gone afterwards.
pub proof fn lemma_remove_takes_exactly_one(q: QueueModel, name: Seq<char>)
    requires
        q.wf(),
        q.names().contains(name),
    ensures
        match spec_find(q.entries, name) {
            Some(i) => {
                &&& spec_remove_result(q, name) == Some(q.entries[i])
                &&& q.entries[i].nickname == name
                &&& spec_remove_state(q, name).entries.len() == q.entries.len() - 1
                &&& forall|j: int|
                    0 <= j < i ==> spec_remove_state(q, name).entries[j] == q.entries[j]
                &&& forall|j: int|
                    i <= j < q.entries.len() - 1 ==> spec_remove_state(q, name).entries[j]
                        == q.entries[j + 1]
                &&& !spec_remove_state(q, name).names().contains(name)
            },
            None => false,
        },
{
    lemma_find_none_iff_absent(q, name);
    lemma_spec_find_is_first_match(q.entries, name);
    let i = choose|i: int| spec_find(q.entries, name) == Some(i);
    let q2 = spec_remove_state(q, name);
    assert(q2.entries == q.entries.remove(i));
    assert forall|j: int| 0 <= j < q2.names().len() implies q2.names()[j] != name by {
        assert(q2.names()[j] == q2.entries[j].nickname);
        if j < i {
            assert(q2.entries[j] == q.entries[j]);
        } else {
            assert(q2.entries[j] == q.entries[j + 1]);
        }
    }
}

} // verus!
