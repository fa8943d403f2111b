//! What holds of a factory whatever is asked of it, proved from the definitions
//! that the operations' contracts are stated over.

use vstd::prelude::*;
use crate::io::{
    ActorId, FactoryAction, FactoryError, FactoryEvent, Handled, Id, Query, QueryReply, Record,
};
use crate::model::{FactoryView, Step, first_position, is_first_position, next_id, run};
use crate::tables::lists;

verus! {

/// The number of creations among `steps`.
pub open spec fn creations(steps: Seq<Step>) -> nat
    decreases steps.len(),
{
    if steps.len() == 0 {
        0
    } else if steps.last() is Created {
        creations(steps.drop_last()) + 1
    } else {
        creations(steps.drop_last())
    }
}

/// `step`, taken in the state `before`, takes an identifier out of the index of
/// addresses.
pub open spec fn takes_address(before: FactoryView, step: Step) -> bool {
    match step {
        Step::Unlisted { id } => before.id_to_address.contains_key(id),
        Step::Removed { id, owner } => before.id_to_address.contains_key(id),
        _ => false,
    }
}

/// The number of steps among `steps`, taken in order from `start`, that took an
/// identifier out of the index of addresses.
pub open spec fn removals(start: FactoryView, steps: Seq<Step>) -> nat
    decreases steps.len(),
{
    if steps.len() == 0 {
        0
    } else if takes_address(run(start, steps.drop_last()), steps.last()) {
        removals(start, steps.drop_last()) + 1
    } else {
        removals(start, steps.drop_last())
    }
}

/// The counter counts the creations: in a factory that starts with its counter at
/// zero, after any steps with no more creations among them than the counter can
/// count, the counter is the number of those creations.
pub proof fn lemma_counter_counts_creations(start: FactoryView, steps: Seq<Step>)
    requires
        start.number == 0,
        creations(steps) <= u64::MAX,
    ensures
        run(start, steps).number == creations(steps),
    decreases steps.len(),
{
    if steps.len() > 0 {
        lemma_counter_counts_creations(start, steps.drop_last());
    }
}

/// The first steps of a history hold no more creations than the whole of it.
proof fn lemma_creations_of_a_prefix(steps: Seq<Step>, upto: int)
    requires
        0 <= upto <= steps.len(),
    ensures
        creations(steps.take(upto)) <= creations(steps),
    decreases steps.len(),
{
    if upto == steps.len() {
        assert(steps.take(upto) =~= steps);
    } else {
        lemma_creations_of_a_prefix(steps.drop_last(), upto);
        assert(steps.drop_last().take(upto) =~= steps.take(upto));
    }
}

/// The identifier that the step at place `at` of `steps`, a creation, issues in
/// a factory that started in `start`.
pub open spec fn issued(start: FactoryView, steps: Seq<Step>, at: int) -> Id {
    next_id(run(start, steps.take(at)).number)
}

/// Creations get successive identifiers, from 1 on. In a factory that starts
/// with its counter at zero and creates programs no more often than the counter
/// can count, the creation that comes after `k` others issues `k + 1`.
pub proof fn lemma_creations_get_successive_identifiers(
    start: FactoryView,
    steps: Seq<Step>,
    at: int,
)
    requires
        start.number == 0,
        creations(steps) <= u64::MAX,
        0 <= at < steps.len(),
        steps[at] is Created,
    ensures
        issued(start, steps, at) == creations(steps.take(at)) + 1,
        issued(start, steps, at) == run(start, steps.take(at + 1)).number,
{
    let upto = steps.take(at + 1);
    lemma_creations_of_a_prefix(steps, at + 1);
    assert(upto.drop_last() =~= steps.take(at));
    assert(upto.last() == steps[at]);
    lemma_counter_counts_creations(start, steps.take(at));
    lemma_counter_counts_creations(start, upto);
}

/// The addresses are the creations less the removals. In a factory that starts
/// with its counter at zero and no address, and that creates programs no more
/// often than the counter can count, after any steps: every identifier with an
/// address is one that was issued, and the addresses are as many as the counter
/// says less the removals that found one.
pub proof fn lemma_addresses_are_creations_less_removals(start: FactoryView, steps: Seq<Step>)
    requires
        start.number == 0,
        start.id_to_address == Map::<Id, ActorId>::empty(),
        creations(steps) <= u64::MAX,
    ensures
        run(start, steps).number == creations(steps),
        forall|id: Id| #[trigger]
            run(start, steps).id_to_address.contains_key(id) ==> 1 <= id <= run(
                start,
                steps,
            ).number,
        run(start, steps).id_to_address.dom().finite(),
        run(start, steps).id_to_address.len() == run(start, steps).number - removals(start, steps),
    decreases steps.len(),
{
    if steps.len() > 0 {
        let earlier = steps.drop_last();
        let before = run(start, earlier);
        lemma_addresses_are_creations_less_removals(start, earlier);
        match steps.last() {
            Step::Created { source, address, record } => {
                assert(!before.id_to_address.contains_key(next_id(before.number)));
            },
            _ => {},
        }
    }
}

/// One who is no admin changes nothing but by having a program created: any
/// other command of theirs is refused, and the state stays as it was.
pub proof fn lemma_outsiders_change_nothing(
    before: FactoryView,
    source: ActorId,
    action: FactoryAction,
    after: FactoryView,
    handled: Handled,
)
    requires
        !before.is_admin(source),
        !(action is CreateProgram),
        before.handling(source, action, after, handled),
    ensures
        after == before,
        handled == Handled::Reply(Err::<FactoryEvent, FactoryError>(FactoryError::Unauthorized)),
{
}

/// A factory whose indexes are empty has indexes that agree.
pub proof fn lemma_empty_indexes_agree(start: FactoryView)
    requires
        start.id_to_address == Map::<Id, ActorId>::empty(),
        start.registry == Map::<ActorId, Seq<(Id, Record)>>::empty(),
    ensures
        start.indexes_agree(),
{
}

/// A creation keeps the indexes in agreement, as long as the counter has room
/// to grow; and the program then has the address that the host gave.
pub proof fn lemma_creation_keeps_agreement(
    before: FactoryView,
    source: ActorId,
    address: ActorId,
    record: Record,
)
    requires
        before.indexes_agree(),
        before.number < u64::MAX,
    ensures
        before.created(source, address, record).indexes_agree(),
        before.created(source, address, record).id_to_address[next_id(before.number)] == address,
        !before.id_to_address.contains_key(next_id(before.number)),
        !before.recorded(next_id(before.number)),
{
    let id = next_id(before.number);
    let after = before.created(source, address, record);
    let list = before.programs_of(source);
    assert(!before.id_to_address.contains_key(id));
    assert(!before.recorded(id)) by {
        if before.recorded(id) {
            let owner = choose|owner: ActorId| before.holds(owner, id);
            let i = choose|i: int|
                0 <= i < before.registry[owner].len() && (#[trigger] before.registry[owner][i]).0
                    == id;
            assert(before.id_to_address.contains_key(before.registry[owner][i].0));
        }
    }
    assert(after.registry[source] == list.push((id, record)));
    assert forall|k: Id| #[trigger] after.id_to_address.contains_key(k) implies 1 <= k
        <= after.number && after.recorded(k) by {
        if k == id {
            assert(after.registry[source][list.len() as int].0 == id);
            assert(after.holds(source, id));
        } else {
            assert(before.id_to_address.contains_key(k));
            let owner = choose|owner: ActorId| before.holds(owner, k);
            let i = choose|i: int|
                0 <= i < before.registry[owner].len() && (#[trigger] before.registry[owner][i]).0
                    == k;
            assert(after.registry[owner][i].0 == k);
            assert(after.holds(owner, k));
        }
    }
    assert forall|owner: ActorId, i: int|
        after.registry.contains_key(owner) && 0 <= i < after.registry[owner].len()
            implies after.id_to_address.contains_key((#[trigger] after.registry[owner][i]).0) by {
        if owner == source && i == list.len() {
        } else {
            assert(before.registry.contains_key(owner));
            assert(after.registry[owner][i] == before.registry[owner][i]);
            assert(before.id_to_address.contains_key(before.registry[owner][i].0));
        }
    }
    assert forall|owner: ActorId, i: int, other: ActorId, j: int|
        after.registry.contains_key(owner) && 0 <= i < after.registry[owner].len()
            && after.registry.contains_key(other) && 0 <= j < after.registry[other].len() && (
        #[trigger] after.registry[owner][i]).0 == (#[trigger] after.registry[other][j]).0
            implies owner == other && i == j by {
        let new_first = owner == source && i == list.len();
        let new_second = other == source && j == list.len();
        if !new_first {
            assert(before.registry.contains_key(owner));
            assert(after.registry[owner][i] == before.registry[owner][i]);
            assert(before.id_to_address.contains_key(before.registry[owner][i].0));
        }
        if !new_second {
            assert(before.registry.contains_key(other));
            assert(after.registry[other][j] == before.registry[other][j]);
            assert(before.id_to_address.contains_key(before.registry[other][j].0));
        }
    }
}

/// Among indexes that agree, an identifier stands in one creator's list at most,
/// and at one place of it.
pub proof fn lemma_one_owner(state: FactoryView, id: Id, owner: ActorId, other: ActorId)
    requires
        state.indexes_agree(),
        state.holds(owner, id),
        state.holds(other, id),
    ensures
        owner == other,
        forall|i: int|
            0 <= i < state.registry[owner].len() && (#[trigger] state.registry[owner][i]).0 == id
                ==> i == first_position(state.registry[owner], id),
{
    let i = choose|i: int|
        0 <= i < state.registry[owner].len() && (#[trigger] state.registry[owner][i]).0 == id;
    let j = choose|j: int|
        0 <= j < state.registry[other].len() && (#[trigger] state.registry[other][j]).0 == id;
    assert(state.registry[owner][i].0 == state.registry[other][j].0);
    assert(is_first_position(state.registry[owner], id, i)) by {
        assert forall|k: int| 0 <= k < i implies (#[trigger] state.registry[owner][k]).0 != id by {
            if state.registry[owner][k].0 == id {
                assert(state.registry[owner][k].0 == state.registry[owner][i].0);
            }
        }
    }
    crate::model::lemma_first_position(state.registry[owner], id, i);
    assert forall|k: int|
        0 <= k < state.registry[owner].len() && (#[trigger] state.registry[owner][k]).0
            == id implies k == i by {
        assert(state.registry[owner][k].0 == state.registry[owner][i].0);
    }
}

/// The full removal of an identifier that has an address, from the list of a
/// creator that carries it, keeps the indexes in agreement, and leaves no trace
/// of the identifier in either.
pub proof fn lemma_removal_keeps_agreement(before: FactoryView, id: Id, owner: ActorId)
    requires
        before.indexes_agree(),
        before.holds(owner, id),
    ensures
        before.step(Step::Removed { id, owner }).indexes_agree(),
        !before.step(Step::Removed { id, owner }).id_to_address.contains_key(id),
        !before.step(Step::Removed { id, owner }).recorded(id),
{
    let after = before.step(Step::Removed { id, owner });
    let list = before.registry[owner];
    let at = first_position(list, id);
    lemma_one_owner(before, id, owner, owner);
    let witness = choose|i: int| 0 <= i < list.len() && (#[trigger] list[i]).0 == id;
    assert(witness == at);
    assert(after.registry[owner] == list.remove(at));
    assert forall|o: ActorId, i: int|
        after.registry.contains_key(o) && 0 <= i < after.registry[o].len() implies (
    #[trigger] after.registry[o][i]).0 != id && after.id_to_address.contains_key(
        after.registry[o][i].0,
    ) by {
        let k = if o == owner && i >= at {
            i + 1
        } else {
            i
        };
        assert(before.registry.contains_key(o));
        assert(before.registry[o][k] == after.registry[o][i]);
        assert(before.id_to_address.contains_key(before.registry[o][k].0));
        if before.registry[o][k].0 == id {
            assert(before.registry[o][k].0 == before.registry[owner][at].0);
        }
    }
    assert(!after.recorded(id)) by {
        if after.recorded(id) {
            let o = choose|o: ActorId| after.holds(o, id);
            let i = choose|i: int|
                0 <= i < after.registry[o].len() && (#[trigger] after.registry[o][i]).0 == id;
            assert(after.registry[o][i].0 != id);
        }
    }
    assert forall|k: Id| #[trigger] after.id_to_address.contains_key(k) implies 1 <= k
        <= after.number && after.recorded(k) by {
        assert(before.id_to_address.contains_key(k));
        let o = choose|o: ActorId| before.holds(o, k);
        let i = choose|i: int|
            0 <= i < before.registry[o].len() && (#[trigger] before.registry[o][i]).0 == k;
        if o == owner {
            assert(i != at);
            if i < at {
                assert(after.registry[o][i].0 == k);
            } else {
                assert(after.registry[o][i - 1].0 == k);
            }
        } else {
            assert(after.registry[o][i].0 == k);
        }
        assert(after.holds(o, k));
    }
    assert forall|o: ActorId, i: int, p: ActorId, j: int|
        after.registry.contains_key(o) && 0 <= i < after.registry[o].len()
            && after.registry.contains_key(p) && 0 <= j < after.registry[p].len() && (
        #[trigger] after.registry[o][i]).0 == (#[trigger] after.registry[p][j]).0 implies o == p
        && i == j by {
        let k = if o == owner && i >= at {
            i + 1
        } else {
            i
        };
        let l = if p == owner && j >= at {
            j + 1
        } else {
            j
        };
        assert(before.registry[o][k] == after.registry[o][i]);
        assert(before.registry[p][l] == after.registry[p][j]);
        assert(before.registry[o][k].0 == before.registry[p][l].0);
    }
}

/// Among indexes that agree, a removal never finds an address without an entry
/// in some list: whatever the command comes to, the indexes agree afterwards,
/// and what it comes to is settled by the state and the command alone.
pub proof fn lemma_removal_among_agreeing_indexes(
    before: FactoryView,
    source: ActorId,
    id: Id,
    after: FactoryView,
    reply: Result<FactoryEvent, FactoryError>,
    other_after: FactoryView,
    other_reply: Result<FactoryEvent, FactoryError>,
)
    requires
        before.indexes_agree(),
        before.removal(source, id, after, reply),
        before.removal(source, id, other_after, other_reply),
    ensures
        after.indexes_agree(),
        reply != Err::<FactoryEvent, FactoryError>(FactoryError::IdNotFound),
        reply is Ok ==> !after.id_to_address.contains_key(id) && !after.recorded(id),
        reply is Ok <==> before.is_admin(source) && before.id_to_address.contains_key(id),
        other_after == after,
        other_reply == reply,
{
    if before.is_admin(source) && before.id_to_address.contains_key(id) {
        assert(before.recorded(id));
        let owner = choose|owner: ActorId|
            before.holds(owner, id) && after == before.step(Step::Removed { id, owner });
        let other = choose|other: ActorId|
            before.holds(other, id) && other_after == before.step(Step::Removed { id, owner: other });
        lemma_one_owner(before, id, owner, other);
        lemma_removal_keeps_agreement(before, id, owner);
    }
}

/// Whether the indexes agree depends on the counter and the two indexes alone.
pub proof fn lemma_agreement_is_of_the_indexes(state: FactoryView, other: FactoryView)
    requires
        state.indexes_agree(),
        other.number == state.number,
        other.id_to_address == state.id_to_address,
        other.registry == state.registry,
    ensures
        other.indexes_agree(),
{
    assert forall|id: Id| #[trigger] other.id_to_address.contains_key(id) implies other.recorded(
        id,
    ) by {
        let owner = choose|owner: ActorId| state.holds(owner, id);
        assert(other.holds(owner, id));
    }
}

/// Whatever a factory whose indexes agree is asked to do, and whatever the host
/// answers to a request for a program, the indexes agree afterwards, as long as
/// the counter has room to grow.
pub proof fn lemma_commands_keep_agreement(
    before: FactoryView,
    source: ActorId,
    action: FactoryAction,
    spawned: Result<ActorId, String>,
    after: FactoryView,
    reply: Result<FactoryEvent, FactoryError>,
)
    requires
        before.indexes_agree(),
        before.number < u64::MAX,
        before.completes(source, action, spawned, after, reply),
    ensures
        after.indexes_agree(),
{
    match action {
        FactoryAction::CreateProgram { init_config } => {
            match spawned {
                Ok(address) => {
                    let record = Record { field: init_config.field };
                    lemma_creation_keeps_agreement(before, source, address, record);
                    assert(after == before.created(source, address, record));
                },
                Err(detail) => {
                    assert(after == before);
                },
            }
        },
        FactoryAction::RemoveRegistry { id } => {
            lemma_removal_among_agreeing_indexes(before, source, id, after, reply, after, reply);
        },
        _ => {
            lemma_agreement_is_of_the_indexes(before, after);
        },
    }
}

/// A list of keys and values is the list of one map only, which has as many keys
/// as the list has pairs.
pub proof fn lemma_listing_settles_the_entries<K, V>(
    pairs: Seq<(K, V)>,
    entries: Map<K, V>,
    other: Map<K, V>,
)
    requires
        lists(pairs, entries),
        lists(pairs, other),
    ensures
        entries == other,
        entries.dom().finite(),
        entries.dom().len() == pairs.len(),
{
    assert forall|k: K| entries.contains_key(k) implies other.contains_key(k) && other[k]
        == entries[k] by {
        let i = choose|i: int| 0 <= i < pairs.len() && (#[trigger] pairs[i]).0 == k;
        assert(other.contains_key(pairs[i].0));
    }
    assert forall|k: K| other.contains_key(k) implies entries.contains_key(k) by {
        let i = choose|i: int| 0 <= i < pairs.len() && (#[trigger] pairs[i]).0 == k;
        assert(entries.contains_key(pairs[i].0));
    }
    assert(entries =~= other);
    let keys = pairs.map_values(|pair: (K, V)| pair.0);
    assert(keys.no_duplicates()) by {
        assert forall|i: int, j: int| 0 <= i < keys.len() && 0 <= j < keys.len() && i != j implies keys[i]
            != keys[j] by {
            if i < j {
                assert(pairs[i].0 != pairs[j].0);
            } else {
                assert(pairs[j].0 != pairs[i].0);
            }
        }
    }
    assert(keys.to_set() =~= entries.dom()) by {
        assert forall|k: K| keys.to_set().contains(k) implies entries.dom().contains(k) by {
            let i = choose|i: int| 0 <= i < keys.len() && keys[i] == k;
            assert(entries.contains_key(pairs[i].0));
        }
        assert forall|k: K| entries.dom().contains(k) implies keys.to_set().contains(k) by {
            let i = choose|i: int| 0 <= i < pairs.len() && (#[trigger] pairs[i]).0 == k;
            assert(keys[i] == k);
        }
    }
    keys.unique_seq_to_set();
    vstd::seq_lib::seq_to_set_is_finite(keys);
}

/// An answer to a query tells the part of the state that was asked for, and
/// nothing else could have given it: two states with one answer to one query
/// are the same in that part.
pub proof fn lemma_answer_tells_the_state(
    state: FactoryView,
    other: FactoryView,
    query: Query,
    reply: QueryReply,
)
    requires
        state.answers(query, reply),
        other.answers(query, reply),
    ensures
        query == Query::Number ==> state.number == other.number,
        query == Query::CodeId ==> state.code_id == other.code_id,
        query == Query::FactoryAdminAccount ==> state.factory_admin_account
            == other.factory_admin_account,
        query == Query::GasForProgram ==> state.gas_for_program == other.gas_for_program,
        query == Query::IdToAddress ==> state.id_to_address == other.id_to_address,
        query == Query::Registry ==> state.registry == other.registry,
{
    match query {
        Query::IdToAddress => {
            lemma_listing_settles_the_entries(
                reply->IdToAddress_0@,
                state.id_to_address,
                other.id_to_address,
            );
        },
        Query::Registry => {
            lemma_listing_settles_the_entries(
                crate::tables::listed_programs(reply->Registry_0@),
                state.registry,
                other.registry,
            );
        },
        _ => {},
    }
}

} // verus!
