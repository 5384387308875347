//! Which ids a registry hands out over time: a law on every sequence of operations.

use crate::model::{Registry, Surface};
use vstd::prelude::*;

verus! {

/// Something that happens to a registry.
pub enum Operation {
    /// A surface is created.
    Create(Surface),
    /// The surface registered under an id, if there is one, becomes another: a present, a swap, a
    /// resize or a redraw request.
    Change(u64, Surface),
    /// A surface is removed.
    Remove(u64),
}

/// The registry after an operation.
pub open spec fn step(registry: Registry, operation: Operation) -> Registry {
    match operation {
        Operation::Create(surface) => registry.create(surface),
        Operation::Change(id, to) => registry.replace(id, to),
        Operation::Remove(id) => registry.remove(id),
    }
}

/// The registry after a sequence of operations.
pub open spec fn after(registry: Registry, operations: Seq<Operation>) -> Registry
    decreases operations.len(),
{
    if operations.len() == 0 {
        registry
    } else {
        step(after(registry, operations.drop_last()), operations.last())
    }
}

/// How many surfaces are created.
pub open spec fn creations(operations: Seq<Operation>) -> nat
    decreases operations.len(),
{
    if operations.len() == 0 {
        0
    } else {
        creations(operations.drop_last()) + if operations.last() is Create {
            1nat
        } else {
            0
        }
    }
}

/// The registry before the `i`-th operation.
pub open spec fn before(registry: Registry, operations: Seq<Operation>, i: int) -> Registry {
    after(registry, operations.take(i))
}

/// The id that the `i`-th operation hands out, if it is a creation.
pub open spec fn handed_out(registry: Registry, operations: Seq<Operation>, i: int) -> u64 {
    before(registry, operations, i).next_id
}

/// The next number is as many creations on from the first one, around the bound of `u64`.
proof fn next_id_counts_creations(registry: Registry, operations: Seq<Operation>)
    ensures
        after(registry, operations).next_id == (registry.next_id + creations(operations))
            % 0x1_0000_0000_0000_0000,
    decreases operations.len(),
{
    if operations.len() > 0 {
        next_id_counts_creations(registry, operations.drop_last());
    }
}

/// A creation adds one to the count of every longer sequence.
proof fn creations_grow(operations: Seq<Operation>, i: int, j: int)
    requires
        0 <= i < j <= operations.len(),
    ensures
        creations(operations.take(i)) <= creations(operations.take(j)),
        operations[i] is Create ==> creations(operations.take(i)) < creations(operations.take(j)),
    decreases j - i,
{
    assert(operations.take(j).drop_last() =~= operations.take(j - 1));
    assert(operations.take(j).last() == operations[j - 1]);
    if i < j - 1 {
        creations_grow(operations, i, j - 1);
    }
}

/// A registered id was handed out by an earlier creation.
proof fn registered_ids_were_handed_out(
    registry: Registry,
    operations: Seq<Operation>,
    j: int,
    id: u64,
) -> (i: int)
    requires
        registry.surfaces == Map::<u64, Surface>::empty(),
        0 <= j <= operations.len(),
        before(registry, operations, j).registered(id),
    ensures
        0 <= i < j,
        operations[i] is Create,
        handed_out(registry, operations, i) == id,
    decreases j,
{
    assert(j > 0);
    assert(operations.take(j).drop_last() =~= operations.take(j - 1));
    assert(operations.take(j).last() == operations[j - 1]);
    if operations[j - 1] is Create && handed_out(registry, operations, j - 1) == id {
        j - 1
    } else {
        registered_ids_were_handed_out(registry, operations, j - 1, id)
    }
}

/// Over any sequence of creations, changes and removals, with no more creations than there are
/// numbers, no two creations hand out the same id.
pub proof fn all_ids_differ(registry: Registry, operations: Seq<Operation>, i: int, j: int)
    requires
        creations(operations) <= 0x1_0000_0000_0000_0000,
        0 <= i < j < operations.len(),
        operations[i] is Create,
        operations[j] is Create,
    ensures
        handed_out(registry, operations, i) != handed_out(registry, operations, j),
{
    next_id_counts_creations(registry, operations.take(i));
    next_id_counts_creations(registry, operations.take(j));
    creations_grow(operations, i, j);
    creations_grow(operations, j, operations.len() as int);
    assert(operations.take(operations.len() as int) =~= operations);
}

/// Over any such sequence, the id of a surface that was ever registered before, removed or not, does
/// not come back.
pub proof fn ids_never_come_back(
    registry: Registry,
    operations: Seq<Operation>,
    i: int,
    j: int,
    id: u64,
)
    requires
        registry.surfaces == Map::<u64, Surface>::empty(),
        creations(operations) <= 0x1_0000_0000_0000_0000,
        0 <= i <= j < operations.len(),
        operations[j] is Create,
        before(registry, operations, i).registered(id),
    ensures
        handed_out(registry, operations, j) != id,
{
    let k = registered_ids_were_handed_out(registry, operations, i, id);
    all_ids_differ(registry, operations, k, j);
}

/// Over any such sequence, a creation finds its id unregistered: it overwrites no surface.
pub proof fn no_creation_overwrites(registry: Registry, operations: Seq<Operation>, j: int)
    requires
        registry.surfaces == Map::<u64, Surface>::empty(),
        creations(operations) <= 0x1_0000_0000_0000_0000,
        0 <= j < operations.len(),
        operations[j] is Create,
    ensures
        !before(registry, operations, j).registered(handed_out(registry, operations, j)),
{
    let id = handed_out(registry, operations, j);
    if before(registry, operations, j).registered(id) {
        let i = registered_ids_were_handed_out(registry, operations, j, id);
        all_ids_differ(registry, operations, i, j);
    }
}

} // verus!
