//! Drop operations and the masks that AppKit packs them into.
use vstd::prelude::*;

verus! {

/// AppKit's `NSDragOperation`: a set of operations, one bit each.
pub type NSDragOperation = usize;

/// The empty set of operations.
pub const NS_DRAG_OPERATION_NONE: NSDragOperation = 0;

/// What a finished drag did with the dragged data.
#[derive(Clone, Copy, Debug, PartialEq, Eq, Structural)]
pub enum DropOperation {
    /// Nothing was dropped.
    NoOperation,
    /// Nothing was dropped, because the user called the drag off.
    UserCancelled,
    /// The drop site refused the data.
    Forbidden,
    /// The data was copied.
    Copy,
    /// The data was moved.
    Move,
    /// The data was linked to.
    Link,
}

/// The set of every operation that is in one of `masks`.
pub open spec fn union_of(masks: Seq<NSDragOperation>) -> NSDragOperation
    decreases masks.len(),
{
    if masks.len() == 0 {
        NS_DRAG_OPERATION_NONE
    } else {
        union_of(masks.drop_last()) | masks.last()
    }
}

/// Every operation of `part` is in `whole`.
pub open spec fn mask_within(part: NSDragOperation, whole: NSDragOperation) -> bool {
    part & whole == part
}

/// The set of every operation that is in one of `masks`.
pub fn combine_masks(masks: &Vec<NSDragOperation>) -> (res: NSDragOperation)
    ensures
        res == union_of(masks@),
{
    let mut res: NSDragOperation = NS_DRAG_OPERATION_NONE;
    let mut i: usize = 0;
    while i < masks.len()
        invariant
            i <= masks.len(),
            res == union_of(masks@.take(i as int)),
        decreases masks.len() - i,
    {
        proof {
            assert(masks@.take(i + 1).drop_last() =~= masks@.take(i as int));
        }
        res = res | masks[i];
        i = i + 1;
    }
    proof {
        assert(masks@.take(i as int) =~= masks@);
    }
    res
}

/// The operation that a drag is reported to have ended with.
///
/// AppKit may report several; the first one counts. A drag that did nothing is told apart by
/// whether the user called it off.
pub open spec fn reported_operation(
    operations: Seq<DropOperation>,
    user_cancelled: bool,
) -> DropOperation {
    let first = if operations.len() > 0 {
        operations[0]
    } else {
        DropOperation::NoOperation
    };
    if first == DropOperation::NoOperation && user_cancelled {
        DropOperation::UserCancelled
    } else {
        first
    }
}

/// The operation that a drag is reported to have ended with.
pub fn operation_to_report(operations: &Vec<DropOperation>, user_cancelled: bool) -> (res:
    DropOperation)
    ensures
        res == reported_operation(operations@, user_cancelled),
{
    let first = if operations.len() > 0 {
        operations[0]
    } else {
        DropOperation::NoOperation
    };
    if first == DropOperation::NoOperation && user_cancelled {
        DropOperation::UserCancelled
    } else {
        first
    }
}

/// A combined mask offers every operation that one of its parts offers.
pub proof fn law_union_offers_every_part(masks: Seq<NSDragOperation>, i: int)
    requires
        0 <= i < masks.len(),
    ensures
        mask_within(masks[i], union_of(masks)),
    decreases masks.len(),
{
    let rest = union_of(masks.drop_last());
    let last = masks.last();
    if i == masks.len() - 1 {
        assert(last & (rest | last) == last) by (bit_vector);
    } else {
        law_union_offers_every_part(masks.drop_last(), i);
        let part = masks[i];
        assert(part & (rest | last) == part) by (bit_vector)
            requires
                part & rest == part,
        ;
    }
}

/// A combined mask offers no operation beyond a set that holds all of its parts.
pub proof fn law_union_offers_nothing_else(masks: Seq<NSDragOperation>, whole: NSDragOperation)
    requires
        forall|i: int| 0 <= i < masks.len() ==> mask_within(#[trigger] masks[i], whole),
    ensures
        mask_within(union_of(masks), whole),
    decreases masks.len(),
{
    if masks.len() == 0 {
        assert(0usize & whole == 0usize) by (bit_vector);
    } else {
        let shorter = masks.drop_last();
        assert forall|i: int| 0 <= i < shorter.len() implies mask_within(
            #[trigger] shorter[i],
            whole,
        ) by {
            assert(shorter[i] == masks[i]);
        }
        law_union_offers_nothing_else(shorter, whole);
        let rest = union_of(shorter);
        let last = masks.last();
        assert(mask_within(masks[masks.len() - 1], whole));
        assert((rest | last) & whole == rest | last) by (bit_vector)
            requires
                rest & whole == rest,
                last & whole == last,
        ;
    }
}

/// A combined mask depends only on which parts there are, not on their order or number.
pub proof fn law_union_ignores_order(a: Seq<NSDragOperation>, b: Seq<NSDragOperation>)
    requires
        forall|m: NSDragOperation| a.contains(m) <==> b.contains(m),
    ensures
        union_of(a) == union_of(b),
{
    let x = union_of(a);
    let y = union_of(b);
    assert forall|i: int| 0 <= i < a.len() implies mask_within(#[trigger] a[i], y) by {
        assert(a.contains(a[i]));
        let j = choose|j: int| 0 <= j < b.len() && b[j] == a[i];
        law_union_offers_every_part(b, j);
    }
    law_union_offers_nothing_else(a, y);
    assert forall|i: int| 0 <= i < b.len() implies mask_within(#[trigger] b[i], x) by {
        assert(b.contains(b[i]));
        let j = choose|j: int| 0 <= j < a.len() && a[j] == b[i];
        law_union_offers_every_part(a, j);
    }
    law_union_offers_nothing_else(b, x);
    assert(x == y) by (bit_vector)
        requires
            x & y == x,
            y & x == y,
    ;
}

/// Calling a drag off never hides an operation that was carried out, and only a drag that was
/// called off without doing anything turns into a cancelled one.
pub proof fn law_cancel_only_replaces_nothing(operations: Seq<DropOperation>)
    ensures
        reported_operation(operations, false) != DropOperation::NoOperation ==> reported_operation(
            operations,
            true,
        ) == reported_operation(operations, false),
        reported_operation(operations, false) == DropOperation::NoOperation ==> reported_operation(
            operations,
            true,
        ) == DropOperation::UserCancelled,
        reported_operation(operations, true) != DropOperation::NoOperation,
{
}

/// A set of operations meets a combined mask exactly if it meets one of the parts.
pub(crate) proof fn lemma_union_meets_what_a_part_meets(
    masks: Seq<NSDragOperation>,
    some: NSDragOperation,
)
    ensures
        some & union_of(masks) == 0 <==> forall|i: int|
            0 <= i < masks.len() ==> some & #[trigger] masks[i] == 0,
    decreases masks.len(),
{
    if masks.len() == 0 {
        assert(some & 0usize == 0usize) by (bit_vector);
    } else {
        let shorter = masks.drop_last();
        let rest = union_of(shorter);
        let last = masks[masks.len() - 1];
        lemma_union_meets_what_a_part_meets(shorter, some);
        assert(some & (rest | last) == 0 <==> some & rest == 0 && some & last == 0)
            by (bit_vector);
        if some & union_of(masks) == 0 {
            assert forall|i: int| 0 <= i < masks.len() implies some & #[trigger] masks[i] == 0 by {
                if i < shorter.len() {
                    assert(shorter[i] == masks[i]);
                }
            }
        }
        if forall|i: int| 0 <= i < masks.len() ==> some & #[trigger] masks[i] == 0 {
            assert forall|i: int| 0 <= i < shorter.len() implies some & #[trigger] shorter[i]
                == 0 by {
                assert(shorter[i] == masks[i]);
            }
        }
    }
}

/// Whatever set of operations is asked for, a combined mask has one of them exactly if one of its
/// parts has.
pub proof fn law_combined_mask_has_what_a_part_has(
    masks: &Vec<NSDragOperation>,
    some: NSDragOperation,
    res: NSDragOperation,
)
    requires
        call_ensures(combine_masks, (masks,), res),
    ensures
        some & res == 0 <==> forall|i: int|
            0 <= i < masks@.len() ==> some & #[trigger] masks@[i] == 0,
{
    lemma_union_meets_what_a_part_meets(masks@, some);
}

/// The first operation counts if it is one at all. Without one, the drag was called off or did
/// nothing.
pub proof fn law_first_operation_counts(
    operations: &Vec<DropOperation>,
    user_cancelled: bool,
    res: DropOperation,
)
    requires
        call_ensures(operation_to_report, (operations, user_cancelled), res),
    ensures
        operations@.len() > 0 && operations@[0] != DropOperation::NoOperation ==> res
            == operations@[0],
        operations@.len() == 0 || operations@[0] == DropOperation::NoOperation ==> {
            &&& user_cancelled ==> res == DropOperation::UserCancelled
            &&& !user_cancelled ==> res == DropOperation::NoOperation
        },
{
}

} // verus!
