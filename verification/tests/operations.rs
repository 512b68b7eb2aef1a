use drag_context::operation::{
    combine_masks, operation_to_report, DropOperation, NS_DRAG_OPERATION_NONE,
};

#[test]
fn masks_are_united() {
    assert_eq!(combine_masks(&vec![1, 16]), 17);
    assert_eq!(combine_masks(&vec![1, 2, 16, 2]), 19);
    assert_eq!(combine_masks(&vec![usize::MAX, 4]), usize::MAX);
}

#[test]
fn no_masks_unite_to_none() {
    assert_eq!(combine_masks(&vec![]), NS_DRAG_OPERATION_NONE);
    assert_eq!(combine_masks(&vec![0, 0]), 0);
}

#[test]
fn order_of_masks_does_not_matter() {
    assert_eq!(combine_masks(&vec![16, 1, 2]), combine_masks(&vec![2, 16, 1, 1]));
}

#[test]
fn union_offers_its_parts_and_no_more() {
    let masks = vec![1, 4, 32];
    let all = combine_masks(&masks);
    for mask in &masks {
        assert_eq!(mask & all, *mask);
    }
    assert_eq!(all & !(1 | 4 | 32), 0);
}

#[test]
fn first_operation_counts() {
    let operations = vec![DropOperation::Move, DropOperation::Copy];
    assert_eq!(operation_to_report(&operations, false), DropOperation::Move);
    let operations = vec![DropOperation::Link];
    assert_eq!(operation_to_report(&operations, false), DropOperation::Link);
}

#[test]
fn no_operation_is_reported_as_none() {
    assert_eq!(operation_to_report(&vec![], false), DropOperation::NoOperation);
}

#[test]
fn cancelling_replaces_nothing_only() {
    assert_eq!(operation_to_report(&vec![], true), DropOperation::UserCancelled);
    assert_eq!(
        operation_to_report(&vec![DropOperation::NoOperation, DropOperation::Copy], true),
        DropOperation::UserCancelled
    );
    assert_eq!(
        operation_to_report(&vec![DropOperation::NoOperation, DropOperation::Copy], false),
        DropOperation::NoOperation
    );
    assert_eq!(operation_to_report(&vec![DropOperation::Copy], true), DropOperation::Copy);
    assert_eq!(
        operation_to_report(&vec![DropOperation::Forbidden], true),
        DropOperation::Forbidden
    );
}
