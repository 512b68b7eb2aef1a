use drag_context::callback::{Callback, EventStep};
use drag_context::context::{
    EndAction, MoveNotification, OpenAction, OrderingQuery, PlatformDragContext,
    PlatformDragContextId,
};
use drag_context::contexts::DragContexts;
use drag_context::error::NativeExtensionsError;
use drag_context::event::{MomentumEvent, MouseEvent};
use drag_context::operation::DropOperation;
use drag_context::session::{
    DataProviderEntry, DragConfiguration, DragItem, DragRequest, DragSession, DragSessionId,
};
use drag_context::start::StartStep;
use std::collections::HashMap;

type Contexts = DragContexts<u32, u64, u8, ()>;

fn mouse(event_type: usize, event: u32) -> MouseEvent<u32> {
    MouseEvent { event_type, event }
}

fn drag_session(id: i64) -> DragSession<u64, u8, ()> {
    DragSession {
        session_id: DragSessionId(id),
        configuration: DragConfiguration {
            items: vec![DragItem { data_provider_id: 1, image: (), local_data: 9 }],
            allowed_operations: vec![1, 2],
            animates_to_starting_position_on_cancel_or_fail: false,
        },
        data_provider_handles: vec![70],
    }
}

fn add(contexts: &mut Contexts, id: i64, view: usize) -> u64 {
    contexts.add(PlatformDragContext::new(PlatformDragContextId(id), view)).unwrap()
}

fn begin(contexts: &Contexts, key: u64) -> Result<u32, NativeExtensionsError> {
    let context = contexts.context(key).unwrap();
    let request = DragRequest {
        configuration: DragConfiguration {
            items: vec![],
            allowed_operations: vec![],
            animates_to_starting_position_on_cancel_or_fail: false,
        },
    };
    let providers: HashMap<i64, DataProviderEntry<(), u64>> = HashMap::new();
    let mut start = context.start_drag(request, providers, DragSessionId(1));
    loop {
        match context.continue_start(start, false) {
            StartStep::SendEvent { next, .. } => start = next,
            StartStep::MakeItems { next, .. } => start = next,
            StartStep::OpenSession { actions, .. } => match &actions[1] {
                OpenAction::BeginDraggingSession { event, .. } => return Ok(**event),
                _ => panic!("no session is begun"),
            },
            StartStep::Failed { error, .. } => return Err(error),
        }
    }
}

/// What the source `key` would begin a drag with each time that the event goes on to the view.
fn deliver_mouse_down(
    contexts: &mut Contexts,
    key: u64,
    view: usize,
    event: u32,
) -> Vec<Result<u32, NativeExtensionsError>> {
    let mut passed_on = vec![];
    for step in Callback::MouseDown.event_steps() {
        match step {
            EventStep::Remember => contexts.mouse_down(view, mouse(1, event)),
            EventStep::PassOn => passed_on.push(begin(contexts, key)),
        }
    }
    passed_on
}

#[test]
fn event_goes_on_once_after_it_is_remembered() {
    let mut contexts = Contexts::new();
    let key = add(&mut contexts, 1, 500);
    contexts.assign_weak_self(key, key);
    assert_eq!(deliver_mouse_down(&mut contexts, key, 500, 77), vec![Ok(77)]);
    assert_eq!(deliver_mouse_down(&mut contexts, key, 500, 78), vec![Ok(78)]);
}

#[test]
fn event_goes_on_once_without_a_source() {
    let mut contexts = Contexts::new();
    let key = add(&mut contexts, 1, 500);
    assert_eq!(
        deliver_mouse_down(&mut contexts, key, 500, 77),
        vec![Err(NativeExtensionsError::MouseEventNotFound)]
    );
}

#[test]
fn new_context_is_reached_once_assigned() {
    let mut contexts = Contexts::new();
    let key = add(&mut contexts, 1, 500);
    assert_eq!(contexts.with_state(500), None);
    contexts.assign_weak_self(key, key);
    assert_eq!(contexts.with_state(500), Some(key));
    assert_eq!(contexts.with_state(501), None);
    assert_eq!(contexts.context(key).unwrap().id(), PlatformDragContextId(1));
}

#[test]
fn keys_are_never_given_again() {
    let mut contexts = Contexts::new();
    let first = add(&mut contexts, 1, 500);
    contexts.drop_context(first);
    let second = add(&mut contexts, 1, 500);
    assert_ne!(first, second);
    assert!(contexts.context(first).is_none());
}

#[test]
fn gone_context_is_not_reached() {
    let mut contexts = Contexts::new();
    let key = add(&mut contexts, 1, 500);
    contexts.assign_weak_self(key, key);
    contexts.session_opened(key, drag_session(5), 40);
    let gone = contexts.drop_context(key).unwrap();
    assert!(gone.has_session(40));
    assert_eq!(contexts.with_state(500), None);
    assert!(contexts.drop_context(key).is_none());
    assert_eq!(contexts.with_state(500), None);
}

#[test]
fn view_of_gone_target_leads_nowhere() {
    let mut contexts = Contexts::new();
    let a = add(&mut contexts, 1, 500);
    let b = add(&mut contexts, 2, 501);
    contexts.assign_weak_self(a, b);
    assert_eq!(contexts.with_state(500), Some(b));
    contexts.drop_context(b);
    assert_eq!(contexts.with_state(500), None);
}

#[test]
fn going_context_takes_its_view_from_its_successor() {
    let mut contexts = Contexts::new();
    let a = add(&mut contexts, 1, 500);
    let b = add(&mut contexts, 2, 500);
    contexts.assign_weak_self(a, a);
    contexts.assign_weak_self(b, b);
    assert_eq!(contexts.with_state(500), Some(b));
    contexts.drop_context(a);
    assert_eq!(contexts.with_state(500), None);
    assert!(contexts.context(b).is_some());
}

#[test]
fn mouse_events_reach_the_context_of_their_view() {
    let mut contexts = Contexts::new();
    let a = add(&mut contexts, 1, 500);
    let b = add(&mut contexts, 2, 501);
    contexts.assign_weak_self(a, a);
    contexts.assign_weak_self(b, b);
    contexts.mouse_down(500, mouse(1, 31));
    contexts.mouse_up(500, mouse(2, 32));
    contexts.right_mouse_up(501, mouse(4, 33));
    contexts.mouse_down(999, mouse(1, 34));
    assert_eq!(begin(&contexts, a), Ok(31));
    assert_eq!(
        begin(&contexts, b),
        Err(NativeExtensionsError::MouseEventNotFound)
    );
    contexts.right_mouse_down(501, mouse(3, 35));
    assert_eq!(begin(&contexts, b), Ok(35));
    assert_eq!(begin(&contexts, a), Ok(31));
}

#[test]
fn gesture_events_reach_the_context_of_their_view() {
    let mut contexts = Contexts::new();
    let a = add(&mut contexts, 1, 500);
    contexts.assign_weak_self(a, a);
    contexts.scroll_wheel(500, MomentumEvent { phase: 4, event: 1 });
    assert!(contexts.context(a).unwrap().finish_momentum_events(true).is_some());
    contexts.magnify_with_event(500, MomentumEvent { phase: 8, event: 2 });
    assert!(contexts.context(a).unwrap().finish_momentum_events(true).is_none());
    contexts.rotate_with_event(500, MomentumEvent { phase: 1, event: 3 });
    assert!(contexts.context(a).unwrap().finish_momentum_events(true).is_some());
    contexts.scroll_wheel(999, MomentumEvent { phase: 8, event: 4 });
    assert!(contexts.context(a).unwrap().finish_momentum_events(true).is_some());
}

#[test]
fn drag_messages_reach_the_context_of_their_view() {
    let mut contexts = Contexts::new();
    let a = add(&mut contexts, 1, 500);
    contexts.assign_weak_self(a, a);
    contexts.session_opened(a, drag_session(5), 40);
    assert!(contexts.has_session(500, 40));
    assert!(!contexts.has_session(500, 41));
    assert_eq!(contexts.source_operation_mask_for_dragging_context(500, 40), 3);
    assert_eq!(
        contexts.dragging_session_moved_to_point(500, 40, true),
        Some(MoveNotification { id: PlatformDragContextId(1), session_id: DragSessionId(5) })
    );
    assert_eq!(contexts.dragging_session_moved_to_point(500, 40, false), None);
    let actions = contexts.dragging_session_ended_at_point(
        500,
        40,
        vec![DropOperation::Link],
        None,
        true,
    );
    assert_eq!(actions.len(), 3);
    assert!(matches!(
        actions[0],
        EndAction::NotifyDelegate { operation: DropOperation::Link, .. }
    ));
    assert!(!contexts.has_session(500, 40));
    assert_eq!(contexts.source_operation_mask_for_dragging_context(500, 40), 0);
}

#[test]
fn views_without_context_get_the_defaults() {
    let mut contexts = Contexts::new();
    assert!(contexts.has_session(500, 40));
    assert_eq!(contexts.source_operation_mask_for_dragging_context(500, 40), 0);
    assert_eq!(contexts.dragging_session_moved_to_point(500, 40, true), None);
    assert!(contexts
        .dragging_session_ended_at_point(500, 40, vec![DropOperation::Copy], None, true)
        .is_empty());
    assert_eq!(
        contexts.should_delay_window_ordering(500, 3, false),
        OrderingQuery::Answer(true)
    );
}

#[test]
fn window_ordering_is_asked_of_the_context() {
    let mut contexts = Contexts::new();
    let a = add(&mut contexts, 1, 500);
    contexts.assign_weak_self(a, a);
    assert_eq!(
        contexts.should_delay_window_ordering(500, 1, true),
        OrderingQuery::AskDelegate(PlatformDragContextId(1))
    );
    assert_eq!(
        contexts.should_delay_window_ordering(500, 3, true),
        OrderingQuery::Answer(false)
    );
}

#[test]
fn drag_of_a_context_ends_without_its_view() {
    let mut contexts = Contexts::new();
    let a = add(&mut contexts, 1, 500);
    let b = add(&mut contexts, 2, 501);
    contexts.session_opened(a, drag_session(5), 40);
    contexts.session_opened(b, drag_session(6), 40);
    let actions = contexts.drag_ended(a, 40, vec![DropOperation::Move], None, true);
    assert!(matches!(
        actions[0],
        EndAction::NotifyDelegate {
            id: PlatformDragContextId(1),
            session_id: DragSessionId(5),
            operation: DropOperation::Move
        }
    ));
    assert!(!contexts.context(a).unwrap().has_session(40));
    assert!(contexts.context(b).unwrap().has_session(40));
}
