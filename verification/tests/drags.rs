use drag_context::context::{
    poll_ordering_answer, EndAction, MouseUpStep, MoveNotification, OpenAction, OrderingQuery,
    PlatformDragContext, PlatformDragContextId, PromiseResult, SynthesizedEvent,
};
use drag_context::error::NativeExtensionsError;
use drag_context::event::{CurrentEvent, MomentumEvent, MouseEvent, MouseUpType};
use drag_context::operation::DropOperation;
use drag_context::session::{
    has_providers, DataProviderEntry, DragConfiguration, DragItem, DragRequest, DragSession,
    DragSessionId,
};
use drag_context::start::{DragStart, ItemRequest, StartStep};
use std::collections::HashMap;

type Context = PlatformDragContext<&'static str, u64, String, u32>;
type Start = DragStart<String, u64, String, u32>;

const ID: PlatformDragContextId = PlatformDragContextId(11);

fn context() -> Context {
    PlatformDragContext::new(ID, 77)
}

fn item(provider: i64, data: &str) -> DragItem<String, u32> {
    DragItem {
        data_provider_id: provider,
        image: 900 + provider as u32,
        local_data: data.to_string(),
    }
}

fn configuration(
    items: Vec<DragItem<String, u32>>,
    masks: Vec<usize>,
) -> DragConfiguration<String, u32> {
    DragConfiguration {
        items,
        allowed_operations: masks,
        animates_to_starting_position_on_cancel_or_fail: true,
    }
}

fn session(
    id: i64,
    data: &str,
    masks: Vec<usize>,
    handles: Vec<u64>,
) -> DragSession<u64, String, u32> {
    DragSession {
        session_id: DragSessionId(id),
        configuration: configuration(vec![item(1, data)], masks),
        data_provider_handles: handles,
    }
}

fn mouse(event_type: usize, event: &'static str) -> MouseEvent<&'static str> {
    MouseEvent { event_type, event }
}

fn providers(ids: &[i64]) -> HashMap<i64, DataProviderEntry<String, u64>> {
    let mut res = HashMap::new();
    for id in ids {
        res.insert(
            *id,
            DataProviderEntry { provider: format!("provider {}", id), handle: 100 + *id as u64 },
        );
    }
    res
}

fn start(context: &Context, asked: DragConfiguration<String, u32>, ids: &[i64]) -> Start {
    context.start_drag(DragRequest { configuration: asked }, providers(ids), DragSessionId(1))
}

fn after_event(context: &Context, start: Start) -> Start {
    match context.continue_start(start, false) {
        StartStep::SendEvent { event: None, next } => next,
        _ => panic!("not the step of an event"),
    }
}

fn after_items(
    context: &Context,
    start: Start,
) -> (Vec<ItemRequest<String, u64, u32>>, Vec<i64>, Start) {
    assert!(start.has_providers());
    match context.continue_start(start, false) {
        StartStep::MakeItems { items, surplus, next } => {
            let mut ids: Vec<i64> = surplus.keys().cloned().collect();
            ids.sort();
            (items, ids, next)
        }
        _ => panic!("not the step of the items"),
    }
}

fn begin(context: &Context, animates: bool) -> Result<(&'static str, bool), NativeExtensionsError> {
    let mut asked = configuration(vec![], vec![]);
    asked.animates_to_starting_position_on_cancel_or_fail = animates;
    let ready = after_event(context, after_event(context, start(context, asked, &[])));
    let (items, _, next) = after_items(context, ready);
    assert!(items.is_empty());
    match context.continue_start(next, true) {
        StartStep::OpenSession { actions, .. } => {
            assert_eq!(actions.len(), 3);
            assert!(matches!(actions[0], OpenAction::PreventWindowOrdering));
            match (&actions[1], &actions[2]) {
                (
                    OpenAction::BeginDraggingSession { event, source: 77 },
                    OpenAction::SetAnimatesToStartingPositionsOnCancelOrFail(animates),
                ) => Ok((**event, *animates)),
                _ => panic!("wrong actions"),
            }
        }
        StartStep::Failed { error, .. } => Err(error),
        _ => panic!("the start goes on"),
    }
}

#[test]
fn new_context_is_empty() {
    let context = context();
    assert_eq!(context.id(), ID);
    assert_eq!(context.view_id(), 77);
    assert!(!context.has_session(0));
    assert_eq!(context.get_local_data(0), None);
    assert!(context.finish_momentum_events(true).is_none());
    assert!(matches!(
        context.synthesize_mouse_up_event(MouseUpStep::ReleaseButton, true),
        (None, None)
    ));
}

#[test]
fn images_are_not_combined() {
    assert!(!Context::needs_combined_drag_image());
}

#[test]
fn drag_needs_mouse_down() {
    let mut context = context();
    assert_eq!(begin(&context, true), Err(NativeExtensionsError::MouseEventNotFound));
    context.on_mouse_up(mouse(2, "up"));
    context.on_momentum_event(MomentumEvent { phase: 1, event: "scroll" });
    assert_eq!(begin(&context, true), Err(NativeExtensionsError::MouseEventNotFound));
    context.on_mouse_down(mouse(1, "down"));
    assert_eq!(begin(&context, true), Ok(("down", true)));
    context.on_mouse_up(mouse(2, "up"));
    assert_eq!(begin(&context, true), Ok(("down", true)));
    context.on_right_mouse_down(mouse(3, "right"));
    context.on_right_mouse_up(mouse(4, "right up"));
    assert_eq!(begin(&context, false), Ok(("right", false)));
}

#[test]
fn unfinished_gesture_is_finished_once() {
    let mut context = context();
    context.on_momentum_event(MomentumEvent { phase: 4, event: "scroll" });
    match context.finish_momentum_events(true) {
        Some(SynthesizedEvent::MomentumEnd { event, field, value }) => {
            assert_eq!((*event, field, value), ("scroll", 99, 8));
        }
        _ => panic!("no event"),
    }
    assert!(context.finish_momentum_events(false).is_none());
    context.on_momentum_event(MomentumEvent { phase: 8, event: "end" });
    assert!(context.finish_momentum_events(true).is_none());
    context.on_momentum_event(MomentumEvent { phase: 16, event: "cancelled" });
    assert!(context.finish_momentum_events(true).is_none());
    context.on_momentum_event(MomentumEvent { phase: 0, event: "wheel" });
    assert!(context.finish_momentum_events(true).is_none());
}

#[test]
fn gesture_is_finished_before_button_is_released() {
    let mut context = context();
    context.on_momentum_event(MomentumEvent { phase: 1, event: "scroll" });
    context.on_mouse_down(mouse(1, "down"));
    let (first, next) = context.synthesize_mouse_up_event(MouseUpStep::FinishMomentum, true);
    assert!(matches!(
        first,
        Some(SynthesizedEvent::MomentumEnd { event: &"scroll", field: 99, value: 8 })
    ));
    assert_eq!(next, Some(MouseUpStep::ReleaseButton));
    let (second, end) = context.synthesize_mouse_up_event(MouseUpStep::ReleaseButton, true);
    assert!(matches!(
        second,
        Some(SynthesizedEvent::MouseUp { event: &"down", event_type: MouseUpType::LeftMouseUp })
    ));
    assert_eq!(end, None);
    let (none, _) = context.synthesize_mouse_up_event(MouseUpStep::ReleaseButton, false);
    assert!(none.is_none());
}

#[test]
fn last_button_is_released() {
    let mut context = context();
    context.on_mouse_down(mouse(1, "left"));
    context.on_right_mouse_down(mouse(3, "right"));
    assert!(matches!(
        context.synthesize_mouse_up_event(MouseUpStep::ReleaseButton, true).0,
        Some(SynthesizedEvent::MouseUp { event: &"right", event_type: MouseUpType::RightMouseUp })
    ));
    context.on_mouse_down(mouse(25, "other"));
    assert!(context.synthesize_mouse_up_event(MouseUpStep::ReleaseButton, true).0.is_none());
}

#[test]
fn items_need_providers_of_their_own() {
    let two = configuration(vec![item(1, "a"), item(2, "b")], vec![]);
    assert!(has_providers(&two, &providers(&[2, 1, 3])));
    assert!(!has_providers(&two, &providers(&[1])));
    let twice = configuration(vec![item(1, "a"), item(1, "b")], vec![]);
    assert!(!has_providers(&twice, &providers(&[1, 2])));
    let none = configuration(vec![], vec![]);
    assert!(has_providers(&none, &providers(&[])));
}

#[test]
fn items_get_their_provider_handle_and_image() {
    let context = context();
    let asked = configuration(vec![item(2, "b"), item(1, "a")], vec![1]);
    let ready = after_event(&context, after_event(&context, start(&context, asked, &[1, 2, 3])));
    let (items, surplus, _) = after_items(&context, ready);
    assert_eq!(items.len(), 2);
    assert_eq!(items[0].provider, "provider 2");
    assert_eq!((items[0].handle, items[0].flags, items[0].image), (102, (false, true), 902));
    assert_eq!(items[1].provider, "provider 1");
    assert_eq!((items[1].handle, items[1].flags, items[1].image), (101, (false, true), 901));
    assert_eq!(surplus, vec![3]);
}

#[test]
fn mouse_is_released_before_anything_else() {
    let mut context = context();
    context.on_momentum_event(MomentumEvent { phase: 1, event: "scroll" });
    context.on_mouse_down(mouse(3, "down"));
    let first = start(&context, configuration(vec![item(1, "a")], vec![]), &[1]);
    let second = match context.continue_start(first, true) {
        StartStep::SendEvent { event, next } => {
            assert!(matches!(
                event,
                Some(SynthesizedEvent::MomentumEnd { event: &"scroll", field: 99, value: 8 })
            ));
            next
        }
        _ => panic!("the gesture is not finished"),
    };
    let third = match context.continue_start(second, true) {
        StartStep::SendEvent { event, next } => {
            assert!(matches!(
                event,
                Some(SynthesizedEvent::MouseUp {
                    event: &"down",
                    event_type: MouseUpType::RightMouseUp
                })
            ));
            next
        }
        _ => panic!("the button is not released"),
    };
    let (_, _, fourth) = after_items(&context, third);
    assert!(matches!(context.continue_start(fourth, true), StartStep::OpenSession { .. }));
}

#[test]
fn mouse_is_released_though_the_start_fails() {
    let context = context();
    let ready = after_event(
        &context,
        after_event(&context, start(&context, configuration(vec![], vec![]), &[4])),
    );
    let (_, surplus, next) = after_items(&context, ready);
    assert_eq!(surplus, vec![4]);
    assert!(matches!(
        context.continue_start(next, true),
        StartStep::Failed { error: NativeExtensionsError::MouseEventNotFound, .. }
    ));
}

#[test]
fn missing_provider_shows_after_the_mouse_is_released() {
    let context = context();
    let first = start(&context, configuration(vec![item(1, "a")], vec![]), &[2]);
    assert!(first.has_providers());
    let second = after_event(&context, first);
    assert!(second.has_providers());
    let third = after_event(&context, second);
    assert!(!third.has_providers());
}

#[test]
fn opened_session_is_known_by_number_and_name() {
    let mut context = context();
    context.session_opened(session(5, "five", vec![1, 16], vec![]), 40);
    context.session_opened(session(6, "six", vec![2], vec![]), -41);
    assert!(context.has_session(40));
    assert_eq!(context.get_local_data(40), Some(vec!["five".to_string()]));
    assert_eq!(context.get_local_data(-41), Some(vec!["six".to_string()]));
    assert_eq!(context.get_local_data(41), None);
    assert_eq!(
        context.get_local_data_for_session_id(DragSessionId(5)),
        Ok(vec!["five".to_string()])
    );
    assert_eq!(
        context.get_local_data_for_session_id(DragSessionId(6)),
        Ok(vec!["six".to_string()])
    );
    assert_eq!(
        context.get_local_data_for_session_id(DragSessionId(7)),
        Err(NativeExtensionsError::DragSessionNotFound)
    );
    assert_eq!(context.source_operation_mask_for_dragging_context(40), 17);
    assert_eq!(context.source_operation_mask_for_dragging_context(-41), 2);
    assert_eq!(context.source_operation_mask_for_dragging_context(0), 0);
}

#[test]
fn shared_name_finds_one_of_the_drags() {
    let mut context = context();
    context.session_opened(session(5, "one", vec![], vec![]), 1);
    context.session_opened(session(5, "two", vec![], vec![]), 2);
    let data = context.get_local_data_for_session_id(DragSessionId(5)).unwrap();
    assert!(data == vec!["one".to_string()] || data == vec!["two".to_string()]);
}

#[test]
fn number_given_again_replaces_drag() {
    let mut context = context();
    context.session_opened(session(5, "old", vec![1], vec![]), 1);
    context.session_opened(session(6, "new", vec![2], vec![]), 1);
    assert_eq!(context.get_local_data(1), Some(vec!["new".to_string()]));
    assert_eq!(
        context.get_local_data_for_session_id(DragSessionId(5)),
        Err(NativeExtensionsError::DragSessionNotFound)
    );
}

#[test]
fn drag_lasts_until_it_ends() {
    let mut context = context();
    context.session_opened(session(5, "five", vec![1, 2], vec![100]), 40);
    context.on_mouse_down(mouse(1, "down"));
    context.on_mouse_up(mouse(2, "up"));
    context.on_momentum_event(MomentumEvent { phase: 1, event: "scroll" });
    context.session_opened(session(6, "six", vec![16], vec![]), 41);
    context.drag_ended(41, vec![], None, true);
    assert_eq!(context.get_local_data(40), Some(vec!["five".to_string()]));
    assert_eq!(
        context.get_local_data_for_session_id(DragSessionId(5)),
        Ok(vec!["five".to_string()])
    );
    assert_eq!(context.source_operation_mask_for_dragging_context(40), 3);
    assert_eq!((context.id(), context.view_id()), (ID, 77));
}

#[test]
fn ended_number_can_be_given_again() {
    let mut context = context();
    context.session_opened(session(5, "old", vec![1], vec![]), 1);
    context.drag_ended(1, vec![], None, true);
    assert!(!context.has_session(1));
    context.session_opened(session(6, "new", vec![2], vec![]), 1);
    assert_eq!(context.get_local_data(1), Some(vec!["new".to_string()]));
    context.drag_ended(1, vec![], None, true);
    assert!(!context.has_session(1));
}

#[test]
fn started_drag_is_what_was_asked_for() {
    let mut context = context();
    context.on_mouse_down(mouse(1, "down"));
    let asked = configuration(vec![item(3, "c"), item(1, "a")], vec![16, 2]);
    let ready = after_event(&context, after_event(&context, start(&context, asked, &[1, 3])));
    let (_, _, next) = after_items(&context, ready);
    let session = match context.continue_start(next, true) {
        StartStep::OpenSession { session, .. } => session,
        _ => panic!("no session"),
    };
    context.session_opened(session, 12);
    let data = vec!["c".to_string(), "a".to_string()];
    assert_eq!(context.get_local_data(12), Some(data.clone()));
    assert_eq!(context.get_local_data_for_session_id(DragSessionId(1)), Ok(data));
    assert_eq!(context.source_operation_mask_for_dragging_context(12), 18);
    let actions = context.drag_ended(12, vec![], None, false);
    match &actions[1] {
        EndAction::ReleaseLater { seconds, data_provider_handles } => {
            assert_eq!((*seconds, data_provider_handles), (3, &vec![103, 101]));
        }
        _ => panic!("no release"),
    }
}

#[test]
fn moved_drag_is_told() {
    let mut context = context();
    context.session_opened(session(5, "five", vec![], vec![]), 40);
    assert_eq!(
        context.drag_moved(40, true),
        Some(MoveNotification { id: ID, session_id: DragSessionId(5) })
    );
    assert_eq!(context.drag_moved(40, false), None);
}

#[test]
fn ended_drag_is_told_and_its_handles_held() {
    let mut context = context();
    context.session_opened(session(5, "five", vec![1], vec![100, 101]), 40);
    let actions = context.drag_ended(40, vec![DropOperation::Copy], None, true);
    assert_eq!(actions.len(), 3);
    match &actions[0] {
        EndAction::NotifyDelegate { id, session_id, operation } => {
            assert_eq!(*id, ID);
            assert_eq!(*session_id, DragSessionId(5));
            assert_eq!(*operation, DropOperation::Copy);
        }
        _ => panic!("no notification"),
    }
    assert!(matches!(actions[1], EndAction::SynthesizeMouseMove));
    match &actions[2] {
        EndAction::ReleaseLater { seconds, data_provider_handles } => {
            assert_eq!(*seconds, 3);
            assert_eq!(*data_provider_handles, vec![100, 101]);
        }
        _ => panic!("no release"),
    }
}

#[test]
fn ended_drag_is_gone_and_others_stay() {
    let mut context = context();
    context.session_opened(session(5, "five", vec![1], vec![]), 40);
    context.session_opened(session(6, "six", vec![2], vec![]), 41);
    let actions = context.drag_ended(40, vec![], None, false);
    assert_eq!(actions.len(), 2);
    assert!(matches!(actions[0], EndAction::SynthesizeMouseMove));
    assert!(!context.has_session(40));
    assert_eq!(context.get_local_data(40), None);
    assert_eq!(
        context.get_local_data_for_session_id(DragSessionId(5)),
        Err(NativeExtensionsError::DragSessionNotFound)
    );
    assert_eq!(context.source_operation_mask_for_dragging_context(40), 0);
    assert_eq!(context.get_local_data(41), Some(vec!["six".to_string()]));
    assert_eq!(context.source_operation_mask_for_dragging_context(41), 2);
}

#[test]
fn escape_marks_drag_as_cancelled() {
    let mut context = context();
    let escape = Some(CurrentEvent { event_type: 10, key_code: 0x35 });
    context.session_opened(session(5, "five", vec![], vec![]), 1);
    context.session_opened(session(6, "six", vec![], vec![]), 2);
    context.session_opened(session(7, "seven", vec![], vec![]), 3);
    assert!(matches!(
        context.drag_ended(1, vec![], escape, true)[0],
        EndAction::NotifyDelegate { operation: DropOperation::UserCancelled, .. }
    ));
    assert!(matches!(
        context.drag_ended(2, vec![DropOperation::Move], escape, true)[0],
        EndAction::NotifyDelegate { operation: DropOperation::Move, .. }
    ));
    assert!(matches!(
        context.drag_ended(3, vec![], None, true)[0],
        EndAction::NotifyDelegate { operation: DropOperation::NoOperation, .. }
    ));
}

#[test]
fn window_ordering_depends_on_delegate() {
    let context = context();
    assert_eq!(context.should_delay_window_ordering(1, true), OrderingQuery::AskDelegate(ID));
    assert_eq!(context.should_delay_window_ordering(1, false), OrderingQuery::Answer(false));
    assert_eq!(context.should_delay_window_ordering(3, true), OrderingQuery::Answer(false));
    assert_eq!(poll_ordering_answer(None), None);
    assert_eq!(poll_ordering_answer(Some(PromiseResult::Answered { value: true })), Some(true));
    assert_eq!(poll_ordering_answer(Some(PromiseResult::Answered { value: false })), Some(false));
    assert_eq!(poll_ordering_answer(Some(PromiseResult::Cancelled)), Some(false));
}
