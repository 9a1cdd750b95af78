use keyhook::classify::{
    action_from_flags, begin_notification, complete_notification, create_keyboard_event,
    final_operation, resolve_target, HookStep, KeyNotification, UNRESOLVED,
};
use keyhook::consumer::log_bytes_of;
use keyhook::event::{KeyAction, KeyEvent, NativeEventOperation};

fn note(vk_code: u32, flags: u32, extra_info: usize) -> KeyNotification {
    KeyNotification { vk_code, flags, extra_info }
}

#[test]
fn default_operation_is_dispatch() {
    assert_eq!(NativeEventOperation::default(), NativeEventOperation::Dispatch);
}

#[test]
fn flags_bit_seven_decides_action() {
    assert_eq!(action_from_flags(0), KeyAction::Press);
    assert_eq!(action_from_flags(0x01), KeyAction::Press);
    assert_eq!(action_from_flags(0x10), KeyAction::Press);
    assert_eq!(action_from_flags(0x80), KeyAction::Release);
    assert_eq!(action_from_flags(0x81), KeyAction::Release);
    assert_eq!(action_from_flags(0xFF), KeyAction::Release);
    assert_eq!(action_from_flags(0x100), KeyAction::Press);
}

#[test]
fn valid_notification_goes_to_translation() {
    assert_eq!(begin_notification(0, &note(0x41, 0, 0)), HookStep::Resolve(KeyAction::Press));
    assert_eq!(begin_notification(0, &note(0x41, 0x80, 0)), HookStep::Resolve(KeyAction::Release));
    assert_eq!(begin_notification(3, &note(0x10, 0x81, 0)), HookStep::Resolve(KeyAction::Release));
}

#[test]
fn negative_code_dispatches_at_once() {
    for n in [note(0x41, 0, 0), note(0x41, 0x80, 0), note(0x41, 0, 1)] {
        assert_eq!(begin_notification(-1, &n), HookStep::Finish(NativeEventOperation::Dispatch));
        assert_eq!(
            begin_notification(i32::MIN, &n),
            HookStep::Finish(NativeEventOperation::Dispatch)
        );
    }
}

#[test]
fn injected_notification_yields_no_event() {
    for n in [note(0x41, 0, 1), note(0x41, 0x80, 1), note(0x20, 0, usize::MAX)] {
        assert_eq!(begin_notification(0, &n), HookStep::Finish(NativeEventOperation::Dispatch));
    }
}

#[test]
fn translation_gives_target() {
    assert_eq!(resolve_target(1, 0x61), 0x61);
    assert_eq!(resolve_target(2, 0x5E), 0x5E);
    assert_eq!(resolve_target(0, 0x61), UNRESOLVED);
    assert_eq!(resolve_target(-1, 0x61), UNRESOLVED);
}

#[test]
fn untranslated_key_is_placeholder_and_not_logged() {
    let e = create_keyboard_event(KeyAction::Release, 0, 0x1234);
    assert_eq!(e, KeyEvent { target: UNRESOLVED, action: KeyAction::Release });
    assert!(log_bytes_of(&e).is_empty());
}

#[test]
fn release_is_always_dispatched() {
    assert_eq!(
        final_operation(KeyAction::Release, NativeEventOperation::Block),
        NativeEventOperation::Dispatch
    );
    assert_eq!(
        final_operation(KeyAction::Release, NativeEventOperation::Dispatch),
        NativeEventOperation::Dispatch
    );
}

#[test]
fn press_keeps_proposed_operation() {
    assert_eq!(
        final_operation(KeyAction::Press, NativeEventOperation::Block),
        NativeEventOperation::Block
    );
    assert_eq!(
        final_operation(KeyAction::Press, NativeEventOperation::Dispatch),
        NativeEventOperation::Dispatch
    );
}

#[test]
fn completed_notification_dispatches() {
    let (e, op) = complete_notification(KeyAction::Press, 1, 0x61);
    assert_eq!(e, KeyEvent { target: 0x61, action: KeyAction::Press });
    assert_eq!(op, NativeEventOperation::Dispatch);
    let (e, op) = complete_notification(KeyAction::Release, 0, 0x61);
    assert_eq!(e, KeyEvent { target: UNRESOLVED, action: KeyAction::Release });
    assert_eq!(op, NativeEventOperation::Dispatch);
}
