use vstd::prelude::*;

use crate::event::{KeyAction, KeyEvent, NativeEventOperation};

verus! {

/// Target value of an event whose key has no character translation
/// (modifiers, function keys and the like). It is never written to the log.
pub const UNRESOLVED: u16 = 0;

/// Bit of the transition flags that is set when the key went up.
pub const RELEASE_FLAG: u32 = 0x80;

/// The fields of a low-level keyboard notification that the classifier reads.
#[derive(Debug, Clone, Copy, PartialEq, Eq, Structural)]
pub struct KeyNotification {
    /// Virtual-key identifier.
    pub vk_code: u32,
    /// Transition flags; bit 7 tells a release from a press.
    pub flags: u32,
    /// Injection marker: non-zero for input generated by software.
    pub extra_info: usize,
}

/// What the hook callback does after looking at a notification.
#[derive(Debug, Clone, Copy, PartialEq, Eq, Structural)]
pub enum HookStep {
    /// Answer the system at once with this decision; no event is produced and
    /// no keyboard state is read.
    Finish(NativeEventOperation),
    /// Read the keyboard state, translate the key, then complete the event
    /// with this action.
    Resolve(KeyAction),
}

/// Bit 7 of the transition flags.
pub open spec fn release_bit(flags: u32) -> bool {
    (flags / 128) % 2 == 1
}

/// The action that a set of transition flags describes: a release when bit 7
/// is set, a press when it is clear.
pub open spec fn action_of(flags: u32) -> KeyAction {
    if !release_bit(flags) {
        KeyAction::Press
    } else {
        KeyAction::Release
    }
}

/// First step of the hook callback on hook code `code` and notification `n`.
pub open spec fn begin_spec(code: i32, n: KeyNotification) -> HookStep {
    if code < 0 {
        HookStep::Finish(NativeEventOperation::Dispatch)
    } else if n.extra_info != 0 {
        HookStep::Finish(NativeEventOperation::Dispatch)
    } else {
        HookStep::Resolve(action_of(n.flags))
    }
}

/// The code unit that an event carries when translation gave `count` units,
/// the first of them `unit`.
pub open spec fn target_of(count: i32, unit: u16) -> u16 {
    if count >= 1 {
        unit
    } else {
        UNRESOLVED
    }
}

/// The decision returned to the system once an event with `action` was sent,
/// given the decision `proposed` by the suppression policy.
pub open spec fn operation_for(action: KeyAction, proposed: NativeEventOperation) -> NativeEventOperation {
    match action {
        KeyAction::Release => NativeEventOperation::Dispatch,
        KeyAction::Press => proposed,
    }
}

/// Reads the action from the transition flags: bit 7 clear is a press,
/// bit 7 set a release.
pub fn action_from_flags(flags: u32) -> (r: KeyAction)
    ensures
        r == action_of(flags),
        r == KeyAction::Press <==> flags & 0x80 == 0,
{
    assert(flags & 0x80 == 0 <==> (flags / 128) % 2 == 0) by (bit_vector);
    if flags & RELEASE_FLAG == 0 {
        KeyAction::Press
    } else {
        KeyAction::Release
    }
}

/// First step of the hook callback. A negative hook code is passed on at
/// once; an injected notification is dropped; any other goes on to
/// translation with the action that its flags give.
pub fn begin_notification(code: i32, n: &KeyNotification) -> (r: HookStep)
    ensures
        r == begin_spec(code, *n),
        code < 0 ==> r == HookStep::Finish(NativeEventOperation::Dispatch),
        n.extra_info != 0 ==> r is Finish,
        code >= 0 && n.extra_info == 0 ==> r == HookStep::Resolve(action_of(n.flags)),
{
    if code < 0 {
        return HookStep::Finish(NativeEventOperation::Dispatch);
    }
    if n.extra_info != 0 {
        return HookStep::Finish(NativeEventOperation::Dispatch);
    }
    HookStep::Resolve(action_from_flags(n.flags))
}

/// The code unit an event carries: the first translated unit, or
/// `UNRESOLVED` when translation gave none.
pub fn resolve_target(count: i32, unit: u16) -> (r: u16)
    ensures
        r == target_of(count, unit),
        count <= 0 ==> r == UNRESOLVED,
{
    if count >= 1 {
        unit
    } else {
        UNRESOLVED
    }
}

/// Builds the event for a key whose translation gave `count` code units, the
/// first of them `unit`.
pub fn create_keyboard_event(action: KeyAction, count: i32, unit: u16) -> (r: KeyEvent)
    ensures
        r == (KeyEvent { target: target_of(count, unit), action }),
{
    KeyEvent { target: resolve_target(count, unit), action }
}

/// The decision returned to the system after an event was sent: a release is
/// always passed on, a press gets what the policy proposed.
pub fn final_operation(action: KeyAction, proposed: NativeEventOperation) -> (r: NativeEventOperation)
    ensures
        r == operation_for(action, proposed),
        action == KeyAction::Release ==> r == NativeEventOperation::Dispatch,
        action == KeyAction::Press ==> r == proposed,
{
    match action {
        KeyAction::Release => NativeEventOperation::Dispatch,
        KeyAction::Press => proposed,
    }
}

/// Second step of the hook callback, after translation: the event to send
/// and the decision to return. The policy proposes the default decision.
pub fn complete_notification(action: KeyAction, count: i32, unit: u16) -> (r: (KeyEvent, NativeEventOperation))
    ensures
        r.0 == (KeyEvent { target: target_of(count, unit), action }),
        r.1 == NativeEventOperation::Dispatch,
{
    let event = create_keyboard_event(action, count, unit);
    let op = final_operation(action, NativeEventOperation::default());
    (event, op)
}

/// A valid, non-injected notification always reaches translation, and the
/// event it produces is a press exactly when bit 7 of its flags is clear and
/// a release exactly when that bit is set, whatever the translation gives.
pub proof fn lemma_action_follows_flags(code: i32, n: KeyNotification, count: i32, unit: u16)
    requires
        code >= 0,
        n.extra_info == 0,
    ensures
        begin_spec(code, n) is Resolve,
        ({
            let e = KeyEvent { target: target_of(count, unit), action: begin_spec(code, n)->Resolve_0 };
            &&& e.action == KeyAction::Press <==> n.flags & 0x80 == 0
            &&& e.action == KeyAction::Release <==> n.flags & 0x80 != 0
        }),
{
    let flags = n.flags;
    assert(flags & 0x80 == 0 <==> (flags / 128) % 2 == 0) by (bit_vector);
}

} // verus!
