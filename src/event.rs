use vstd::prelude::*;

verus! {

/// A key transition as seen by the library: the resolved code unit and
/// whether the key went down or up.
#[derive(Debug, Clone, Copy, PartialEq, Eq, Structural, Hash)]
pub struct KeyEvent {
    pub target: u16,
    pub action: KeyAction,
}

/// Direction of a key transition.
#[derive(Debug, Clone, Copy, PartialEq, Eq, Structural, Hash)]
pub enum KeyAction {
    Press,
    Release,
}

/// Decision handed back to the system about the raw input that raised an event.
#[derive(Debug, Clone, Copy, PartialEq, Eq, Structural, Hash)]
pub enum NativeEventOperation {
    /// Do not pass the input on to the next program.
    Block,
    /// Pass the input on to the next program.
    Dispatch,
}

impl Default for NativeEventOperation {
    fn default() -> (r: Self)
        ensures
            r == NativeEventOperation::Dispatch,
    {
        NativeEventOperation::Dispatch
    }
}

} // verus!
