use vstd::prelude::*;

use crate::classify::{target_of, UNRESOLVED};
use crate::event::{KeyAction, KeyEvent};

verus! {

/// UTF-8 encoding of the character whose code point is the byte `b`.
pub open spec fn char_bytes(b: u8) -> Seq<u8> {
    if b < 0x80 {
        seq![b]
    } else {
        seq![(0xC0 + b / 64) as u8, (0x80 + b % 64) as u8]
    }
}

/// The code unit narrowed to the log's range: its low byte.
pub open spec fn narrow(target: u16) -> u8 {
    (target % 256) as u8
}

/// What the log receives for an event: nothing for a press or an
/// unresolved key; for a release, the character of the low byte of its code
/// unit, UTF-8 encoded.
pub open spec fn log_bytes(e: KeyEvent) -> Seq<u8> {
    if e.action == KeyAction::Release && e.target != UNRESOLVED {
        char_bytes(narrow(e.target))
    } else {
        seq![]
    }
}

/// Narrows a code unit to the log's range by keeping its low byte; units
/// above 255 alias the unit with the same low byte.
pub fn narrow_target(target: u16) -> (r: u8)
    ensures
        r == narrow(target),
        target < 256 ==> r == target,
{
    (target % 256) as u8
}

/// The bytes that the log receives for an event.
pub fn log_bytes_of(e: &KeyEvent) -> (r: Vec<u8>)
    ensures
        r@ == log_bytes(*e),
{
    let mut out: Vec<u8> = Vec::new();
    if e.action == KeyAction::Release && e.target != UNRESOLVED {
        let b = narrow_target(e.target);
        if b < 0x80 {
            out.push(b);
        } else {
            out.push(0xC0 + b / 64);
            out.push(0x80 + b % 64);
        }
    }
    proof {
        if e.action == KeyAction::Release && e.target != UNRESOLVED {
            assert(out@ =~= log_bytes(*e));
        } else {
            assert(out@ =~= log_bytes(*e));
        }
    }
    out
}

/// What the consumer does with one outcome of a receive.
#[derive(Debug, PartialEq, Eq)]
pub enum ConsumerAction {
    /// Append these bytes to the log.
    Append(Vec<u8>),
    /// Nothing to log for this event.
    Ignore,
    /// The channel closed: stop receiving and uninstall the hook.
    Uninstall,
    /// The loop has already stopped; nothing is to be done.
    Idle,
}

/// The consumer loop: drains events until the channel closes, then asks for
/// the hook to be uninstalled, once.
#[derive(Debug)]
pub struct Consumer {
    stopped: bool,
}

impl Consumer {
    /// Whether the loop has seen the channel close.
    pub closed spec fn is_stopped(&self) -> bool {
        self.stopped
    }

    /// A consumer that is still receiving.
    pub fn new() -> (r: Self)
        ensures
            !r.is_stopped(),
    {
        Consumer { stopped: false }
    }

    /// Whether the loop has seen the channel close.
    pub fn stopped(&self) -> (r: bool)
        ensures
            r == self.is_stopped(),
    {
        self.stopped
    }

    /// Reacts to the outcome of one receive: `Some(e)` for an event, `None`
    /// once the channel is closed. The first `None` stops the loop and asks
    /// for uninstallation; after that every outcome is ignored.
    pub fn on_receive(&mut self, received: Option<KeyEvent>) -> (r: ConsumerAction)
        ensures
            old(self).is_stopped() ==> r == ConsumerAction::Idle && final(self).is_stopped(),
            !old(self).is_stopped() && received is None ==> r == ConsumerAction::Uninstall
                && final(self).is_stopped(),
            !old(self).is_stopped() && received is Some ==> !final(self).is_stopped() && (if log_bytes(
                received->0,
            ).len() == 0 {
                r == ConsumerAction::Ignore
            } else {
                r is Append && r->Append_0@ == log_bytes(received->0)
            }),
    {
        if self.stopped {
            return ConsumerAction::Idle;
        }
        match received {
            None => {
                self.stopped = true;
                ConsumerAction::Uninstall
            },
            Some(e) => {
                let bytes = log_bytes_of(&e);
                if bytes.len() == 0 {
                    ConsumerAction::Ignore
                } else {
                    ConsumerAction::Append(bytes)
                }
            },
        }
    }
}

/// A key that translates to no code unit yields an event carrying
/// `UNRESOLVED`, and no bytes reach the log for it, press or release.
pub proof fn lemma_unresolved_never_logged(action: KeyAction, count: i32, unit: u16)
    requires
        count <= 0,
    ensures
        target_of(count, unit) == UNRESOLVED,
        log_bytes(KeyEvent { target: target_of(count, unit), action }) == Seq::<u8>::empty(),
{
    assert(log_bytes(KeyEvent { target: target_of(count, unit), action }) =~= Seq::<u8>::empty());
}

} // verus!
