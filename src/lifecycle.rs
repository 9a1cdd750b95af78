use vstd::prelude::*;

verus! {

/// Failures of the hook lifecycle. Each one is fatal to the process.
#[derive(Debug, Clone, Copy, PartialEq, Eq, Structural)]
pub enum LifecycleError {
    /// The hook could not be registered, or the log could not be opened.
    SetupFailure,
    /// Unregistration, the quit notification or the join of the hook thread
    /// failed.
    TeardownFailure,
    /// A send found no receiver, or a receive found no sender.
    ChannelFailure,
    /// Install while installed, or uninstall or send while not installed.
    InvariantViolation,
}

/// The active hook instance: the hook handle and the id of the thread that
/// owns it, with that thread's join handle and the sending end of the event
/// channel.
#[derive(Debug)]
pub struct Session<J, S> {
    pub hook: isize,
    pub thread_id: u32,
    pub join_handle: J,
    pub event_sender: S,
}

/// Slot contents after an install of `s` on contents `slot`, and the outcome.
pub open spec fn install_spec<A>(slot: Option<A>, s: A) -> (Option<A>, Result<(), LifecycleError>) {
    if slot is None {
        (Some(s), Ok(()))
    } else {
        (slot, Err(LifecycleError::InvariantViolation))
    }
}

/// Slot contents after an uninstall on contents `slot`, and the outcome.
pub open spec fn uninstall_spec<A>(slot: Option<A>) -> (Option<A>, Result<A, LifecycleError>) {
    match slot {
        Some(s) => (None, Ok(s)),
        None => (None, Err(LifecycleError::InvariantViolation)),
    }
}

/// The single place where a session lives: empty, or holding the active one.
#[derive(Debug)]
pub struct SessionSlot<J, S> {
    active: Option<Session<J, S>>,
}

impl<J, S> View for SessionSlot<J, S> {
    type V = Option<Session<J, S>>;

    closed spec fn view(&self) -> Option<Session<J, S>> {
        self.active
    }
}

impl<J, S> SessionSlot<J, S> {
    /// An empty slot.
    pub fn new() -> (r: Self)
        ensures
            r@ is None,
    {
        SessionSlot { active: None }
    }

    /// Whether a session is active.
    pub fn is_installed(&self) -> (r: bool)
        ensures
            r == self@ is Some,
    {
        self.active.is_some()
    }

    /// Succeeds exactly when no session is active, so that an install may go
    /// ahead.
    pub fn ensure_vacant(&self) -> (r: Result<(), LifecycleError>)
        ensures
            r is Ok <==> self@ is None,
            r is Err ==> r == Err::<(), LifecycleError>(LifecycleError::InvariantViolation),
    {
        if self.active.is_some() {
            Err(LifecycleError::InvariantViolation)
        } else {
            Ok(())
        }
    }

    /// Stores `session` as the active one. Fails, leaving the slot as it was,
    /// when a session is already active.
    pub fn install(&mut self, session: Session<J, S>) -> (r: Result<(), LifecycleError>)
        ensures
            (final(self)@, r) == install_spec(old(self)@, session),
    {
        if self.active.is_some() {
            return Err(LifecycleError::InvariantViolation);
        }
        self.active = Some(session);
        Ok(())
    }

    /// Takes the active session out, leaving the slot empty. Fails, with the
    /// slot unchanged, when no session is active.
    pub fn uninstall(&mut self) -> (r: Result<Session<J, S>, LifecycleError>)
        ensures
            (final(self)@, r) == uninstall_spec(old(self)@),
    {
        match self.active.take() {
            Some(s) => Ok(s),
            None => Err(LifecycleError::InvariantViolation),
        }
    }

    /// The active session, through which events are sent. Fails when no
    /// session is active.
    pub fn active_session(&self) -> (r: Result<&Session<J, S>, LifecycleError>)
        ensures
            self@ is Some ==> r is Ok && *r->Ok_0 == self@->0,
            self@ is None ==> r == Err::<&Session<J, S>, LifecycleError>(
                LifecycleError::InvariantViolation,
            ),
    {
        match &self.active {
            Some(s) => Ok(s),
            None => Err(LifecycleError::InvariantViolation),
        }
    }
}

/// Install, uninstall and install again all succeed from an empty slot;
/// uninstall hands back the first session, and afterwards the slot holds the
/// second session alone, with nothing left of the first.
pub proof fn lemma_reinstall<A>(first: A, second: A)
    ensures
        ({
            let (a1, r1) = install_spec(None, first);
            let (a2, r2) = uninstall_spec(a1);
            let (a3, r3) = install_spec(a2, second);
            &&& r1 == Ok::<(), LifecycleError>(())
            &&& r2 == Ok::<A, LifecycleError>(first)
            &&& a2 is None
            &&& r3 == Ok::<(), LifecycleError>(())
            &&& a3 == Some(second)
        }),
{
}

/// Of two installs on an empty slot, serialised by the lock in whichever
/// order, the first succeeds, the second fails with `InvariantViolation`, and
/// the slot then holds the session of the one that succeeded.
pub proof fn lemma_competing_installs<A>(winner: A, loser: A)
    ensures
        ({
            let (a1, r1) = install_spec(None, winner);
            let (a2, r2) = install_spec(a1, loser);
            &&& r1 == Ok::<(), LifecycleError>(())
            &&& r2 == Err::<(), LifecycleError>(LifecycleError::InvariantViolation)
            &&& a2 == Some(winner)
        }),
{
}

/// The steps of tearing a session down, in the order they must run.
#[derive(Debug, Clone, Copy, PartialEq, Eq, Structural)]
pub enum TeardownStep {
    /// Unregister the hook.
    Unhook,
    /// Post the quit notification to the hook thread.
    PostQuit,
    /// Join the hook thread.
    Join,
    /// The session is gone.
    Finished,
}

/// The step that follows `step` when it succeeded.
pub open spec fn teardown_successor(step: TeardownStep) -> TeardownStep {
    match step {
        TeardownStep::Unhook => TeardownStep::PostQuit,
        TeardownStep::PostQuit => TeardownStep::Join,
        TeardownStep::Join => TeardownStep::Finished,
        TeardownStep::Finished => TeardownStep::Finished,
    }
}

/// Decides what follows a teardown step: the next step when it succeeded, a
/// fatal `TeardownFailure` when it did not. Nothing is retried.
pub fn next_teardown_step(step: TeardownStep, succeeded: bool) -> (r: Result<TeardownStep, LifecycleError>)
    ensures
        succeeded ==> r == Ok::<TeardownStep, LifecycleError>(teardown_successor(step)),
        !succeeded ==> r == Err::<TeardownStep, LifecycleError>(LifecycleError::TeardownFailure),
{
    if !succeeded {
        return Err(LifecycleError::TeardownFailure);
    }
    match step {
        TeardownStep::Unhook => Ok(TeardownStep::PostQuit),
        TeardownStep::PostQuit => Ok(TeardownStep::Join),
        TeardownStep::Join => Ok(TeardownStep::Finished),
        TeardownStep::Finished => Ok(TeardownStep::Finished),
    }
}

} // verus!
