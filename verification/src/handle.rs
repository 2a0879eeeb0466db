//! The handle under which the engine knows a registered box, and the wrapper
//! that owns it until it is released.

use vstd::prelude::*;
use crate::engine::{EngineFailure, EngineFailureView};

verus! {

/// The engine's name for a registered box. Zero names no box.
#[derive(Clone, Copy, Debug, PartialEq, Eq, Structural)]
pub struct EncryptionBoxHandle(pub u32);

impl EncryptionBoxHandle {
    /// The handle names a box.
    pub open spec fn names_box(self) -> bool {
        self.0 != 0
    }
}

/// The handle that names no box.
pub open spec fn no_handle() -> EncryptionBoxHandle {
    EncryptionBoxHandle(0)
}

/// The owner of a registration. It is made when the engine has confirmed a
/// registration, and gives the handle up for deregistration once.
#[derive(Debug)]
pub struct TerminalEncryptionBox {
    handle: EncryptionBoxHandle,
}

impl View for TerminalEncryptionBox {
    type V = EncryptionBoxHandle;

    closed spec fn view(&self) -> EncryptionBoxHandle {
        self.handle
    }
}

/// What one release does to a wrapper that holds `held`: the handle that it
/// holds afterwards, and the handle to deregister, if any.
pub open spec fn released(held: EncryptionBoxHandle) -> (
    EncryptionBoxHandle,
    Option<EncryptionBoxHandle>,
) {
    if held.names_box() {
        (no_handle(), Some(held))
    } else {
        (held, None)
    }
}

/// How many deregistrations `count` releases in a row ask for, of a wrapper
/// that holds `held` before the first.
pub open spec fn deregistrations(held: EncryptionBoxHandle, count: nat) -> nat
    decreases count,
{
    if count == 0 {
        0
    } else {
        let asked: nat = if released(held).1 is Some {
            1
        } else {
            0
        };
        asked + deregistrations(released(held).0, (count - 1) as nat)
    }
}

impl TerminalEncryptionBox {
    /// The wrapper owns a registration.
    pub open spec fn is_registered(&self) -> bool {
        self@.names_box()
    }

    /// A wrapper that owns nothing.
    pub fn unregistered() -> (r: TerminalEncryptionBox)
        ensures
            r@ == no_handle(),
            !r.is_registered(),
    {
        TerminalEncryptionBox { handle: EncryptionBoxHandle(0) }
    }

    /// The wrapper of a registration that the engine has confirmed under
    /// `handle`.
    pub(crate) fn registered(handle: EncryptionBoxHandle) -> (r: TerminalEncryptionBox)
        requires
            handle.names_box(),
        ensures
            r@ == handle,
            r.is_registered(),
    {
        TerminalEncryptionBox { handle }
    }

    /// The handle that the wrapper holds: zero where it owns no registration.
    pub fn handle(&self) -> (r: EncryptionBoxHandle)
        ensures
            r == self@,
    {
        self.handle
    }

    /// Tells whether the wrapper owns a registration.
    pub fn owns_handle(&self) -> (r: bool)
        ensures
            r == self.is_registered(),
    {
        self.handle.0 != 0
    }

    /// Releases the registration. Where the wrapper owns one, the result is
    /// the handle to deregister with the engine, and the wrapper owns nothing
    /// afterwards; where it owns none, nothing is asked and nothing changes.
    pub fn release(&mut self) -> (r: Option<EncryptionBoxHandle>)
        ensures
            final(self)@ == released(old(self)@).0,
            r == released(old(self)@).1,
            !final(self).is_registered(),
    {
        if self.handle.0 != 0 {
            let held = self.handle;
            self.handle = EncryptionBoxHandle(0);
            Some(held)
        } else {
            None
        }
    }
}

/// A deregistration that the engine refused. It is reported and stops
/// nothing.
#[derive(Clone, Debug)]
pub struct DeregistrationWarning {
    /// The handle that the engine still holds.
    pub handle: EncryptionBoxHandle,
    /// The engine's refusal.
    pub failure: EngineFailure,
}

/// A `DeregistrationWarning` as plain values.
pub struct DeregistrationWarningView {
    pub handle: EncryptionBoxHandle,
    pub failure: EngineFailureView,
}

impl View for DeregistrationWarning {
    type V = DeregistrationWarningView;

    open spec fn view(&self) -> DeregistrationWarningView {
        DeregistrationWarningView { handle: self.handle, failure: self.failure@ }
    }
}

/// Judges the engine's answer to the deregistration of `handle`: a refusal
/// becomes a warning, and whatever the answer the release has ended.
pub fn deregistered(handle: EncryptionBoxHandle, reply: Result<(), EngineFailure>) -> (r: Option<
    DeregistrationWarning,
>)
    ensures
        match reply {
            Ok(_) => r is None,
            Err(f) => r is Some && r->0@ == (DeregistrationWarningView { handle, failure: f@ }),
        },
{
    match reply {
        Ok(_) => None,
        Err(failure) => Some(DeregistrationWarning { handle, failure }),
    }
}

/// After a release a wrapper owns nothing, so a second release asks for no
/// deregistration and changes nothing.
pub proof fn lemma_release_idempotent(held: EncryptionBoxHandle)
    ensures
        released(released(held).0).1 is None,
        released(released(held).0).0 == released(held).0,
{
}

/// However often a wrapper is released, at most one deregistration is asked
/// for: exactly one where it owned a registration and was released at all.
pub proof fn lemma_release_deregisters_once(held: EncryptionBoxHandle, count: nat)
    ensures
        deregistrations(held, count) <= 1,
        deregistrations(held, count) == 1 <==> (held.names_box() && count >= 1),
    decreases count,
{
    if count > 0 {
        lemma_release_deregisters_once(released(held).0, (count - 1) as nat);
    }
}

} // verus!
