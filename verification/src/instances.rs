//! The PS2 peripheral instance and its singleton ownership discipline.
//!
//! At most one live handle per base address: `take` hands out the handle
//! only while the per-address taken-flag is clear, `release` returns it,
//! and `steal`/`conjure` are the documented escape hatches for contexts —
//! interrupt handlers above all — that cannot join the protocol. Rather
//! than hiding the flag in a global touched under an interrupt mask, the
//! registry is an explicit value passed to the calls that consult it: the
//! exclusive borrow gives each call the atomicity the mask provided.

use crate::peripherals::Instance;
use vstd::prelude::*;

verus! {

/// Base byte address of the PS2 peripheral's register block.
pub const PS2_BASE: u32 = 0x800;

/// Why a `release` was rejected; both cases are programming bugs the
/// caller should treat as fatal.
#[derive(Clone, Copy, PartialEq, Eq, Structural, Debug)]
pub enum ReleaseError {
    /// The instance was not taken, so there is nothing to release.
    NotTaken,
    /// The released handle's address is not the singleton's address.
    WrongInstance,
}

/// The per-address registry slot for the PS2 peripheral: its taken-flag.
#[derive(Clone, Copy, PartialEq, Eq, Structural)]
pub struct Ps2Singleton {
    pub taken: bool,
}

/// What `take` does: fails and changes nothing while the flag is set,
/// otherwise sets the flag and hands out the singleton's handle.
pub open spec fn spec_take(s: Ps2Singleton) -> (Ps2Singleton, Option<Instance>) {
    if s.taken {
        (s, None)
    } else {
        (Ps2Singleton { taken: true }, Some(Instance { addr: PS2_BASE }))
    }
}

/// What `release` does: clears the flag only for the singleton's own
/// handle while the flag is set; any other release is rejected and leaves
/// the flag as it was.
pub open spec fn spec_release(s: Ps2Singleton, inst: Instance) -> (
    Ps2Singleton,
    Result<(), ReleaseError>,
) {
    if !s.taken {
        (s, Err(ReleaseError::NotTaken))
    } else if inst.addr != PS2_BASE {
        (s, Err(ReleaseError::WrongInstance))
    } else {
        (Ps2Singleton { taken: false }, Ok(()))
    }
}

impl Ps2Singleton {
    /// A fresh registry: the peripheral is not taken.
    pub fn new() -> (s: Ps2Singleton)
        ensures
            !s.taken,
    {
        Ps2Singleton { taken: false }
    }

    /// Hands out the instance iff the taken-flag is clear, setting it; no
    /// blocking, no retry.
    pub fn take(&mut self) -> (r: Option<Instance>)
        ensures
            *final(self) == spec_take(*old(self)).0,
            r == spec_take(*old(self)).1,
            r is Some <==> !old(self).taken,
    {
        if self.taken {
            None
        } else {
            self.taken = true;
            Some(Instance { addr: PS2_BASE })
        }
    }

    /// Returns an instance: clears the taken-flag iff the handle matches
    /// the singleton's address and the flag is set; otherwise the release
    /// is rejected and the flag keeps its value.
    pub fn release(&mut self, inst: Instance) -> (r: Result<(), ReleaseError>)
        ensures
            *final(self) == spec_release(*old(self), inst).0,
            r == spec_release(*old(self), inst).1,
            r is Ok <==> old(self).taken && inst.addr == PS2_BASE,
            r is Err ==> *final(self) == *old(self),
    {
        if self.taken && inst.addr == PS2_BASE {
            self.taken = false;
            Ok(())
        } else if !self.taken {
            Err(ReleaseError::NotTaken)
        } else {
            Err(ReleaseError::WrongInstance)
        }
    }

    /// Unconditionally hands out the instance and marks it taken,
    /// whatever the flag held before. The caller takes over the duty of
    /// not aliasing a properly taken handle.
    pub fn steal(&mut self) -> (r: Instance)
        ensures
            final(self).taken,
            r == (Instance { addr: PS2_BASE }),
    {
        self.taken = true;
        Instance { addr: PS2_BASE }
    }

    /// Hands out the instance without consulting or touching the
    /// taken-flag at all: the shared borrow makes it visible that the
    /// foreground's ownership state cannot change. For interrupt handlers,
    /// which cannot take an instance the foreground already owns.
    pub fn conjure(&self) -> (r: Instance)
        ensures
            r == (Instance { addr: PS2_BASE }),
    {
        Instance { addr: PS2_BASE }
    }
}

/// Two takes in a row without a release: the second one fails.
pub proof fn lemma_take_twice_fails(s: Ps2Singleton)
    ensures
        spec_take(spec_take(s).0).1 is None,
{
}

/// A release of the handle between two takes makes the second succeed.
pub proof fn lemma_take_release_take(s: Ps2Singleton)
    requires
        !s.taken,
    ensures
        ({
            let (s1, r1) = spec_take(s);
            let (s2, r2) = spec_release(s1, r1->0);
            r2 is Ok && spec_take(s2).1 is Some
        }),
{
}

/// A release whose handle does not match the singleton's address is
/// rejected and does not clear the flag.
pub proof fn lemma_wrong_release_rejected(s: Ps2Singleton, inst: Instance)
    requires
        s.taken,
        inst.addr != PS2_BASE,
    ensures
        spec_release(s, inst).0 == s,
        spec_release(s, inst).1 == Err::<(), ReleaseError>(ReleaseError::WrongInstance),
{
}

} // verus!
