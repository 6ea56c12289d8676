//! The life cycle of a transactional region.
//!
//! A thread is either outside any region ([`RegionState::Idle`]) or inside
//! one ([`RegionState::Active`]). A begin request that comes back with
//! "entered" opens a region; committing it, or abandoning it for any cause,
//! closes it again. When a region is abandoned, the thread finds itself back
//! at the begin request, which now reports the cause.
//!
//! [`Region`] keeps that state for the code that issues the instructions: it
//! is told what the processor reported and answers with what the caller is to
//! see.

use vstd::prelude::*;
use crate::status::{
    abort_code_of, cause_word, lemma_decode_encode, shows_flag, AbortCause, Outcome,
    StatusCode, _XABORT_EXPLICIT,
};

verus! {

/// Where a thread stands with respect to transactional regions.
#[derive(Clone, Copy, Debug, PartialEq, Eq)]
pub enum RegionState {
    /// No region is open.
    Idle,
    /// A region is open.
    Active,
}

/// The cause that an abort request with `code` gives: explicit, and nothing
/// else.
pub open spec fn explicit_cause(code: u8) -> AbortCause {
    AbortCause {
        explicit: Some(code),
        retry: false,
        conflict: false,
        capacity: false,
        debug: false,
        nested: false,
    }
}

impl RegionState {
    /// The state once a begin request has come back with `status`: a region
    /// is open exactly if the status says "entered".
    pub open spec fn after_begin(self, status: StatusCode) -> RegionState {
        if status@ is Started {
            RegionState::Active
        } else {
            RegionState::Idle
        }
    }

    /// The state once the open region has been committed.
    pub open spec fn after_end(self) -> RegionState {
        RegionState::Idle
    }

    /// The state once the region, if one is open, has been abandoned.
    pub open spec fn after_rollback(self) -> RegionState {
        RegionState::Idle
    }

    /// The status word that the begin request of the abandoned region
    /// reports: the word that says `cause` where a region was open, none
    /// where there was no region to abandon.
    pub open spec fn surfaced(self, cause: AbortCause) -> Option<StatusCode> {
        match self {
            RegionState::Active => Some(StatusCode { raw: cause_word(cause) as u32 }),
            RegionState::Idle => None,
        }
    }

    /// What a test of the transactional state answers: 1 inside a region, 0
    /// outside.
    pub open spec fn test_value(self) -> u8 {
        match self {
            RegionState::Active => 1,
            RegionState::Idle => 0,
        }
    }
}

/// The processor has no transactional memory.
#[derive(Clone, Copy, Debug, PartialEq, Eq)]
pub struct Unsupported;

/// The region state of one thread on a processor that has transactional
/// memory.
#[derive(Debug)]
pub struct Region {
    active: bool,
}

impl View for Region {
    type V = RegionState;

    closed spec fn view(&self) -> RegionState {
        if self.active {
            RegionState::Active
        } else {
            RegionState::Idle
        }
    }
}

impl Region {
    /// The region state of a thread that has not begun anything, on a
    /// processor of which `supported` says whether it has transactional
    /// memory. Without it there is no `Region`, and so no way to reach the
    /// operations below.
    pub fn acquire(supported: bool) -> (region: Result<Region, Unsupported>)
        ensures
            supported ==> (region matches Ok(r) && r@ is Idle),
            !supported ==> region is Err,
    {
        if supported {
            Ok(Region { active: false })
        } else {
            Err(Unsupported)
        }
    }

    /// Where the thread stands.
    pub fn state(&self) -> (state: RegionState)
        ensures
            state == self@,
    {
        if self.active {
            RegionState::Active
        } else {
            RegionState::Idle
        }
    }

    /// Takes in the status word that a begin request came back with, and
    /// says what it means. A region is open afterwards exactly if the status
    /// says "entered"; any other status leaves the thread outside any region.
    pub fn begin(&mut self, status: StatusCode) -> (outcome: Outcome)
        ensures
            outcome == status@,
            final(self)@ == old(self)@.after_begin(status),
    {
        let outcome = status.decode();
        self.active = status.is_started();
        outcome
    }

    /// Commits the open region.
    pub fn end(&mut self)
        requires
            old(self)@ is Active,
        ensures
            final(self)@ == old(self)@.after_end(),
    {
        self.active = false;
    }

    /// Abandons the open region for `cause`, and returns the status word that
    /// the region's begin request then reports. Outside any region there is
    /// nothing to abandon: the state stays as it is and no status word comes
    /// back.
    pub fn rollback(&mut self, cause: AbortCause) -> (surfaced: Option<StatusCode>)
        ensures
            final(self)@ == old(self)@.after_rollback(),
            surfaced == old(self)@.surfaced(cause),
            old(self)@ is Idle ==> *final(self) == *old(self),
            surfaced matches Some(status) ==> status@ == Outcome::Aborted(cause),
    {
        if self.active {
            self.active = false;
            Some(StatusCode::encode(Outcome::Aborted(cause)))
        } else {
            None
        }
    }

    /// An abort request with the diagnostic code `code`. Inside a region it
    /// abandons the region, and the region's begin request reports the status
    /// word returned here: explicit, with `code` in bits 24..=31. Outside any
    /// region it does nothing at all.
    pub fn abort(&mut self, code: u8) -> (surfaced: Option<StatusCode>)
        ensures
            final(self)@ == old(self)@.after_rollback(),
            surfaced == old(self)@.surfaced(explicit_cause(code)),
            old(self)@ is Idle ==> *final(self) == *old(self) && surfaced is None,
            surfaced matches Some(status) ==> status@ == Outcome::Aborted(explicit_cause(code))
                && shows_flag(status.raw, _XABORT_EXPLICIT) && abort_code_of(status.raw) == code,
    {
        proof {
            lemma_abort_code_returns(explicit_cause(code), code);
        }
        self.rollback(
            AbortCause {
                explicit: Some(code),
                retry: false,
                conflict: false,
                capacity: false,
                debug: false,
                nested: false,
            },
        )
    }

    /// Whether the thread is inside a region: 1 if it is, 0 if not.
    pub fn test(&self) -> (inside: u8)
        ensures
            inside == self@.test_value(),
    {
        if self.active {
            1
        } else {
            0
        }
    }
}

/// The 8-bit code that an abort request carries when it is given the 32-bit
/// number `imm8`: the low eight bits, the rest is dropped.
pub fn abort_immediate(imm8: u32) -> (code: u8)
    ensures
        code == imm8 % 0x100,
{
    assert(imm8 & 0xFF == imm8 % 0x100) by (bit_vector);
    (imm8 & 0xFF) as u8
}

/// An abort request outside any region changes nothing and reports nothing,
/// whatever its code.
pub proof fn lemma_abort_outside_region(code: u8)
    ensures
        RegionState::Idle.after_rollback() == RegionState::Idle,
        RegionState::Idle.surfaced(explicit_cause(code)) is None,
{
}

/// The code of an abort request made inside a region comes back unchanged:
/// whatever else the cause holds, the status word that the region's begin
/// request then reports shows the explicit flag and holds the code in bits
/// 24..=31, and the thread is outside any region again.
pub proof fn lemma_abort_code_returns(cause: AbortCause, code: u8)
    requires
        cause.explicit == Some(code),
    ensures
        RegionState::Active.after_rollback() == RegionState::Idle,
        RegionState::Active.surfaced(cause) matches Some(status) && shows_flag(
            status.raw,
            _XABORT_EXPLICIT,
        ) && abort_code_of(status.raw) == code && status@ == Outcome::Aborted(cause),
{
    lemma_decode_encode(Outcome::Aborted(cause));
}

/// A test of the transactional state answers 0 before anything was begun, 1
/// from a begin request that came back with "entered" until the region ends,
/// and 0 again once the region is committed or abandoned.
pub proof fn lemma_test_follows_region(before: RegionState, status: StatusCode)
    ensures
        RegionState::Idle.test_value() == 0,
        status@ is Started ==> before.after_begin(status).test_value() == 1,
        !(status@ is Started) ==> before.after_begin(status).test_value() == 0,
        before.after_begin(status).after_end().test_value() == 0,
        before.after_begin(status).after_rollback().test_value() == 0,
{
}

} // verus!
