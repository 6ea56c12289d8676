//! The 32-bit status word of a transactional region.
//!
//! A status word has one of two shapes. With every bit set it says that the
//! region was entered. Any other word says that the region was abandoned, and
//! its low six bits say why; after an explicit abort request, bits 24..=31
//! hold the code that came with the request.

use vstd::prelude::*;

verus! {

/// The region was entered: every bit of the status word is set.
pub const _XBEGIN_STARTED: u32 = 0xFFFF_FFFF;

/// Bit 0: the region was abandoned by an explicit abort request, whose code
/// is in bits 24..=31.
pub const _XABORT_EXPLICIT: u32 = 0x01;

/// Bit 1: the region may go through if it is tried again.
pub const _XABORT_RETRY: u32 = 0x02;

/// Bit 2: another execution context touched memory that the region used.
pub const _XABORT_CONFLICT: u32 = 0x04;

/// Bit 3: the region outgrew what the processor can buffer.
pub const _XABORT_CAPACITY: u32 = 0x08;

/// Bit 4: a debug trap was hit.
pub const _XABORT_DEBUG: u32 = 0x10;

/// Bit 5: the region was abandoned while a nested region was open.
pub const _XABORT_NESTED: u32 = 0x20;

/// The number held in bits 24..=31 of `status`: the status word divided by
/// 2^24, which is always below 256.
pub open spec fn abort_code_of(status: u32) -> int {
    status as int / 0x100_0000
}

/// The diagnostic code in bits 24..=31 of `status`.
///
/// Defined for every status word; the code means something only where
/// [`_XABORT_EXPLICIT`] is set in it.
pub fn _xabort_code(status: u32) -> (code: u32)
    ensures
        code == abort_code_of(status),
        code <= 0xFF,
{
    assert((status >> 24) & 0xFF == status / 0x100_0000) by (bit_vector);
    assert(status / 0x100_0000 <= 0xFF) by (bit_vector);
    (status >> 24) & 0xFF
}

/// Why a region was abandoned.
#[derive(Clone, Copy, Debug, PartialEq, Eq)]
pub struct AbortCause {
    /// The code of the abort request, where the region was abandoned by one.
    pub explicit: Option<u8>,
    /// Trying again may go through.
    pub retry: bool,
    /// Another execution context touched memory that the region used.
    pub conflict: bool,
    /// The region outgrew what the processor can buffer.
    pub capacity: bool,
    /// A debug trap was hit.
    pub debug: bool,
    /// A nested region was open.
    pub nested: bool,
}

/// What a begin request came back with.
#[derive(Clone, Copy, Debug, PartialEq, Eq)]
pub enum Outcome {
    /// The region is open.
    Started,
    /// No region is open, for the cause given.
    Aborted(AbortCause),
}

/// A status word as the processor hands it back.
#[derive(Clone, Copy, Debug, PartialEq, Eq)]
pub struct StatusCode {
    pub raw: u32,
}

/// Whether the abort flag `mask` shows in `raw`. A word that says "entered"
/// shows no abort flag, though all of its bits are set.
pub open spec fn shows_flag(raw: u32, mask: u32) -> bool {
    raw != _XBEGIN_STARTED && raw & mask != 0
}

/// What the status word `raw` says.
pub open spec fn outcome_of(raw: u32) -> Outcome {
    if raw == _XBEGIN_STARTED {
        Outcome::Started
    } else {
        Outcome::Aborted(
            AbortCause {
                explicit: if shows_flag(raw, _XABORT_EXPLICIT) {
                    Some(abort_code_of(raw) as u8)
                } else {
                    None
                },
                retry: shows_flag(raw, _XABORT_RETRY),
                conflict: shows_flag(raw, _XABORT_CONFLICT),
                capacity: shows_flag(raw, _XABORT_CAPACITY),
                debug: shows_flag(raw, _XABORT_DEBUG),
                nested: shows_flag(raw, _XABORT_NESTED),
            },
        )
    }
}

/// The status word that says `cause` and nothing else: the sum of the flags
/// that hold, and the code of an abort request times 2^24.
pub open spec fn cause_word(cause: AbortCause) -> int {
    (match cause.explicit {
        Some(code) => 0x01 + code * 0x100_0000,
        None => 0,
    }) + (if cause.retry { 0x02int } else { 0 })
       + (if cause.conflict { 0x04int } else { 0 })
       + (if cause.capacity { 0x08int } else { 0 })
       + (if cause.debug { 0x10int } else { 0 })
       + (if cause.nested { 0x20int } else { 0 })
}

/// The status word that says `outcome` and nothing else.
pub open spec fn outcome_word(outcome: Outcome) -> int {
    match outcome {
        Outcome::Started => 0xFFFF_FFFF,
        Outcome::Aborted(cause) => cause_word(cause),
    }
}

impl View for StatusCode {
    type V = Outcome;

    open spec fn view(&self) -> Outcome {
        outcome_of(self.raw)
    }
}

impl StatusCode {
    /// The status word `raw`, as handed back by the processor.
    pub fn from_raw(raw: u32) -> (status: StatusCode)
        ensures
            status.raw == raw,
    {
        StatusCode { raw }
    }

    /// Whether the region was entered.
    pub fn is_started(&self) -> (started: bool)
        ensures
            started == (self.raw == _XBEGIN_STARTED),
            started == (self@ is Started),
    {
        self.raw == _XBEGIN_STARTED
    }

    /// Whether the abort flag `mask` shows in this status word. It never does
    /// in one that says the region was entered.
    pub fn has_flag(&self, mask: u32) -> (shown: bool)
        ensures
            shown == shows_flag(self.raw, mask),
    {
        self.raw != _XBEGIN_STARTED && self.raw & mask != 0
    }

    /// The code of the abort request that ended the region: `None` unless the
    /// region was abandoned by an explicit abort request.
    pub fn abort_code(&self) -> (code: Option<u8>)
        ensures
            code == (match self@ {
                Outcome::Started => None,
                Outcome::Aborted(cause) => cause.explicit,
            }),
            code is Some <==> shows_flag(self.raw, _XABORT_EXPLICIT),
            code matches Some(c) ==> c == abort_code_of(self.raw),
    {
        if self.has_flag(_XABORT_EXPLICIT) {
            let code: u32 = _xabort_code(self.raw);
            Some(code as u8)
        } else {
            None
        }
    }

    /// The status word that says `outcome` and nothing else: every bit that
    /// `outcome` does not account for is clear.
    pub fn encode(outcome: Outcome) -> (status: StatusCode)
        ensures
            status.raw == outcome_word(outcome),
            status@ == outcome,
    {
        proof {
            lemma_decode_encode(outcome);
        }
        match outcome {
            Outcome::Started => StatusCode { raw: _XBEGIN_STARTED },
            Outcome::Aborted(cause) => {
                let request: u32 = match cause.explicit {
                    Some(code) => {
                        let high: u32 = code as u32;
                        assert(_XABORT_EXPLICIT | (high << 24) == 0x01 + high * 0x100_0000)
                            by (bit_vector)
                            requires
                                high <= 0xFF,
                        ;
                        _XABORT_EXPLICIT | (high << 24)
                    },
                    None => 0,
                };
                let retry: u32 = if cause.retry { _XABORT_RETRY } else { 0 };
                let conflict: u32 = if cause.conflict { _XABORT_CONFLICT } else { 0 };
                let capacity: u32 = if cause.capacity { _XABORT_CAPACITY } else { 0 };
                let debug: u32 = if cause.debug { _XABORT_DEBUG } else { 0 };
                let nested: u32 = if cause.nested { _XABORT_NESTED } else { 0 };
                assert(request | retry | conflict | capacity | debug | nested
                    == request + retry + conflict + capacity + debug + nested) by (bit_vector)
                    requires
                        request % 0x100_0000 <= 1,
                        retry == 0 || retry == 0x02,
                        conflict == 0 || conflict == 0x04,
                        capacity == 0 || capacity == 0x08,
                        debug == 0 || debug == 0x10,
                        nested == 0 || nested == 0x20,
                ;
                StatusCode { raw: request | retry | conflict | capacity | debug | nested }
            },
        }
    }

    /// What this status word says.
    pub fn decode(&self) -> (outcome: Outcome)
        ensures
            outcome == self@,
    {
        if self.is_started() {
            Outcome::Started
        } else {
            Outcome::Aborted(
                AbortCause {
                    explicit: self.abort_code(),
                    retry: self.has_flag(_XABORT_RETRY),
                    conflict: self.has_flag(_XABORT_CONFLICT),
                    capacity: self.has_flag(_XABORT_CAPACITY),
                    debug: self.has_flag(_XABORT_DEBUG),
                    nested: self.has_flag(_XABORT_NESTED),
                },
            )
        }
    }
}

/// What the bits of a status word show when the word is the sum of the flags
/// that hold and of an abort request's code times 2^24.
proof fn lemma_sum_of_flags(
    word: u32,
    explicit: bool,
    code: u8,
    retry: bool,
    conflict: bool,
    capacity: bool,
    debug: bool,
    nested: bool,
)
    by (bit_vector)
    requires
        word == (if explicit { 0x01 + code * 0x100_0000 } else { 0 })
            + (if retry { 0x02int } else { 0 })
            + (if conflict { 0x04int } else { 0 })
            + (if capacity { 0x08int } else { 0 })
            + (if debug { 0x10int } else { 0 })
            + (if nested { 0x20int } else { 0 }),
    ensures
        word != 0xFFFF_FFFF,
        (word & 0x01 != 0) == explicit,
        (word & 0x02 != 0) == retry,
        (word & 0x04 != 0) == conflict,
        (word & 0x08 != 0) == capacity,
        (word & 0x10 != 0) == debug,
        (word & 0x20 != 0) == nested,
        explicit ==> word / 0x100_0000 == code,
{
}

/// Reading a status word that was built from an outcome gives that outcome
/// back: no outcome is taken for another, a cause is never taken for
/// "entered", and "entered" never shows an abort flag.
pub proof fn lemma_decode_encode(outcome: Outcome)
    ensures
        0 <= outcome_word(outcome) <= 0xFFFF_FFFF,
        outcome_of(outcome_word(outcome) as u32) == outcome,
{
    match outcome {
        Outcome::Started => {},
        Outcome::Aborted(cause) => {
            let code: u8 = match cause.explicit {
                Some(code) => code,
                None => 0,
            };
            lemma_sum_of_flags(
                cause_word(cause) as u32,
                cause.explicit is Some,
                code,
                cause.retry,
                cause.conflict,
                cause.capacity,
                cause.debug,
                cause.nested,
            );
        },
    }
}

} // verus!
