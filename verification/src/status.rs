//! The connection states that the engine reports.

use vstd::prelude::*;

verus! {

/// A snapshot of a socket's state, as the engine reported it when asked.
#[derive(Debug, Clone, Copy, PartialEq, Eq, Structural)]
pub enum SrtSocketStatus {
    SrtStatusInit,
    SrtStatusOpened,
    SrtStatusListening,
    SrtStatusConnecting,
    SrtStatusConnected,
    SrtStatusBroken,
    SrtStatusClosing,
    SrtStatusClosed,
    SrtStatusNonExist,
}

impl SrtSocketStatus {
    /// The number by which the engine reports this state.
    pub open spec fn spec_code(self) -> i32 {
        match self {
            SrtSocketStatus::SrtStatusInit => 1,
            SrtSocketStatus::SrtStatusOpened => 2,
            SrtSocketStatus::SrtStatusListening => 3,
            SrtSocketStatus::SrtStatusConnecting => 4,
            SrtSocketStatus::SrtStatusConnected => 5,
            SrtSocketStatus::SrtStatusBroken => 6,
            SrtSocketStatus::SrtStatusClosing => 7,
            SrtSocketStatus::SrtStatusClosed => 8,
            SrtSocketStatus::SrtStatusNonExist => 9,
        }
    }

    /// The state that the engine reports by `code`, if there is one.
    pub open spec fn spec_from_code(code: i32) -> Option<SrtSocketStatus> {
        if code == 1 {
            Some(SrtSocketStatus::SrtStatusInit)
        } else if code == 2 {
            Some(SrtSocketStatus::SrtStatusOpened)
        } else if code == 3 {
            Some(SrtSocketStatus::SrtStatusListening)
        } else if code == 4 {
            Some(SrtSocketStatus::SrtStatusConnecting)
        } else if code == 5 {
            Some(SrtSocketStatus::SrtStatusConnected)
        } else if code == 6 {
            Some(SrtSocketStatus::SrtStatusBroken)
        } else if code == 7 {
            Some(SrtSocketStatus::SrtStatusClosing)
        } else if code == 8 {
            Some(SrtSocketStatus::SrtStatusClosed)
        } else if code == 9 {
            Some(SrtSocketStatus::SrtStatusNonExist)
        } else {
            None
        }
    }

    /// Whether a socket in this state is gone for good.
    pub open spec fn spec_is_terminal(self) -> bool {
        self == SrtSocketStatus::SrtStatusClosed || self == SrtSocketStatus::SrtStatusNonExist
            || self == SrtSocketStatus::SrtStatusBroken
    }

    /// The number by which the engine reports this state.
    #[verifier::when_used_as_spec(spec_code)]
    pub fn code(self) -> (code: i32)
        ensures
            code == self.spec_code(),
    {
        match self {
            SrtSocketStatus::SrtStatusInit => 1,
            SrtSocketStatus::SrtStatusOpened => 2,
            SrtSocketStatus::SrtStatusListening => 3,
            SrtSocketStatus::SrtStatusConnecting => 4,
            SrtSocketStatus::SrtStatusConnected => 5,
            SrtSocketStatus::SrtStatusBroken => 6,
            SrtSocketStatus::SrtStatusClosing => 7,
            SrtSocketStatus::SrtStatusClosed => 8,
            SrtSocketStatus::SrtStatusNonExist => 9,
        }
    }

    /// The state that the engine reports by `code`; none for a number that
    /// stands for no state.
    #[verifier::when_used_as_spec(spec_from_code)]
    pub fn from_code(code: i32) -> (status: Option<SrtSocketStatus>)
        ensures
            status == Self::spec_from_code(code),
    {
        if code == 1 {
            Some(SrtSocketStatus::SrtStatusInit)
        } else if code == 2 {
            Some(SrtSocketStatus::SrtStatusOpened)
        } else if code == 3 {
            Some(SrtSocketStatus::SrtStatusListening)
        } else if code == 4 {
            Some(SrtSocketStatus::SrtStatusConnecting)
        } else if code == 5 {
            Some(SrtSocketStatus::SrtStatusConnected)
        } else if code == 6 {
            Some(SrtSocketStatus::SrtStatusBroken)
        } else if code == 7 {
            Some(SrtSocketStatus::SrtStatusClosing)
        } else if code == 8 {
            Some(SrtSocketStatus::SrtStatusClosed)
        } else if code == 9 {
            Some(SrtSocketStatus::SrtStatusNonExist)
        } else {
            None
        }
    }

    /// Whether a socket in this state is gone for good: closed, unknown to the
    /// engine, or broken.
    #[verifier::when_used_as_spec(spec_is_terminal)]
    pub fn is_terminal(self) -> (terminal: bool)
        ensures
            terminal == self.spec_is_terminal(),
    {
        match self {
            SrtSocketStatus::SrtStatusClosed
            | SrtSocketStatus::SrtStatusNonExist
            | SrtSocketStatus::SrtStatusBroken => true,
            _ => false,
        }
    }
}

/// A state is found again by its number, and a number stands for a state
/// exactly when it lies between 1 and 9.
pub proof fn lemma_status_codes(status: SrtSocketStatus, code: i32)
    ensures
        SrtSocketStatus::spec_from_code(status.spec_code()) == Some(status),
        SrtSocketStatus::spec_from_code(code) is Some <==> 1 <= code <= 9,
        SrtSocketStatus::spec_from_code(code) matches Some(s) ==> s.spec_code() == code,
{
}

} // verus!
