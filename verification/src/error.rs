use vstd::prelude::*;

verus! {

/// Why an operation on the presale was refused.
#[derive(Clone, Copy, Debug, PartialEq, Eq, Structural)]
pub enum CustomError {
    /// Nothing to withdraw from custody, or nothing left to claim.
    InsufficientFunds,
    /// The presale has been stopped.
    PresaleNotLive,
    /// The contribution window has not opened yet.
    PresaleNotStarted,
    /// The current time is on the wrong side of the end of the window.
    PresaleHasEnd,
    /// The caller is not the presale's authority.
    Unauthorized,
    /// The presale is not live any more, so it cannot be stopped.
    PresaleAlreadyStopped,
}

impl CustomError {
    /// The text shown to a caller for this error.
    pub open spec fn message_text(self) -> Seq<char> {
        match self {
            CustomError::InsufficientFunds => "Insufficient funds"@,
            CustomError::PresaleNotLive => "Presale not live"@,
            CustomError::PresaleNotStarted => "Presale not started"@,
            CustomError::PresaleHasEnd => "Presale has end"@,
            CustomError::Unauthorized => "Unauthorized"@,
            CustomError::PresaleAlreadyStopped => "Presale already stopped"@,
        }
    }

    pub fn message(&self) -> (s: &'static str)
        ensures
            s@ == self.message_text(),
    {
        match self {
            CustomError::InsufficientFunds => "Insufficient funds",
            CustomError::PresaleNotLive => "Presale not live",
            CustomError::PresaleNotStarted => "Presale not started",
            CustomError::PresaleHasEnd => "Presale has end",
            CustomError::Unauthorized => "Unauthorized",
            CustomError::PresaleAlreadyStopped => "Presale already stopped",
        }
    }
}

} // verus!
