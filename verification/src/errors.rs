//! The error kinds with which an operation can reject an invocation.

use vstd::prelude::*;

verus! {

/// Every failure aborts the whole invocation and carries one of these kinds;
/// no partial state is ever committed.
#[derive(PartialEq, Eq, Structural, Clone, Copy, Debug)]
pub enum IcoError {
    /// A non-owner called an owner-only operation.
    Unauthorized,
    /// The token identity is neither the base currency nor a valid sale token.
    InvalidToken,
    /// The activation time is not strictly in the future.
    InvalidSchedule,
    /// A purchase came before the sale window opened.
    NotYetStarted,
    /// A purchase came at or after the end of the sale window.
    SaleFinished,
    /// A purchase with no funds attached.
    ZeroPayment,
    /// A single payment exceeds the configured cap.
    BuyLimitExceeded,
    /// The derived token amount exceeds the available balance.
    InsufficientInventory,
    /// A proceeds withdrawal with a zero balance.
    NothingToWithdraw,
}

} // verus!
