//! Transfer followed by a withdrawal hold, on a currency ledger that the
//! module does not own.
//!
//! The ledger is outside: the workflow says which call the ledger is to
//! perform next, and is resumed with what the ledger answered.

use crate::account::AccountId;
use crate::pallet::{Balance, Event};
use frame_support::traits::{WithdrawReason, WithdrawReasons};
use vstd::prelude::*;

verus! {

/// Bitmask of the reasons for which money leaves an account, one bit for
/// each reason, as the ledger encodes them.
pub type ReasonsMask = i8;

/// The bit of the reason "paying transaction fees".
pub const TRANSACTION_PAYMENT: ReasonsMask = 0b0000_0001;

/// The bits of all reasons but "paying transaction fees": transfer,
/// reserve, fee and tip.
pub const ALL_BUT_TRANSACTION_PAYMENT: ReasonsMask = 0b0001_1110;

/// Calls `WithdrawReasons::except` of frame_support with the reason
/// `TransactionPayment`, and reads the mask of the result through its
/// `Deref`. The contract claims what the source shows: the five reasons
/// have the bits 1, 2, 4, 8 and 16; `except` starts from the mask of all
/// five and toggles the bit of its argument, which is 1.
#[verifier::external_body]
fn all_reasons_except_transaction_payment() -> (mask: ReasonsMask)
    ensures
        mask == ALL_BUT_TRANSACTION_PAYMENT,
{
    *WithdrawReasons::except(WithdrawReason::TransactionPayment)
}

/// Name under which the module places its hold: the bytes of `fee lock`.
pub const FEE_LOCK_ID: [u8; 8] = [0x66, 0x65, 0x65, 0x20, 0x6c, 0x6f, 0x63, 0x6b];

/// Whether a transfer may leave the source without an account.
#[derive(Clone, Copy, Debug, PartialEq, Eq, Structural)]
pub enum ExistenceRequirement {
    /// The source must stay in existence.
    KeepAlive,
    /// The source may go out of existence.
    AllowDeath,
}

/// A call that the currency ledger is to perform.
#[derive(Clone, Copy, Debug, PartialEq, Eq)]
pub enum LedgerCall {
    /// Move `amount` from `source` to `dest`.
    Transfer {
        source: AccountId,
        dest: AccountId,
        amount: Balance,
        existence: ExistenceRequirement,
    },
    /// Read the free balance of `who`.
    FreeBalance { who: AccountId },
    /// Place the hold named `id` on `who`: `amount` may not be withdrawn for
    /// any of `reasons`.
    SetLock { id: [u8; 8], who: AccountId, amount: Balance, reasons: ReasonsMask },
}

/// What the currency ledger answered to a call. `E` is the ledger's error.
#[derive(Debug, PartialEq, Eq)]
pub enum LedgerReply<E> {
    /// The outcome of a transfer.
    Transferred(Result<(), E>),
    /// The free balance that was read.
    FreeBalance(Balance),
    /// The hold was placed.
    LockSet,
}

/// A transfer-and-lock that is under way: what the ledger was last asked.
#[derive(Clone, Copy, Debug, PartialEq, Eq, Structural)]
pub enum TransferAndLock {
    /// The transfer of `amount` from `sender` to `whom` is asked for.
    Transferring { sender: AccountId, whom: AccountId, amount: Balance },
    /// The transfer is done; the free balance of `whom` is asked for.
    ReadingBalance { whom: AccountId },
    /// The balance is known; the hold on `amount` of `whom` is asked for.
    Locking { whom: AccountId, amount: Balance },
}

/// Where a transfer-and-lock stands after an answer of the ledger.
#[derive(Debug, PartialEq, Eq)]
pub enum Step<E> {
    /// The ledger has another call to perform.
    Continue(TransferAndLock),
    /// The workflow is over: the event to emit, or the ledger's error.
    Finished(Result<Event, E>),
}

impl TransferAndLock {
    /// The call for which the workflow waits.
    pub open spec fn spec_request(self) -> LedgerCall {
        match self {
            TransferAndLock::Transferring { sender, whom, amount } => LedgerCall::Transfer {
                source: sender,
                dest: whom,
                amount,
                existence: ExistenceRequirement::AllowDeath,
            },
            TransferAndLock::ReadingBalance { whom } => LedgerCall::FreeBalance { who: whom },
            TransferAndLock::Locking { whom, amount } => LedgerCall::SetLock {
                id: FEE_LOCK_ID,
                who: whom,
                amount,
                reasons: ALL_BUT_TRANSACTION_PAYMENT,
            },
        }
    }

    /// Where the workflow stands once the ledger has answered `reply`;
    /// `None` where `reply` is no answer to the call it waits for.
    ///
    /// A failed transfer ends the workflow with the ledger's error. After
    /// the transfer the whole free balance of the receiver is put on hold.
    pub open spec fn spec_resume<E>(self, reply: LedgerReply<E>) -> Option<Step<E>> {
        match (self, reply) {
            (TransferAndLock::Transferring { whom, .. }, LedgerReply::Transferred(Ok(_))) => Some(
                Step::Continue(TransferAndLock::ReadingBalance { whom }),
            ),
            (TransferAndLock::Transferring { .. }, LedgerReply::Transferred(Err(e))) => Some(
                Step::Finished(Err(e)),
            ),
            (TransferAndLock::ReadingBalance { whom }, LedgerReply::FreeBalance(amount)) => Some(
                Step::Continue(TransferAndLock::Locking { whom, amount }),
            ),
            (TransferAndLock::Locking { whom, amount }, LedgerReply::LockSet) => Some(
                Step::Finished(Ok(Event::BalanceLocked(whom, amount))),
            ),
            _ => None,
        }
    }

    /// The call that the ledger is to perform now.
    pub fn request(&self) -> (call: LedgerCall)
        ensures
            call == self.spec_request(),
    {
        match *self {
            TransferAndLock::Transferring { sender, whom, amount } => LedgerCall::Transfer {
                source: sender,
                dest: whom,
                amount,
                existence: ExistenceRequirement::AllowDeath,
            },
            TransferAndLock::ReadingBalance { whom } => LedgerCall::FreeBalance { who: whom },
            TransferAndLock::Locking { whom, amount } => LedgerCall::SetLock {
                id: FEE_LOCK_ID,
                who: whom,
                amount,
                reasons: all_reasons_except_transaction_payment(),
            },
        }
    }

    /// Takes the ledger's answer to the call of `request` and says how the
    /// workflow goes on.
    pub fn resume<E>(self, reply: LedgerReply<E>) -> (next: Option<Step<E>>)
        ensures
            next == self.spec_resume(reply),
    {
        match self {
            TransferAndLock::Transferring { sender: _, whom, amount: _ } => match reply {
                LedgerReply::Transferred(Ok(_)) => Some(
                    Step::Continue(TransferAndLock::ReadingBalance { whom }),
                ),
                LedgerReply::Transferred(Err(e)) => Some(Step::Finished(Err(e))),
                _ => None,
            },
            TransferAndLock::ReadingBalance { whom } => match reply {
                LedgerReply::FreeBalance(amount) => Some(
                    Step::Continue(TransferAndLock::Locking { whom, amount }),
                ),
                _ => None,
            },
            TransferAndLock::Locking { whom, amount } => match reply {
                LedgerReply::LockSet => Some(
                    Step::Finished(Ok(Event::BalanceLocked(whom, amount))),
                ),
                _ => None,
            },
        }
    }
}

} // verus!
