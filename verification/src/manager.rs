//! The sale instance: its configuration store and the operations on it.
//!
//! Every operation takes the values it would otherwise read from the hosting
//! ledger (the current time, a balance, the caller's identity) as plain
//! arguments, and an operation that moves funds returns the [`Transfer`] it
//! wants the ledger to perform. A failed operation changes nothing.

use vstd::prelude::*;

use crate::errors::IcoError;
use crate::phase;
use crate::phase::Status;
use crate::token::TokenId;
use crate::token::bytes_eq;

verus! {

/// Smallest base-currency units per whole base-currency unit: a constant of
/// the base currency, not configurable.
pub const EGLD_IN_WEI: u128 = 1_000_000_000_000_000_000;

/// An instruction to the ledger: move `amount` of `token` from the sale
/// instance to `to`.
#[derive(PartialEq, Eq, Debug)]
pub struct Transfer {
    /// The recipient's identity.
    pub to: Vec<u8>,
    /// The token to move.
    pub token: TokenId,
    /// How much to move, in the token's smallest units.
    pub amount: u128,
}

/// A sale instance: the owner fixed at deployment, and the configuration
/// store that the owner-only operations mutate.
pub struct IcoManager {
    /// The single identity authorized for administrative operations.
    pub owner: Vec<u8>,
    /// The token being sold.
    pub token_id: TokenId,
    /// Smallest base-currency units per whole sale-token unit.
    pub token_price: u128,
    /// Optional cap on a single purchase's payment; absent means unlimited.
    pub buy_limit: Option<u128>,
    /// When the sale window opens (Unix timestamp, seconds).
    pub activation_timestamp: u64,
    /// How long the window stays open, in seconds.
    pub duration_timestamp: u64,
}

impl IcoManager {
    /// Whether `caller` is the owner.
    pub open spec fn is_owner(&self, caller: Seq<u8>) -> bool {
        caller == self.owner@
    }

    /// The sale's phase at time `now` under the current configuration.
    pub open spec fn spec_status(&self, now: u64) -> Status {
        phase::phase(now, self.activation_timestamp, self.duration_timestamp)
    }

    /// Whether a purchase is admissible at time `now`.
    pub open spec fn is_active(&self, now: u64) -> bool {
        phase::is_active(now, self.activation_timestamp, self.duration_timestamp)
    }

    /// Whether `paid` passes the configured per-purchase cap. The cap bounds
    /// a single call's payment; absent means unlimited.
    pub open spec fn within_buy_limit(&self, paid: u128) -> bool {
        match self.buy_limit {
            None => true,
            Some(limit) => paid <= limit,
        }
    }

    /// The sale-token amount a payment of `paid` buys: integer division by
    /// the unit price first (the remainder stays with the sale instance, not
    /// refunded), then rescaling to the token's smallest units.
    pub open spec fn spec_token_amount(&self, paid: u128) -> int
        recommends
            self.token_price != 0,
    {
        paid as int / self.token_price as int * (EGLD_IN_WEI as int)
    }

    /// A new sale instance with `owner` fixed and the configuration store
    /// empty: the base currency as the placeholder sale token, a zero price,
    /// no buy limit, and an already-ended window.
    pub fn init(owner: Vec<u8>) -> (r: IcoManager)
        ensures
            r.owner == owner,
            r.token_id == TokenId::Egld,
            r.token_price == 0,
            r.buy_limit is None,
            r.activation_timestamp == 0,
            r.duration_timestamp == 0,
    {
        IcoManager {
            owner,
            token_id: TokenId::Egld,
            token_price: 0,
            buy_limit: None,
            activation_timestamp: 0,
            duration_timestamp: 0,
        }
    }

    /// The sale's phase at time `now`: `NotStarted` strictly before the
    /// activation time, `Started` inside the half-open window, `Ended` from
    /// `activation_timestamp + duration_timestamp` on.
    pub fn status(&self, now: u64) -> (r: Status)
        ensures
            r == self.spec_status(now),
            now < self.activation_timestamp ==> r == Status::NotStarted,
            self.activation_timestamp <= now && (now as int) < self.activation_timestamp
                + self.duration_timestamp ==> r == Status::Started,
            self.activation_timestamp + self.duration_timestamp <= now ==> r == Status::Ended,
    {
        if now < self.activation_timestamp {
            Status::NotStarted
        } else if now - self.activation_timestamp < self.duration_timestamp {
            Status::Started
        } else {
            Status::Ended
        }
    }

    /// The purchase gate: succeeds exactly inside the active window, and
    /// names which side of the window was missed otherwise.
    pub fn require_activation(&self, now: u64) -> (r: Result<(), IcoError>)
        ensures
            r is Ok <==> self.is_active(now),
            now < self.activation_timestamp ==> r == Err::<(), IcoError>(IcoError::NotYetStarted),
            self.activation_timestamp <= now && self.activation_timestamp
                + self.duration_timestamp <= now ==> r == Err::<(), IcoError>(
                IcoError::SaleFinished,
            ),
    {
        if now < self.activation_timestamp {
            Err(IcoError::NotYetStarted)
        } else if now - self.activation_timestamp >= self.duration_timestamp {
            Err(IcoError::SaleFinished)
        } else {
            Ok(())
        }
    }

    /// Execute a buy request: phase gate, payment validation, cap check,
    /// price conversion, inventory check. On success the returned transfer
    /// hands the derived token amount to the buyer; the payment itself stays
    /// with the sale instance as proceeds, including the remainder the
    /// integer division discards. Anyone may call this; `caller` is only the
    /// recipient of the allocation.
    ///
    /// A zero unit price makes the price conversion undefined, so such a
    /// request may only be posed where an earlier check already rejects it.
    pub fn buy_tokens(&self, caller: Vec<u8>, now: u64, paid_amount: u128, available: u128) -> (r:
        Result<Transfer, IcoError>)
        requires
            self.token_price == 0 ==> !(self.is_active(now) && paid_amount != 0
                && self.within_buy_limit(paid_amount)),
        ensures
            r is Ok <==> (self.is_active(now) && paid_amount != 0 && self.within_buy_limit(
                paid_amount,
            ) && self.spec_token_amount(paid_amount) <= available),
            !self.is_active(now) ==> r is Err,
            now < self.activation_timestamp ==> r == Err::<Transfer, IcoError>(
                IcoError::NotYetStarted,
            ),
            self.activation_timestamp <= now && self.activation_timestamp
                + self.duration_timestamp <= now ==> r == Err::<Transfer, IcoError>(
                IcoError::SaleFinished,
            ),
            self.is_active(now) && paid_amount == 0 ==> r == Err::<Transfer, IcoError>(
                IcoError::ZeroPayment,
            ),
            self.is_active(now) && paid_amount != 0 && !self.within_buy_limit(paid_amount) ==> r
                == Err::<Transfer, IcoError>(IcoError::BuyLimitExceeded),
            self.is_active(now) && paid_amount != 0 && self.within_buy_limit(paid_amount)
                && self.spec_token_amount(paid_amount) > available ==> r == Err::<
                Transfer,
                IcoError,
            >(IcoError::InsufficientInventory),
            r matches Ok(t) ==> t.to == caller && t.token@ == self.token_id@ && t.amount
                == self.spec_token_amount(paid_amount) && t.amount <= available,
    {
        match self.require_activation(now) {
            Err(e) => {
                return Err(e);
            },
            Ok(()) => {},
        }
        if paid_amount == 0 {
            return Err(IcoError::ZeroPayment);
        }
        match self.buy_limit {
            Some(limit) => {
                if paid_amount > limit {
                    return Err(IcoError::BuyLimitExceeded);
                }
            },
            None => {},
        }
        let whole_units: u128 = paid_amount / self.token_price;
        match whole_units.checked_mul(EGLD_IN_WEI) {
            None => Err(IcoError::InsufficientInventory),
            Some(token_amount) => {
                if token_amount > available {
                    Err(IcoError::InsufficientInventory)
                } else {
                    Ok(Transfer { to: caller, token: self.token_id.clone(), amount: token_amount })
                }
            },
        }
    }

    /// Configure the sale token. Owner-only; the identity must be the base
    /// currency itself or carry the ledger's verdict that it is a valid sale
    /// token (`is_valid_esdt`). A failed call leaves the configuration as it
    /// was.
    pub fn update_token_id(&mut self, caller: &Vec<u8>, token_id: TokenId, is_valid_esdt: bool) -> (r:
        Result<(), IcoError>)
        ensures
            r is Ok <==> (old(self).is_owner(caller@) && (token_id@ is Egld || is_valid_esdt)),
            !old(self).is_owner(caller@) ==> r == Err::<(), IcoError>(IcoError::Unauthorized)
                && *final(self) == *old(self),
            old(self).is_owner(caller@) && !(token_id@ is Egld || is_valid_esdt) ==> r == Err::<
                (),
                IcoError,
            >(IcoError::InvalidToken) && *final(self) == *old(self),
            r is Ok ==> *final(self) == (IcoManager { token_id, ..*old(self) }),
    {
        if !bytes_eq(caller, &self.owner) {
            return Err(IcoError::Unauthorized);
        }
        if !(token_id.is_egld() || is_valid_esdt) {
            return Err(IcoError::InvalidToken);
        }
        self.token_id = token_id;
        Ok(())
    }

    /// Configure the sale window. Owner-only; the activation time must be
    /// strictly in the future at configuration time. The duration is
    /// unchecked: a zero-duration window is legal and has ended the moment it
    /// opens. A failed call leaves the configuration as it was.
    pub fn update_times(
        &mut self,
        caller: &Vec<u8>,
        now: u64,
        activation_timestamp: u64,
        duration_timestamp: u64,
    ) -> (r: Result<(), IcoError>)
        ensures
            r is Ok <==> (old(self).is_owner(caller@) && activation_timestamp > now),
            !old(self).is_owner(caller@) ==> r == Err::<(), IcoError>(IcoError::Unauthorized)
                && *final(self) == *old(self),
            old(self).is_owner(caller@) && activation_timestamp <= now ==> r == Err::<
                (),
                IcoError,
            >(IcoError::InvalidSchedule) && *final(self) == *old(self),
            r is Ok ==> *final(self) == (IcoManager {
                activation_timestamp,
                duration_timestamp,
                ..*old(self)
            }),
    {
        if !bytes_eq(caller, &self.owner) {
            return Err(IcoError::Unauthorized);
        }
        if activation_timestamp <= now {
            return Err(IcoError::InvalidSchedule);
        }
        self.activation_timestamp = activation_timestamp;
        self.duration_timestamp = duration_timestamp;
        Ok(())
    }

    /// Configure the unit price. Owner-only; the value replaces the old one
    /// unconditionally — no floor or ceiling is checked, so a zero price is
    /// accepted even though the purchase engine cannot convert under it.
    pub fn update_token_price(&mut self, caller: &Vec<u8>, token_price: u128) -> (r: Result<
        (),
        IcoError,
    >)
        ensures
            r is Ok <==> old(self).is_owner(caller@),
            !old(self).is_owner(caller@) ==> r == Err::<(), IcoError>(IcoError::Unauthorized)
                && *final(self) == *old(self),
            r is Ok ==> *final(self) == (IcoManager { token_price, ..*old(self) }),
    {
        if !bytes_eq(caller, &self.owner) {
            return Err(IcoError::Unauthorized);
        }
        self.token_price = token_price;
        Ok(())
    }

    /// Configure the per-purchase cap. Owner-only; the value replaces the old
    /// one unconditionally, and there is no way to remove a cap once set.
    pub fn update_buy_limit(&mut self, caller: &Vec<u8>, buy_limit: u128) -> (r: Result<
        (),
        IcoError,
    >)
        ensures
            r is Ok <==> old(self).is_owner(caller@),
            !old(self).is_owner(caller@) ==> r == Err::<(), IcoError>(IcoError::Unauthorized)
                && *final(self) == *old(self),
            r is Ok ==> *final(self) == (IcoManager { buy_limit: Some(buy_limit), ..*old(self) }),
    {
        if !bytes_eq(caller, &self.owner) {
            return Err(IcoError::Unauthorized);
        }
        self.buy_limit = Some(buy_limit);
        Ok(())
    }

    /// Sweep the collected base-currency proceeds. Owner-only; fails when
    /// there is nothing to withdraw, and otherwise transfers the whole
    /// base-currency balance to the caller.
    pub fn withdraw(&self, caller: Vec<u8>, egld_balance: u128) -> (r: Result<Transfer, IcoError>)
        ensures
            r is Ok <==> (self.is_owner(caller@) && egld_balance != 0),
            !self.is_owner(caller@) ==> r == Err::<Transfer, IcoError>(IcoError::Unauthorized),
            self.is_owner(caller@) && egld_balance == 0 ==> r == Err::<Transfer, IcoError>(
                IcoError::NothingToWithdraw,
            ),
            r matches Ok(t) ==> t.to == caller && t.token == TokenId::Egld && t.amount
                == egld_balance,
    {
        if !bytes_eq(&caller, &self.owner) {
            return Err(IcoError::Unauthorized);
        }
        if egld_balance == 0 {
            return Err(IcoError::NothingToWithdraw);
        }
        Ok(Transfer { to: caller, token: TokenId::Egld, amount: egld_balance })
    }

    /// Sweep the unsold sale-token inventory. Owner-only; `amount` is only
    /// validated against the ledger-read balance — once that check passes,
    /// the transfer hands over the whole balance, not `amount`.
    #[allow(non_snake_case)]
    pub fn withdrawEsdt(&self, caller: Vec<u8>, amount: u128, sale_token_balance: u128) -> (r:
        Result<Transfer, IcoError>)
        ensures
            r is Ok <==> (self.is_owner(caller@) && amount <= sale_token_balance),
            !self.is_owner(caller@) ==> r == Err::<Transfer, IcoError>(IcoError::Unauthorized),
            self.is_owner(caller@) && amount > sale_token_balance ==> r == Err::<
                Transfer,
                IcoError,
            >(IcoError::InsufficientInventory),
            r matches Ok(t) ==> t.to == caller && t.token@ == self.token_id@ && t.amount
                == sale_token_balance,
    {
        if !bytes_eq(&caller, &self.owner) {
            return Err(IcoError::Unauthorized);
        }
        if amount > sale_token_balance {
            return Err(IcoError::InsufficientInventory);
        }
        Ok(Transfer { to: caller, token: self.token_id.clone(), amount: sale_token_balance })
    }

    /// The sale-token balance available for allocation, as the ledger reports
    /// it; the reading itself is the ledger's.
    pub fn get_token_available(&self, sale_token_balance: u128) -> (r: u128)
        ensures
            r == sale_token_balance,
    {
        sale_token_balance
    }

    /// The configured sale token.
    pub fn token_id(&self) -> (r: &TokenId)
        ensures
            *r == self.token_id,
    {
        &self.token_id
    }

    /// The configured per-purchase cap, absent when none was ever set.
    pub fn buy_limit(&self) -> (r: Option<u128>)
        ensures
            r == self.buy_limit,
    {
        self.buy_limit
    }

    /// The configured unit price.
    pub fn token_price(&self) -> (r: u128)
        ensures
            r == self.token_price,
    {
        self.token_price
    }

    /// When the sale window opens.
    pub fn activation_timestamp(&self) -> (r: u64)
        ensures
            r == self.activation_timestamp,
    {
        self.activation_timestamp
    }

    /// How long the sale window stays open.
    pub fn duration_timestamp(&self) -> (r: u64)
        ensures
            r == self.duration_timestamp,
    {
        self.duration_timestamp
    }
}

} // verus!
