use vstd::prelude::*;

use crate::bytes::{bytes_clone, bytes_eq};
use crate::errors::Error;

verus! {

/// The terminal asset transfer a settlement operation decides on: invoke
/// `withdraw(destination)` on `vault`, moving all of `vault`'s assets to
/// `destination`. The caller that drives the ledger performs the invocation.
pub struct Settlement {
    pub vault: Vec<u8>,
    pub destination: Vec<u8>,
}

/// The per-hedge state machine that owns the liquidation-or-maturity
/// decision. `admin` is `None` until `initialize` runs; the two flags each
/// flip at most once, and never both.
pub struct ControllerContract {
    pub admin: Option<Vec<u8>>,
    pub hedge_vault: Vec<u8>,
    pub risk_vault: Vec<u8>,
    pub token_id: Vec<u8>,
    pub maturity_date: u64,
    pub liquidated: bool,
    pub matured: bool,
}

impl ControllerContract {
    /// The stored administrator identity (empty if none is stored).
    pub open spec fn spec_admin(self) -> Seq<u8> {
        match self.admin {
            Some(a) => a@,
            None => Seq::empty(),
        }
    }

    /// Well-formedness: the flags are mutually exclusive, and a flag can only
    /// be set on an initialized instance.
    pub open spec fn wf(self) -> bool {
        &&& !(self.liquidated && self.matured)
        &&& ((self.liquidated || self.matured) ==> self.admin is Some)
    }

    /// A fresh, uninitialized controller.
    pub fn new() -> (c: ControllerContract)
        ensures
            c.wf(),
            c.admin is None,
            !c.liquidated,
            !c.matured,
    {
        ControllerContract {
            admin: None,
            hedge_vault: Vec::new(),
            risk_vault: Vec::new(),
            token_id: Vec::new(),
            maturity_date: 0,
            liquidated: false,
            matured: false,
        }
    }

    /// True exactly when an administrator has been stored.
    pub fn has_administrator(&self) -> (r: bool)
        ensures
            r == (self.admin is Some),
    {
        self.admin.is_some()
    }

    /// The stored administrator identity.
    pub fn read_administrator(&self) -> (r: &Vec<u8>)
        requires
            self.admin is Some,
        ensures
            r@ == self.spec_admin(),
    {
        match &self.admin {
            Some(a) => a,
            None => vstd::pervasive::unreached(),
        }
    }

    /// The hedge-side vault's address.
    pub fn get_hedge_vault(&self) -> (r: &Vec<u8>)
        ensures
            r@ == self.hedge_vault@,
    {
        &self.hedge_vault
    }

    /// The risk-side vault's address.
    pub fn get_risk_vault(&self) -> (r: &Vec<u8>)
        ensures
            r@ == self.risk_vault@,
    {
        &self.risk_vault
    }

    /// The maturity date.
    pub fn get_maturity_date(&self) -> (r: u64)
        ensures
            r == self.maturity_date,
    {
        self.maturity_date
    }

    /// Whether the liquidated flag is set.
    pub fn is_liquidated(&self) -> (r: bool)
        ensures
            r == self.liquidated,
    {
        self.liquidated
    }

    /// Whether the matured flag is set.
    pub fn is_matured(&self) -> (r: bool)
        ensures
            r == self.matured,
    {
        self.matured
    }

    /// Binds the instance to its administrator, vault pair, asset and
    /// maturity date. Rejected with `AlreadyInitialized` on a second call and
    /// with `InvalidMaturity` unless the maturity date lies in the future;
    /// a rejected call changes nothing.
    pub fn initialize(
        &mut self,
        admin: Vec<u8>,
        hedge_vault: Vec<u8>,
        risk_vault: Vec<u8>,
        token_id: Vec<u8>,
        maturity_date: u64,
        now: u64,
    ) -> (r: Result<(), Error>)
        requires
            old(self).wf(),
        ensures
            final(self).wf(),
            old(self).admin is Some ==> r == Err::<(), Error>(Error::AlreadyInitialized)
                && *final(self) == *old(self),
            old(self).admin is None && maturity_date <= now ==> r == Err::<(), Error>(
                Error::InvalidMaturity,
            ) && *final(self) == *old(self),
            old(self).admin is None && maturity_date > now ==> {
                &&& r is Ok
                &&& final(self).spec_admin() == admin@
                &&& final(self).admin is Some
                &&& final(self).hedge_vault@ == hedge_vault@
                &&& final(self).risk_vault@ == risk_vault@
                &&& final(self).token_id@ == token_id@
                &&& final(self).maturity_date == maturity_date
                &&& !final(self).liquidated
                &&& !final(self).matured
            },
    {
        if self.admin.is_some() {
            return Err(Error::AlreadyInitialized);
        }
        if maturity_date <= now {
            return Err(Error::InvalidMaturity);
        }
        self.admin = Some(admin);
        self.hedge_vault = hedge_vault;
        self.risk_vault = risk_vault;
        self.token_id = token_id;
        self.maturity_date = maturity_date;
        Ok(())
    }

    /// Flags the hedge for early liquidation. Only the administrator may do
    /// so, only strictly before the maturity date, and never after the hedge
    /// matured; a rejected call changes nothing, and a successful one changes
    /// only the liquidated flag.
    pub fn set_liquidated(&mut self, invoker: &Vec<u8>, now: u64) -> (r: Result<(), Error>)
        requires
            old(self).wf(),
            old(self).admin is Some,
        ensures
            final(self).wf(),
            invoker@ != old(self).spec_admin() ==> r == Err::<(), Error>(Error::Unauthorized)
                && *final(self) == *old(self),
            invoker@ == old(self).spec_admin() && now >= old(self).maturity_date ==> r == Err::<
                (),
                Error,
            >(Error::PastMaturity) && *final(self) == *old(self),
            invoker@ == old(self).spec_admin() && now < old(self).maturity_date && old(
                self,
            ).matured ==> r == Err::<(), Error>(Error::AlreadyMatured) && *final(self) == *old(
                self,
            ),
            invoker@ == old(self).spec_admin() && now < old(self).maturity_date && !old(
                self,
            ).matured ==> {
                &&& r is Ok
                &&& final(self).liquidated
                &&& !final(self).matured
                &&& final(self).admin == old(self).admin
                &&& final(self).hedge_vault == old(self).hedge_vault
                &&& final(self).risk_vault == old(self).risk_vault
                &&& final(self).token_id == old(self).token_id
                &&& final(self).maturity_date == old(self).maturity_date
            },
            old(self).liquidated ==> final(self).liquidated,
            old(self).matured ==> final(self).matured,
    {
        let authorized: bool = match &self.admin {
            Some(a) => bytes_eq(invoker, a),
            None => false,
        };
        if !authorized {
            return Err(Error::Unauthorized);
        }
        if now >= self.maturity_date {
            return Err(Error::PastMaturity);
        }
        if self.matured {
            return Err(Error::AlreadyMatured);
        }
        self.liquidated = true;
        Ok(())
    }

    /// Flags the hedge as matured. Only the administrator may do so, only at
    /// or after the maturity date, and never after a liquidation was flagged;
    /// a rejected call changes nothing, and a successful one changes only the
    /// matured flag.
    pub fn set_matured(&mut self, invoker: &Vec<u8>, now: u64) -> (r: Result<(), Error>)
        requires
            old(self).wf(),
            old(self).admin is Some,
        ensures
            final(self).wf(),
            invoker@ != old(self).spec_admin() ==> r == Err::<(), Error>(Error::Unauthorized)
                && *final(self) == *old(self),
            invoker@ == old(self).spec_admin() && now < old(self).maturity_date ==> r == Err::<
                (),
                Error,
            >(Error::BeforeMaturity) && *final(self) == *old(self),
            invoker@ == old(self).spec_admin() && now >= old(self).maturity_date && old(
                self,
            ).liquidated ==> r == Err::<(), Error>(Error::AlreadyLiquidated) && *final(self)
                == *old(self),
            invoker@ == old(self).spec_admin() && now >= old(self).maturity_date && !old(
                self,
            ).liquidated ==> {
                &&& r is Ok
                &&& final(self).matured
                &&& !final(self).liquidated
                &&& final(self).admin == old(self).admin
                &&& final(self).hedge_vault == old(self).hedge_vault
                &&& final(self).risk_vault == old(self).risk_vault
                &&& final(self).token_id == old(self).token_id
                &&& final(self).maturity_date == old(self).maturity_date
            },
            old(self).liquidated ==> final(self).liquidated,
            old(self).matured ==> final(self).matured,
    {
        let authorized: bool = match &self.admin {
            Some(a) => bytes_eq(invoker, a),
            None => false,
        };
        if !authorized {
            return Err(Error::Unauthorized);
        }
        if now < self.maturity_date {
            return Err(Error::BeforeMaturity);
        }
        if self.liquidated {
            return Err(Error::AlreadyLiquidated);
        }
        self.matured = true;
        Ok(())
    }

    /// Executes an already-flagged liquidation: all of the risk vault's
    /// assets move to the hedge vault. No identity check — the decision was
    /// committed by `set_liquidated` and cannot be reverted, so anyone may
    /// trigger its execution. Rejected with `NotLiquidated` unless the flag
    /// is set; nothing in the controller changes either way.
    pub fn liquidate(&self) -> (r: Result<Settlement, Error>)
        ensures
            !self.liquidated ==> r == Err::<Settlement, Error>(Error::NotLiquidated),
            self.liquidated ==> (r matches Ok(s) && s.vault@ == self.risk_vault@
                && s.destination@ == self.hedge_vault@),
    {
        if !self.liquidated {
            return Err(Error::NotLiquidated);
        }
        Ok(
            Settlement {
                vault: bytes_clone(&self.risk_vault),
                destination: bytes_clone(&self.hedge_vault),
            },
        )
    }

    /// Executes an already-flagged maturity settlement: all of the hedge
    /// vault's assets move to the risk vault. Permissionless for the same
    /// reason as `liquidate`. Rejected with `NotMatured` unless the flag is
    /// set; nothing in the controller changes either way.
    pub fn mature(&self) -> (r: Result<Settlement, Error>)
        ensures
            !self.matured ==> r == Err::<Settlement, Error>(Error::NotMatured),
            self.matured ==> (r matches Ok(s) && s.vault@ == self.hedge_vault@
                && s.destination@ == self.risk_vault@),
    {
        if !self.matured {
            return Err(Error::NotMatured);
        }
        Ok(
            Settlement {
                vault: bytes_clone(&self.hedge_vault),
                destination: bytes_clone(&self.risk_vault),
            },
        )
    }
}

/// The liquidated and matured flags are never both set: every operation
/// establishes or preserves `wf`, and `wf` rules the combination out, so the
/// exclusion holds after any sequence of operations.
pub proof fn lemma_flags_mutually_exclusive(c: ControllerContract)
    requires
        c.wf(),
    ensures
        !(c.liquidated && c.matured),
{
}

} // verus!
