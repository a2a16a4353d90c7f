use vstd::prelude::*;

use crate::address::{address_of, derive_address, Role};
use crate::bytes::{bytes_clone, bytes_eq};
use crate::controller::ControllerContract;
use crate::errors::Error;

verus! {

/// The recorded topology of one hedge: the three derived unit addresses,
/// the asset they hold and the hedge's maturity date. Created exactly once
/// per hedge identifier and never mutated.
pub struct HedgeInfo {
    pub hedge_vault: Vec<u8>,
    pub risk_vault: Vec<u8>,
    pub controller: Vec<u8>,
    pub maturity_date: u64,
    pub token_id: Vec<u8>,
}

/// The mathematical value of a `HedgeInfo`.
pub struct HedgeInfoV {
    pub hedge_vault: Seq<u8>,
    pub risk_vault: Seq<u8>,
    pub controller: Seq<u8>,
    pub maturity_date: u64,
    pub token_id: Seq<u8>,
}

impl View for HedgeInfo {
    type V = HedgeInfoV;

    open spec fn view(&self) -> HedgeInfoV {
        HedgeInfoV {
            hedge_vault: self.hedge_vault@,
            risk_vault: self.risk_vault@,
            controller: self.controller@,
            maturity_date: self.maturity_date,
            token_id: self.token_id@,
        }
    }
}

/// The record a successful hedge-pair creation produces for `hedge_id`: all
/// three addresses are derived from the identifier alone.
pub open spec fn derived_info(hedge_id: Seq<u8>, token_id: Seq<u8>, maturity_date: u64) -> HedgeInfoV {
    HedgeInfoV {
        hedge_vault: address_of(hedge_id, Role::Hedge),
        risk_vault: address_of(hedge_id, Role::Risk),
        controller: address_of(hedge_id, Role::Ctrl),
        maturity_date: maturity_date,
        token_id: token_id,
    }
}

impl HedgeInfo {
    /// A fresh record holding the same values.
    pub fn duplicate(&self) -> (r: HedgeInfo)
        ensures
            r@ == self@,
    {
        HedgeInfo {
            hedge_vault: bytes_clone(&self.hedge_vault),
            risk_vault: bytes_clone(&self.risk_vault),
            controller: bytes_clone(&self.controller),
            maturity_date: self.maturity_date,
            token_id: bytes_clone(&self.token_id),
        }
    }

    /// The controller unit for this record: built from the controller's own
    /// state machine — not from a vault — and initialized immediately, with
    /// the record's vault pair, asset and maturity date and the given
    /// administrator, so a created hedge never carries an uninitialized or
    /// wrongly-coded controller.
    pub fn make_controller(&self, admin: &Vec<u8>, now: u64) -> (r: Result<ControllerContract, Error>)
        ensures
            self.maturity_date <= now ==> r == Err::<ControllerContract, Error>(
                Error::InvalidMaturity,
            ),
            self.maturity_date > now ==> {
                &&& r matches Ok(c)
                &&& c.wf()
                &&& c.admin is Some
                &&& c.spec_admin() == admin@
                &&& c.hedge_vault@ == self.hedge_vault@
                &&& c.risk_vault@ == self.risk_vault@
                &&& c.token_id@ == self.token_id@
                &&& c.maturity_date == self.maturity_date
                &&& !c.liquidated
                &&& !c.matured
            },
    {
        let mut controller = ControllerContract::new();
        match controller.initialize(
            bytes_clone(admin),
            bytes_clone(&self.hedge_vault),
            bytes_clone(&self.risk_vault),
            bytes_clone(&self.token_id),
            self.maturity_date,
            now,
        ) {
            Ok(()) => Ok(controller),
            Err(e) => Err(e),
        }
    }
}

/// The factory: holds the administrator identity, set exactly once, and the
/// directory of created hedges, keyed by hedge identifier.
pub struct HedgeCreatorContract {
    pub admin: Option<Vec<u8>>,
    pub hedges: Vec<(Vec<u8>, HedgeInfo)>,
}

impl HedgeCreatorContract {
    /// The stored administrator identity (empty if none is stored).
    pub open spec fn spec_admin(self) -> Seq<u8> {
        match self.admin {
            Some(a) => a@,
            None => Seq::empty(),
        }
    }

    /// Well-formedness: hedge identifiers are unique, every record's three
    /// addresses are the ones derived from its identifier, and records exist
    /// only once an administrator is set.
    pub open spec fn wf(self) -> bool {
        &&& forall|i: int, j: int|
            0 <= i < j < self.hedges@.len() ==> (#[trigger] self.hedges@[i]).0@ != (
            #[trigger] self.hedges@[j]).0@
        &&& forall|i: int|
            0 <= i < self.hedges@.len() ==> (#[trigger] self.hedges@[i]).1@ == derived_info(
                self.hedges@[i].0@,
                self.hedges@[i].1.token_id@,
                self.hedges@[i].1.maturity_date,
            )
        &&& (self.hedges@.len() > 0 ==> self.admin is Some)
    }

    /// Whether a record exists under the given identifier.
    pub open spec fn has_hedge(self, hedge_id: Seq<u8>) -> bool {
        exists|i: int| 0 <= i < self.hedges@.len() && (#[trigger] self.hedges@[i]).0@ == hedge_id
    }

    /// The index of the record with the given identifier.
    pub open spec fn idx_of(self, hedge_id: Seq<u8>) -> int {
        choose|i: int| 0 <= i < self.hedges@.len() && (#[trigger] self.hedges@[i]).0@ == hedge_id
    }

    /// The record stored under the given identifier.
    pub open spec fn info_of(self, hedge_id: Seq<u8>) -> HedgeInfoV {
        self.hedges@[self.idx_of(hedge_id)].1@
    }

    /// A fresh, uninitialized factory.
    pub fn new() -> (f: HedgeCreatorContract)
        ensures
            f.wf(),
            f.admin is None,
            f.hedges@.len() == 0,
    {
        HedgeCreatorContract { admin: None, hedges: Vec::new() }
    }

    /// True exactly when an administrator has been stored.
    pub fn has_administrator(&self) -> (r: bool)
        ensures
            r == (self.admin is Some),
    {
        self.admin.is_some()
    }

    /// The stored administrator identity.
    pub fn read_administrator(&self) -> (r: &Vec<u8>)
        requires
            self.admin is Some,
        ensures
            r@ == self.spec_admin(),
    {
        match &self.admin {
            Some(a) => a,
            None => vstd::pervasive::unreached(),
        }
    }

    /// Stores the administrator identity. Rejected with `AlreadyInitialized`
    /// on a second call, which changes nothing.
    pub fn initialize(&mut self, admin: Vec<u8>) -> (r: Result<(), Error>)
        requires
            old(self).wf(),
        ensures
            final(self).wf(),
            old(self).admin is Some ==> r == Err::<(), Error>(Error::AlreadyInitialized)
                && *final(self) == *old(self),
            old(self).admin is None ==> {
                &&& r is Ok
                &&& final(self).admin is Some
                &&& final(self).spec_admin() == admin@
                &&& final(self).hedges == old(self).hedges
            },
    {
        if self.admin.is_some() {
            return Err(Error::AlreadyInitialized);
        }
        self.admin = Some(admin);
        Ok(())
    }

    /// The index of the record with the given identifier, if any.
    fn find(&self, hedge_id: &Vec<u8>) -> (r: Option<usize>)
        ensures
            match r {
                Some(i) => i < self.hedges@.len() && self.hedges@[i as int].0@ == hedge_id@,
                None => !self.has_hedge(hedge_id@),
            },
    {
        let n: usize = self.hedges.len();
        let mut i: usize = 0;
        while i < n
            invariant
                n == self.hedges@.len(),
                i <= n,
                forall|k: int| 0 <= k < i ==> (#[trigger] self.hedges@[k]).0@ != hedge_id@,
            decreases n - i,
        {
            if bytes_eq(&self.hedges[i].0, hedge_id) {
                return Some(i);
            }
            i = i + 1;
        }
        None
    }

    /// Creates the hedge pair for `hedge_id`: derives the three unit
    /// addresses from the identifier, records the resulting topology, and
    /// returns it so the caller can deploy the two vaults and the controller
    /// at those addresses and initialize them. Only the administrator may
    /// create; the maturity date must lie in the future; re-creation under an
    /// existing identifier is rejected with `DuplicateHedge`. A rejected call
    /// changes nothing, and a successful one touches no other record.
    pub fn create_hedge_pair(
        &mut self,
        invoker: &Vec<u8>,
        now: u64,
        hedge_id: &Vec<u8>,
        token_id: &Vec<u8>,
        maturity_date: u64,
    ) -> (r: Result<HedgeInfo, Error>)
        requires
            old(self).wf(),
            old(self).admin is Some,
        ensures
            final(self).wf(),
            final(self).admin == old(self).admin,
            invoker@ != old(self).spec_admin() ==> r == Err::<HedgeInfo, Error>(
                Error::Unauthorized,
            ) && *final(self) == *old(self),
            invoker@ == old(self).spec_admin() && maturity_date <= now ==> r == Err::<
                HedgeInfo,
                Error,
            >(Error::InvalidMaturity) && *final(self) == *old(self),
            invoker@ == old(self).spec_admin() && maturity_date > now && old(self).has_hedge(
                hedge_id@,
            ) ==> r == Err::<HedgeInfo, Error>(Error::DuplicateHedge) && *final(self) == *old(self),
            invoker@ == old(self).spec_admin() && maturity_date > now && !old(self).has_hedge(
                hedge_id@,
            ) ==> {
                &&& (r matches Ok(info) && info@ == derived_info(hedge_id@, token_id@, maturity_date))
                &&& final(self).has_hedge(hedge_id@)
                &&& final(self).info_of(hedge_id@) == derived_info(hedge_id@, token_id@, maturity_date)
                &&& forall|id: Seq<u8>|
                    id != hedge_id@ ==> #[trigger] final(self).has_hedge(id) == old(
                        self,
                    ).has_hedge(id)
                &&& forall|id: Seq<u8>|
                    id != hedge_id@ && old(self).has_hedge(id) ==> #[trigger] final(self).info_of(
                        id,
                    ) == old(self).info_of(id)
            },
    {
        let authorized: bool = match &self.admin {
            Some(a) => bytes_eq(invoker, a),
            None => false,
        };
        if !authorized {
            return Err(Error::Unauthorized);
        }
        if maturity_date <= now {
            return Err(Error::InvalidMaturity);
        }
        if self.find(hedge_id).is_some() {
            return Err(Error::DuplicateHedge);
        }
        let info = HedgeInfo {
            hedge_vault: derive_address(hedge_id, Role::Hedge),
            risk_vault: derive_address(hedge_id, Role::Risk),
            controller: derive_address(hedge_id, Role::Ctrl),
            maturity_date: maturity_date,
            token_id: bytes_clone(token_id),
        };
        let result = info.duplicate();
        let key = bytes_clone(hedge_id);
        self.hedges.push((key, info));
        proof {
            let ghost olds = old(self).hedges@;
            let ghost news = self.hedges@;
            assert(news.len() == olds.len() + 1);
            assert(forall|k: int| 0 <= k < olds.len() ==> news[k] == olds[k]);
            assert(news[olds.len() as int].0@ == hedge_id@);
            assert(news[olds.len() as int].1@ == derived_info(hedge_id@, token_id@, maturity_date));
            // the new key differs from every old key, so uniqueness carries over
            assert forall|i: int, j: int| 0 <= i < j < news.len() implies (#[trigger] news[i]).0@
                != (#[trigger] news[j]).0@ by {
                if j < olds.len() {
                    assert(olds[i].0@ != olds[j].0@);
                } else {
                    assert(news[j].0@ == hedge_id@);
                    if olds[i].0@ == hedge_id@ {
                        assert(old(self).has_hedge(hedge_id@));
                    }
                }
            }
            assert(self.wf());
            assert(self.has_hedge(hedge_id@));
            let ghost n = self.idx_of(hedge_id@);
            assert(0 <= n < news.len() && news[n].0@ == hedge_id@);
            if n < olds.len() {
                assert(old(self).has_hedge(hedge_id@));
            }
            assert(self.info_of(hedge_id@) == derived_info(hedge_id@, token_id@, maturity_date));
            assert forall|id: Seq<u8>| id != hedge_id@ implies #[trigger] self.has_hedge(id) == old(
                self,
            ).has_hedge(id) by {
                if old(self).has_hedge(id) {
                    let i = old(self).idx_of(id);
                    assert(0 <= i < olds.len() && olds[i].0@ == id);
                    assert(news[i].0@ == id);
                }
                if self.has_hedge(id) {
                    let i = self.idx_of(id);
                    assert(0 <= i < news.len() && news[i].0@ == id);
                    assert(i < olds.len());
                }
            }
            assert forall|id: Seq<u8>| id != hedge_id@ && old(self).has_hedge(id) implies
                #[trigger] self.info_of(id) == old(self).info_of(id) by {
                let i = old(self).idx_of(id);
                assert(0 <= i < olds.len() && olds[i].0@ == id);
                assert(news[i].0@ == id);
                assert(self.has_hedge(id));
                let j = self.idx_of(id);
                assert(0 <= j < news.len() && news[j].0@ == id);
                assert(j < olds.len());
                if i != j {
                    assert(news[i].0@ != news[j].0@);
                }
                assert(self.info_of(id) == news[j].1@ && news[j].1@ == olds[j].1@);
            }
        }
        Ok(result)
    }

    /// Looks the identifier up in the directory. A pure read: rejected with
    /// `NotFound` when no record exists, and returns the stored record
    /// otherwise.
    pub fn get_hedge_info(&self, hedge_id: &Vec<u8>) -> (r: Result<HedgeInfo, Error>)
        requires
            self.wf(),
        ensures
            self.has_hedge(hedge_id@) ==> (r matches Ok(info) && info@ == self.info_of(hedge_id@)),
            !self.has_hedge(hedge_id@) ==> r == Err::<HedgeInfo, Error>(Error::NotFound),
    {
        match self.find(hedge_id) {
            Some(i) => {
                proof {
                    assert(self.has_hedge(hedge_id@));
                    let j = self.idx_of(hedge_id@);
                    assert(0 <= j < self.hedges@.len() && self.hedges@[j].0@ == hedge_id@);
                    if i as int != j {
                        assert(self.hedges@[i as int].0@ != self.hedges@[j].0@);
                    }
                }
                Ok(self.hedges[i].1.duplicate())
            },
            None => Err(Error::NotFound),
        }
    }
}

/// What a well-formed directory stores under an identifier carries exactly
/// the addresses derived from that identifier.
pub proof fn lemma_info_is_derived(f: HedgeCreatorContract, hedge_id: Seq<u8>)
    requires
        f.wf(),
        f.has_hedge(hedge_id),
    ensures
        f.info_of(hedge_id) == derived_info(
            hedge_id,
            f.info_of(hedge_id).token_id,
            f.info_of(hedge_id).maturity_date,
        ),
        f.info_of(hedge_id).hedge_vault == address_of(hedge_id, Role::Hedge),
        f.info_of(hedge_id).risk_vault == address_of(hedge_id, Role::Risk),
        f.info_of(hedge_id).controller == address_of(hedge_id, Role::Ctrl),
{
    let i = f.idx_of(hedge_id);
    assert(0 <= i < f.hedges@.len() && f.hedges@[i].0@ == hedge_id);
    assert(f.hedges@[i].1@ == derived_info(
        f.hedges@[i].0@,
        f.hedges@[i].1.token_id@,
        f.hedges@[i].1.maturity_date,
    ));
}

/// Address determinism: any two well-formed directories that both hold a
/// record for the same hedge identifier agree on all three derived
/// addresses, whatever sequence of operations produced either directory.
pub proof fn lemma_addresses_deterministic(
    f1: HedgeCreatorContract,
    f2: HedgeCreatorContract,
    hedge_id: Seq<u8>,
)
    requires
        f1.wf(),
        f2.wf(),
        f1.has_hedge(hedge_id),
        f2.has_hedge(hedge_id),
    ensures
        f1.info_of(hedge_id).hedge_vault == f2.info_of(hedge_id).hedge_vault,
        f1.info_of(hedge_id).risk_vault == f2.info_of(hedge_id).risk_vault,
        f1.info_of(hedge_id).controller == f2.info_of(hedge_id).controller,
{
    lemma_info_is_derived(f1, hedge_id);
    lemma_info_is_derived(f2, hedge_id);
}

} // verus!
