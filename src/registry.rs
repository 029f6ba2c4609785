use vstd::prelude::*;

use crate::address::Address;
use crate::model::{DomainError, DomainState, zones_model};

verus! {

/// A zone entry: its name and its value.
pub type Zone = (String, String);

/// Notification that a zone entry was appended or overwritten.
#[derive(Clone, Debug)]
pub struct ZoneUpdated {
    pub name: String,
    pub value: String,
}

impl View for ZoneUpdated {
    type V = (Seq<char>, Seq<char>);

    open spec fn view(&self) -> (Seq<char>, Seq<char>) {
        (self.name@, self.value@)
    }
}

/// Notification that ownership moved to a new identity.
#[derive(Clone, Copy, Debug)]
pub struct OwnershipTransferred {
    pub new_owner: Address,
}

impl View for OwnershipTransferred {
    type V = Seq<u8>;

    open spec fn view(&self) -> Seq<u8> {
        self.new_owner@
    }
}

/// The registry unit: a domain name, its owner and its zone entries.
#[derive(Debug)]
pub struct SmhDomains {
    domain: String,
    owner: Address,
    zones: Vec<Zone>,
}

impl View for SmhDomains {
    type V = DomainState;

    closed spec fn view(&self) -> DomainState {
        DomainState { domain: self.domain@, owner: self.owner@, zones: zones_model(self.zones@) }
    }
}

impl SmhDomains {
    /// Creates the unit once the naming authority has answered the claim of
    /// `init_domain`: `claimed` is its answer. A denied claim creates nothing.
    pub fn create_domain(init_domain: String, init_owner: Address, claimed: bool) -> (r: Result<
        SmhDomains,
        DomainError,
    >)
        ensures
            match r {
                Ok(unit) => claimed && unit@ == DomainState::initial(init_domain@, init_owner@),
                Err(e) => !claimed && e == DomainError::CreationConflict,
            },
    {
        if !claimed {
            return Err(DomainError::CreationConflict);
        }
        let unit = SmhDomains { domain: init_domain, owner: init_owner, zones: Vec::new() };
        assert(unit@.zones =~= Seq::<(Seq<char>, Seq<char>)>::empty());
        Ok(unit)
    }

    /// Rebuilds a unit from a stored domain name, owner and zone list.
    pub fn from_parts(domain: String, owner: Address, zones: Vec<Zone>) -> (r: SmhDomains)
        ensures
            r@ == (DomainState { domain: domain@, owner: owner@, zones: zones_model(zones@) }),
    {
        SmhDomains { domain, owner, zones }
    }

    /// Appends the zone `(name, value)` when `caller` is the owner.
    pub fn add_zone(&mut self, caller: Address, name: String, value: String) -> (r: Result<
        ZoneUpdated,
        DomainError,
    >)
        ensures
            final(self)@ == old(self)@.after_add_zone(caller@, name@, value@),
            match r {
                Ok(ev) => old(self)@.add_zone_error(caller@) is None && ev@ == (name@, value@),
                Err(e) => old(self)@.add_zone_error(caller@) == Some(e),
            },
    {
        if !caller.same_as(&self.owner) {
            return Err(DomainError::Unauthorized);
        }
        let ev = ZoneUpdated { name: name.clone(), value: value.clone() };
        self.zones.push((name, value));
        assert(self@.zones =~= old(self)@.zones.push((ev.name@, ev.value@)));
        Ok(ev)
    }

    /// Overwrites the zone at `index` with `(name, value)` when `caller` is the
    /// owner and `index` names an existing zone.
    pub fn update_zone(&mut self, caller: Address, index: u32, name: String, value: String) -> (r:
        Result<ZoneUpdated, DomainError>)
        ensures
            final(self)@ == old(self)@.after_update_zone(caller@, index as int, name@, value@),
            match r {
                Ok(ev) => old(self)@.update_zone_error(caller@, index as int) is None && ev@ == (
                name@,
                value@,
                ),
                Err(e) => old(self)@.update_zone_error(caller@, index as int) == Some(e),
            },
    {
        if !caller.same_as(&self.owner) {
            return Err(DomainError::Unauthorized);
        }
        let idx = index as usize;
        if idx >= self.zones.len() {
            return Err(DomainError::IndexOutOfRange);
        }
        let ev = ZoneUpdated { name: name.clone(), value: value.clone() };
        self.zones[idx] = (name, value);
        assert(self@.zones =~= old(self)@.zones.update(index as int, (ev.name@, ev.value@)));
        Ok(ev)
    }

    /// Hands ownership to `new_owner` when `caller` is the owner and
    /// `new_owner` differs from the owner.
    pub fn transfer(&mut self, caller: Address, new_owner: Address) -> (r: Result<
        OwnershipTransferred,
        DomainError,
    >)
        ensures
            final(self)@ == old(self)@.after_transfer(caller@, new_owner@),
            match r {
                Ok(ev) => old(self)@.transfer_error(caller@, new_owner@) is None && ev@
                    == new_owner@,
                Err(e) => old(self)@.transfer_error(caller@, new_owner@) == Some(e),
            },
    {
        if !caller.same_as(&self.owner) {
            return Err(DomainError::Unauthorized);
        }
        if new_owner.same_as(&self.owner) {
            return Err(DomainError::NoOpTransfer);
        }
        self.owner = new_owner;
        Ok(OwnershipTransferred { new_owner })
    }

    /// The domain name.
    pub fn domain(&self) -> (r: String)
        ensures
            r@ == self@.domain,
    {
        self.domain.clone()
    }

    /// The current owner.
    pub fn owner(&self) -> (r: Address)
        ensures
            r@ == self@.owner,
    {
        self.owner
    }

    /// A copy of the zone entries, in insertion order.
    pub fn zones(&self) -> (r: Vec<Zone>)
        ensures
            zones_model(r@) == self@.zones,
    {
        let mut out: Vec<Zone> = Vec::new();
        let mut i: usize = 0;
        while i < self.zones.len()
            invariant
                i <= self.zones@.len(),
                out@.len() == i,
                forall|j: int|
                    0 <= j < i ==> out@[j].0@ == self.zones@[j].0@ && out@[j].1@
                        == self.zones@[j].1@,
            decreases self.zones@.len() - i,
        {
            let (name, value) = (self.zones[i].0.clone(), self.zones[i].1.clone());
            out.push((name, value));
            i = i + 1;
        }
        assert(zones_model(out@) =~= zones_model(self.zones@));
        out
    }
}

} // verus!
