use vstd::prelude::*;

verus! {

/// Why an operation on the registry was rejected.
#[derive(Clone, Copy, Debug, PartialEq, Eq, Structural)]
pub enum DomainError {
    /// The naming authority reported the name as already claimed.
    CreationConflict,
    /// The caller is not the current owner.
    Unauthorized,
    /// The zone index is not below the number of zones.
    IndexOutOfRange,
    /// The new owner is the current owner.
    NoOpTransfer,
}

/// A zone entry as the contracts see it: its name and its value.
pub type ZoneModel = (Seq<char>, Seq<char>);

/// The abstract state of a registry unit.
pub struct DomainState {
    pub domain: Seq<char>,
    pub owner: Seq<u8>,
    pub zones: Seq<ZoneModel>,
}

/// The zone list as plain sequences of characters.
pub open spec fn zones_model(zones: Seq<(String, String)>) -> Seq<ZoneModel> {
    zones.map_values(|z: (String, String)| (z.0@, z.1@))
}

impl DomainState {
    /// The state right after a successful creation.
    pub open spec fn initial(domain: Seq<char>, owner: Seq<u8>) -> DomainState {
        DomainState { domain, owner, zones: Seq::empty() }
    }

    /// What stops `caller` from appending a zone, if anything.
    pub open spec fn add_zone_error(self, caller: Seq<u8>) -> Option<DomainError> {
        if caller != self.owner {
            Some(DomainError::Unauthorized)
        } else {
            None
        }
    }

    /// The state after `caller` asks to append the zone `(name, value)`.
    pub open spec fn after_add_zone(
        self,
        caller: Seq<u8>,
        name: Seq<char>,
        value: Seq<char>,
    ) -> DomainState {
        if self.add_zone_error(caller) is None {
            DomainState { zones: self.zones.push((name, value)), ..self }
        } else {
            self
        }
    }

    /// What stops `caller` from overwriting the zone at `index`, if anything.
    pub open spec fn update_zone_error(self, caller: Seq<u8>, index: int) -> Option<DomainError> {
        if caller != self.owner {
            Some(DomainError::Unauthorized)
        } else if index < 0 || index >= self.zones.len() {
            Some(DomainError::IndexOutOfRange)
        } else {
            None
        }
    }

    /// The state after `caller` asks to overwrite the zone at `index` with `(name, value)`.
    pub open spec fn after_update_zone(
        self,
        caller: Seq<u8>,
        index: int,
        name: Seq<char>,
        value: Seq<char>,
    ) -> DomainState {
        if self.update_zone_error(caller, index) is None {
            DomainState { zones: self.zones.update(index, (name, value)), ..self }
        } else {
            self
        }
    }

    /// What stops `caller` from handing ownership to `new_owner`, if anything.
    pub open spec fn transfer_error(self, caller: Seq<u8>, new_owner: Seq<u8>) -> Option<DomainError> {
        if caller != self.owner {
            Some(DomainError::Unauthorized)
        } else if new_owner == self.owner {
            Some(DomainError::NoOpTransfer)
        } else {
            None
        }
    }

    /// The state after `caller` asks to hand ownership to `new_owner`.
    pub open spec fn after_transfer(self, caller: Seq<u8>, new_owner: Seq<u8>) -> DomainState {
        if self.transfer_error(caller, new_owner) is None {
            DomainState { owner: new_owner, ..self }
        } else {
            self
        }
    }
}

} // verus!
