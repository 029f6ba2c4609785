//! A single named-record registry unit: one domain name, an owner identity and
//! an ordered list of zone entries, all mutable only by the current owner.

mod address;
mod laws;
mod model;
mod registry;

pub use address::Address;
pub use laws::{
    lemma_add_zone_appends, lemma_owner_gating, lemma_transfer_succeeds_once,
    lemma_transfer_to_owner_fails, lemma_update_zone_in_place, lemma_update_zone_out_of_range,
};
pub use model::{DomainError, DomainState, ZoneModel, zones_model};
pub use registry::{OwnershipTransferred, SmhDomains, Zone, ZoneUpdated};
