use vstd::prelude::*;

use crate::model::{DomainError, DomainState};

verus! {

/// A caller other than the owner changes nothing: appending, overwriting and
/// transferring all fail with `Unauthorized` and leave the state as it was.
pub proof fn lemma_owner_gating(
    s: DomainState,
    caller: Seq<u8>,
    index: int,
    name: Seq<char>,
    value: Seq<char>,
    new_owner: Seq<u8>,
)
    requires
        caller != s.owner,
    ensures
        s.add_zone_error(caller) == Some(DomainError::Unauthorized),
        s.after_add_zone(caller, name, value) == s,
        s.update_zone_error(caller, index) == Some(DomainError::Unauthorized),
        s.after_update_zone(caller, index, name, value) == s,
        s.transfer_error(caller, new_owner) == Some(DomainError::Unauthorized),
        s.after_transfer(caller, new_owner) == s,
{
}

/// Appending by the owner succeeds and adds exactly one entry, `(name, value)`,
/// at the index equal to the old length; the earlier entries, the name and the
/// owner stay as they were.
pub proof fn lemma_add_zone_appends(s: DomainState, name: Seq<char>, value: Seq<char>)
    ensures
        s.add_zone_error(s.owner) is None,
        s.after_add_zone(s.owner, name, value).zones.len() == s.zones.len() + 1,
        s.after_add_zone(s.owner, name, value).zones[s.zones.len() as int] == (name, value),
        forall|j: int|
            0 <= j < s.zones.len() ==> #[trigger] s.after_add_zone(s.owner, name, value).zones[j]
                == s.zones[j],
        s.after_add_zone(s.owner, name, value).domain == s.domain,
        s.after_add_zone(s.owner, name, value).owner == s.owner,
{
}

/// Overwriting by the owner at an existing index succeeds, replaces that entry
/// alone and keeps the length; at an index past the end it fails with
/// `IndexOutOfRange` and leaves the state unchanged.
pub proof fn lemma_update_zone_in_place(
    s: DomainState,
    index: int,
    name: Seq<char>,
    value: Seq<char>,
)
    requires
        index >= 0,
    ensures
        index < s.zones.len() ==> {
            &&& s.update_zone_error(s.owner, index) is None
            &&& s.after_update_zone(s.owner, index, name, value).zones.len() == s.zones.len()
            &&& s.after_update_zone(s.owner, index, name, value).zones[index] == (name, value)
            &&& forall|j: int|
                0 <= j < s.zones.len() && j != index ==> #[trigger] s.after_update_zone(
                    s.owner,
                    index,
                    name,
                    value,
                ).zones[j] == s.zones[j]
            &&& s.after_update_zone(s.owner, index, name, value).owner == s.owner
            &&& s.after_update_zone(s.owner, index, name, value).domain == s.domain
        },
        index >= s.zones.len() ==> {
            &&& s.update_zone_error(s.owner, index) == Some(DomainError::IndexOutOfRange)
            &&& s.after_update_zone(s.owner, index, name, value) == s
        },
{
}

/// An index past the end is refused whoever asks, and the zones stay as they were.
pub proof fn lemma_update_zone_out_of_range(
    s: DomainState,
    caller: Seq<u8>,
    index: int,
    name: Seq<char>,
    value: Seq<char>,
)
    requires
        index >= s.zones.len(),
    ensures
        s.update_zone_error(caller, index) is Some,
        s.after_update_zone(caller, index, name, value) == s,
{
}

/// Transferring to the current owner always fails and changes nothing.
pub proof fn lemma_transfer_to_owner_fails(s: DomainState, caller: Seq<u8>)
    ensures
        s.transfer_error(caller, s.owner) is Some,
        s.after_transfer(caller, s.owner) == s,
{
}

/// The owner's transfer to another identity succeeds, after which that identity
/// is the owner; issuing the same transfer again then fails and changes nothing.
pub proof fn lemma_transfer_succeeds_once(s: DomainState, new_owner: Seq<u8>)
    requires
        new_owner != s.owner,
    ensures
        s.transfer_error(s.owner, new_owner) is None,
        s.after_transfer(s.owner, new_owner).owner == new_owner,
        s.after_transfer(s.owner, new_owner).domain == s.domain,
        s.after_transfer(s.owner, new_owner).zones == s.zones,
        s.after_transfer(s.owner, new_owner).transfer_error(s.owner, new_owner) is Some,
        s.after_transfer(s.owner, new_owner).after_transfer(s.owner, new_owner) == s.after_transfer(
            s.owner,
            new_owner,
        ),
{
}

} // verus!
