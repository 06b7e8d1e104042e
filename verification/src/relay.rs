//! The session's table of link relays: a slab keyed by the local (output)
//! handle. The slab itself comes from the `slab` crate and is taken on
//! trust through the contracts below; the routing logic around it is
//! verified against them.

use vstd::prelude::*;

use crate::definitions::{ReceiverSettleMode, Role};

verus! {

/// The routing record a session keeps for one of its links: the role and
/// the receiver settle mode the peer announced on Attach. The channel to
/// the link's task lives outside the engine, keyed by the same handle.
#[derive(Debug, Clone, Copy, PartialEq, Eq, Structural)]
pub struct LinkRelay {
    pub role: Role,
    pub receiver_settle_mode: ReceiverSettleMode,
}

#[verifier::external_type_specification]
#[verifier::external_body]
#[verifier::reject_recursive_types(T)]
pub struct ExSlab<T>(slab::Slab<T>);

/// The relays a slab holds, by key.
pub uninterp spec fn slab_relays(s: slab::Slab<LinkRelay>) -> Map<int, LinkRelay>;

/// The key the slab's next insertion will use.
pub uninterp spec fn slab_next_key(s: slab::Slab<LinkRelay>) -> int;

/// The table of a session with no links.
pub open spec fn no_relays() -> Map<int, LinkRelay> {
    Map::empty()
}

/// Relies on `Slab::new`: a new slab is empty and inserts at key 0.
#[verifier::external_body]
pub fn relay_table_new() -> (r: slab::Slab<LinkRelay>)
    ensures
        slab_relays(r) == no_relays(),
        slab_next_key(r) == 0,
{
    slab::Slab::new()
}

/// Relies on `Slab::vacant_key`: the key of the next vacant entry, which
/// the next insertion will use; it is not occupied.
#[verifier::external_body]
pub fn relay_vacant_key(s: &slab::Slab<LinkRelay>) -> (r: usize)
    ensures
        r as int == slab_next_key(*s),
        !slab_relays(*s).dom().contains(r as int),
{
    s.vacant_key()
}

/// Relies on `Slab::insert`: the value is stored under the next vacant
/// key, which is returned.
#[verifier::external_body]
pub fn relay_insert(s: &mut slab::Slab<LinkRelay>, v: LinkRelay) -> (r: usize)
    ensures
        r as int == slab_next_key(*old(s)),
        !slab_relays(*old(s)).dom().contains(r as int),
        slab_relays(*final(s)) == slab_relays(*old(s)).insert(r as int, v),
{
    s.insert(v)
}

/// Relies on `Slab::get`: the value under the key, if the key is occupied.
#[verifier::external_body]
pub fn relay_get(s: &slab::Slab<LinkRelay>, key: usize) -> (r: Option<&LinkRelay>)
    ensures
        (match r {
            Some(v) => slab_relays(*s).dom().contains(key as int) && *v == slab_relays(*s)[
                key as int
            ],
            None => !slab_relays(*s).dom().contains(key as int),
        }),
{
    s.get(key)
}

/// Relies on `Slab::get_mut`: a mutable borrow of the value under the key,
/// if occupied; writing through it updates that entry and nothing else.
#[verifier::external_body]
pub fn relay_get_mut<'a>(s: &'a mut slab::Slab<LinkRelay>, key: usize) -> (r: Option<
    &'a mut LinkRelay,
>)
    ensures
        (match r {
            Some(v) => {
                &&& slab_relays(*old(s)).dom().contains(key as int)
                &&& *v == slab_relays(*old(s))[key as int]
                &&& slab_relays(*final(s)) == slab_relays(*old(s)).insert(key as int, *final(v))
                &&& slab_next_key(*final(s)) == slab_next_key(*old(s))
            },
            None => !slab_relays(*old(s)).dom().contains(key as int) && *final(s) == *old(s),
        }),
{
    s.get_mut(key)
}

/// Relies on `Slab::try_remove`: removes and returns the value under the
/// key, if occupied; a vacant key changes nothing.
#[verifier::external_body]
pub fn relay_remove(s: &mut slab::Slab<LinkRelay>, key: usize) -> (r: Option<LinkRelay>)
    ensures
        (match r {
            Some(v) => {
                &&& slab_relays(*old(s)).dom().contains(key as int)
                &&& v == slab_relays(*old(s))[key as int]
                &&& slab_relays(*final(s)) == slab_relays(*old(s)).remove(key as int)
            },
            None => !slab_relays(*old(s)).dom().contains(key as int) && *final(s) == *old(s),
        }),
{
    s.try_remove(key)
}

/// Relies on `Slab::contains`: whether the key is occupied.
#[verifier::external_body]
pub fn relay_contains(s: &slab::Slab<LinkRelay>, key: usize) -> (r: bool)
    ensures
        r == slab_relays(*s).dom().contains(key as int),
{
    s.contains(key)
}

} // verus!
