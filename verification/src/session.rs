//! The session tier: the per-channel state machine, handle allocation,
//! transfer-id window accounting, and the routing of link frames.

use std::collections::BTreeMap;

use vstd::prelude::*;

use crate::definitions::{
    AmqpError, DeliveryNumber, DeliveryTag, Handle, Role, SequenceNo, SessionError, SessionState,
    TransferNumber,
};
use crate::performatives::{
    Attach, Begin, Detach, Disposition, End, ErrorDef, Flow, LinkFlow, SessionFrame,
    SessionFrameBody, Transfer,
};
use crate::relay::{
    relay_get_mut, relay_insert, relay_remove, relay_table_new, relay_vacant_key, slab_next_key,
    slab_relays, LinkRelay,
};
use crate::serial::{serial_add, serial_sub, sn_add, sn_sub};
use crate::value::Fields;

verus! {

broadcast use {vstd::std_specs::btree::group_btree_axioms, vstd::laws_cmp::group_laws_cmp};

/// The session's default incoming and outgoing window.
pub const DEFAULT_WINDOW: u32 = 2048;

/// An error at the session tier.
#[derive(Debug)]
pub enum Error {
    /// A general protocol error.
    Amqp { condition: AmqpError, description: Option<String> },
    /// A session-level protocol error.
    Session { condition: SessionError, description: Option<String> },
    /// The peer ended the session with an error.
    Remote(ErrorDef),
}

impl Error {
    /// A general protocol error with no description.
    pub fn amqp_error(condition: AmqpError) -> (r: Error)
        ensures
            r == (Error::Amqp { condition, description: None }),
    {
        Error::Amqp { condition, description: None }
    }

    /// A session-level protocol error with no description.
    pub fn session_error(condition: SessionError) -> (r: Error)
        ensures
            r == (Error::Session { condition, description: None }),
    {
        Error::Session { condition, description: None }
    }
}

/// Why allocating a link in a session failed.
#[derive(Debug, Clone, Copy, PartialEq, Eq, Structural)]
pub enum AllocLinkError {
    /// The session is not mapped.
    IllegalState,
    /// The link name is already in use in this session.
    DuplicatedLinkName,
    /// The next free handle would exceed the negotiated handle-max.
    HandleMaxReached,
}

/// Whether a link name occurs in the session's name table.
pub open spec fn has_name(s: Seq<(String, Handle)>, name: Seq<char>) -> bool {
    exists|i: int| 0 <= i < s.len() && s[i].0@ == name
}

/// The handle a link name is bound to, where it is bound.
pub open spec fn name_binding(s: Seq<(String, Handle)>, name: Seq<char>, h: Handle) -> bool {
    exists|i: int| 0 <= i < s.len() && s[i].0@ == name && s[i].1 == h
}

/// Looks a link name up in the name table.
fn find_name(v: &Vec<(String, Handle)>, name: &String) -> (r: Option<Handle>)
    ensures
        (match r {
            Some(h) => name_binding(v@, name@, h),
            None => !has_name(v@, name@),
        }),
{
    let mut i: usize = 0;
    while i < v.len()
        invariant
            i <= v.len(),
            forall|j: int| 0 <= j < i ==> v@[j].0@ != name@,
        decreases v.len() - i,
    {
        if v[i].0 == *name {
            assert(0 <= i < v@.len() && v@[i as int].0@ == name@);
            return Some(v[i].1);
        }
        i = i + 1;
    }
    None
}

/// Removes a link name from the name table, keeping every other binding.
fn remove_name(v: &mut Vec<(String, Handle)>, name: &String)
    ensures
        final(v)@ == old(v)@.filter(|p: (String, Handle)| p.0@ != name@),
        !has_name(final(v)@, name@),
{
    let ghost orig = v@;
    let ghost pred = |p: (String, Handle)| p.0@ != name@;
    let mut kept: Vec<(String, Handle)> = Vec::new();
    let mut i: usize = 0;
    while i < v.len()
        invariant
            i <= v.len(),
            v@ == orig,
            kept@ =~= orig.take(i as int).filter(|p: (String, Handle)| p.0@ != name@),
        decreases v.len() - i,
    {
        proof {
            assert(orig.take(i + 1 as int).drop_last() =~= orig.take(i as int));
            assert(orig.take(i + 1 as int).last() == orig[i as int]);
            reveal(Seq::filter);
        }
        if !(v[i].0 == *name) {
            let (k, h) = &v[i];
            kept.push((k.clone(), *h));
            assert(kept@.last() == orig[i as int]);
        }
        assert(kept@ =~= orig.take(i + 1 as int).filter(
            |p: (String, Handle)| p.0@ != name@,
        ));
        i = i + 1;
    }
    proof {
        assert(orig.take(orig.len() as int) =~= orig);
    }
    *v = kept;
    proof {
        broadcast use vstd::seq_lib::group_filter_ensures;

        assert(forall|j: int| 0 <= j < orig.filter(pred).len() ==> pred(
            #[trigger] orig.filter(pred)[j],
        ));
    }
}

/// How an incoming Attach was routed.
#[derive(Debug, Clone, Copy, PartialEq, Eq, Structural)]
pub enum IncomingAttach {
    /// The attach continues a link this side initiated: route it to the
    /// link under this local handle.
    Matched(Handle),
    /// The peer initiated the link: a fresh local handle was allocated
    /// for it, to be exposed through the listener side.
    Tolerated(Handle),
}

/// Copies a link name, preserving its characters exactly.
fn clone_link_name(name: &String) -> (r: String)
    ensures
        r@ == name@,
{
    name.clone()
}

/// One settlement dispatch produced by an incoming Disposition: the link
/// relay under `handle` is told the fate of the delivery with this id
/// and tag.
#[derive(Debug, Clone, Copy, PartialEq, Eq, Structural)]
pub struct DispositionDispatch {
    pub delivery_id: DeliveryNumber,
    pub handle: Handle,
    pub delivery_tag: DeliveryTag,
}

/// A session endpoint: one channel's state machine and its links.
#[derive(Debug)]
pub struct Session {
    pub outgoing_channel: u16,
    pub local_state: SessionState,
    /// The first outgoing transfer-id; never changed after creation.
    pub initial_outgoing_id: TransferNumber,
    pub next_outgoing_id: TransferNumber,
    pub incoming_window: u32,
    pub outgoing_window: u32,
    pub handle_max: Handle,
    pub incoming_channel: Option<u16>,
    pub next_incoming_id: TransferNumber,
    pub remote_incoming_window: SequenceNo,
    pub remote_outgoing_window: SequenceNo,
    pub offered_capabilities: Option<Vec<String>>,
    pub desired_capabilities: Option<Vec<String>>,
    pub properties: Option<Fields>,
    /// The link relays, by local (output) handle.
    pub local_links: slab::Slab<LinkRelay>,
    /// Link names are unique in a session.
    pub link_by_name: Vec<(String, Handle)>,
    /// Routes incoming frames: input handle to output handle.
    pub link_by_input_handle: BTreeMap<Handle, Handle>,
    /// The ledger used when dispositions arrive without delivery tags.
    pub delivery_tag_by_id: BTreeMap<DeliveryNumber, (Handle, DeliveryTag)>,
}

impl Session {
    /// All fields that no session operation but the named ones may change,
    /// compared between two states.
    pub open spec fn same_config(self, other: Session) -> bool {
        &&& self.outgoing_channel == other.outgoing_channel
        &&& self.initial_outgoing_id == other.initial_outgoing_id
        &&& self.handle_max == other.handle_max
        &&& self.offered_capabilities == other.offered_capabilities
        &&& self.desired_capabilities == other.desired_capabilities
        &&& self.properties == other.properties
    }

    /// Whether the link tables are the same in two states.
    pub open spec fn same_links(self, other: Session) -> bool {
        &&& self.local_links == other.local_links
        &&& self.link_by_name == other.link_by_name
        &&& self.link_by_input_handle == other.link_by_input_handle
    }

    /// Whether the window variables are the same in two states.
    pub open spec fn same_windows(self, other: Session) -> bool {
        &&& self.next_outgoing_id == other.next_outgoing_id
        &&& self.next_incoming_id == other.next_incoming_id
        &&& self.remote_incoming_window == other.remote_incoming_window
        &&& self.remote_outgoing_window == other.remote_outgoing_window
        &&& self.incoming_window == other.incoming_window
        &&& self.outgoing_window == other.outgoing_window
    }

    /// Whether the session can route the given input handle: it is bound
    /// to an output handle whose relay is live.
    pub open spec fn routes_input_handle(self, input_handle: Handle) -> bool {
        &&& self.link_by_input_handle@.contains_key(input_handle)
        &&& slab_relays(self.local_links).dom().contains(
            self.link_by_input_handle@[input_handle] as int,
        )
    }

    /// A fresh session on the given outgoing channel, before Begin.
    pub fn unmapped(outgoing_channel: u16, next_outgoing_id: TransferNumber, handle_max: Handle)
        -> (r: Session)
        ensures
            r.outgoing_channel == outgoing_channel,
            r.local_state == SessionState::Unmapped,
            r.initial_outgoing_id == next_outgoing_id,
            r.next_outgoing_id == next_outgoing_id,
            r.incoming_window == DEFAULT_WINDOW,
            r.outgoing_window == DEFAULT_WINDOW,
            r.handle_max == handle_max,
            r.incoming_channel is None,
            r.next_incoming_id == 0u32,
            r.remote_incoming_window == 0u32,
            r.remote_outgoing_window == 0u32,
            slab_relays(r.local_links) == crate::relay::no_relays(),
            r.link_by_name@.len() == 0,
            r.link_by_input_handle@ == Map::<Handle, Handle>::empty(),
            r.delivery_tag_by_id@ == Map::<DeliveryNumber, (Handle, DeliveryTag)>::empty(),
    {
        Session {
            outgoing_channel,
            local_state: SessionState::Unmapped,
            initial_outgoing_id: next_outgoing_id,
            next_outgoing_id,
            incoming_window: DEFAULT_WINDOW,
            outgoing_window: DEFAULT_WINDOW,
            handle_max,
            incoming_channel: None,
            next_incoming_id: 0,
            remote_incoming_window: 0,
            remote_outgoing_window: 0,
            offered_capabilities: None,
            desired_capabilities: None,
            properties: None,
            local_links: relay_table_new(),
            link_by_name: Vec::new(),
            link_by_input_handle: BTreeMap::new(),
            delivery_tag_by_id: BTreeMap::new(),
        }
    }

    /// The local state of the session endpoint.
    pub fn local_state(&self) -> (r: SessionState)
        ensures
            r == self.local_state,
    {
        self.local_state
    }

    /// The outgoing channel of the session.
    pub fn outgoing_channel(&self) -> (r: u16)
        ensures
            r == self.outgoing_channel,
    {
        self.outgoing_channel
    }

    /// Allocates a local handle for a new link.
    ///
    /// The link name must be new in this session and the next free handle
    /// must not exceed handle-max; the session must be mapped.
    pub fn allocate_link(&mut self, link_name: String, relay: LinkRelay) -> (r: Result<
        Handle,
        AllocLinkError,
    >)
        ensures
            (match r {
                Ok(h) => {
                    &&& old(self).local_state == SessionState::Mapped
                    &&& !has_name(old(self).link_by_name@, link_name@)
                    &&& h as int == slab_next_key(old(self).local_links)
                    &&& h <= old(self).handle_max
                    &&& !slab_relays(old(self).local_links).dom().contains(h as int)
                    &&& slab_relays(final(self).local_links) == slab_relays(
                        old(self).local_links,
                    ).insert(h as int, relay)
                    &&& final(self).link_by_name@ == old(self).link_by_name@.push(
                        (link_name, h),
                    )
                    &&& name_binding(final(self).link_by_name@, link_name@, h)
                },
                Err(AllocLinkError::IllegalState) => {
                    &&& old(self).local_state != SessionState::Mapped
                    &&& *final(self) == *old(self)
                },
                Err(AllocLinkError::DuplicatedLinkName) => {
                    &&& old(self).local_state == SessionState::Mapped
                    &&& has_name(old(self).link_by_name@, link_name@)
                    &&& *final(self) == *old(self)
                },
                Err(AllocLinkError::HandleMaxReached) => {
                    &&& old(self).local_state == SessionState::Mapped
                    &&& !has_name(old(self).link_by_name@, link_name@)
                    &&& slab_next_key(old(self).local_links) > old(self).handle_max
                    &&& *final(self) == *old(self)
                },
            }),
            (r matches Ok(h) ==> {
                &&& final(self).local_state == old(self).local_state
                &&& final(self).same_config(*old(self))
                &&& final(self).same_windows(*old(self))
                &&& final(self).link_by_input_handle == old(self).link_by_input_handle
                &&& final(self).delivery_tag_by_id == old(self).delivery_tag_by_id
            }),
    {
        match self.local_state {
            SessionState::Mapped => {},
            _ => {
                return Err(AllocLinkError::IllegalState);
            },
        }
        if find_name(&self.link_by_name, &link_name).is_some() {
            return Err(AllocLinkError::DuplicatedLinkName);
        }
        let key = relay_vacant_key(&self.local_links);
        if key > self.handle_max as usize {
            return Err(AllocLinkError::HandleMaxReached);
        }
        let inserted = relay_insert(&mut self.local_links, relay);
        let handle = inserted as Handle;
        self.link_by_name.push((link_name, handle));
        assert(name_binding(
            self.link_by_name@,
            self.link_by_name@.last().0@,
            self.link_by_name@.last().1,
        ));
        Ok(handle)
    }

    /// Allocates a local handle for a link the peer initiated, binding the
    /// peer's input handle for routing.
    pub fn allocate_incoming_link(
        &mut self,
        link_name: String,
        relay: LinkRelay,
        input_handle: Handle,
    ) -> (r: Result<Handle, AllocLinkError>)
        ensures
            (match r {
                Ok(h) => {
                    &&& old(self).local_state == SessionState::Mapped
                    &&& !has_name(old(self).link_by_name@, link_name@)
                    &&& h as int == slab_next_key(old(self).local_links)
                    &&& h <= old(self).handle_max
                    &&& slab_relays(final(self).local_links) == slab_relays(
                        old(self).local_links,
                    ).insert(h as int, relay)
                    &&& final(self).link_by_input_handle@ == old(
                        self,
                    ).link_by_input_handle@.insert(input_handle, h)
                    &&& final(self).link_by_name@ == old(self).link_by_name@.push(
                        (link_name, h),
                    )
                    &&& final(self).local_state == old(self).local_state
                    &&& final(self).same_config(*old(self))
                    &&& final(self).same_windows(*old(self))
                    &&& final(self).delivery_tag_by_id == old(self).delivery_tag_by_id
                },
                Err(AllocLinkError::IllegalState) => {
                    &&& old(self).local_state != SessionState::Mapped
                    &&& *final(self) == *old(self)
                },
                Err(AllocLinkError::DuplicatedLinkName) => {
                    &&& old(self).local_state == SessionState::Mapped
                    &&& has_name(old(self).link_by_name@, link_name@)
                    &&& *final(self) == *old(self)
                },
                Err(AllocLinkError::HandleMaxReached) => {
                    &&& old(self).local_state == SessionState::Mapped
                    &&& !has_name(old(self).link_by_name@, link_name@)
                    &&& slab_next_key(old(self).local_links) > old(self).handle_max
                    &&& *final(self) == *old(self)
                },
            }),
    {
        match self.allocate_link(link_name, relay) {
            Ok(output_handle) => {
                self.link_by_input_handle.insert(input_handle, output_handle);
                Ok(output_handle)
            },
            Err(err) => Err(err),
        }
    }

    /// Forgets a link: its name leaves the name table and its relay
    /// leaves the slab; nothing else changes.
    pub fn deallocate_link(&mut self, link_name: String)
        ensures
            !has_name(final(self).link_by_name@, link_name@),
            has_name(old(self).link_by_name@, link_name@) ==> {
                &&& final(self).link_by_name@ == old(self).link_by_name@.filter(
                    |p: (String, Handle)| p.0@ != link_name@,
                )
                &&& exists|h: Handle|
                    #[trigger] name_binding(old(self).link_by_name@, link_name@, h)
                        && slab_relays(final(self).local_links) =~= slab_relays(
                        old(self).local_links,
                    ).remove(h as int)
            },
            !has_name(old(self).link_by_name@, link_name@) ==> *final(self) == *old(self),
            final(self).link_by_input_handle == old(self).link_by_input_handle,
            final(self).delivery_tag_by_id == old(self).delivery_tag_by_id,
            final(self).local_state == old(self).local_state,
            final(self).same_config(*old(self)),
            final(self).same_windows(*old(self)),
    {
        match find_name(&self.link_by_name, &link_name) {
            Some(handle) => {
                remove_name(&mut self.link_by_name, &link_name);
                let removed = relay_remove(&mut self.local_links, handle as usize);
                proof {
                    if removed is None {
                        // A vacant key removes nothing: the map already
                        // equals itself without that key.
                        assert(slab_relays(self.local_links) =~= slab_relays(
                            self.local_links,
                        ).remove(handle as int));
                    }
                    assert(name_binding(old(self).link_by_name@, link_name@, handle)
                        && slab_relays(self.local_links) =~= slab_relays(
                        old(self).local_links,
                    ).remove(handle as int));
                }
            },
            None => {},
        }
    }

    /// Applies an incoming Begin: adopts the peer's windows and binds the
    /// incoming channel.
    pub fn on_incoming_begin(&mut self, channel: u16, begin: &Begin) -> (r: Result<(), Error>)
        ensures
            (match r {
                Ok(()) => {
                    &&& (old(self).local_state == SessionState::Unmapped || old(
                        self,
                    ).local_state == SessionState::BeginSent)
                    &&& final(self).local_state == (if old(self).local_state
                        == SessionState::Unmapped {
                        SessionState::BeginReceived
                    } else {
                        SessionState::Mapped
                    })
                    &&& final(self).incoming_channel == Some(channel)
                    &&& final(self).next_incoming_id == begin.next_outgoing_id
                    &&& final(self).remote_incoming_window == begin.incoming_window
                    &&& final(self).remote_outgoing_window == begin.outgoing_window
                    &&& final(self).next_outgoing_id == old(self).next_outgoing_id
                    &&& final(self).same_config(*old(self))
                },
                Err(e) => {
                    &&& old(self).local_state != SessionState::Unmapped
                    &&& old(self).local_state != SessionState::BeginSent
                    &&& *final(self) == *old(self)
                    &&& e == (Error::Amqp {
                        condition: AmqpError::IllegalState,
                        description: None,
                    })
                },
            }),
    {
        match self.local_state {
            SessionState::Unmapped => {
                self.local_state = SessionState::BeginReceived;
            },
            SessionState::BeginSent => {
                self.local_state = SessionState::Mapped;
            },
            _ => {
                return Err(Error::amqp_error(AmqpError::IllegalState));
            },
        }
        self.incoming_channel = Some(channel);
        self.next_incoming_id = begin.next_outgoing_id;
        self.remote_incoming_window = begin.incoming_window;
        self.remote_outgoing_window = begin.outgoing_window;
        Ok(())
    }

    /// Routes an incoming Attach.
    ///
    /// An attach whose name is bound continues a link this side
    /// initiated: the peer's handle is bound for routing and, for a
    /// sender, the peer's receiver settle mode is adopted. An attach with
    /// an unknown name is tolerated as a fresh remote-initiated link: a
    /// local handle is allocated for it, with the role opposite the
    /// peer's. An error comes only when a bound name has lost its relay,
    /// when the session is not mapped, or when no handle below handle-max
    /// is free; on every error the session is unchanged.
    pub fn on_incoming_attach(&mut self, attach: &Attach) -> (r: Result<IncomingAttach, Error>)
        ensures
            (match r {
                Ok(IncomingAttach::Matched(h)) => {
                    &&& name_binding(old(self).link_by_name@, attach.name@, h)
                    &&& slab_relays(old(self).local_links).dom().contains(h as int)
                    &&& final(self).link_by_input_handle@ == old(
                        self,
                    ).link_by_input_handle@.insert(attach.handle, h)
                    &&& ({
                        let old_relay = slab_relays(old(self).local_links)[h as int];
                        slab_relays(final(self).local_links) == slab_relays(
                            old(self).local_links,
                        ).insert(
                            h as int,
                            (if old_relay.role == Role::Sender {
                                LinkRelay {
                                    receiver_settle_mode: attach.rcv_settle_mode,
                                    ..old_relay
                                }
                            } else {
                                old_relay
                            }),
                        )
                    })
                    &&& final(self).link_by_name == old(self).link_by_name
                },
                Ok(IncomingAttach::Tolerated(h)) => {
                    &&& !has_name(old(self).link_by_name@, attach.name@)
                    &&& old(self).local_state == SessionState::Mapped
                    &&& h as int == slab_next_key(old(self).local_links)
                    &&& h <= old(self).handle_max
                    &&& slab_relays(final(self).local_links) == slab_relays(
                        old(self).local_links,
                    ).insert(
                        h as int,
                        (LinkRelay {
                            role: (match attach.role {
                                Role::Sender => Role::Receiver,
                                Role::Receiver => Role::Sender,
                            }),
                            receiver_settle_mode: attach.rcv_settle_mode,
                        }),
                    )
                    &&& final(self).link_by_input_handle@ == old(
                        self,
                    ).link_by_input_handle@.insert(attach.handle, h)
                    &&& final(self).link_by_name@.len() == old(self).link_by_name@.len() + 1
                    &&& name_binding(final(self).link_by_name@, attach.name@, h)
                },
                Err(e) => {
                    &&& *final(self) == *old(self)
                    &&& ({
                        // A bound name whose relay is gone.
                        &&& has_name(old(self).link_by_name@, attach.name@)
                        &&& e == (Error::Session {
                            condition: SessionError::UnattachedHandle,
                            description: None,
                        })
                    } || {
                        // A fresh attach outside the mapped state.
                        &&& !has_name(old(self).link_by_name@, attach.name@)
                        &&& old(self).local_state != SessionState::Mapped
                        &&& e == (Error::Amqp {
                            condition: AmqpError::IllegalState,
                            description: None,
                        })
                    } || {
                        // A fresh attach with every handle in use.
                        &&& !has_name(old(self).link_by_name@, attach.name@)
                        &&& old(self).local_state == SessionState::Mapped
                        &&& slab_next_key(old(self).local_links) > old(self).handle_max
                        &&& e == (Error::Session {
                            condition: SessionError::HandleInUse,
                            description: None,
                        })
                    })
                },
            }),
            final(self).local_state == old(self).local_state,
            final(self).same_config(*old(self)),
            final(self).same_windows(*old(self)),
            final(self).delivery_tag_by_id == old(self).delivery_tag_by_id,
    {
        let output_handle = match find_name(&self.link_by_name, &attach.name) {
            Some(h) => h,
            None => {
                // The peer initiated this link: tolerate it by allocating
                // a fresh local handle for the opposite role.
                let role = match attach.role {
                    Role::Sender => Role::Receiver,
                    Role::Receiver => Role::Sender,
                };
                let relay = LinkRelay { role, receiver_settle_mode: attach.rcv_settle_mode };
                let name = clone_link_name(&attach.name);
                let allocated = self.allocate_incoming_link(name, relay, attach.handle);
                return (match allocated {
                    Ok(h) => {
                        proof {
                            let names = self.link_by_name@;
                            assert(names[names.len() - 1].0@ == attach.name@ && names[names.len()
                                - 1].1 == h);
                            assert(name_binding(names, attach.name@, h));
                        }
                        Ok(IncomingAttach::Tolerated(h))
                    },
                    Err(AllocLinkError::IllegalState) => Err(
                        Error::amqp_error(AmqpError::IllegalState),
                    ),
                    Err(_) => Err(Error::session_error(SessionError::HandleInUse)),
                });
            },
        };
        match relay_get_mut(&mut self.local_links, output_handle as usize) {
            Some(relay) => {
                // Only a sender link needs the peer's receiver settle mode:
                // it decides whether the sender must echo a settled
                // disposition.
                if matches!(relay.role, Role::Sender) {
                    relay.receiver_settle_mode = attach.rcv_settle_mode;
                }
            },
            None => {
                return Err(Error::session_error(SessionError::UnattachedHandle));
            },
        }
        self.link_by_input_handle.insert(attach.handle, output_handle);
        Ok(IncomingAttach::Matched(output_handle))
    }

    /// Applies the session part of an incoming Flow and routes the link
    /// part, if any, to the link it addresses.
    ///
    /// The window bookkeeping follows the protocol: the next incoming id
    /// and the remote outgoing window come straight from the frame, and
    /// the remote incoming window is recomputed as
    /// `flow.next_incoming_id + flow.incoming_window - next_outgoing_id`,
    /// with the initial outgoing id standing in when the peer has not yet
    /// seen a transfer-id.
    pub fn on_incoming_flow(&mut self, flow: Flow) -> (r: Result<Option<(Handle, LinkFlow)>, Error>)
        ensures
            final(self).next_incoming_id == flow.next_outgoing_id,
            final(self).remote_outgoing_window == flow.outgoing_window,
            final(self).remote_incoming_window == sn_sub(
                sn_add(
                    flow.next_incoming_id.unwrap_or(old(self).initial_outgoing_id),
                    flow.incoming_window,
                ),
                old(self).next_outgoing_id,
            ),
            final(self).next_outgoing_id == old(self).next_outgoing_id,
            final(self).local_state == old(self).local_state,
            final(self).same_config(*old(self)),
            final(self).delivery_tag_by_id == old(self).delivery_tag_by_id,
            final(self).same_links(*old(self)),
            (match r {
                Ok(Some((h, link_flow))) => {
                    &&& flow.handle == Some(link_flow.handle)
                    &&& old(self).routes_input_handle(link_flow.handle)
                    &&& old(self).link_by_input_handle@[link_flow.handle] == h
                    &&& slab_relays(old(self).local_links).dom().contains(h as int)
                    &&& link_flow.delivery_count == flow.delivery_count
                    &&& link_flow.link_credit == flow.link_credit
                    &&& link_flow.available == flow.available
                    &&& link_flow.drain == flow.drain
                    &&& link_flow.echo == flow.echo
                    &&& link_flow.properties == flow.properties
                },
                Ok(None) => flow.handle is None,
                Err(e) => {
                    &&& (match flow.handle {
                        Some(input_handle) => !old(self).routes_input_handle(input_handle),
                        None => false,
                    })
                    &&& e == (Error::Session {
                        condition: SessionError::UnattachedHandle,
                        description: None,
                    })
                },
            }),
    {
        self.next_incoming_id = flow.next_outgoing_id;
        self.remote_outgoing_window = flow.outgoing_window;
        let base = match flow.next_incoming_id {
            Some(next_incoming_id) => next_incoming_id,
            None => self.initial_outgoing_id,
        };
        self.remote_incoming_window = serial_sub(
            serial_add(base, flow.incoming_window),
            self.next_outgoing_id,
        );
        let link_flow = match flow.into_link_flow() {
            Some(link_flow) => link_flow,
            None => {
                return Ok(None);
            },
        };
        let output_handle = match self.link_by_input_handle.get(&link_flow.handle) {
            Some(h) => *h,
            None => {
                return Err(Error::session_error(SessionError::UnattachedHandle));
            },
        };
        if !crate::relay::relay_contains(&self.local_links, output_handle as usize) {
            return Err(Error::session_error(SessionError::UnattachedHandle));
        }
        Ok(Some((output_handle, link_flow)))
    }

    /// Whether an outgoing transfer may be sent now: the remote incoming
    /// window must not be exhausted. When it is, the sender stalls until a
    /// Flow refreshes the window.
    pub fn can_send_transfer(&self) -> (r: bool)
        ensures
            r == (self.remote_incoming_window >= 1),
    {
        self.remote_incoming_window >= 1
    }

    /// Books an outgoing transfer and stamps its delivery-id.
    ///
    /// The delivery-id of a first transfer frame is the session's next
    /// outgoing id, which increments by exactly one for every transfer;
    /// the remote incoming window shrinks by one.
    pub fn on_outgoing_transfer(&mut self, transfer: Transfer, payload: Vec<u8>) -> (r:
        SessionFrame)
        requires
            old(self).remote_incoming_window >= 1,
        ensures
            final(self).next_outgoing_id == sn_add(old(self).next_outgoing_id, 1),
            final(self).remote_incoming_window == (old(self).remote_incoming_window - 1) as u32,
            final(self).next_incoming_id == old(self).next_incoming_id,
            final(self).remote_outgoing_window == old(self).remote_outgoing_window,
            final(self).local_state == old(self).local_state,
            final(self).same_config(*old(self)),
            r.channel == old(self).outgoing_channel,
            (match r.body {
                SessionFrameBody::Transfer { performative, payload: p } => {
                    &&& p == payload
                    &&& performative.handle == transfer.handle
                    &&& performative.more == transfer.more
                    &&& performative.settled == transfer.settled
                    &&& performative.delivery_tag == transfer.delivery_tag
                    &&& (match transfer.delivery_tag {
                        Some(tag) => {
                            &&& performative.delivery_id == Some(old(self).next_outgoing_id)
                            &&& final(self).delivery_tag_by_id@ == old(
                                self,
                            ).delivery_tag_by_id@.insert(
                                old(self).next_outgoing_id,
                                (transfer.handle, tag),
                            )
                        },
                        None => {
                            &&& performative.delivery_id == transfer.delivery_id
                            &&& final(self).delivery_tag_by_id == old(self).delivery_tag_by_id
                        },
                    })
                },
                _ => false,
            }),
    {
        let mut transfer = transfer;
        match transfer.delivery_tag {
            Some(delivery_tag) => {
                // The next outgoing id is the transfer-id to assign to the
                // next transfer frame; dispositions carry only delivery-ids,
                // so the tag is recorded under the id.
                let delivery_id = self.next_outgoing_id;
                transfer.delivery_id = Some(delivery_id);
                self.delivery_tag_by_id.insert(delivery_id, (transfer.handle, delivery_tag));
            },
            None => {},
        }
        self.next_outgoing_id = serial_add(self.next_outgoing_id, 1);
        self.remote_incoming_window = self.remote_incoming_window - 1;
        SessionFrame::new(
            self.outgoing_channel,
            SessionFrameBody::Transfer { performative: transfer, payload },
        )
    }

    /// Books an incoming transfer and names the link it belongs to.
    ///
    /// The next incoming id advances by one and the remote outgoing window
    /// shrinks by one; the frame is routed by its input handle.
    pub fn on_incoming_transfer(&mut self, input_handle: Handle) -> (r: Result<Handle, Error>)
        requires
            old(self).remote_outgoing_window >= 1,
        ensures
            final(self).next_incoming_id == sn_add(old(self).next_incoming_id, 1),
            final(self).remote_outgoing_window == (old(self).remote_outgoing_window - 1) as u32,
            final(self).next_outgoing_id == old(self).next_outgoing_id,
            final(self).remote_incoming_window == old(self).remote_incoming_window,
            final(self).local_state == old(self).local_state,
            final(self).same_config(*old(self)),
            final(self).delivery_tag_by_id == old(self).delivery_tag_by_id,
            final(self).same_links(*old(self)),
            (match r {
                Ok(h) => {
                    &&& old(self).routes_input_handle(input_handle)
                    &&& old(self).link_by_input_handle@[input_handle] == h
                    &&& slab_relays(old(self).local_links).dom().contains(h as int)
                },
                Err(e) => {
                    &&& !old(self).routes_input_handle(input_handle)
                    &&& e == (Error::Session {
                        condition: SessionError::UnattachedHandle,
                        description: None,
                    })
                },
            }),
    {
        self.next_incoming_id = serial_add(self.next_incoming_id, 1);
        self.remote_outgoing_window = self.remote_outgoing_window - 1;
        let output_handle = match self.link_by_input_handle.get(&input_handle) {
            Some(h) => *h,
            None => {
                return Err(Error::session_error(SessionError::UnattachedHandle));
            },
        };
        if !crate::relay::relay_contains(&self.local_links, output_handle as usize) {
            return Err(Error::session_error(SessionError::UnattachedHandle));
        }
        Ok(output_handle)
    }

    /// Records the tag of an incoming unsettled delivery in the ledger, so
    /// that a later disposition carrying only delivery-ids finds it.
    pub fn record_incoming_unsettled(
        &mut self,
        delivery_id: DeliveryNumber,
        handle: Handle,
        delivery_tag: DeliveryTag,
    )
        ensures
            final(self).delivery_tag_by_id@ == old(self).delivery_tag_by_id@.insert(
                delivery_id,
                (handle, delivery_tag),
            ),
            final(self).next_outgoing_id == old(self).next_outgoing_id,
            final(self).local_state == old(self).local_state,
            final(self).same_config(*old(self)),
    {
        self.delivery_tag_by_id.insert(delivery_id, (handle, delivery_tag));
    }

    /// Routes an incoming Detach and unbinds the peer's handle. An
    /// unknown or relay-less handle is an error and changes nothing.
    pub fn on_incoming_detach(&mut self, detach: &Detach) -> (r: Result<Handle, Error>)
        ensures
            final(self).local_state == old(self).local_state,
            final(self).same_config(*old(self)),
            final(self).same_windows(*old(self)),
            final(self).delivery_tag_by_id == old(self).delivery_tag_by_id,
            final(self).local_links == old(self).local_links,
            final(self).link_by_name == old(self).link_by_name,
            (match r {
                Ok(h) => {
                    &&& old(self).routes_input_handle(detach.handle)
                    &&& old(self).link_by_input_handle@[detach.handle] == h
                    &&& final(self).link_by_input_handle@ == old(
                        self,
                    ).link_by_input_handle@.remove(detach.handle)
                    &&& slab_relays(old(self).local_links).dom().contains(h as int)
                },
                Err(e) => {
                    &&& !old(self).routes_input_handle(detach.handle)
                    &&& *final(self) == *old(self)
                    &&& e == (Error::Session {
                        condition: SessionError::UnattachedHandle,
                        description: None,
                    })
                },
            }),
    {
        let output_handle = match self.link_by_input_handle.get(&detach.handle) {
            Some(h) => *h,
            None => {
                return Err(Error::session_error(SessionError::UnattachedHandle));
            },
        };
        if !crate::relay::relay_contains(&self.local_links, output_handle as usize) {
            return Err(Error::session_error(SessionError::UnattachedHandle));
        }
        let _ = self.link_by_input_handle.remove(&detach.handle);
        Ok(output_handle)
    }

    /// Applies an incoming End. In an active state the session must answer
    /// with its own End: the result says whether that answer is owed. An
    /// End carrying an error is surfaced.
    pub fn on_incoming_end(&mut self, end: End) -> (r: Result<bool, Error>)
        ensures
            (match r {
                Ok(reply) => {
                    &&& (match old(self).local_state {
                        SessionState::BeginSent | SessionState::BeginReceived
                        | SessionState::Mapped => {
                            &&& final(self).local_state == SessionState::EndReceived
                            &&& reply
                        },
                        SessionState::EndSent | SessionState::Discarding => {
                            &&& final(self).local_state == SessionState::Unmapped
                            &&& !reply
                        },
                        _ => false,
                    })
                    &&& end.error is None
                },
                Err(e) => (match old(self).local_state {
                    SessionState::BeginSent | SessionState::BeginReceived
                    | SessionState::Mapped => (match end.error {
                        Some(remote) => e == Error::Remote(remote) && final(self).local_state
                            == SessionState::EndReceived,
                        None => false,
                    }),
                    SessionState::EndSent | SessionState::Discarding => (match end.error {
                        Some(remote) => e == Error::Remote(remote) && final(self).local_state
                            == SessionState::Unmapped,
                        None => false,
                    }),
                    _ => {
                        &&& e == (Error::Amqp {
                            condition: AmqpError::IllegalState,
                            description: None,
                        })
                        &&& *final(self) == *old(self)
                    },
                }),
            }),
    {
        let reply: bool;
        match self.local_state {
            SessionState::BeginSent | SessionState::BeginReceived | SessionState::Mapped => {
                self.local_state = SessionState::EndReceived;
                reply = true;
            },
            SessionState::EndSent | SessionState::Discarding => {
                self.local_state = SessionState::Unmapped;
                reply = false;
            },
            _ => {
                return Err(Error::amqp_error(AmqpError::IllegalState));
            },
        }
        match end.error {
            Some(error) => Err(Error::Remote(error)),
            None => Ok(reply),
        }
    }

    /// Builds the session's Begin frame and advances the state machine:
    /// from Unmapped the session becomes BeginSent, from BeginReceived it
    /// becomes Mapped; in any other state beginning is illegal.
    pub fn send_begin(&mut self) -> (r: Result<SessionFrame, Error>)
        ensures
            (match r {
                Ok(frame) => {
                    &&& (old(self).local_state == SessionState::Unmapped || old(
                        self,
                    ).local_state == SessionState::BeginReceived)
                    &&& final(self).local_state == (if old(self).local_state
                        == SessionState::Unmapped {
                        SessionState::BeginSent
                    } else {
                        SessionState::Mapped
                    })
                    &&& frame.channel == old(self).outgoing_channel
                    &&& (match frame.body {
                        SessionFrameBody::Begin(b) => {
                            &&& b.remote_channel == old(self).incoming_channel
                            &&& b.next_outgoing_id == old(self).next_outgoing_id
                            &&& b.incoming_window == old(self).incoming_window
                            &&& b.outgoing_window == old(self).outgoing_window
                            &&& b.handle_max == old(self).handle_max
                            &&& opt_strings_view(b.offered_capabilities) == opt_strings_view(
                                old(self).offered_capabilities,
                            )
                            &&& opt_strings_view(b.desired_capabilities) == opt_strings_view(
                                old(self).desired_capabilities,
                            )
                            &&& crate::link::opt_fields_view(b.properties)
                                == crate::link::opt_fields_view(old(self).properties)
                        },
                        _ => false,
                    })
                },
                Err(e) => {
                    &&& old(self).local_state != SessionState::Unmapped
                    &&& old(self).local_state != SessionState::BeginReceived
                    &&& *final(self) == *old(self)
                    &&& e == (Error::Amqp {
                        condition: AmqpError::IllegalState,
                        description: None,
                    })
                },
            }),
    {
        match self.local_state {
            SessionState::Unmapped => {
                self.local_state = SessionState::BeginSent;
            },
            SessionState::BeginReceived => {
                self.local_state = SessionState::Mapped;
            },
            _ => {
                return Err(Error::amqp_error(AmqpError::IllegalState));
            },
        }
        let begin = Begin {
            remote_channel: self.incoming_channel,
            next_outgoing_id: self.next_outgoing_id,
            incoming_window: self.incoming_window,
            outgoing_window: self.outgoing_window,
            handle_max: self.handle_max,
            offered_capabilities: copy_opt_strings(&self.offered_capabilities),
            desired_capabilities: copy_opt_strings(&self.desired_capabilities),
            properties: crate::link::copy_opt_fields(&self.properties),
        };
        Ok(SessionFrame::new(self.outgoing_channel, SessionFrameBody::Begin(begin)))
    }

    /// Builds the session's End frame and advances the state machine: from
    /// Mapped the session becomes EndSent, or Discarding when ending with
    /// an error; from EndReceived it becomes Unmapped.
    pub fn send_end(&mut self, error: Option<ErrorDef>) -> (r: Result<SessionFrame, Error>)
        ensures
            (match r {
                Ok(frame) => {
                    &&& (match old(self).local_state {
                        SessionState::Mapped => final(self).local_state == (if error is Some {
                            SessionState::Discarding
                        } else {
                            SessionState::EndSent
                        }),
                        SessionState::EndReceived => final(self).local_state
                            == SessionState::Unmapped,
                        _ => false,
                    })
                    &&& frame.channel == old(self).outgoing_channel
                    &&& (match frame.body {
                        SessionFrameBody::End(e) => e.error == error,
                        _ => false,
                    })
                },
                Err(e) => {
                    &&& old(self).local_state != SessionState::Mapped
                    &&& old(self).local_state != SessionState::EndReceived
                    &&& *final(self) == *old(self)
                    &&& e == (Error::Amqp {
                        condition: AmqpError::IllegalState,
                        description: None,
                    })
                },
            }),
    {
        match self.local_state {
            SessionState::Mapped => {
                if error.is_some() {
                    self.local_state = SessionState::Discarding;
                } else {
                    self.local_state = SessionState::EndSent;
                }
            },
            SessionState::EndReceived => {
                self.local_state = SessionState::Unmapped;
            },
            _ => {
                return Err(Error::amqp_error(AmqpError::IllegalState));
            },
        }
        Ok(SessionFrame::new(self.outgoing_channel, SessionFrameBody::End(End { error })))
    }

    /// Wraps an outgoing Attach in a session frame.
    pub fn on_outgoing_attach(&mut self, attach: Attach) -> (r: SessionFrame)
        ensures
            *final(self) == *old(self),
            r.channel == old(self).outgoing_channel,
            r.body == SessionFrameBody::Attach(attach),
    {
        SessionFrame::new(self.outgoing_channel, SessionFrameBody::Attach(attach))
    }

    /// Fills the session fields around a link's Flow and wraps it.
    pub fn on_outgoing_flow(&mut self, flow: LinkFlow) -> (r: SessionFrame)
        ensures
            *final(self) == *old(self),
            r.channel == old(self).outgoing_channel,
            (match r.body {
                SessionFrameBody::Flow(f) => {
                    &&& f.next_incoming_id == Some(old(self).next_incoming_id)
                    &&& f.incoming_window == old(self).incoming_window
                    &&& f.next_outgoing_id == old(self).next_outgoing_id
                    &&& f.outgoing_window == old(self).outgoing_window
                    &&& f.handle == Some(flow.handle)
                    &&& f.delivery_count == flow.delivery_count
                    &&& f.link_credit == flow.link_credit
                    &&& f.available == flow.available
                    &&& f.drain == flow.drain
                    &&& f.echo == flow.echo
                    &&& f.properties == flow.properties
                },
                _ => false,
            }),
    {
        let flow = Flow {
            next_incoming_id: Some(self.next_incoming_id),
            incoming_window: self.incoming_window,
            next_outgoing_id: self.next_outgoing_id,
            outgoing_window: self.outgoing_window,
            handle: Some(flow.handle),
            delivery_count: flow.delivery_count,
            link_credit: flow.link_credit,
            available: flow.available,
            drain: flow.drain,
            echo: flow.echo,
            properties: flow.properties,
        };
        SessionFrame::new(self.outgoing_channel, SessionFrameBody::Flow(flow))
    }

    /// Wraps an outgoing Disposition in a session frame.
    pub fn on_outgoing_disposition(&mut self, disposition: Disposition) -> (r: SessionFrame)
        ensures
            *final(self) == *old(self),
            r.channel == old(self).outgoing_channel,
            r.body == SessionFrameBody::Disposition(disposition),
    {
        SessionFrame::new(self.outgoing_channel, SessionFrameBody::Disposition(disposition))
    }

    /// Wraps an outgoing Detach in a session frame.
    pub fn on_outgoing_detach(&mut self, detach: Detach) -> (r: SessionFrame)
        ensures
            *final(self) == *old(self),
            r.channel == old(self).outgoing_channel,
            r.body == SessionFrameBody::Detach(detach),
    {
        SessionFrame::new(self.outgoing_channel, SessionFrameBody::Detach(detach))
    }
}

impl Session {
    /// Applies an incoming Disposition covering the delivery-ids in
    /// `[first, last]`: every covered id with a ledger entry is dispatched
    /// to its owning link exactly once, in increasing id order. A settled
    /// disposition removes the covered entries from the ledger; an
    /// unsettled one keeps them for the settling round.
    pub fn on_incoming_disposition(
        &mut self,
        first: DeliveryNumber,
        last: DeliveryNumber,
        settled: bool,
    ) -> (r: Vec<DispositionDispatch>)
        requires
            first <= last,
        ensures
            forall|k: int|
                0 <= k < r@.len() ==> {
                    let d = #[trigger] r@[k];
                    &&& first <= d.delivery_id <= last
                    &&& old(self).delivery_tag_by_id@.contains_key(d.delivery_id)
                    &&& old(self).delivery_tag_by_id@[d.delivery_id] == (d.handle, d.delivery_tag)
                },
            forall|k1: int, k2: int|
                0 <= k1 < k2 < r@.len() ==> #[trigger] r@[k1].delivery_id < #[trigger] r@[
                    k2
                ].delivery_id,
            forall|id: DeliveryNumber|
                first <= id <= last && #[trigger] old(self).delivery_tag_by_id@.contains_key(id)
                    ==> exists|k: int| 0 <= k < r@.len() && (#[trigger] r@[k]).delivery_id == id,
            settled ==> final(self).delivery_tag_by_id@ == old(
                self,
            ).delivery_tag_by_id@.remove_keys(
                Set::new(|id: DeliveryNumber| first <= id <= last),
            ),
            !settled ==> final(self).delivery_tag_by_id == old(self).delivery_tag_by_id,
            final(self).next_outgoing_id == old(self).next_outgoing_id,
            final(self).next_incoming_id == old(self).next_incoming_id,
            final(self).remote_incoming_window == old(self).remote_incoming_window,
            final(self).remote_outgoing_window == old(self).remote_outgoing_window,
            final(self).local_state == old(self).local_state,
            final(self).same_config(*old(self)),
            final(self).local_links == old(self).local_links,
            final(self).link_by_name == old(self).link_by_name,
            final(self).link_by_input_handle == old(self).link_by_input_handle,
    {
        let ghost orig = self.delivery_tag_by_id@;
        let mut out: Vec<DispositionDispatch> = Vec::new();
        let count: u64 = (last - first) as u64 + 1;
        let mut i: u64 = 0;
        while i < count
            invariant
                first <= last,
                count == (last - first) as u64 + 1,
                i <= count,
                settled ==> self.delivery_tag_by_id@ =~= orig.remove_keys(
                    Set::new(
                        |id: DeliveryNumber| first <= id <= last && (id as int) < first + i,
                    ),
                ),
                !settled ==> self.delivery_tag_by_id == old(self).delivery_tag_by_id,
                self.local_links == old(self).local_links,
                self.link_by_name == old(self).link_by_name,
                self.link_by_input_handle == old(self).link_by_input_handle,
                self.next_outgoing_id == old(self).next_outgoing_id,
                self.next_incoming_id == old(self).next_incoming_id,
                self.remote_incoming_window == old(self).remote_incoming_window,
                self.remote_outgoing_window == old(self).remote_outgoing_window,
                self.local_state == old(self).local_state,
                self.same_config(*old(self)),
                self.delivery_tag_by_id@ == old(self).delivery_tag_by_id@ || settled,
                orig == old(self).delivery_tag_by_id@,
                forall|k: int|
                    0 <= k < out@.len() ==> {
                        let d = #[trigger] out@[k];
                        &&& first <= d.delivery_id <= last
                        &&& (d.delivery_id as int) < first + i
                        &&& orig.contains_key(d.delivery_id)
                        &&& orig[d.delivery_id] == (d.handle, d.delivery_tag)
                    },
                forall|k1: int, k2: int|
                    0 <= k1 < k2 < out@.len() ==> #[trigger] out@[k1].delivery_id
                        < #[trigger] out@[k2].delivery_id,
                forall|id: DeliveryNumber|
                    first <= id <= last && (id as int) < first + i && #[trigger] orig.contains_key(
                        id,
                    ) ==> exists|k: int|
                        0 <= k < out@.len() && (#[trigger] out@[k]).delivery_id == id,
            decreases count - i,
        {
            let id: DeliveryNumber = first + (i as u32);
            let ghost out_before = out@;
            let entry: Option<(Handle, DeliveryTag)> = if settled {
                self.delivery_tag_by_id.remove(&id)
            } else {
                match self.delivery_tag_by_id.get(&id) {
                    Some(pair) => Some(*pair),
                    None => None,
                }
            };
            proof {
                // The map the loop holds agrees with the ledger as it stood on
                // this id: it is not among the keys removed so far.
                if settled {
                    assert(!Set::new(
                        |id2: DeliveryNumber| first <= id2 <= last && (id2 as int) < first + i,
                    ).contains(id));
                }
            }
            match entry {
                Some((handle, delivery_tag)) => {
                    out.push(DispositionDispatch { delivery_id: id, handle, delivery_tag });
                    assert(out@.last().delivery_id == id);
                },
                None => {},
            }
            proof {
                assert forall|id2: DeliveryNumber|
                    first <= id2 <= last && (id2 as int) < first + i + 1
                        && #[trigger] orig.contains_key(id2) implies exists|k: int|
                    0 <= k < out@.len() && (#[trigger] out@[k]).delivery_id == id2 by {
                    if (id2 as int) < first + i {
                        let k = choose|k: int|
                            0 <= k < out_before.len() && (#[trigger] out_before[
                                k
                            ]).delivery_id == id2;
                        assert(out@[k] == out_before[k]);
                        assert(0 <= k < out@.len() && out@[k].delivery_id == id2);
                    } else {
                        assert(id2 == id);
                        assert(out@.len() > out_before.len());
                        assert(out@[out@.len() - 1].delivery_id == id);
                    }
                }
                if settled {
                    assert(self.delivery_tag_by_id@ =~= orig.remove_keys(
                        Set::new(
                            |id2: DeliveryNumber| first <= id2 <= last && (id2 as int) < first + i
                                + 1,
                        ),
                    ));
                }
            }
            i = i + 1;
        }
        proof {
            if settled {
                assert(Set::new(
                    |id: DeliveryNumber| first <= id <= last && (id as int) < first + count,
                ) =~= Set::new(|id: DeliveryNumber| first <= id <= last));
                assert(self.delivery_tag_by_id@ =~= orig.remove_keys(
                    Set::new(|id: DeliveryNumber| first <= id <= last),
                ));
            }
        }
        out
    }
}

/// The model of an optional capability list.
pub open spec fn opt_strings_view(s: Option<Vec<String>>) -> Option<Seq<Seq<char>>> {
    match s {
        Some(v) => Some(v@.map_values(|x: String| x@)),
        None => None,
    }
}

/// Copies an optional capability list, preserving its model exactly.
pub fn copy_opt_strings(s: &Option<Vec<String>>) -> (r: Option<Vec<String>>)
    ensures
        opt_strings_view(r) == opt_strings_view(*s),
{
    match s {
        Some(v) => {
            let mut out: Vec<String> = Vec::new();
            let mut i: usize = 0;
            while i < v.len()
                invariant
                    i <= v.len(),
                    out@.len() == i,
                    forall|j: int| 0 <= j < i ==> #[trigger] out@[j]@ == v@[j]@,
                decreases v.len() - i,
            {
                out.push(v[i].clone());
                i = i + 1;
            }
            assert(out@.map_values(|x: String| x@) =~= v@.map_values(|x: String| x@));
            Some(out)
        },
        None => None,
    }
}

/// Transfer-id monotonicity: if after `i` transfers the session's next
/// outgoing id is `initial + i`, the next transfer is assigned exactly that
/// id and leaves the counter at `initial + (i + 1)`: the delivery-ids of a
/// run of outgoing transfers increase by exactly one from the initial
/// outgoing id.
pub proof fn lemma_transfer_id_monotone(initial: TransferNumber, i: u32)
    ensures
        sn_add(sn_add(initial, i), 1) == sn_add(initial, sn_add(i, 1)),
{
}

/// Window symmetry: if the local remote-incoming-window equals the peer's
/// next-incoming-id plus its incoming-window minus the local
/// next-outgoing-id — as it does right after any Flow is processed — then
/// one transfer, sent here and received there, keeps the equality.
pub proof fn lemma_window_symmetry_preserved(
    remote_incoming_window: u32,
    peer_next_incoming_id: u32,
    peer_incoming_window: u32,
    next_outgoing_id: u32,
)
    requires
        remote_incoming_window == sn_sub(
            sn_add(peer_next_incoming_id, peer_incoming_window),
            next_outgoing_id,
        ),
        remote_incoming_window >= 1,
        peer_incoming_window >= 1,
    ensures
        (remote_incoming_window - 1) as u32 == sn_sub(
            sn_add(sn_add(peer_next_incoming_id, 1), (peer_incoming_window - 1) as u32),
            sn_add(next_outgoing_id, 1),
        ),
{
}


/// Whether a delivery-id is covered by one of the dispositions.
pub open spec fn covered(ds: Seq<Disposition>, id: DeliveryNumber) -> bool {
    exists|j: int|
        0 <= j < ds.len() && (#[trigger] ds[j]).first <= id && id <= ds[j].last.unwrap_or(
            ds[j].first,
        )
}

/// Whether an entry marks this delivery-id as owing an echo.
pub open spec fn echoed(es: Seq<(DeliveryNumber, bool)>, id: DeliveryNumber) -> bool {
    exists|k: int| 0 <= k < es.len() && (#[trigger] es[k]).0 == id && es[k].1
}

/// Builds the settled disposition echoes the links requested.
///
/// The entries come in increasing id order, one per dispatched delivery,
/// marked with the link's echo decision. The result covers exactly the
/// marked ids, each exactly once: the emitted dispositions are disjoint,
/// ordered, settled, and carry the reply role.
pub fn batch_disposition_echoes(role: Role, entries: &Vec<(DeliveryNumber, bool)>) -> (r: Vec<
    Disposition,
>)
    requires
        forall|k1: int, k2: int|
            0 <= k1 < k2 < entries@.len() ==> (#[trigger] entries@[k1]).0 < (
            #[trigger] entries@[k2]).0,
    ensures
        forall|j: int|
            0 <= j < r@.len() ==> {
                let d = #[trigger] r@[j];
                &&& d.role == role
                &&& d.settled
                &&& d.state is None
                &&& !d.batchable
                &&& d.last is Some
                &&& d.first <= d.last.unwrap_or(d.first)
            },
        forall|j1: int, j2: int|
            0 <= j1 < j2 < r@.len() ==> (#[trigger] r@[j1]).last.unwrap_or(r@[j1].first) < (
            #[trigger] r@[j2]).first,
        forall|id: DeliveryNumber| #[trigger] covered(r@, id) <==> echoed(entries@, id),
{
    let ghost es = entries@;
    let mut out: Vec<Disposition> = Vec::new();
    let mut i: usize = 0;
    while i < entries.len()
        invariant
            i <= entries.len(),
            es == entries@,
            forall|k1: int, k2: int|
                0 <= k1 < k2 < es.len() ==> (#[trigger] es[k1]).0 < (#[trigger] es[k2]).0,
            forall|j: int|
                0 <= j < out@.len() ==> {
                    let d = #[trigger] out@[j];
                    &&& d.role == role
                    &&& d.settled
                    &&& d.state is None
                    &&& !d.batchable
                    &&& d.last == Some(d.first)
                },
            forall|j1: int, j2: int|
                0 <= j1 < j2 < out@.len() ==> (#[trigger] out@[j1]).last.unwrap_or(
                    out@[j1].first,
                ) < (#[trigger] out@[j2]).first,
            i == 0 ==> out@.len() == 0,
            i > 0 ==> (forall|j: int|
                0 <= j < out@.len() ==> (#[trigger] out@[j]).first <= es[i - 1].0),
            forall|id: DeliveryNumber| #[trigger] covered(out@, id) <==> echoed(
                es.take(i as int),
                id,
            ),
        decreases entries.len() - i,
    {
        let (id, echo) = entries[i];
        proof {
            assert(es.take(i + 1 as int) =~= es.take(i as int).push(es[i as int]));
            assert forall|x: DeliveryNumber| #[trigger] echoed(es.take(i + 1 as int), x) implies (
            echoed(es.take(i as int), x) || (x == id && echo)) by {
                let k = choose|k: int|
                    0 <= k < es.take(i + 1 as int).len() && (#[trigger] es.take(i + 1 as int)[
                        k
                    ]).0 == x && es.take(i + 1 as int)[k].1;
                if k < i {
                    assert(es.take(i as int)[k] == es.take(i + 1 as int)[k]);
                    assert(echoed(es.take(i as int), x));
                }
            }
            assert forall|x: DeliveryNumber| echoed(es.take(i as int), x) implies #[trigger] echoed(
                es.take(i + 1 as int),
                x,
            ) by {
                let k = choose|k: int|
                    0 <= k < es.take(i as int).len() && (#[trigger] es.take(i as int)[k]).0 == x
                        && es.take(i as int)[k].1;
                assert(es.take(i + 1 as int)[k] == es.take(i as int)[k]);
            }
            if echo {
                assert(es.take(i + 1 as int)[i as int] == es[i as int]);
                assert(echoed(es.take(i + 1 as int), id));
            }
            assert forall|k: int| 0 <= k < i implies (#[trigger] es[k]).0 < id by {}
        }
        if echo {
            let ghost before = out@;
            out.push(
                Disposition {
                    role,
                    first: id,
                    last: Some(id),
                    settled: true,
                    state: None,
                    batchable: false,
                },
            );
            proof {
                lemma_covered_push(out@, id, id);
                assert(out@.drop_last() =~= before);
                assert forall|j: int| 0 <= j < before.len() implies (#[trigger] before[j]).first
                    < id by {
                    assert(i > 0 ==> before[j].first <= es[i - 1].0);
                    if i > 0 {
                        assert(es[i - 1].0 < id);
                    }
                }
                assert forall|j: int| 0 <= j < out@.len() implies (#[trigger] out@[j]).first
                    <= id by {
                    if j < out@.len() - 1 {
                        assert(out@[j] == before[j]);
                    }
                }
                assert forall|j1: int, j2: int| 0 <= j1 < j2 < out@.len() implies (
                #[trigger] out@[j1]).last.unwrap_or(out@[j1].first) < (#[trigger] out@[
                    j2
                ]).first by {
                    if j2 < out@.len() - 1 {
                        assert(out@[j1] == before[j1] && out@[j2] == before[j2]);
                    } else {
                        assert(out@[j1] == before[j1]);
                        assert(before[j1].first < id);
                    }
                }
                assert forall|x: DeliveryNumber| #[trigger] covered(out@, x) implies echoed(
                    es.take(i + 1 as int),
                    x,
                ) by {
                    if covered(before, x) {
                        assert(echoed(es.take(i as int), x));
                    }
                }
                assert forall|x: DeliveryNumber| echoed(es.take(i + 1 as int), x)
                    implies #[trigger] covered(out@, x) by {
                    if echoed(es.take(i as int), x) {
                        assert(covered(before, x));
                    }
                }
            }
        } else {
            proof {
                assert forall|x: DeliveryNumber| #[trigger] covered(out@, x) implies echoed(
                    es.take(i + 1 as int),
                    x,
                ) by {
                    assert(echoed(es.take(i as int), x));
                }
                assert forall|x: DeliveryNumber| echoed(es.take(i + 1 as int), x)
                    implies #[trigger] covered(out@, x) by {
                    assert(echoed(es.take(i as int), x) || (x == id && echo));
                }
            }
        }
        i = i + 1;
    }
    proof {
        assert(es.take(es.len() as int) =~= es);
    }
    out
}

/// Pushing a disposition extends coverage by exactly its range.
proof fn lemma_covered_push(ds: Seq<Disposition>, s: DeliveryNumber, e: DeliveryNumber)
    requires
        ds.len() >= 1,
        ds.last().first == s,
        ds.last().last == Some(e),
    ensures
        forall|id: DeliveryNumber| #[trigger] covered(ds, id) <==> (covered(ds.drop_last(), id) || (
        s <= id <= e)),
{
    assert forall|id: DeliveryNumber| #[trigger] covered(ds, id) implies (covered(
        ds.drop_last(),
        id,
    ) || (s <= id <= e)) by {
        let j = choose|j: int|
            0 <= j < ds.len() && (#[trigger] ds[j]).first <= id && id <= ds[j].last.unwrap_or(
                ds[j].first,
            );
        if j < ds.len() - 1 {
            assert(ds.drop_last()[j] == ds[j]);
            assert(covered(ds.drop_last(), id));
        }
    }
    assert forall|id: DeliveryNumber| (covered(ds.drop_last(), id) || (s <= id
        <= e)) implies #[trigger] covered(ds, id) by {
        if covered(ds.drop_last(), id) {
            let j = choose|j: int|
                0 <= j < ds.drop_last().len() && (#[trigger] ds.drop_last()[j]).first <= id && id
                    <= ds.drop_last()[j].last.unwrap_or(ds.drop_last()[j].first);
            assert(ds[j] == ds.drop_last()[j]);
        } else {
            assert(ds[ds.len() - 1].first <= id && id <= ds[ds.len() - 1].last.unwrap_or(
                ds[ds.len() - 1].first,
            ));
        }
    }
}

} // verus!
