//! The builder for a link: role, termini, settlement modes and
//! capabilities, gathered before the attach handshake.

use vstd::prelude::*;

use crate::definitions::{ReceiverSettleMode, Role, SenderSettleMode, SequenceNo};
use crate::link::LinkFlowStateInner;
use crate::performatives::{Attach, Coordinator, Source, Target, TargetArchetype};
use crate::value::Fields;

verus! {

/// Type state of a builder not yet given a name.
#[derive(Debug, Clone, Copy, PartialEq, Eq, Structural)]
pub struct WithoutName {}

/// Type state of a builder whose name is set.
#[derive(Debug, Clone, Copy, PartialEq, Eq, Structural)]
pub struct WithName {}

/// Type state of a builder not yet given a target.
#[derive(Debug, Clone, Copy, PartialEq, Eq, Structural)]
pub struct WithoutTarget {}

/// Type state of a builder whose target is set.
#[derive(Debug, Clone, Copy, PartialEq, Eq, Structural)]
pub struct WithTarget {}

/// Type state marker for a sender-role builder.
#[derive(Debug, Clone, Copy, PartialEq, Eq, Structural)]
pub struct SenderRole {}

/// Type state marker for a receiver-role builder.
#[derive(Debug, Clone, Copy, PartialEq, Eq, Structural)]
pub struct ReceiverRole {}

/// The receiver's credit mode: manual, or topped back up to a target
/// after each delivery.
#[derive(Debug, Clone, Copy, PartialEq, Eq, Structural)]
pub enum CreditMode {
    Manual,
    Auto(u32),
}

impl Default for CreditMode {
    /// The default credit mode is manual.
    fn default() -> (r: CreditMode)
        ensures
            r == CreditMode::Manual,
    {
        CreditMode::Manual
    }
}

/// A builder for a link; the markers carry its role and whether name and
/// target are set.
#[derive(Debug)]
pub struct Builder<R, NameState, Addr> {
    pub name: String,
    pub snd_settle_mode: SenderSettleMode,
    pub rcv_settle_mode: ReceiverSettleMode,
    pub source: Option<Source>,
    pub target: Option<TargetArchetype>,
    /// This must not be null if the role is sender and is ignored for a
    /// receiver (2.6.7).
    pub initial_delivery_count: SequenceNo,
    pub max_message_size: Option<u64>,
    pub offered_capabilities: Option<Vec<String>>,
    pub desired_capabilities: Option<Vec<String>>,
    pub properties: Option<Fields>,
    pub buffer_size: usize,
    pub credit_mode: CreditMode,
    pub role: R,
    pub name_state: NameState,
    pub addr_state: Addr,
}

/// The default buffer size of the channels around a link.
pub const DEFAULT_OUTGOING_BUFFER_SIZE: usize = 128;

impl Builder<SenderRole, WithoutName, WithoutTarget> {
    /// A sender builder with a fresh empty source.
    pub fn new() -> (r: Builder<SenderRole, WithoutName, WithoutTarget>)
        ensures
            r.name@ == Seq::<char>::empty(),
            r.snd_settle_mode == SenderSettleMode::Mixed,
            r.rcv_settle_mode == ReceiverSettleMode::First,
            r.source is Some,
            r.target is None,
            r.initial_delivery_count == 0u32,
            r.max_message_size is None,
            r.offered_capabilities is None,
            r.desired_capabilities is None,
            r.properties is None,
            r.buffer_size == DEFAULT_OUTGOING_BUFFER_SIZE,
            r.credit_mode == CreditMode::Manual,
    {
        Builder {
            name: String::new(),
            snd_settle_mode: SenderSettleMode::Mixed,
            rcv_settle_mode: ReceiverSettleMode::First,
            source: Some(Source::new()),
            target: None,
            initial_delivery_count: 0,
            max_message_size: None,
            offered_capabilities: None,
            desired_capabilities: None,
            properties: None,
            buffer_size: DEFAULT_OUTGOING_BUFFER_SIZE,
            credit_mode: CreditMode::Manual,
            role: SenderRole {  },
            name_state: WithoutName {  },
            addr_state: WithoutTarget {  },
        }
    }
}

impl Builder<ReceiverRole, WithoutName, WithTarget> {
    /// A receiver builder with a fresh empty target.
    pub fn new() -> (r: Builder<ReceiverRole, WithoutName, WithTarget>)
        ensures
            r.name@ == Seq::<char>::empty(),
            r.snd_settle_mode == SenderSettleMode::Mixed,
            r.rcv_settle_mode == ReceiverSettleMode::First,
            r.source is None,
            (match r.target {
                Some(TargetArchetype::Target(t)) => t.address is None && !t.dynamic,
                _ => false,
            }),
            r.initial_delivery_count == 0u32,
            r.credit_mode == CreditMode::Manual,
    {
        Builder {
            name: String::new(),
            snd_settle_mode: SenderSettleMode::Mixed,
            rcv_settle_mode: ReceiverSettleMode::First,
            source: None,
            target: Some(TargetArchetype::Target(Target::new())),
            initial_delivery_count: 0,
            max_message_size: None,
            offered_capabilities: None,
            desired_capabilities: None,
            properties: None,
            buffer_size: DEFAULT_OUTGOING_BUFFER_SIZE,
            credit_mode: CreditMode::Manual,
            role: ReceiverRole {  },
            name_state: WithoutName {  },
            addr_state: WithTarget {  },
        }
    }
}

impl<R, NameState, Addr> Builder<R, NameState, Addr> {
    /// Sets the name of the link.
    pub fn name(self, name: String) -> (r: Builder<R, WithName, Addr>)
        ensures
            r.name == name,
            r.snd_settle_mode == self.snd_settle_mode,
            r.rcv_settle_mode == self.rcv_settle_mode,
            r.source == self.source,
            r.target == self.target,
            r.initial_delivery_count == self.initial_delivery_count,
            r.max_message_size == self.max_message_size,
            r.offered_capabilities == self.offered_capabilities,
            r.desired_capabilities == self.desired_capabilities,
            r.properties == self.properties,
            r.buffer_size == self.buffer_size,
            r.credit_mode == self.credit_mode,
    {
        Builder {
            name,
            snd_settle_mode: self.snd_settle_mode,
            rcv_settle_mode: self.rcv_settle_mode,
            source: self.source,
            target: self.target,
            initial_delivery_count: self.initial_delivery_count,
            max_message_size: self.max_message_size,
            offered_capabilities: self.offered_capabilities,
            desired_capabilities: self.desired_capabilities,
            properties: self.properties,
            buffer_size: self.buffer_size,
            credit_mode: self.credit_mode,
            role: self.role,
            name_state: WithName {  },
            addr_state: self.addr_state,
        }
    }

    /// Sets the link's role to sender.
    pub fn sender(self) -> (r: Builder<SenderRole, NameState, Addr>)
        ensures
            r.name == self.name,
            r.snd_settle_mode == self.snd_settle_mode,
            r.rcv_settle_mode == self.rcv_settle_mode,
            r.source == self.source,
            r.target == self.target,
            r.initial_delivery_count == self.initial_delivery_count,
            r.credit_mode == self.credit_mode,
    {
        Builder {
            name: self.name,
            snd_settle_mode: self.snd_settle_mode,
            rcv_settle_mode: self.rcv_settle_mode,
            source: self.source,
            target: self.target,
            initial_delivery_count: self.initial_delivery_count,
            max_message_size: self.max_message_size,
            offered_capabilities: self.offered_capabilities,
            desired_capabilities: self.desired_capabilities,
            properties: self.properties,
            buffer_size: self.buffer_size,
            credit_mode: self.credit_mode,
            role: SenderRole {  },
            name_state: self.name_state,
            addr_state: self.addr_state,
        }
    }

    /// Sets the link's role to receiver.
    pub fn receiver(self) -> (r: Builder<ReceiverRole, NameState, Addr>)
        ensures
            r.name == self.name,
            r.snd_settle_mode == self.snd_settle_mode,
            r.rcv_settle_mode == self.rcv_settle_mode,
            r.source == self.source,
            r.target == self.target,
            r.initial_delivery_count == self.initial_delivery_count,
            r.credit_mode == self.credit_mode,
    {
        Builder {
            name: self.name,
            snd_settle_mode: self.snd_settle_mode,
            rcv_settle_mode: self.rcv_settle_mode,
            source: self.source,
            target: self.target,
            initial_delivery_count: self.initial_delivery_count,
            max_message_size: self.max_message_size,
            offered_capabilities: self.offered_capabilities,
            desired_capabilities: self.desired_capabilities,
            properties: self.properties,
            buffer_size: self.buffer_size,
            credit_mode: self.credit_mode,
            role: ReceiverRole {  },
            name_state: self.name_state,
            addr_state: self.addr_state,
        }
    }

    /// Settlement policy for the sender.
    pub fn sender_settle_mode(self, mode: SenderSettleMode) -> (r: Builder<R, NameState, Addr>)
        ensures
            r == (Builder { snd_settle_mode: mode, ..self }),
    {
        Builder { snd_settle_mode: mode, ..self }
    }

    /// The settlement policy of the receiver.
    pub fn receiver_settle_mode(self, mode: ReceiverSettleMode) -> (r: Builder<R, NameState, Addr>)
        ensures
            r == (Builder { rcv_settle_mode: mode, ..self }),
    {
        Builder { rcv_settle_mode: mode, ..self }
    }

    /// The source for messages.
    pub fn source(self, source: Source) -> (r: Builder<R, NameState, Addr>)
        ensures
            r == (Builder { source: Some(source), ..self }),
    {
        Builder { source: Some(source), ..self }
    }

    /// The target for messages.
    pub fn target(self, target: Target) -> (r: Builder<R, NameState, WithTarget>)
        ensures
            r.name == self.name,
            r.target == Some(TargetArchetype::Target(target)),
            r.source == self.source,
            r.snd_settle_mode == self.snd_settle_mode,
            r.rcv_settle_mode == self.rcv_settle_mode,
            r.initial_delivery_count == self.initial_delivery_count,
            r.credit_mode == self.credit_mode,
    {
        Builder {
            name: self.name,
            snd_settle_mode: self.snd_settle_mode,
            rcv_settle_mode: self.rcv_settle_mode,
            source: self.source,
            target: Some(TargetArchetype::Target(target)),
            initial_delivery_count: self.initial_delivery_count,
            max_message_size: self.max_message_size,
            offered_capabilities: self.offered_capabilities,
            desired_capabilities: self.desired_capabilities,
            properties: self.properties,
            buffer_size: self.buffer_size,
            credit_mode: self.credit_mode,
            role: self.role,
            name_state: self.name_state,
            addr_state: WithTarget {  },
        }
    }

    /// The desired coordinator for a transaction control link.
    pub fn coordinator(self, coordinator: Coordinator) -> (r: Builder<R, NameState, WithTarget>)
        ensures
            r.name == self.name,
            r.target == Some(TargetArchetype::Coordinator(coordinator)),
            r.source == self.source,
            r.snd_settle_mode == self.snd_settle_mode,
            r.rcv_settle_mode == self.rcv_settle_mode,
            r.initial_delivery_count == self.initial_delivery_count,
            r.credit_mode == self.credit_mode,
    {
        Builder {
            name: self.name,
            snd_settle_mode: self.snd_settle_mode,
            rcv_settle_mode: self.rcv_settle_mode,
            source: self.source,
            target: Some(TargetArchetype::Coordinator(coordinator)),
            initial_delivery_count: self.initial_delivery_count,
            max_message_size: self.max_message_size,
            offered_capabilities: self.offered_capabilities,
            desired_capabilities: self.desired_capabilities,
            properties: self.properties,
            buffer_size: self.buffer_size,
            credit_mode: self.credit_mode,
            role: self.role,
            name_state: self.name_state,
            addr_state: WithTarget {  },
        }
    }

    /// The maximum message size supported by the link endpoint.
    pub fn max_message_size(self, max_size: u64) -> (r: Builder<R, NameState, Addr>)
        ensures
            r == (Builder { max_message_size: Some(max_size), ..self }),
    {
        Builder { max_message_size: Some(max_size), ..self }
    }

    /// Adds one extension capability the sender supports.
    pub fn add_offered_capabilities(self, capability: String) -> (r: Builder<R, NameState, Addr>)
        ensures
            (match self.offered_capabilities {
                Some(caps) => (match r.offered_capabilities {
                    Some(rc) => rc@ == caps@.push(capability),
                    None => false,
                }),
                None => (match r.offered_capabilities {
                    Some(rc) => rc@.len() == 1 && rc@[0] == capability,
                    None => false,
                }),
            }),
            r.name == self.name,
            r.snd_settle_mode == self.snd_settle_mode,
            r.rcv_settle_mode == self.rcv_settle_mode,
            r.source == self.source,
            r.target == self.target,
            r.initial_delivery_count == self.initial_delivery_count,
            r.max_message_size == self.max_message_size,
            r.properties == self.properties,
            r.buffer_size == self.buffer_size,
            r.credit_mode == self.credit_mode,
            r.desired_capabilities == self.desired_capabilities,
    {
        let mut this = self;
        match &mut this.offered_capabilities {
            Some(capabilities) => {
                capabilities.push(capability);
            },
            None => {
                let mut caps: Vec<String> = Vec::new();
                caps.push(capability);
                this.offered_capabilities = Some(caps);
            },
        }
        this
    }

    /// Sets the extension capabilities the sender supports.
    pub fn set_offered_capabilities(self, capabilities: Vec<String>) -> (r: Builder<
        R,
        NameState,
        Addr,
    >)
        ensures
            r == (Builder { offered_capabilities: Some(capabilities), ..self }),
    {
        Builder { offered_capabilities: Some(capabilities), ..self }
    }

    /// Adds one extension capability the sender can use if the receiver
    /// supports it.
    pub fn add_desired_capabilities(self, capability: String) -> (r: Builder<R, NameState, Addr>)
        ensures
            (match self.desired_capabilities {
                Some(caps) => (match r.desired_capabilities {
                    Some(rc) => rc@ == caps@.push(capability),
                    None => false,
                }),
                None => (match r.desired_capabilities {
                    Some(rc) => rc@.len() == 1 && rc@[0] == capability,
                    None => false,
                }),
            }),
            r.name == self.name,
            r.snd_settle_mode == self.snd_settle_mode,
            r.rcv_settle_mode == self.rcv_settle_mode,
            r.source == self.source,
            r.target == self.target,
            r.initial_delivery_count == self.initial_delivery_count,
            r.max_message_size == self.max_message_size,
            r.properties == self.properties,
            r.buffer_size == self.buffer_size,
            r.credit_mode == self.credit_mode,
            r.offered_capabilities == self.offered_capabilities,
    {
        let mut this = self;
        match &mut this.desired_capabilities {
            Some(capabilities) => {
                capabilities.push(capability);
            },
            None => {
                let mut caps: Vec<String> = Vec::new();
                caps.push(capability);
                this.desired_capabilities = Some(caps);
            },
        }
        this
    }

    /// Sets the extension capabilities the sender can use if the receiver
    /// supports them.
    pub fn set_desired_capabilities(self, capabilities: Vec<String>) -> (r: Builder<
        R,
        NameState,
        Addr,
    >)
        ensures
            r == (Builder { desired_capabilities: Some(capabilities), ..self }),
    {
        Builder { desired_capabilities: Some(capabilities), ..self }
    }

    /// Sets the link properties.
    pub fn properties(self, properties: Fields) -> (r: Builder<R, NameState, Addr>)
        ensures
            r == (Builder { properties: Some(properties), ..self }),
    {
        Builder { properties: Some(properties), ..self }
    }

    /// The buffer size for the channels around the link.
    pub fn buffer_size(self, buffer_size: usize) -> (r: Builder<R, NameState, Addr>)
        ensures
            r == (Builder { buffer_size, ..self }),
    {
        Builder { buffer_size, ..self }
    }
}

impl<NameState, Addr> Builder<SenderRole, NameState, Addr> {
    /// The delivery count first announced on Attach; it must not be null
    /// when the role is sender (2.6.7).
    pub fn initial_delivery_count(self, count: SequenceNo) -> (r: Builder<
        SenderRole,
        NameState,
        Addr,
    >)
        ensures
            r == (Builder { initial_delivery_count: count, ..self }),
    {
        Builder { initial_delivery_count: count, ..self }
    }
}

impl<NameState, Addr> Builder<ReceiverRole, NameState, Addr> {
    /// The credit mode of the receiver.
    pub fn credit_mode(self, credit_mode: CreditMode) -> (r: Builder<ReceiverRole, NameState, Addr>)
        ensures
            r == (Builder { credit_mode, ..self }),
    {
        Builder { credit_mode, ..self }
    }
}

impl<R> Builder<R, WithName, WithTarget> {
    /// The Attach frame this builder's link opens with, for the given
    /// role and local handle. The sender announces its initial delivery
    /// count; the receiver leaves it unset.
    pub fn local_attach(self, role: Role, handle: crate::definitions::Handle) -> (r: Attach)
        ensures
            r.name == self.name,
            r.handle == handle,
            r.role == role,
            r.snd_settle_mode == self.snd_settle_mode,
            r.rcv_settle_mode == self.rcv_settle_mode,
            r.source == self.source,
            r.target == self.target,
            r.initial_delivery_count == (if role == Role::Sender {
                Some(self.initial_delivery_count)
            } else {
                Option::<SequenceNo>::None
            }),
            r.max_message_size == self.max_message_size,
            r.offered_capabilities == self.offered_capabilities,
            r.desired_capabilities == self.desired_capabilities,
            r.properties == self.properties,
    {
        let initial_delivery_count = match role {
            Role::Sender => Some(self.initial_delivery_count),
            Role::Receiver => None,
        };
        Attach {
            name: self.name,
            handle,
            role,
            snd_settle_mode: self.snd_settle_mode,
            rcv_settle_mode: self.rcv_settle_mode,
            source: self.source,
            target: self.target,
            initial_delivery_count,
            max_message_size: self.max_message_size,
            offered_capabilities: self.offered_capabilities,
            desired_capabilities: self.desired_capabilities,
            properties: self.properties,
        }
    }

    /// The initial flow state of the link this builder creates: credit
    /// and available start at zero and the drain flag is clear.
    pub fn initial_flow_state(&self) -> (r: LinkFlowStateInner)
        ensures
            r.initial_delivery_count == self.initial_delivery_count,
            r.delivery_count == self.initial_delivery_count,
            r.link_credit == 0u32,
            r.available == 0u32,
            !r.drain,
    {
        LinkFlowStateInner::new(self.initial_delivery_count, None)
    }
}

} // verus!
