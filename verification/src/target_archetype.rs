//! Verification of the Target or Coordinator terminus a peer announces
//! on Attach.

use vstd::prelude::*;

use crate::definitions::AmqpError;
use crate::performatives::{Coordinator, ErrorCondition, ErrorDef, Target, TargetArchetype};

verus! {

/// Whether the incoming terminus complies with the protocol's rules for
/// the given local role.
pub trait VerifyTargetArchetype {
    /// Verifies the peer's terminus as seen by the sending side.
    fn verify_as_sender(&self, other: &Self) -> Result<(), ErrorDef>;

    /// Verifies the peer's terminus as seen by the receiving side.
    fn verify_as_receiver(&self, other: &Self) -> Result<(), ErrorDef>;
}

impl VerifyTargetArchetype for Target {
    /// A dynamic node created at the sender's request must carry the
    /// created address; a non-dynamic one must carry no dynamic node
    /// properties.
    fn verify_as_sender(&self, other: &Target) -> (r: Result<(), ErrorDef>)
        ensures
            (match r {
                Ok(()) => !(other.dynamic && other.address is None) && !(!other.dynamic
                    && other.dynamic_node_properties is Some),
                Err(e) => {
                    &&& (other.dynamic && other.address is None) || (!other.dynamic
                        && other.dynamic_node_properties is Some)
                    &&& e.condition == ErrorCondition::Amqp(AmqpError::NotAllowed)
                },
            }),
    {
        if self.check_as_sender_violation(other) {
            Err(
                ErrorDef {
                    condition: ErrorCondition::Amqp(AmqpError::NotAllowed),
                    description: Some(
                        "The address of the source must be set when the dynamic flag is set, and dynamic-node-properties must be unset when it is not".to_owned(),
                    ),
                },
            )
        } else {
            Ok(())
        }
    }

    /// The address of a dynamic target must not be set by the sender
    /// requesting its creation; a non-dynamic one must carry no dynamic
    /// node properties.
    fn verify_as_receiver(&self, other: &Target) -> (r: Result<(), ErrorDef>)
        ensures
            (match r {
                Ok(()) => !(other.dynamic && other.address is Some) && !(!other.dynamic
                    && other.dynamic_node_properties is Some),
                Err(e) => {
                    &&& (other.dynamic && other.address is Some) || (!other.dynamic
                        && other.dynamic_node_properties is Some)
                    &&& e.condition == ErrorCondition::Amqp(AmqpError::NotAllowed)
                },
            }),
    {
        if other.dynamic && other.address.is_some() {
            Err(
                ErrorDef {
                    condition: ErrorCondition::Amqp(AmqpError::NotAllowed),
                    description: Some(
                        "The address of the target must not be set when the dynamic flag is set".to_owned(),
                    ),
                },
            )
        } else if !other.dynamic && other.dynamic_node_properties.is_some() {
            Err(
                ErrorDef {
                    condition: ErrorCondition::Amqp(AmqpError::NotAllowed),
                    description: Some(
                        "If the dynamic field is not set to true this field must be left unset".to_owned(),
                    ),
                },
            )
        } else {
            Ok(())
        }
    }
}

impl Target {
    /// Whether the peer's target breaks the dynamic-node rules for a
    /// sender.
    fn check_as_sender_violation(&self, other: &Target) -> (r: bool)
        ensures
            r == ((other.dynamic && other.address is None) || (!other.dynamic
                && other.dynamic_node_properties is Some)),
    {
        (other.dynamic && other.address.is_none()) || (!other.dynamic
            && other.dynamic_node_properties.is_some())
    }
}

/// Whether a capability occurs in a list.
pub open spec fn cap_in(provided: Seq<String>, cap: Seq<char>) -> bool {
    exists|j: int| 0 <= j < provided.len() && (#[trigger] provided[j])@ == cap
}

/// Whether every desired capability is among the provided ones.
pub open spec fn caps_supported(desired: Seq<String>, provided: Seq<String>) -> bool {
    forall|i: int| 0 <= i < desired.len() ==> cap_in(provided, (#[trigger] desired[i])@)
}

/// Whether a capability occurs in a list.
fn caps_contain(provided: &Vec<String>, cap: &String) -> (r: bool)
    ensures
        r == cap_in(provided@, cap@),
{
    let mut j: usize = 0;
    while j < provided.len()
        invariant
            j <= provided.len(),
            forall|k: int| 0 <= k < j ==> (#[trigger] provided@[k])@ != cap@,
        decreases provided.len() - j,
    {
        if provided[j] == *cap {
            assert(provided@[j as int]@ == cap@);
            return true;
        }
        j = j + 1;
    }
    false
}

/// Checks every desired capability against the provided list.
fn verify_caps(desired: &Vec<String>, provided: &Vec<String>) -> (r: Result<(), ErrorDef>)
    ensures
        (match r {
            Ok(()) => caps_supported(desired@, provided@),
            Err(e) => {
                &&& !caps_supported(desired@, provided@)
                &&& e.condition == ErrorCondition::Amqp(AmqpError::InternalError)
            },
        }),
{
    let mut i: usize = 0;
    while i < desired.len()
        invariant
            i <= desired.len(),
            forall|k: int| 0 <= k < i ==> cap_in(provided@, (#[trigger] desired@[k])@),
        decreases desired.len() - i,
    {
        if !caps_contain(provided, &desired[i]) {
            proof {
                assert(!cap_in(provided@, desired@[i as int]@));
                assert(!caps_supported(desired@, provided@)) by {
                    if caps_supported(desired@, provided@) {
                        assert(cap_in(provided@, (desired@[i as int])@));
                    }
                }
            }
            return Err(
                ErrorDef {
                    condition: ErrorCondition::Amqp(AmqpError::InternalError),
                    description: Some(
                        "Desired transaction capabilities are not supported".to_owned(),
                    ),
                },
            );
        }
        i = i + 1;
    }
    assert(caps_supported(desired@, provided@));
    Ok(())
}

impl VerifyTargetArchetype for Coordinator {
    /// The controller verifies that every desired transaction capability
    /// is provided by the resource.
    fn verify_as_sender(&self, other: &Coordinator) -> (r: Result<(), ErrorDef>)
        ensures
            (match self.capabilities {
                Some(desired) => (match other.capabilities {
                    Some(provided) => (match r {
                        Ok(()) => caps_supported(desired@, provided@),
                        Err(e) => {
                            &&& !caps_supported(desired@, provided@)
                            &&& e.condition == ErrorCondition::Amqp(AmqpError::InternalError)
                        },
                    }),
                    None => (match r {
                        Ok(()) => desired@.len() == 0,
                        Err(e) => {
                            &&& desired@.len() > 0
                            &&& e.condition == ErrorCondition::Amqp(AmqpError::InternalError)
                        },
                    }),
                }),
                None => r is Ok,
            }),
    {
        match &self.capabilities {
            None => Ok(()),
            Some(desired) => match &other.capabilities {
                None => {
                    if desired.len() == 0 {
                        Ok(())
                    } else {
                        Err(
                            ErrorDef {
                                condition: ErrorCondition::Amqp(AmqpError::InternalError),
                                description: Some(
                                    "Desired transaction capabilities are not supported".to_owned(),
                                ),
                            },
                        )
                    }
                },
                Some(provided) => verify_caps(desired, provided),
            },
        }
    }

    /// The resource side imposes no requirement on the controller's
    /// capabilities.
    fn verify_as_receiver(&self, other: &Coordinator) -> (r: Result<(), ErrorDef>)
        ensures
            r is Ok,
    {
        Ok(())
    }
}

/// Which archetype a terminus is.
pub trait VariantOfTargetArchetype {
    /// Whether this terminus is a plain target.
    fn is_target(&self) -> bool;

    /// Whether this terminus is a transaction coordinator.
    fn is_coordinator(&self) -> bool;
}

impl VariantOfTargetArchetype for Target {
    fn is_target(&self) -> (r: bool)
        ensures
            r,
    {
        true
    }

    fn is_coordinator(&self) -> (r: bool)
        ensures
            !r,
    {
        false
    }
}

impl VariantOfTargetArchetype for Coordinator {
    fn is_target(&self) -> (r: bool)
        ensures
            !r,
    {
        false
    }

    fn is_coordinator(&self) -> (r: bool)
        ensures
            r,
    {
        true
    }
}

impl VariantOfTargetArchetype for TargetArchetype {
    fn is_target(&self) -> (r: bool)
        ensures
            r == (self is Target),
    {
        match self {
            TargetArchetype::Target(_) => true,
            TargetArchetype::Coordinator(_) => false,
        }
    }

    fn is_coordinator(&self) -> (r: bool)
        ensures
            r == (self is Coordinator),
    {
        match self {
            TargetArchetype::Target(_) => false,
            TargetArchetype::Coordinator(_) => true,
        }
    }
}

/// The capabilities a terminus offers.
pub trait TargetArchetypeCapabilities {
    /// A reference to the capability list.
    fn capabilities(&self) -> &Option<Vec<String>>;
}

impl TargetArchetypeCapabilities for Target {
    fn capabilities(&self) -> (r: &Option<Vec<String>>)
        ensures
            r == self.capabilities,
    {
        &self.capabilities
    }
}

impl TargetArchetypeCapabilities for Coordinator {
    fn capabilities(&self) -> (r: &Option<Vec<String>>)
        ensures
            r == self.capabilities,
    {
        &self.capabilities
    }
}

} // verus!
