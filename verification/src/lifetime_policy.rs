//! Lifetime policies of dynamically created nodes (3.5.10 through
//! 3.5.13): descriptor-tagged empty composites.

use vstd::prelude::*;

verus! {

/// Lifetime of a dynamic node scoped to the link which caused its
/// creation (3.5.10).
#[derive(Debug, Clone, Copy, PartialEq, Eq, Structural)]
pub struct DeleteOnClose {}

impl DeleteOnClose {
    /// Creates a new instance.
    pub fn new() -> (r: DeleteOnClose)
        ensures
            r == (DeleteOnClose {  }),
    {
        DeleteOnClose {  }
    }
}

/// Lifetime of a dynamic node scoped to the existence of links to the
/// node (3.5.11).
#[derive(Debug, Clone, Copy, PartialEq, Eq, Structural)]
pub struct DeleteOnNoLinks {}

impl DeleteOnNoLinks {
    /// Creates a new instance.
    pub fn new() -> (r: DeleteOnNoLinks)
        ensures
            r == (DeleteOnNoLinks {  }),
    {
        DeleteOnNoLinks {  }
    }
}

/// Lifetime of a dynamic node scoped to the existence of messages on the
/// node (3.5.12).
#[derive(Debug, Clone, Copy, PartialEq, Eq, Structural)]
pub struct DeleteOnNoMessages {}

impl DeleteOnNoMessages {
    /// Creates a new instance.
    pub fn new() -> (r: DeleteOnNoMessages)
        ensures
            r == (DeleteOnNoMessages {  }),
    {
        DeleteOnNoMessages {  }
    }
}

/// Lifetime of a node scoped to the existence of messages on, or links
/// to, the node (3.5.13).
#[derive(Debug, Clone, Copy, PartialEq, Eq, Structural)]
pub struct DeleteOnNoLinksOrMessages {}

impl DeleteOnNoLinksOrMessages {
    /// Creates a new instance.
    pub fn new() -> (r: DeleteOnNoLinksOrMessages)
        ensures
            r == (DeleteOnNoLinksOrMessages {  }),
    {
        DeleteOnNoLinksOrMessages {  }
    }
}

/// The lifetime of a dynamically generated node.
#[derive(Debug, Clone, Copy, PartialEq, Eq, Structural)]
pub enum LifetimePolicy {
    DeleteOnClose(DeleteOnClose),
    DeleteOnNoLinks(DeleteOnNoLinks),
    DeleteOnNoMessages(DeleteOnNoMessages),
    DeleteOnNoLinksOrMessages(DeleteOnNoLinksOrMessages),
}

impl From<DeleteOnClose> for LifetimePolicy {
    fn from(value: DeleteOnClose) -> (r: LifetimePolicy) {
        LifetimePolicy::DeleteOnClose(value)
    }
}

impl vstd::std_specs::convert::FromSpecImpl<DeleteOnClose> for LifetimePolicy {
    open spec fn obeys_from_spec() -> bool {
        true
    }

    open spec fn from_spec(value: DeleteOnClose) -> LifetimePolicy {
        LifetimePolicy::DeleteOnClose(value)
    }
}

impl From<DeleteOnNoLinks> for LifetimePolicy {
    fn from(value: DeleteOnNoLinks) -> (r: LifetimePolicy) {
        LifetimePolicy::DeleteOnNoLinks(value)
    }
}

impl vstd::std_specs::convert::FromSpecImpl<DeleteOnNoLinks> for LifetimePolicy {
    open spec fn obeys_from_spec() -> bool {
        true
    }

    open spec fn from_spec(value: DeleteOnNoLinks) -> LifetimePolicy {
        LifetimePolicy::DeleteOnNoLinks(value)
    }
}

impl From<DeleteOnNoMessages> for LifetimePolicy {
    fn from(value: DeleteOnNoMessages) -> (r: LifetimePolicy) {
        LifetimePolicy::DeleteOnNoMessages(value)
    }
}

impl vstd::std_specs::convert::FromSpecImpl<DeleteOnNoMessages> for LifetimePolicy {
    open spec fn obeys_from_spec() -> bool {
        true
    }

    open spec fn from_spec(value: DeleteOnNoMessages) -> LifetimePolicy {
        LifetimePolicy::DeleteOnNoMessages(value)
    }
}

impl From<DeleteOnNoLinksOrMessages> for LifetimePolicy {
    fn from(value: DeleteOnNoLinksOrMessages) -> (r: LifetimePolicy) {
        LifetimePolicy::DeleteOnNoLinksOrMessages(value)
    }
}

impl vstd::std_specs::convert::FromSpecImpl<DeleteOnNoLinksOrMessages> for LifetimePolicy {
    open spec fn obeys_from_spec() -> bool {
        true
    }

    open spec fn from_spec(value: DeleteOnNoLinksOrMessages) -> LifetimePolicy {
        LifetimePolicy::DeleteOnNoLinksOrMessages(value)
    }
}

/// The descriptor code of a lifetime policy.
pub open spec fn lifetime_policy_code(p: LifetimePolicy) -> u8 {
    match p {
        LifetimePolicy::DeleteOnClose(_) => 0x2bu8,
        LifetimePolicy::DeleteOnNoLinks(_) => 0x2cu8,
        LifetimePolicy::DeleteOnNoMessages(_) => 0x2du8,
        LifetimePolicy::DeleteOnNoLinksOrMessages(_) => 0x2eu8,
    }
}

/// The bytes of a lifetime policy: its descriptor and an empty list.
pub open spec fn enc_lifetime_policy(p: LifetimePolicy) -> Seq<u8> {
    seq![0x00u8, 0x53u8, lifetime_policy_code(p), 0x45u8]
}

/// The lifetime policy a descriptor code names.
pub open spec fn lifetime_policy_of_code(code: u8) -> Option<LifetimePolicy> {
    if code == 0x2bu8 {
        Some(LifetimePolicy::DeleteOnClose(DeleteOnClose {  }))
    } else if code == 0x2cu8 {
        Some(LifetimePolicy::DeleteOnNoLinks(DeleteOnNoLinks {  }))
    } else if code == 0x2du8 {
        Some(LifetimePolicy::DeleteOnNoMessages(DeleteOnNoMessages {  }))
    } else if code == 0x2eu8 {
        Some(LifetimePolicy::DeleteOnNoLinksOrMessages(DeleteOnNoLinksOrMessages {  }))
    } else {
        None
    }
}

impl LifetimePolicy {
    /// Writes the policy's wire form.
    pub fn encode(&self) -> (r: Vec<u8>)
        ensures
            r@ == enc_lifetime_policy(*self),
    {
        let code: u8 = match self {
            LifetimePolicy::DeleteOnClose(_) => 0x2b,
            LifetimePolicy::DeleteOnNoLinks(_) => 0x2c,
            LifetimePolicy::DeleteOnNoMessages(_) => 0x2d,
            LifetimePolicy::DeleteOnNoLinksOrMessages(_) => 0x2e,
        };
        let mut out: Vec<u8> = Vec::new();
        out.push(0x00);
        out.push(0x53);
        out.push(code);
        out.push(0x45);
        assert(out@ =~= enc_lifetime_policy(*self));
        out
    }

    /// Reads a policy back from its wire form.
    pub fn decode(b: &Vec<u8>) -> (r: Option<LifetimePolicy>)
        ensures
            (match r {
                Some(p) => b@ == enc_lifetime_policy(p),
                None => forall|p: LifetimePolicy| b@ != enc_lifetime_policy(p),
            }),
    {
        if b.len() != 4 || b[0] != 0x00 || b[1] != 0x53 || b[3] != 0x45 {
            proof {
                assert forall|p: LifetimePolicy| b@ != enc_lifetime_policy(p) by {
                    assert(enc_lifetime_policy(p).len() == 4);
                }
            }
            return None;
        }
        let code = b[2];
        let r = if code == 0x2b {
            Some(LifetimePolicy::DeleteOnClose(DeleteOnClose {  }))
        } else if code == 0x2c {
            Some(LifetimePolicy::DeleteOnNoLinks(DeleteOnNoLinks {  }))
        } else if code == 0x2d {
            Some(LifetimePolicy::DeleteOnNoMessages(DeleteOnNoMessages {  }))
        } else if code == 0x2e {
            Some(LifetimePolicy::DeleteOnNoLinksOrMessages(DeleteOnNoLinksOrMessages {  }))
        } else {
            None
        };
        proof {
            match r {
                Some(p) => {
                    assert(b@ =~= enc_lifetime_policy(p));
                },
                None => {
                    assert forall|p: LifetimePolicy| b@ != enc_lifetime_policy(p) by {
                        assert(enc_lifetime_policy(p)[2] == lifetime_policy_code(p));
                    }
                },
            }
        }
        r
    }
}

/// Each structure encodes exactly as its enum wrapping does, and the
/// bytes decode back to the policy.
pub proof fn lemma_lifetime_policy_round_trip(p: LifetimePolicy)
    ensures
        lifetime_policy_of_code(lifetime_policy_code(p)) == Some(p),
{
}

} // verus!
