//! The transactional decoration on deliveries: associating sends and
//! outcomes with a declared transaction, and the link-property handshake
//! of a transactional acquisition.

use vstd::prelude::*;

use crate::performatives::{
    Accepted, Declared, DeliveryState, Modified, Outcome, Rejected, Released, TransactionalState,
};
use crate::value::{copy_bytes, fields_has_key, fields_remove, fields_view, Fields, Value, ValueV};

verus! {

/// The identifier of a declared transaction.
pub type TransactionId = Vec<u8>;

/// A declared transaction a controller may post work under.
#[derive(Debug)]
pub struct Transaction {
    pub txn_id: TransactionId,
}

impl Transaction {
    /// A transaction with the identifier the coordinator declared.
    pub fn declared(txn_id: TransactionId) -> (r: Transaction)
        ensures
            r.txn_id@ == txn_id@,
    {
        Transaction { txn_id }
    }

    /// The transaction identifier.
    pub fn txn_id(&self) -> (r: &TransactionId)
        ensures
            r@ == self.txn_id@,
    {
        &self.txn_id
    }

    /// The transactional state to carry on an outgoing transfer posted
    /// under this transaction: the identifier, with no outcome yet.
    pub fn posting_state(&self) -> (r: DeliveryState)
        ensures
            (match r {
                DeliveryState::TransactionalState(t) => t.txn_id@ == self.txn_id@ && t.outcome
                    is None,
                _ => false,
            }),
    {
        DeliveryState::TransactionalState(
            TransactionalState { txn_id: copy_bytes(&self.txn_id), outcome: None },
        )
    }

    /// The transactional state that retires a received delivery under
    /// this transaction with the given outcome.
    pub fn retiring_state(&self, outcome: Outcome) -> (r: DeliveryState)
        ensures
            (match r {
                DeliveryState::TransactionalState(t) => t.txn_id@ == self.txn_id@ && t.outcome
                    == Some(outcome),
                _ => false,
            }),
    {
        DeliveryState::TransactionalState(
            TransactionalState { txn_id: copy_bytes(&self.txn_id), outcome: Some(outcome) },
        )
    }

    /// The retiring state for an accepted outcome.
    pub fn accepting_state(&self) -> (r: DeliveryState)
        ensures
            (match r {
                DeliveryState::TransactionalState(t) => t.txn_id@ == self.txn_id@ && t.outcome
                    == Some(Outcome::Accepted(Accepted {  })),
                _ => false,
            }),
    {
        self.retiring_state(Outcome::Accepted(Accepted {  }))
    }

    /// The retiring state for a rejected outcome.
    pub fn rejecting_state(&self, error: Option<crate::performatives::ErrorDef>) -> (r:
        DeliveryState)
        ensures
            (match r {
                DeliveryState::TransactionalState(t) => t.txn_id@ == self.txn_id@ && (match t
                    .outcome {
                    Some(Outcome::Rejected(rej)) => rej.error == error,
                    _ => false,
                }),
                _ => false,
            }),
    {
        self.retiring_state(Outcome::Rejected(Rejected { error }))
    }

    /// The retiring state for a released outcome.
    pub fn releasing_state(&self) -> (r: DeliveryState)
        ensures
            (match r {
                DeliveryState::TransactionalState(t) => t.txn_id@ == self.txn_id@ && t.outcome
                    == Some(Outcome::Released(Released {  })),
                _ => false,
            }),
    {
        self.retiring_state(Outcome::Released(Released {  }))
    }

    /// The retiring state for a modified outcome.
    pub fn modifying_state(&self, modified: Modified) -> (r: DeliveryState)
        ensures
            (match r {
                DeliveryState::TransactionalState(t) => t.txn_id@ == self.txn_id@ && (match t
                    .outcome {
                    Some(Outcome::Modified(m)) => m.delivery_failed == modified.delivery_failed
                        && m.undeliverable_here == modified.undeliverable_here,
                    _ => false,
                }),
                _ => false,
            }),
    {
        self.retiring_state(Outcome::Modified(modified))
    }
}

/// Why a transactional post did not come back clean.
#[derive(Debug)]
pub enum TxnPostError {
    /// The resource settled with a state that is no transactional state.
    NotAllowed,
    /// The resource answered under a different transaction.
    MismatchedTransactionId,
    /// The presumptive outcome was a rejection.
    Rejected(Rejected),
    /// The presumptive outcome was a release.
    Released(Released),
    /// The presumptive outcome was a modification.
    Modified(Modified),
    /// The transactional state carried no terminal outcome.
    ExpectingOutcome,
}

/// Whether two byte strings are equal.
pub fn bytes_eq(a: &Vec<u8>, b: &Vec<u8>) -> (r: bool)
    ensures
        r == (a@ == b@),
{
    if a.len() != b.len() {
        return false;
    }
    let mut i: usize = 0;
    while i < a.len()
        invariant
            i <= a@.len(),
            a@.len() == b@.len(),
            forall|j: int| 0 <= j < i ==> a@[j] == b@[j],
        decreases a.len() - i,
    {
        if a[i] != b[i] {
            return false;
        }
        i = i + 1;
    }
    assert(a@ =~= b@);
    true
}

/// Interprets the state that settled a posted transfer: the resource
/// must answer with a transactional state carrying this transaction's
/// identifier and a terminal outcome; only an accepted outcome is clean.
pub fn interpret_posted_outcome(txn_id: &TransactionId, state: DeliveryState) -> (r: Result<
    (),
    TxnPostError,
>)
    ensures
        (match state {
            DeliveryState::TransactionalState(t) => {
                if t.txn_id@ != txn_id@ {
                    r == Err::<(), TxnPostError>(TxnPostError::MismatchedTransactionId)
                } else {
                    match t.outcome {
                        Some(Outcome::Accepted(_)) => r is Ok,
                        Some(Outcome::Rejected(rej)) => r == Err::<(), TxnPostError>(
                            TxnPostError::Rejected(rej),
                        ),
                        Some(Outcome::Released(rel)) => r == Err::<(), TxnPostError>(
                            TxnPostError::Released(rel),
                        ),
                        Some(Outcome::Modified(m)) => r == Err::<(), TxnPostError>(
                            TxnPostError::Modified(m),
                        ),
                        _ => r == Err::<(), TxnPostError>(TxnPostError::ExpectingOutcome),
                    }
                }
            },
            _ => r == Err::<(), TxnPostError>(TxnPostError::NotAllowed),
        }),
{
    match state {
        DeliveryState::TransactionalState(txn) => {
            if !bytes_eq(&txn.txn_id, txn_id) {
                return Err(TxnPostError::MismatchedTransactionId);
            }
            match txn.outcome {
                Some(Outcome::Accepted(_)) => Ok(()),
                Some(Outcome::Rejected(value)) => Err(TxnPostError::Rejected(value)),
                Some(Outcome::Released(value)) => Err(TxnPostError::Released(value)),
                Some(Outcome::Modified(value)) => Err(TxnPostError::Modified(value)),
                Some(Outcome::Declared(_)) => Err(TxnPostError::ExpectingOutcome),
                None => Err(TxnPostError::ExpectingOutcome),
            }
        },
        _ => Err(TxnPostError::NotAllowed),
    }
}

/// Records a transaction in a link's properties for an acquisition: the
/// key gains the transaction identifier as its value and every other
/// entry stays. A link already associated with a transaction refuses.
pub fn txn_mark_link(properties: &mut Option<Fields>, key: &String, txn_id: &TransactionId) -> (r:
    Result<(), ()>)
    ensures
        (match r {
            Ok(()) => (match *final(properties) {
                Some(f) => fields_view(f@) == (match *old(properties) {
                    Some(g) => fields_view(g@),
                    None => Seq::empty(),
                }).push((key@, ValueV::Binary(txn_id@))) && fields_has_key(f@, key@),
                None => false,
            }),
            Err(()) => (match *old(properties) {
                Some(f) => fields_has_key(f@, key@) && *final(properties) == *old(properties),
                None => false,
            }),
        }),
{
    match properties {
        Some(fields) => {
            if crate::value::fields_get(fields, key).is_some() {
                return Err(());
            }
            let ghost before = fields_view(fields@);
            fields.push((key.clone(), Value::Binary(copy_bytes(txn_id))));
            proof {
                assert(fields@[fields@.len() - 1].0@ == key@);
                assert(fields_view(fields@) =~= before.push((key@, ValueV::Binary(txn_id@))));
            }
            Ok(())
        },
        None => {
            let mut fields: Fields = Vec::new();
            fields.push((key.clone(), Value::Binary(copy_bytes(txn_id))));
            proof {
                assert(fields@[0].0@ == key@);
                assert(fields_view(fields@) =~= Seq::empty().push(
                    (key@, ValueV::Binary(txn_id@)),
                ));
            }
            *properties = Some(fields);
            Ok(())
        },
    }
}

/// Clears the transaction mark from a link's properties when an
/// acquisition ends: only entries under the key leave.
pub fn txn_clear_link(properties: &mut Option<Fields>, key: &String)
    ensures
        (match *old(properties) {
            Some(g) => (match *final(properties) {
                Some(f) => fields_view(f@) == fields_view(g@).filter(
                    |p: (Seq<char>, ValueV)| p.0 != key@,
                ) && !fields_has_key(f@, key@),
                None => false,
            }),
            None => *final(properties) is None,
        }),
{
    match properties {
        Some(fields) => {
            fields_remove(fields, key);
            proof {
                assert forall|i: int| 0 <= i < fields@.len() implies #[trigger] fields@[i].0@
                    != key@ by {
                    assert(fields_view(fields@)[i] == crate::value::field_entry_view(
                        fields@[i],
                    ));
                }
            }
        },
        None => {},
    }
}

/// A transactional acquisition: the transaction under which a receiver
/// acquires messages.
#[derive(Debug)]
pub struct TxnAcquisition {
    pub txn: Transaction,
}

impl TxnAcquisition {
    /// The underlying transaction.
    pub fn txn(&self) -> (r: &Transaction)
        ensures
            r == self.txn,
    {
        &self.txn
    }

    /// A mutable reference to the underlying transaction.
    pub fn txn_mut(&mut self) -> (r: &mut Transaction)
        ensures
            *r == old(self).txn,
            final(self).txn == *final(r),
    {
        &mut self.txn
    }

    /// The transaction identifier.
    pub fn txn_id(&self) -> (r: &TransactionId)
        ensures
            r@ == self.txn.txn_id@,
    {
        &self.txn.txn_id
    }
}

} // verus!
