//! The management operation that lists the attribute names of manageable
//! entity types.

use vstd::prelude::*;

use crate::messaging::{ApplicationProperties, Body, Message};
use crate::value::{Value, ValueV};

verus! {

/// The status code of a successful management response.
pub const GET_ATTRIBUTES_STATUS_CODE: u16 = 200;

/// A node that can answer a GET-ATTRIBUTES request.
pub trait GetAttributes {
    /// Answers the request.
    fn get_attributes(&self, req: GetAttributesRequest) -> Result<GetAttributesResponse, ()>;
}

/// A GET-ATTRIBUTES request. Any message body is valid and is ignored.
#[derive(Debug)]
pub struct GetAttributesRequest {
    pub entity_type: Option<String>,
}

impl GetAttributesRequest {
    /// A request, optionally restricted to one entity type.
    pub fn new(entity_type: Option<String>) -> (r: GetAttributesRequest)
        ensures
            r.entity_type == entity_type,
    {
        GetAttributesRequest { entity_type }
    }

    /// The request as a message: the operation rides in the application
    /// properties, with the entity type when one is named; the body
    /// carries no information.
    pub fn into_message(self) -> (r: Message)
        ensures
            (match r.application_properties {
                Some(props) => {
                    &&& props.0@.len() == (if self.entity_type is Some {
                        2int
                    } else {
                        1int
                    })
                    &&& props.0@[0].0@ == "operation"@
                    &&& props.0@[0].1@ == ValueV::String("GET-ATTRIBUTES"@)
                    &&& (match self.entity_type {
                        Some(t) => props.0@[1].0@ == "entityType"@ && props.0@[1].1@
                            == ValueV::String(t@),
                        None => true,
                    })
                },
                None => false,
            }),
            r.body is Value,
            r.header is None,
            r.properties is None,
    {
        let mut entries: Vec<(String, Value)> = Vec::new();
        entries.push(("operation".to_owned(), Value::String("GET-ATTRIBUTES".to_owned())));
        match self.entity_type {
            Some(entity_type) => {
                entries.push(("entityType".to_owned(), Value::String(entity_type)));
            },
            None => {},
        }
        Message::builder().application_properties(ApplicationProperties(entries)).value(
            Value::Null,
        ).build()
    }
}

/// A successful GET-ATTRIBUTES response: for each manageable entity
/// type, the attribute names it possesses.
#[derive(Debug)]
pub struct GetAttributesResponse {
    pub map: Vec<(Value, Vec<String>)>,
}

impl GetAttributesResponse {
    /// A response carrying the given attribute map.
    pub fn new(map: Vec<(Value, Vec<String>)>) -> (r: GetAttributesResponse)
        ensures
            r.map == map,
    {
        GetAttributesResponse { map }
    }
}

} // verus!
