use vstd::prelude::*;
use crate::json::{JsonValue, DecodeError};

verus! {

/// A connection between two nodes, with optional slots at either end.
///
/// Each slot has two levels: `None` where the document had no entry for it,
/// `Some(None)` where the entry was null, `Some(Some(s))` where it named a slot.
pub struct Edge {
    pub from_node: String,
    pub to_node: String,
    pub from_slot: Option<Option<String>>,
    pub to_slot: Option<Option<String>>,
}

/// What a slot entry of an edge array decodes to.
pub open spec fn slot_spec(a: Seq<JsonValue>, i: int) -> Result<Option<Option<String>>, DecodeError> {
    if i >= a.len() {
        Ok(None)
    } else {
        match a[i] {
            JsonValue::Null => Ok(Some(None)),
            JsonValue::Str(s) => Ok(Some(Some(s))),
            _ => Err(DecodeError::InvalidField("slot")),
        }
    }
}

/// What a JSON value decodes to as an edge: an array of at least two node
/// names, then up to two slots; entries after the fourth are ignored.
pub open spec fn edge_spec(j: JsonValue) -> Result<Edge, DecodeError> {
    match j {
        JsonValue::Array(v) => {
            let a = v@;
            if a.len() < 2 {
                Err(DecodeError::EdgeTooShort)
            } else {
                match (a[0], a[1]) {
                    (JsonValue::Str(from_node), JsonValue::Str(to_node)) => match slot_spec(a, 2) {
                        Err(e) => Err(e),
                        Ok(from_slot) => match slot_spec(a, 3) {
                            Err(e) => Err(e),
                            Ok(to_slot) => Ok(Edge { from_node, to_node, from_slot, to_slot }),
                        },
                    },
                    _ => Err(DecodeError::InvalidField("node")),
                }
            }
        },
        _ => Err(DecodeError::NotAnArray),
    }
}

/// The JSON form of a slot that is present: null or its name.
pub open spec fn slot_json(s: Option<Option<String>>) -> JsonValue {
    match s {
        Some(Some(n)) => JsonValue::Str(n),
        _ => JsonValue::Null,
    }
}

/// `j` is the encoding of `e`: two entries where both slots are absent, else
/// four, an absent slot written as null.
pub open spec fn edge_encodes(e: Edge, j: JsonValue) -> bool {
    match j {
        JsonValue::Array(v) => if e.from_slot is None && e.to_slot is None {
            v@ == seq![JsonValue::Str(e.from_node), JsonValue::Str(e.to_node)]
        } else {
            v@ == seq![JsonValue::Str(e.from_node), JsonValue::Str(e.to_node), slot_json(e.from_slot), slot_json(e.to_slot)]
        },
        _ => false,
    }
}

fn decode_slot(a: &Vec<JsonValue>, i: usize) -> (r: Result<Option<Option<String>>, DecodeError>)
    ensures
        r == slot_spec(a@, i as int),
{
    if i >= a.len() {
        Ok(None)
    } else {
        match &a[i] {
            JsonValue::Null => Ok(Some(None)),
            JsonValue::Str(s) => Ok(Some(Some(s.clone()))),
            _ => Err(DecodeError::InvalidField("slot")),
        }
    }
}

fn encode_slot(s: &Option<Option<String>>) -> (r: JsonValue)
    ensures
        r == slot_json(*s),
{
    match s {
        Some(Some(n)) => JsonValue::Str(n.clone()),
        _ => JsonValue::Null,
    }
}

impl Edge {
    /// Decodes an edge from its array form.
    pub fn from_json(j: &JsonValue) -> (r: Result<Edge, DecodeError>)
        ensures
            r == edge_spec(*j),
    {
        match j {
            JsonValue::Array(a) => {
                if a.len() < 2 {
                    return Err(DecodeError::EdgeTooShort);
                }
                let from_node = match &a[0] {
                    JsonValue::Str(s) => s.clone(),
                    _ => return Err(DecodeError::InvalidField("node")),
                };
                let to_node = match &a[1] {
                    JsonValue::Str(s) => s.clone(),
                    _ => return Err(DecodeError::InvalidField("node")),
                };
                let from_slot = decode_slot(a, 2)?;
                let to_slot = decode_slot(a, 3)?;
                Ok(Edge { from_node, to_node, from_slot, to_slot })
            },
            _ => Err(DecodeError::NotAnArray),
        }
    }

    /// Encodes an edge as an array of two or four entries.
    pub fn to_json(&self) -> (r: JsonValue)
        ensures
            edge_encodes(*self, r),
    {
        let mut v: Vec<JsonValue> = Vec::new();
        v.push(JsonValue::Str(self.from_node.clone()));
        v.push(JsonValue::Str(self.to_node.clone()));
        if self.from_slot.is_some() || self.to_slot.is_some() {
            v.push(encode_slot(&self.from_slot));
            v.push(encode_slot(&self.to_slot));
        }
        proof {
            if self.from_slot is None && self.to_slot is None {
                assert(v@ =~= seq![JsonValue::Str(self.from_node), JsonValue::Str(self.to_node)]);
            } else {
                assert(v@ =~= seq![JsonValue::Str(self.from_node), JsonValue::Str(self.to_node),
                    slot_json(self.from_slot), slot_json(self.to_slot)]);
            }
        }
        JsonValue::Array(v)
    }
}

/// Decoding the encoding of an edge gives the edge back, wherever its slots
/// are both present or both absent. (With only the second present, the first
/// comes back present and null: the array form cannot tell them apart.)
pub proof fn lemma_edge_round_trip(e: Edge, j: JsonValue)
    requires
        edge_encodes(e, j),
        e.from_slot is Some <==> e.to_slot is Some,
    ensures
        edge_spec(j) == Ok::<Edge, DecodeError>(e),
{
}

} // verus!
