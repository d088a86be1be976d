use vstd::prelude::*;
use crate::json::{JsonValue, DecodeError, member, find_member, opt_str, req_str, opt_str_spec, req_str_spec,
    first_error, lemma_first_error_at, lemma_first_error_none};
use crate::parameters::{json_alike, first_err, err_of};
use crate::decode::{copy_json, lemma_member_at};
use crate::nodes::{Node, node_err, node_ok};
use crate::edge::{Edge, edge_spec};
use crate::parameter_map::{ParameterVec, parameters_err, parameters_ok};
use crate::tables::{TableVec, tables_err, tables_ok};

verus! {

pub struct Metadata {
    pub title: Option<String>,
    pub description: Option<String>,
    pub minimum_version: Option<String>,
}

/// The length of a time step: a number of days, kept as written, or a frequency.
pub enum Timestep {
    Days(String),
    Frequency(String),
}

/// The simulated period; dates are kept as written.
pub struct Timestepper {
    pub start: String,
    pub end: String,
    pub timestep: Timestep,
}

pub struct Scenario {
    pub name: String,
    /// The number of members, kept as written.
    pub size: String,
    /// Start, stop and optionally step of the members used, each null or a number as written.
    pub slice: Option<Vec<Option<String>>>,
    pub ensemble_names: Option<Vec<String>>,
}

/// The entities of a document: nodes, edges, parameters and tables.
pub struct PywrNetwork {
    pub nodes: Option<Vec<Node>>,
    pub edges: Option<Vec<Edge>>,
    pub parameters: Option<ParameterVec>,
    pub tables: Option<TableVec>,
    /// Passed through as written.
    pub recorders: Option<JsonValue>,
}

/// A whole document: metadata, time stepping, scenarios and the network.
pub struct PywrModel {
    pub metadata: Metadata,
    pub timestepper: Timestepper,
    pub scenarios: Option<Vec<Scenario>>,
    pub network: PywrNetwork,
}

// ----- metadata -----

pub open spec fn metadata_spec(j: JsonValue) -> Result<Metadata, DecodeError> {
    match j {
        JsonValue::Object(f) => match opt_str_spec(f@, "title") {
            Err(e) => Err(e),
            Ok(title) => match opt_str_spec(f@, "description") {
                Err(e) => Err(e),
                Ok(description) => match opt_str_spec(f@, "minimum_version") {
                    Err(e) => Err(e),
                    Ok(minimum_version) => Ok(Metadata { title, description, minimum_version }),
                },
            },
        },
        _ => Err(DecodeError::NotAnObject),
    }
}

pub open spec fn timestep_spec(j: Option<JsonValue>) -> Result<Timestep, DecodeError> {
    match j {
        None => Err(DecodeError::MissingField("timestep")),
        Some(JsonValue::Number(s)) => Ok(Timestep::Days(s)),
        Some(JsonValue::Str(s)) => Ok(Timestep::Frequency(s)),
        Some(_) => Err(DecodeError::InvalidField("timestep")),
    }
}

pub open spec fn timestepper_spec(j: JsonValue) -> Result<Timestepper, DecodeError> {
    match j {
        JsonValue::Object(f) => match req_str_spec(f@, "start") {
            Err(e) => Err(e),
            Ok(start) => match req_str_spec(f@, "end") {
                Err(e) => Err(e),
                Ok(end) => match timestep_spec(member(f@, "timestep"@)) {
                    Err(e) => Err(e),
                    Ok(timestep) => Ok(Timestepper { start, end, timestep }),
                },
            },
        },
        _ => Err(DecodeError::NotAnObject),
    }
}

impl Metadata {
    pub fn from_json(j: &JsonValue) -> (r: Result<Metadata, DecodeError>)
        ensures
            r == metadata_spec(*j),
    {
        match j {
            JsonValue::Object(f) => {
                let title = opt_str(f, "title")?;
                let description = opt_str(f, "description")?;
                let minimum_version = opt_str(f, "minimum_version")?;
                Ok(Metadata { title, description, minimum_version })
            },
            _ => Err(DecodeError::NotAnObject),
        }
    }
}

impl Timestepper {
    pub fn from_json(j: &JsonValue) -> (r: Result<Timestepper, DecodeError>)
        ensures
            r == timestepper_spec(*j),
    {
        match j {
            JsonValue::Object(f) => {
                let start = req_str(f, "start")?;
                let end = req_str(f, "end")?;
                proof { lemma_member_at(f@, "timestep"@); }
                let timestep = match find_member(f, "timestep") {
                    None => return Err(DecodeError::MissingField("timestep")),
                    Some(i) => match &f[i].1 {
                        JsonValue::Number(s) => Timestep::Days(s.clone()),
                        JsonValue::Str(s) => Timestep::Frequency(s.clone()),
                        _ => return Err(DecodeError::InvalidField("timestep")),
                    },
                };
                Ok(Timestepper { start, end, timestep })
            },
            _ => Err(DecodeError::NotAnObject),
        }
    }
}

// ----- scenarios -----

pub open spec fn is_slice_entry(j: JsonValue) -> bool {
    j is Null || j is Number
}

pub open spec fn slice_entry(j: JsonValue) -> Option<String> {
    match j {
        JsonValue::Number(s) => Some(s),
        _ => None,
    }
}

/// A scenario slice: absent or null, or an array of two or three entries,
/// each null or a number.
pub open spec fn slice_err(f: Seq<(String, JsonValue)>) -> Option<DecodeError> {
    match member(f, "slice"@) {
        None => None,
        Some(JsonValue::Null) => None,
        Some(JsonValue::Array(a)) => if 2 <= a@.len() <= 3 && forall|i: int| 0 <= i < a@.len() ==> is_slice_entry(#[trigger] a@[i]) {
            None
        } else {
            Some(DecodeError::InvalidField("slice"))
        },
        Some(_) => Some(DecodeError::InvalidField("slice")),
    }
}

pub open spec fn slice_ok(f: Seq<(String, JsonValue)>, r: Option<Vec<Option<String>>>) -> bool {
    slice_err(f) is None && match member(f, "slice"@) {
        Some(JsonValue::Array(a)) => r is Some && r->Some_0@.len() == a@.len() && forall|i: int|
            0 <= i < a@.len() ==> r->Some_0@[i] == slice_entry(#[trigger] a@[i]),
        _ => r is None,
    }
}

/// Reads the slice of a scenario: two or three entries, else an error.
fn validate_scenario_slice_length(f: &Vec<(String, JsonValue)>) -> (r: Result<Option<Vec<Option<String>>>, DecodeError>)
    ensures
        match r {
            Ok(x) => slice_ok(f@, x),
            Err(e) => slice_err(f@) == Some(e),
        },
{
    proof { lemma_member_at(f@, "slice"@); }
    let a = match find_member(f, "slice") {
        None => return Ok(None),
        Some(i) => match &f[i].1 {
            JsonValue::Null => return Ok(None),
            JsonValue::Array(a) => a,
            _ => return Err(DecodeError::InvalidField("slice")),
        },
    };
    if a.len() < 2 || a.len() > 3 {
        return Err(DecodeError::InvalidField("slice"));
    }
    let mut out: Vec<Option<String>> = Vec::new();
    let mut k: usize = 0;
    while k < a.len()
        invariant
            k <= a@.len(),
            out@.len() == k,
            2 <= a@.len() <= 3,
            member(f@, "slice"@) == Some(JsonValue::Array(*a)),
            forall|m: int| 0 <= m < k ==> is_slice_entry(#[trigger] a@[m]) && out@[m] == slice_entry(a@[m]),
        decreases a.len() - k,
    {
        match &a[k] {
            JsonValue::Null => out.push(None),
            JsonValue::Number(s) => out.push(Some(s.clone())),
            _ => {
                assert(!is_slice_entry(a@[k as int]));
                return Err(DecodeError::InvalidField("slice"));
            },
        }
        k = k + 1;
    }
    Ok(Some(out))
}

pub open spec fn scenario_err(j: JsonValue) -> Option<DecodeError> {
    match j {
        JsonValue::Object(f) => first_err(err_of(req_str_spec(f@, "name")), first_err(
            match member(f@, "size"@) {
                None => Some(DecodeError::MissingField("size")),
                Some(JsonValue::Number(_)) => None,
                Some(_) => Some(DecodeError::InvalidField("size")),
            }, first_err(slice_err(f@),
            match member(f@, "ensemble_names"@) {
                None => None,
                Some(JsonValue::Null) => None,
                Some(JsonValue::Array(a)) => if forall|i: int| 0 <= i < a@.len() ==> (#[trigger] a@[i]) is Str {
                    None
                } else {
                    Some(DecodeError::InvalidField("ensemble_names"))
                },
                Some(_) => Some(DecodeError::InvalidField("ensemble_names")),
            }))),
        _ => Some(DecodeError::NotAnObject),
    }
}

pub open spec fn scenario_ok(j: JsonValue, s: Scenario) -> bool {
    scenario_err(j) is None && match j {
        JsonValue::Object(f) => req_str_spec(f@, "name") == Ok::<String, DecodeError>(s.name)
            && member(f@, "size"@) == Some(JsonValue::Number(s.size)) && slice_ok(f@, s.slice) && match member(f@, "ensemble_names"@) {
                Some(JsonValue::Array(a)) => match s.ensemble_names {
                    Some(v) => v@.len() == a@.len() && forall|i: int|
                        0 <= i < a@.len() ==> (#[trigger] a@[i]) == JsonValue::Str(v@[i]),
                    None => false,
                },
                _ => s.ensemble_names is None,
            },
        _ => false,
    }
}

fn decode_names(a: &Vec<JsonValue>) -> (r: Option<Vec<String>>)
    ensures
        match r {
            Some(v) => v@.len() == a@.len() && forall|m: int| 0 <= m < a@.len() ==> (#[trigger] a@[m]) == JsonValue::Str(v@[m]),
            None => !(forall|m: int| 0 <= m < a@.len() ==> (#[trigger] a@[m]) is Str),
        },
{
    let mut out: Vec<String> = Vec::new();
    let mut k: usize = 0;
    while k < a.len()
        invariant
            k <= a@.len(),
            out@.len() == k,
            forall|m: int| 0 <= m < k ==> (#[trigger] a@[m]) == JsonValue::Str(out@[m]),
        decreases a.len() - k,
    {
        match &a[k] {
            JsonValue::Str(s) => out.push(s.clone()),
            _ => {
                assert(!(a@[k as int] is Str));
                return None;
            },
        }
        k = k + 1;
    }
    Some(out)
}

impl Scenario {
    pub fn from_json(j: &JsonValue) -> (r: Result<Scenario, DecodeError>)
        ensures
            match r {
                Ok(s) => scenario_ok(*j, s),
                Err(e) => scenario_err(*j) == Some(e),
            },
    {
        let f = match j {
            JsonValue::Object(f) => f,
            _ => return Err(DecodeError::NotAnObject),
        };
        let name = req_str(f, "name")?;
        proof {
            lemma_member_at(f@, "size"@);
            lemma_member_at(f@, "ensemble_names"@);
        }
        let size = match find_member(f, "size") {
            None => return Err(DecodeError::MissingField("size")),
            Some(i) => match &f[i].1 {
                JsonValue::Number(s) => s.clone(),
                _ => return Err(DecodeError::InvalidField("size")),
            },
        };
        let slice = validate_scenario_slice_length(f)?;
        let ensemble_names = match find_member(f, "ensemble_names") {
            None => None,
            Some(i) => match &f[i].1 {
                JsonValue::Null => None,
                JsonValue::Array(a) => match decode_names(a) {
                    Some(v) => Some(v),
                    None => return Err(DecodeError::InvalidField("ensemble_names")),
                },
                _ => return Err(DecodeError::InvalidField("ensemble_names")),
            },
        };
        Ok(Scenario { name, size, slice, ensemble_names })
    }
}

// ----- lists of entities -----

pub open spec fn node_json_err(j: JsonValue) -> Option<DecodeError> {
    match j {
        JsonValue::Object(f) => node_err(f@),
        _ => Some(DecodeError::NotAnObject),
    }
}

pub open spec fn node_json_ok(j: JsonValue, n: Node) -> bool {
    match j {
        JsonValue::Object(f) => node_err(f@) is None && node_ok(f@, n),
        _ => false,
    }
}

pub open spec fn node_check() -> spec_fn(JsonValue) -> Option<DecodeError> {
    |j: JsonValue| node_json_err(j)
}

pub open spec fn edge_check() -> spec_fn(JsonValue) -> Option<DecodeError> {
    |j: JsonValue| err_of(edge_spec(j))
}

pub open spec fn scenario_check() -> spec_fn(JsonValue) -> Option<DecodeError> {
    |j: JsonValue| scenario_err(j)
}

/// An optional list member whose items `check` decodes.
pub open spec fn list_err(f: Seq<(String, JsonValue)>, key: &'static str, check: spec_fn(JsonValue) -> Option<DecodeError>) -> Option<DecodeError> {
    match member(f, key@) {
        None => None,
        Some(JsonValue::Null) => None,
        Some(JsonValue::Array(a)) => first_error(a@, check),
        Some(_) => Some(DecodeError::InvalidField(key)),
    }
}

/// The items of an optional list member: `None` where absent or null.
pub open spec fn list_items(f: Seq<(String, JsonValue)>, key: &'static str) -> Option<Seq<JsonValue>> {
    match member(f, key@) {
        Some(JsonValue::Array(a)) => Some(a@),
        _ => None,
    }
}

pub open spec fn nodes_ok(f: Seq<(String, JsonValue)>, v: Option<Vec<Node>>) -> bool {
    match list_items(f, "nodes") {
        Some(a) => v is Some && v->Some_0@.len() == a.len() && forall|i: int|
            0 <= i < a.len() ==> node_json_ok(#[trigger] a[i], v->Some_0@[i]),
        None => v is None,
    }
}

pub open spec fn edges_ok(f: Seq<(String, JsonValue)>, v: Option<Vec<Edge>>) -> bool {
    match list_items(f, "edges") {
        Some(a) => v is Some && v->Some_0@.len() == a.len() && forall|i: int|
            0 <= i < a.len() ==> edge_spec(#[trigger] a[i]) == Ok::<Edge, DecodeError>(v->Some_0@[i]),
        None => v is None,
    }
}

pub open spec fn scenarios_ok(f: Seq<(String, JsonValue)>, v: Option<Vec<Scenario>>) -> bool {
    match list_items(f, "scenarios") {
        Some(a) => v is Some && v->Some_0@.len() == a.len() && forall|i: int|
            0 <= i < a.len() ==> scenario_ok(#[trigger] a[i], v->Some_0@[i]),
        None => v is None,
    }
}

/// An optional named-map member.
pub open spec fn map_err(f: Seq<(String, JsonValue)>, key: &'static str, inner: spec_fn(Seq<(String, JsonValue)>) -> Option<DecodeError>) -> Option<DecodeError> {
    match member(f, key@) {
        None => None,
        Some(JsonValue::Null) => None,
        Some(JsonValue::Object(s)) => inner(s@),
        Some(_) => Some(DecodeError::NotAnObject),
    }
}

pub open spec fn map_entries(f: Seq<(String, JsonValue)>, key: &'static str) -> Option<Seq<(String, JsonValue)>> {
    match member(f, key@) {
        Some(JsonValue::Object(s)) => Some(s@),
        _ => None,
    }
}

/// What decoding the members of a document as a network fails with, if it fails.
pub open spec fn network_err(f: Seq<(String, JsonValue)>) -> Option<DecodeError> {
    first_err(list_err(f, "nodes", node_check()), first_err(list_err(f, "edges", edge_check()),
        first_err(map_err(f, "parameters", |s: Seq<(String, JsonValue)>| parameters_err(s)),
        map_err(f, "tables", |s: Seq<(String, JsonValue)>| tables_err(s)))))
}

/// `n` is what the members of a document decode to as a network.
pub open spec fn network_ok(f: Seq<(String, JsonValue)>, n: PywrNetwork) -> bool {
    &&& network_err(f) is None
    &&& nodes_ok(f, n.nodes)
    &&& edges_ok(f, n.edges)
    &&& match map_entries(f, "parameters") {
        Some(s) => n.parameters is Some && parameters_ok(s, n.parameters->Some_0.0@),
        None => n.parameters is None,
    }
    &&& match map_entries(f, "tables") {
        Some(s) => n.tables is Some && tables_ok(s, n.tables->Some_0.0@),
        None => n.tables is None,
    }
    &&& match member(f, "recorders"@) {
        None => n.recorders is None,
        Some(JsonValue::Null) => n.recorders is None,
        Some(r) => n.recorders is Some && json_alike(r, n.recorders->Some_0),
    }
}

fn decode_nodes(f: &Vec<(String, JsonValue)>) -> (r: Result<Option<Vec<Node>>, DecodeError>)
    ensures
        match r {
            Ok(v) => list_err(f@, "nodes", node_check()) is None && nodes_ok(f@, v),
            Err(e) => list_err(f@, "nodes", node_check()) == Some(e),
        },
{
    proof { lemma_member_at(f@, "nodes"@); }
    let a = match find_member(f, "nodes") {
        None => return Ok(None),
        Some(i) => match &f[i].1 {
            JsonValue::Null => return Ok(None),
            JsonValue::Array(a) => a,
            _ => return Err(DecodeError::InvalidField("nodes")),
        },
    };
    let ghost c = node_check();
    let mut out: Vec<Node> = Vec::with_capacity(a.len());
    let mut i: usize = 0;
    while i < a.len()
        invariant
            i <= a@.len(),
            out@.len() == i,
            c == node_check(),
            member(f@, "nodes"@) == Some(JsonValue::Array(*a)),
            forall|k: int| 0 <= k < i ==> c(#[trigger] a@[k]) is None,
            forall|k: int| 0 <= k < i ==> node_json_ok(#[trigger] a@[k], out@[k]),
        decreases a.len() - i,
    {
        proof { assert(c(a@[i as int]) == node_json_err(a@[i as int])); }
        match Node::from_json(&a[i]) {
            Ok(n) => out.push(n),
            Err(e) => {
                proof { lemma_first_error_at(a@, c, i as int); }
                return Err(e);
            },
        }
        i = i + 1;
    }
    proof { lemma_first_error_none(a@, c); }
    Ok(Some(out))
}

fn decode_edges(f: &Vec<(String, JsonValue)>) -> (r: Result<Option<Vec<Edge>>, DecodeError>)
    ensures
        match r {
            Ok(v) => list_err(f@, "edges", edge_check()) is None && edges_ok(f@, v),
            Err(e) => list_err(f@, "edges", edge_check()) == Some(e),
        },
{
    proof { lemma_member_at(f@, "edges"@); }
    let a = match find_member(f, "edges") {
        None => return Ok(None),
        Some(i) => match &f[i].1 {
            JsonValue::Null => return Ok(None),
            JsonValue::Array(a) => a,
            _ => return Err(DecodeError::InvalidField("edges")),
        },
    };
    let ghost c = edge_check();
    let mut out: Vec<Edge> = Vec::with_capacity(a.len());
    let mut i: usize = 0;
    while i < a.len()
        invariant
            i <= a@.len(),
            out@.len() == i,
            c == edge_check(),
            member(f@, "edges"@) == Some(JsonValue::Array(*a)),
            forall|k: int| 0 <= k < i ==> c(#[trigger] a@[k]) is None,
            forall|k: int| 0 <= k < i ==> edge_spec(#[trigger] a@[k]) == Ok::<Edge, DecodeError>(out@[k]),
        decreases a.len() - i,
    {
        proof { assert(c(a@[i as int]) == err_of(edge_spec(a@[i as int]))); }
        match Edge::from_json(&a[i]) {
            Ok(e) => out.push(e),
            Err(e) => {
                proof { lemma_first_error_at(a@, c, i as int); }
                return Err(e);
            },
        }
        i = i + 1;
    }
    proof { lemma_first_error_none(a@, c); }
    Ok(Some(out))
}

fn decode_scenarios(f: &Vec<(String, JsonValue)>) -> (r: Result<Option<Vec<Scenario>>, DecodeError>)
    ensures
        match r {
            Ok(v) => list_err(f@, "scenarios", scenario_check()) is None && scenarios_ok(f@, v),
            Err(e) => list_err(f@, "scenarios", scenario_check()) == Some(e),
        },
{
    proof { lemma_member_at(f@, "scenarios"@); }
    let a = match find_member(f, "scenarios") {
        None => return Ok(None),
        Some(i) => match &f[i].1 {
            JsonValue::Null => return Ok(None),
            JsonValue::Array(a) => a,
            _ => return Err(DecodeError::InvalidField("scenarios")),
        },
    };
    let ghost c = scenario_check();
    let mut out: Vec<Scenario> = Vec::with_capacity(a.len());
    let mut i: usize = 0;
    while i < a.len()
        invariant
            i <= a@.len(),
            out@.len() == i,
            c == scenario_check(),
            member(f@, "scenarios"@) == Some(JsonValue::Array(*a)),
            forall|k: int| 0 <= k < i ==> c(#[trigger] a@[k]) is None,
            forall|k: int| 0 <= k < i ==> scenario_ok(#[trigger] a@[k], out@[k]),
        decreases a.len() - i,
    {
        proof { assert(c(a@[i as int]) == scenario_err(a@[i as int])); }
        match Scenario::from_json(&a[i]) {
            Ok(s) => out.push(s),
            Err(e) => {
                proof { lemma_first_error_at(a@, c, i as int); }
                return Err(e);
            },
        }
        i = i + 1;
    }
    proof { lemma_first_error_none(a@, c); }
    Ok(Some(out))
}

impl PywrNetwork {
    /// Decodes the network part of a document; it fails as a whole on the
    /// first entity that does not decode.
    pub fn from_json(j: &JsonValue) -> (r: Result<PywrNetwork, DecodeError>)
        ensures
            match *j {
                JsonValue::Object(f) => match r {
                    Ok(n) => network_ok(f@, n),
                    Err(e) => network_err(f@) == Some(e),
                },
                _ => r == Err::<PywrNetwork, DecodeError>(DecodeError::NotAnObject),
            },
    {
        let f = match j {
            JsonValue::Object(f) => f,
            _ => return Err(DecodeError::NotAnObject),
        };
        let nodes = decode_nodes(f)?;
        let edges = decode_edges(f)?;
        proof {
            lemma_member_at(f@, "parameters"@);
            lemma_member_at(f@, "tables"@);
            lemma_member_at(f@, "recorders"@);
        }
        let parameters = match find_member(f, "parameters") {
            None => None,
            Some(i) => match &f[i].1 {
                JsonValue::Null => None,
                p => Some(ParameterVec::from_json(p)?),
            },
        };
        let tables = match find_member(f, "tables") {
            None => None,
            Some(i) => match &f[i].1 {
                JsonValue::Null => None,
                t => Some(TableVec::from_json(t)?),
            },
        };
        let recorders = match find_member(f, "recorders") {
            None => None,
            Some(i) => match &f[i].1 {
                JsonValue::Null => None,
                x => Some(copy_json(x)),
            },
        };
        Ok(PywrNetwork { nodes, edges, parameters, tables, recorders })
    }
}

/// What decoding a document fails with, if it fails: metadata, time
/// stepping, scenarios, then the network.
pub open spec fn model_err(f: Seq<(String, JsonValue)>) -> Option<DecodeError> {
    let md = match member(f, "metadata"@) {
        None => Some(DecodeError::MissingField("metadata")),
        Some(m) => err_of(metadata_spec(m)),
    };
    let ts = match member(f, "timestepper"@) {
        None => Some(DecodeError::MissingField("timestepper")),
        Some(t) => err_of(timestepper_spec(t)),
    };
    first_err(md, first_err(ts, first_err(list_err(f, "scenarios", scenario_check()), network_err(f))))
}

pub open spec fn model_ok(f: Seq<(String, JsonValue)>, m: PywrModel) -> bool {
    &&& model_err(f) is None
    &&& member(f, "metadata"@) is Some && metadata_spec(member(f, "metadata"@)->Some_0) == Ok::<Metadata, DecodeError>(m.metadata)
    &&& member(f, "timestepper"@) is Some
    &&& timestepper_spec(member(f, "timestepper"@)->Some_0) == Ok::<Timestepper, DecodeError>(m.timestepper)
    &&& scenarios_ok(f, m.scenarios)
    &&& network_ok(f, m.network)
}

impl PywrModel {
    /// Decodes a whole document. Nothing partial is returned: the first part
    /// that does not decode fails the whole.
    pub fn from_json(j: &JsonValue) -> (r: Result<PywrModel, DecodeError>)
        ensures
            match *j {
                JsonValue::Object(f) => match r {
                    Ok(m) => model_ok(f@, m),
                    Err(e) => model_err(f@) == Some(e),
                },
                _ => r == Err::<PywrModel, DecodeError>(DecodeError::NotAnObject),
            },
    {
        let f = match j {
            JsonValue::Object(f) => f,
            _ => return Err(DecodeError::NotAnObject),
        };
        proof {
            lemma_member_at(f@, "metadata"@);
            lemma_member_at(f@, "timestepper"@);
        }
        let metadata = match find_member(f, "metadata") {
            None => return Err(DecodeError::MissingField("metadata")),
            Some(i) => Metadata::from_json(&f[i].1)?,
        };
        let timestepper = match find_member(f, "timestepper") {
            None => return Err(DecodeError::MissingField("timestepper")),
            Some(i) => Timestepper::from_json(&f[i].1)?,
        };
        let scenarios = decode_scenarios(f)?;
        let network = PywrNetwork::from_json(j)?;
        Ok(PywrModel { metadata, timestepper, scenarios, network })
    }
}

} // verus!
