use vstd::prelude::*;
use crate::json::{JsonValue, DecodeError, member, lemma_first_error_none};
use crate::parameters::Parameter;
use crate::decode::{copy_json, lemma_json_alike_symmetric};
use crate::encode::{put, put_member, parameter_encodable};
use crate::node_encode::node_encodable;
use crate::nodes::Node;
use crate::edge::{Edge, edge_encodes, edge_spec, lemma_edge_round_trip};
use crate::tables::lemma_tables_round_trip;
use crate::parameter_map::{parameters_encode, lemma_parameters_round_trip};
use crate::network::parameter_name;
use crate::model::{PywrNetwork, PywrModel, Metadata, Timestepper, Timestep, Scenario, network_ok, model_ok,
    node_json_ok, node_json_err, node_check, edge_check, scenario_check, scenario_ok, scenario_err, metadata_spec,
    timestepper_spec, is_slice_entry, slice_entry};

verus! {

/// A network that its encoding gives back: built-in nodes and parameters all
/// the way down, named parameters, edges whose slots are both present or both
/// absent, and recorders that are not null.
pub open spec fn network_encodable(n: PywrNetwork) -> bool {
    &&& (n.nodes is Some ==> forall|i: int| 0 <= i < n.nodes->Some_0@.len()
        ==> node_encodable(#[trigger] n.nodes->Some_0@[i]))
    &&& (n.edges is Some ==> forall|i: int| 0 <= i < n.edges->Some_0@.len()
        ==> ((#[trigger] n.edges->Some_0@[i]).from_slot is Some <==> n.edges->Some_0@[i].to_slot is Some))
    &&& (n.parameters is Some ==> forall|i: int| 0 <= i < n.parameters->Some_0.0@.len()
        ==> parameter_encodable(#[trigger] n.parameters->Some_0.0@[i]))
    &&& n.recorders != Some(JsonValue::Null)
}

fn encode_nodes(v: &Vec<Node>) -> (r: Vec<JsonValue>)
    ensures
        r@.len() == v@.len(),
        forall|i: int| 0 <= i < v@.len() && node_encodable(#[trigger] v@[i]) ==> node_json_ok(r@[i], v@[i]),
{
    let mut out: Vec<JsonValue> = Vec::new();
    let mut i: usize = 0;
    while i < v.len()
        invariant
            i <= v@.len(),
            out@.len() == i,
            forall|k: int| 0 <= k < i && node_encodable(#[trigger] v@[k]) ==> node_json_ok(out@[k], v@[k]),
        decreases v.len() - i,
    {
        out.push(v[i].to_json());
        i = i + 1;
    }
    out
}

fn encode_edges(v: &Vec<Edge>) -> (r: Vec<JsonValue>)
    ensures
        r@.len() == v@.len(),
        forall|i: int| 0 <= i < v@.len() ==> edge_encodes(#[trigger] v@[i], r@[i]),
{
    let mut out: Vec<JsonValue> = Vec::new();
    let mut i: usize = 0;
    while i < v.len()
        invariant
            i <= v@.len(),
            out@.len() == i,
            forall|k: int| 0 <= k < i ==> edge_encodes(#[trigger] v@[k], out@[k]),
        decreases v.len() - i,
    {
        out.push(v[i].to_json());
        i = i + 1;
    }
    out
}

/// Appends the members of a network to an object that has none of them yet.
fn put_network(f: &mut Vec<(String, JsonValue)>, n: &PywrNetwork) -> (r: Result<(), DecodeError>)
    requires
        member(old(f)@, "nodes"@) is None,
        member(old(f)@, "edges"@) is None,
        member(old(f)@, "parameters"@) is None,
        member(old(f)@, "tables"@) is None,
        member(old(f)@, "recorders"@) is None,
    ensures
        match r {
            Ok(_) => (network_encodable(*n) ==> network_ok(final(f)@, *n)) && forall|key: Seq<char>| key != "nodes"@
                && key != "edges"@ && key != "parameters"@ && key != "tables"@ && key != "recorders"@
                ==> #[trigger] member(final(f)@, key) == member(old(f)@, key),
            Err(e) => e == DecodeError::MissingName && n.parameters is Some && exists|i: int|
                0 <= i < n.parameters->Some_0.0@.len()
                && parameter_name(#[trigger] n.parameters->Some_0.0@[i]) is None,
        },
        (n.parameters is Some ==> forall|i: int| 0 <= i < n.parameters->Some_0.0@.len()
            ==> parameter_name(#[trigger] n.parameters->Some_0.0@[i]) is Some) ==> r is Ok,
{
    proof { crate::encode::lemma_literals(); }
    let ghost mut nodes_json: Option<Vec<JsonValue>> = None;
    let ghost mut edges_json: Option<Vec<JsonValue>> = None;
    match &n.nodes {
        Some(v) => {
            let a = encode_nodes(v);
            proof { nodes_json = Some(a); }
            put(f, "nodes", JsonValue::Array(a));
        },
        None => {},
    }
    match &n.edges {
        Some(v) => {
            let a = encode_edges(v);
            proof { edges_json = Some(a); }
            put(f, "edges", JsonValue::Array(a));
        },
        None => {},
    }
    let ghost mut params_json: Option<JsonValue> = None;
    match &n.parameters {
        Some(p) => {
            let j = p.to_json()?;
            proof { params_json = Some(j); }
            put(f, "parameters", j);
        },
        None => {},
    }
    let ghost mut tables_json: Option<JsonValue> = None;
    match &n.tables {
        Some(t) => {
            let j = t.to_json();
            proof { tables_json = Some(j); }
            put(f, "tables", j);
        },
        None => {},
    }
    match &n.recorders {
        Some(x) => {
            let c = copy_json(x);
            proof { lemma_json_alike_symmetric(*x, c); }
            put(f, "recorders", c);
        },
        None => {},
    }
    proof {
        if network_encodable(*n) {
            if n.nodes is Some {
                let v = n.nodes->Some_0;
                let a = nodes_json->Some_0@;
                assert(member(f@, "nodes"@) == Some(JsonValue::Array(nodes_json->Some_0)));
                let c = node_check();
                assert forall|i: int| 0 <= i < a.len() implies c(#[trigger] a[i]) is None by {
                    assert(node_encodable(v@[i]));
                    assert(node_json_ok(a[i], v@[i]));
                    assert(c(a[i]) == node_json_err(a[i]));
                }
                lemma_first_error_none(a, c);
            }
            if n.edges is Some {
                let v = n.edges->Some_0;
                let a = edges_json->Some_0@;
                assert(member(f@, "edges"@) == Some(JsonValue::Array(edges_json->Some_0)));
                let c = edge_check();
                assert forall|i: int| 0 <= i < a.len() implies c(#[trigger] a[i]) is None
                    && edge_spec(a[i]) == Ok::<Edge, DecodeError>(v@[i]) by {
                    assert(edge_encodes(v@[i], a[i]));
                    lemma_edge_round_trip(v@[i], a[i]);
                }
                lemma_first_error_none(a, c);
            }
            if n.parameters is Some {
                let p = n.parameters->Some_0;
                let e = params_json->Some_0->Object_0@;
                assert(member(f@, "parameters"@) == params_json);
                lemma_parameters_round_trip(p.0@, e);
            }
            if n.tables is Some {
                let t = n.tables->Some_0;
                let e = tables_json->Some_0->Object_0@;
                assert(member(f@, "tables"@) == tables_json);
                lemma_tables_round_trip(t.0@, e);
            }
        }
    }
    Ok(())
}


impl PywrNetwork {
    /// Encodes the network as a JSON object: its nodes, edges, parameters,
    /// tables and recorders, each where present. Decoding the result gives the
    /// network back. Every parameter needs a name for that: a nameless one is
    /// an error.
    pub fn to_json(&self) -> (r: Result<JsonValue, DecodeError>)
        ensures
            match r {
                Ok(j) => j is Object && (network_encodable(*self) ==> network_ok(j->Object_0@, *self)),
                Err(e) => e == DecodeError::MissingName && self.parameters is Some && exists|i: int|
                    0 <= i < self.parameters->Some_0.0@.len()
                    && parameter_name(#[trigger] self.parameters->Some_0.0@[i]) is None,
            },
            (self.parameters is Some ==> forall|i: int| 0 <= i < self.parameters->Some_0.0@.len()
                ==> parameter_name(#[trigger] self.parameters->Some_0.0@[i]) is Some) ==> r is Ok,
    {
        let mut f: Vec<(String, JsonValue)> = Vec::new();
        assert(forall|key: Seq<char>| #[trigger] member(f@, key) is None);
        put_network(&mut f, self)?;
        Ok(JsonValue::Object(f))
    }
}

fn opt_str_member(f: &mut Vec<(String, JsonValue)>, k: &str, v: &Option<String>)
    ensures
        forall|key: Seq<char>| #[trigger] member(final(f)@, key) == match *v {
            Some(x) => put_member(member(old(f)@, key), k@, key, JsonValue::Str(x)),
            None => member(old(f)@, key),
        },
{
    match v {
        Some(x) => put(f, k, JsonValue::Str(x.clone())),
        None => {},
    }
}

/// Encodes the metadata of a document; decoding it gives it back.
pub fn encode_metadata(m: &Metadata) -> (r: JsonValue)
    ensures
        metadata_spec(r) == Ok::<Metadata, DecodeError>(*m),
{
    proof { crate::encode::lemma_literals(); }
    let mut f: Vec<(String, JsonValue)> = Vec::new();
    assert(forall|key: Seq<char>| #[trigger] member(f@, key) is None);
    opt_str_member(&mut f, "title", &m.title);
    opt_str_member(&mut f, "description", &m.description);
    opt_str_member(&mut f, "minimum_version", &m.minimum_version);
    JsonValue::Object(f)
}

/// Encodes the time stepping of a document; decoding it gives it back.
pub fn encode_timestepper(t: &Timestepper) -> (r: JsonValue)
    ensures
        timestepper_spec(r) == Ok::<Timestepper, DecodeError>(*t),
{
    proof { crate::encode::lemma_literals(); }
    let mut f: Vec<(String, JsonValue)> = Vec::new();
    assert(forall|key: Seq<char>| #[trigger] member(f@, key) is None);
    put(&mut f, "start", JsonValue::Str(t.start.clone()));
    put(&mut f, "end", JsonValue::Str(t.end.clone()));
    let step = match &t.timestep {
        Timestep::Days(s) => JsonValue::Number(s.clone()),
        Timestep::Frequency(s) => JsonValue::Str(s.clone()),
    };
    put(&mut f, "timestep", step);
    JsonValue::Object(f)
}

/// A scenario that its encoding gives back: a slice, where there is one, of two or three entries.
pub open spec fn scenario_encodable(s: Scenario) -> bool {
    s.slice is Some ==> 2 <= s.slice->Some_0@.len() <= 3
}

/// Encodes a scenario; decoding it gives it back.
pub fn encode_scenario(s: &Scenario) -> (r: JsonValue)
    ensures
        scenario_encodable(*s) ==> scenario_ok(r, *s),
{
    proof { crate::encode::lemma_literals(); }
    let mut f: Vec<(String, JsonValue)> = Vec::new();
    assert(forall|key: Seq<char>| #[trigger] member(f@, key) is None);
    put(&mut f, "name", JsonValue::Str(s.name.clone()));
    put(&mut f, "size", JsonValue::Number(s.size.clone()));
    match &s.slice {
        Some(v) => {
            let mut a: Vec<JsonValue> = Vec::new();
            let mut i: usize = 0;
            while i < v.len()
                invariant
                    i <= v@.len(),
                    a@.len() == i,
                    forall|k: int| 0 <= k < i ==> is_slice_entry(#[trigger] a@[k]) && slice_entry(a@[k]) == v@[k],
                decreases v.len() - i,
            {
                match &v[i] {
                    Some(x) => a.push(JsonValue::Number(x.clone())),
                    None => a.push(JsonValue::Null),
                }
                i = i + 1;
            }
            put(&mut f, "slice", JsonValue::Array(a));
        },
        None => {},
    }
    match &s.ensemble_names {
        Some(v) => {
            let mut a: Vec<JsonValue> = Vec::new();
            let mut i: usize = 0;
            while i < v.len()
                invariant
                    i <= v@.len(),
                    a@.len() == i,
                    forall|k: int| 0 <= k < i ==> (#[trigger] a@[k]) == JsonValue::Str(v@[k]),
                decreases v.len() - i,
            {
                a.push(JsonValue::Str(v[i].clone()));
                i = i + 1;
            }
            put(&mut f, "ensemble_names", JsonValue::Array(a));
        },
        None => {},
    }
    JsonValue::Object(f)
}

fn encode_scenarios(v: &Vec<Scenario>) -> (r: Vec<JsonValue>)
    ensures
        r@.len() == v@.len(),
        forall|i: int| 0 <= i < v@.len() && scenario_encodable(#[trigger] v@[i]) ==> scenario_ok(r@[i], v@[i]),
{
    let mut out: Vec<JsonValue> = Vec::new();
    let mut i: usize = 0;
    while i < v.len()
        invariant
            i <= v@.len(),
            out@.len() == i,
            forall|k: int| 0 <= k < i && scenario_encodable(#[trigger] v@[k]) ==> scenario_ok(out@[k], v@[k]),
        decreases v.len() - i,
    {
        out.push(encode_scenario(&v[i]));
        i = i + 1;
    }
    out
}

/// A model that its encoding gives back: its scenarios and its network are.
pub open spec fn model_encodable(m: PywrModel) -> bool {
    &&& (m.scenarios is Some ==> forall|i: int| 0 <= i < m.scenarios->Some_0@.len()
        ==> scenario_encodable(#[trigger] m.scenarios->Some_0@[i]))
    &&& network_encodable(m.network)
}

impl PywrModel {
    /// Encodes a whole document: metadata, time stepping, scenarios where
    /// present, then the members of the network. Decoding the result gives the
    /// model back. Every parameter needs a name for that: a nameless one is an
    /// error.
    pub fn to_json(&self) -> (r: Result<JsonValue, DecodeError>)
        ensures
            match r {
                Ok(j) => j is Object && (model_encodable(*self) ==> model_ok(j->Object_0@, *self)),
                Err(e) => e == DecodeError::MissingName && self.network.parameters is Some && exists|i: int|
                    0 <= i < self.network.parameters->Some_0.0@.len()
                    && parameter_name(#[trigger] self.network.parameters->Some_0.0@[i]) is None,
            },
            (self.network.parameters is Some ==> forall|i: int| 0 <= i < self.network.parameters->Some_0.0@.len()
                ==> parameter_name(#[trigger] self.network.parameters->Some_0.0@[i]) is Some) ==> r is Ok,
    {
        proof { crate::encode::lemma_literals(); }
        let mut f: Vec<(String, JsonValue)> = Vec::new();
        assert(forall|key: Seq<char>| #[trigger] member(f@, key) is None);
        let md = encode_metadata(&self.metadata);
        let ghost gmd = md;
        put(&mut f, "metadata", md);
        let ts = encode_timestepper(&self.timestepper);
        let ghost gts = ts;
        put(&mut f, "timestepper", ts);
        let ghost mut scenarios_json: Option<Vec<JsonValue>> = None;
        match &self.scenarios {
            Some(v) => {
                let a = encode_scenarios(v);
                proof { scenarios_json = Some(a); }
                put(&mut f, "scenarios", JsonValue::Array(a));
            },
            None => {},
        }
        put_network(&mut f, &self.network)?;
        proof {
            assert(member(f@, "metadata"@) == Some(gmd));
            assert(member(f@, "timestepper"@) == Some(gts));
            if model_encodable(*self) && self.scenarios is Some {
                let v = self.scenarios->Some_0;
                let a = scenarios_json->Some_0@;
                assert(member(f@, "scenarios"@) == Some(JsonValue::Array(scenarios_json->Some_0)));
                let c = scenario_check();
                assert forall|i: int| 0 <= i < a.len() implies c(#[trigger] a[i]) is None by {
                    assert(scenario_encodable(v@[i]));
                    assert(scenario_ok(a[i], v@[i]));
                    assert(c(a[i]) == scenario_err(a[i]));
                }
                lemma_first_error_none(a, c);
            }
        }
        Ok(JsonValue::Object(f))
    }
}

} // verus!
