use vstd::prelude::*;
use crate::json::{JsonValue, member, small_number_text};
use crate::parameters::{ParameterValue, members_alike};
use crate::decode::{copy_json, copy_members, lemma_json_alike_symmetric};
use crate::encode::{lemma_literals, put, put_opt, put_opt_numbers, value_encodable, values_encodable, encode_value, encode_values,
    lemma_values_ok_no_err, lemma_value_ok_no_err};
use crate::tags::{NodeKind, node_kind_of_tag};
use crate::nodes::{NodeMeta, CoreNode, Node, node_meta_ok, opt_value_ok, core_node_ok, core_node_kind, node_ok,
    node_err, storage_account_err, storage_account_ok};

verus! {

/// The canonical tag of each node kind.
pub open spec fn node_kind_tag(k: NodeKind) -> Seq<char> {
    match k {
        NodeKind::Input => "input"@,
        NodeKind::Link => "link"@,
        NodeKind::River => "river"@,
        NodeKind::Output => "output"@,
        NodeKind::Storage => "storage"@,
        NodeKind::Catchment => "catchment"@,
        NodeKind::Aggregated => "aggregated"@,
        NodeKind::Reservoir => "reservoir"@,
        NodeKind::VirtualStorage => "virtualstorage"@,
        NodeKind::AnnualVirtualStorage => "annualvirtualstorage"@,
        NodeKind::MonthlyVirtualStorage => "monthlyvirtualstorage"@,
        NodeKind::SeasonalVirtualStorage => "seasonalvirtualstorage"@,
        NodeKind::RollingVirtualStorage => "rollingvirtualstorage"@,

    }
}

pub open spec fn node_kind_of_core(n: CoreNode) -> NodeKind {
    match n {
        CoreNode::Input(_) => NodeKind::Input,
        CoreNode::Link(_) => NodeKind::Link,
        CoreNode::River(_) => NodeKind::River,
        CoreNode::Output(_) => NodeKind::Output,
        CoreNode::Storage(_) => NodeKind::Storage,
        CoreNode::Catchment(_) => NodeKind::Catchment,
        CoreNode::Aggregated(_) => NodeKind::Aggregated,
        CoreNode::Reservoir(_) => NodeKind::Reservoir,
        CoreNode::VirtualStorage(_) => NodeKind::VirtualStorage,
        CoreNode::AnnualVirtualStorage(_) => NodeKind::AnnualVirtualStorage,
        CoreNode::MonthlyVirtualStorage(_) => NodeKind::MonthlyVirtualStorage,
        CoreNode::SeasonalVirtualStorage(_) => NodeKind::SeasonalVirtualStorage,
        CoreNode::RollingVirtualStorage(_) => NodeKind::RollingVirtualStorage,

    }
}

pub open spec fn opt_value_encodable(v: Option<ParameterValue>) -> bool {
    match v {
        Some(x) => value_encodable(x),
        None => true,
    }
}

pub open spec fn core_node_meta(n: CoreNode) -> NodeMeta {
    match n {
        CoreNode::Input(x) => x.meta,
        CoreNode::Link(x) => x.meta,
        CoreNode::River(x) => x.meta,
        CoreNode::Output(x) => x.meta,
        CoreNode::Storage(x) => x.meta,
        CoreNode::Catchment(x) => x.meta,
        CoreNode::Aggregated(x) => x.meta,
        CoreNode::Reservoir(x) => x.meta,
        CoreNode::VirtualStorage(x) => x.meta,
        CoreNode::AnnualVirtualStorage(x) => x.meta,
        CoreNode::MonthlyVirtualStorage(x) => x.meta,
        CoreNode::SeasonalVirtualStorage(x) => x.meta,
        CoreNode::RollingVirtualStorage(x) => x.meta,

    }
}

/// A node that its encoding gives back: a built-in node whose parameter
/// values are built-in all the way down, with no null position.
pub open spec fn node_encodable(n: Node) -> bool {
    match n {
        Node::Core(c) => core_node_meta(c).position != Some(JsonValue::Null) && match c {
            CoreNode::Input(x) => opt_value_encodable(x.max_flow) && opt_value_encodable(x.min_flow)
                && opt_value_encodable(x.cost),
            CoreNode::Link(x) => opt_value_encodable(x.max_flow) && opt_value_encodable(x.min_flow)
                && opt_value_encodable(x.cost),
            CoreNode::River(x) => opt_value_encodable(x.max_flow) && opt_value_encodable(x.min_flow)
                && opt_value_encodable(x.cost),
            CoreNode::Output(x) => opt_value_encodable(x.max_flow) && opt_value_encodable(x.min_flow)
                && opt_value_encodable(x.cost),
            CoreNode::Storage(x) => opt_value_encodable(x.max_volume) && opt_value_encodable(x.min_volume)
                && opt_value_encodable(x.cost),
            CoreNode::Catchment(x) => opt_value_encodable(x.flow) && opt_value_encodable(x.cost),
            CoreNode::Aggregated(x) => opt_value_encodable(x.max_flow) && opt_value_encodable(x.min_flow)
                && match x.factors {
                    Some(v) => values_encodable(v@),
                    None => true,
                },
            CoreNode::Reservoir(x) => opt_value_encodable(x.max_volume) && opt_value_encodable(x.min_volume) && opt_value_encodable(x.cost),
            CoreNode::VirtualStorage(x) => opt_value_encodable(x.max_volume) && opt_value_encodable(x.min_volume) && opt_value_encodable(x.cost),
            CoreNode::AnnualVirtualStorage(x) => opt_value_encodable(x.max_volume) && opt_value_encodable(x.min_volume) && opt_value_encodable(x.cost) && 1 <= x.reset_month <= 12,
            CoreNode::MonthlyVirtualStorage(x) => opt_value_encodable(x.max_volume) && opt_value_encodable(x.min_volume) && opt_value_encodable(x.cost),
            CoreNode::SeasonalVirtualStorage(x) => opt_value_encodable(x.max_volume) && opt_value_encodable(x.min_volume) && opt_value_encodable(x.cost) && 1 <= x.reset_month <= 12 && 1 <= x.end_month <= 12,
            CoreNode::RollingVirtualStorage(x) => opt_value_encodable(x.max_volume) && opt_value_encodable(x.min_volume) && opt_value_encodable(x.cost),
        },
        Node::Custom(_) => false,
    }
}

fn put_node_meta(f: &mut Vec<(String, JsonValue)>, tag: &str, meta: &NodeMeta)
    requires
        old(f)@.len() == 0,
    ensures
        member(final(f)@, "type"@) is Some && member(final(f)@, "type"@)->Some_0 is Str
            && member(final(f)@, "type"@)->Some_0->Str_0@ == tag@,
        meta.position != Some(JsonValue::Null) ==> node_meta_ok(final(f)@, *meta),
        forall|key: Seq<char>| key != "type"@ && key != "name"@ && key != "comment"@ && key != "position"@
            ==> #[trigger] member(final(f)@, key) is None,
{
    proof { lemma_literals(); }
    assert(forall|key: Seq<char>| #[trigger] member(f@, key) is None);
    put(f, "type", JsonValue::Str(tag.to_string()));
    put(f, "name", JsonValue::Str(meta.name.clone()));
    match &meta.comment {
        Some(c) => put(f, "comment", JsonValue::Str(c.clone())),
        None => {},
    }
    match &meta.position {
        Some(p) => {
            let c = copy_json(p);
            proof { lemma_json_alike_symmetric(*p, c); }
            put(f, "position", c);
        },
        None => {},
    }
}

fn put_opt_value(f: &mut Vec<(String, JsonValue)>, k: &'static str, v: &Option<ParameterValue>)
    requires
        member(old(f)@, k@) is None,
    ensures
        opt_value_encodable(*v) ==> opt_value_ok(final(f)@, k, *v),
        forall|key: Seq<char>| key != k@ ==> #[trigger] member(final(f)@, key) == member(old(f)@, key),
{
    match v {
        Some(x) => {
            let j = encode_value(x);
            let ghost gj = j;
            put(f, k, j);
            proof {
                if value_encodable(*x) {
                    lemma_value_ok_no_err(gj, *x, k);
                }
            }
        },
        None => {},
    }
}

fn put_storage_account(f: &mut Vec<(String, JsonValue)>, nodes: &Vec<String>, factors: &Option<Vec<String>>,
    max_volume: &Option<ParameterValue>, min_volume: &Option<ParameterValue>, cost: &Option<ParameterValue>,
    initial_volume: &Option<String>, initial_volume_pc: &Option<String>)
    requires
        member(old(f)@, "nodes"@) is None,
        member(old(f)@, "factors"@) is None,
        member(old(f)@, "max_volume"@) is None,
        member(old(f)@, "min_volume"@) is None,
        member(old(f)@, "cost"@) is None,
        member(old(f)@, "initial_volume"@) is None,
        member(old(f)@, "initial_volume_pc"@) is None,
    ensures
        opt_value_encodable(*max_volume) && opt_value_encodable(*min_volume) && opt_value_encodable(*cost)
            ==> storage_account_err(final(f)@) is None && storage_account_ok(final(f)@, nodes@, *factors, *max_volume,
            *min_volume, *cost, *initial_volume, *initial_volume_pc),
        forall|key: Seq<char>| key != "nodes"@ && key != "factors"@ && key != "max_volume"@ && key != "min_volume"@
            && key != "cost"@ && key != "initial_volume"@ && key != "initial_volume_pc"@
            ==> #[trigger] member(final(f)@, key) == member(old(f)@, key),
{
    proof { lemma_literals(); }
    let mut names: Vec<JsonValue> = Vec::new();
    let mut i: usize = 0;
    while i < nodes.len()
        invariant
            i <= nodes@.len(),
            names@.len() == i,
            forall|k: int| 0 <= k < i ==> (#[trigger] names@[k]) == JsonValue::Str(nodes@[k]),
        decreases nodes.len() - i,
    {
        names.push(JsonValue::Str(nodes[i].clone()));
        i = i + 1;
    }
    put(f, "nodes", JsonValue::Array(names));
    put_opt_numbers(f, "factors", factors);
    put_opt_value(f, "max_volume", max_volume);
    put_opt_value(f, "min_volume", min_volume);
    put_opt_value(f, "cost", cost);
    match initial_volume {
        Some(v) => put(f, "initial_volume", JsonValue::Number(v.clone())),
        None => {},
    }
    match initial_volume_pc {
        Some(v) => put(f, "initial_volume_pc", JsonValue::Number(v.clone())),
        None => {},
    }
}

/// Encodes a built-in node's members: its canonical tag, its identity, then
/// its fields. Decoding them gives the node back.
pub fn encode_core_node(n: &CoreNode) -> (r: Vec<(String, JsonValue)>)
    ensures
        node_encodable(Node::Core(*n)) ==> core_node_ok(node_kind_of_core(*n), r@, *n),
        member(r@, "type"@) is Some && member(r@, "type"@)->Some_0 is Str
            && member(r@, "type"@)->Some_0->Str_0@ == node_kind_tag(node_kind_of_core(*n)),
{
    proof { lemma_literals(); }
    let mut f: Vec<(String, JsonValue)> = Vec::new();
    match n {
        CoreNode::Input(x) => {
            put_node_meta(&mut f, "input", &x.meta);
            put_opt_value(&mut f, "max_flow", &x.max_flow);
            put_opt_value(&mut f, "min_flow", &x.min_flow);
            put_opt_value(&mut f, "cost", &x.cost);
        },
        CoreNode::Link(x) => {
            put_node_meta(&mut f, "link", &x.meta);
            put_opt_value(&mut f, "max_flow", &x.max_flow);
            put_opt_value(&mut f, "min_flow", &x.min_flow);
            put_opt_value(&mut f, "cost", &x.cost);
        },
        CoreNode::River(x) => {
            put_node_meta(&mut f, "river", &x.meta);
            put_opt_value(&mut f, "max_flow", &x.max_flow);
            put_opt_value(&mut f, "min_flow", &x.min_flow);
            put_opt_value(&mut f, "cost", &x.cost);
        },
        CoreNode::Output(x) => {
            put_node_meta(&mut f, "output", &x.meta);
            put_opt_value(&mut f, "max_flow", &x.max_flow);
            put_opt_value(&mut f, "min_flow", &x.min_flow);
            put_opt_value(&mut f, "cost", &x.cost);
        },
        CoreNode::Storage(x) => {
            put_node_meta(&mut f, "storage", &x.meta);
            put_opt_value(&mut f, "max_volume", &x.max_volume);
            put_opt_value(&mut f, "min_volume", &x.min_volume);
            put_opt_value(&mut f, "cost", &x.cost);
            match &x.initial_volume {
                Some(v) => put(&mut f, "initial_volume", JsonValue::Number(v.clone())),
                None => {},
            }
            match &x.initial_volume_pc {
                Some(v) => put(&mut f, "initial_volume_pc", JsonValue::Number(v.clone())),
                None => {},
            }
        },
        CoreNode::Catchment(x) => {
            put_node_meta(&mut f, "catchment", &x.meta);
            put_opt_value(&mut f, "flow", &x.flow);
            put_opt_value(&mut f, "cost", &x.cost);
        },
        CoreNode::Aggregated(x) => {
            put_node_meta(&mut f, "aggregated", &x.meta);
            let mut names: Vec<JsonValue> = Vec::new();
            let mut i: usize = 0;
            while i < x.nodes.len()
                invariant
                    i <= x.nodes@.len(),
                    names@.len() == i,
                    forall|k: int| 0 <= k < i ==> (#[trigger] names@[k]) == JsonValue::Str(x.nodes@[k]),
                decreases x.nodes.len() - i,
            {
                names.push(JsonValue::Str(x.nodes[i].clone()));
                i = i + 1;
            }
            put(&mut f, "nodes", JsonValue::Array(names));
            put_opt_value(&mut f, "max_flow", &x.max_flow);
            put_opt_value(&mut f, "min_flow", &x.min_flow);
            match &x.factors {
                Some(v) => {
                    let a = encode_values(v);
                    let ghost ga = a;
                    put(&mut f, "factors", JsonValue::Array(a));
                    proof {
                        if values_encodable(v@) {
                            lemma_values_ok_no_err(ga@, v@, "factors");
                        }
                    }
                },
                None => {},
            }
        },
        CoreNode::Reservoir(x) => {
            put_node_meta(&mut f, "reservoir", &x.meta);
            put_opt_value(&mut f, "max_volume", &x.max_volume);
            put_opt_value(&mut f, "min_volume", &x.min_volume);
            put_opt_value(&mut f, "cost", &x.cost);
            match &x.initial_volume {
                Some(v) => put(&mut f, "initial_volume", JsonValue::Number(v.clone())),
                None => {},
            }
            match &x.initial_volume_pc {
                Some(v) => put(&mut f, "initial_volume_pc", JsonValue::Number(v.clone())),
                None => {},
            }
        },
        CoreNode::VirtualStorage(x) => {
            put_node_meta(&mut f, "virtualstorage", &x.meta);
            put_storage_account(&mut f, &x.nodes, &x.factors, &x.max_volume, &x.min_volume, &x.cost, &x.initial_volume,
                &x.initial_volume_pc);
        },
        CoreNode::AnnualVirtualStorage(x) => {
            put_node_meta(&mut f, "annualvirtualstorage", &x.meta);
            put_storage_account(&mut f, &x.nodes, &x.factors, &x.max_volume, &x.min_volume, &x.cost, &x.initial_volume,
                &x.initial_volume_pc);
            put(&mut f, "reset_day", JsonValue::Number(small_number_text(x.reset_day)));
            put(&mut f, "reset_month", JsonValue::Number(small_number_text(x.reset_month)));
            put(&mut f, "reset_to_initial_volume", JsonValue::Bool(x.reset_to_initial_volume));
        },
        CoreNode::MonthlyVirtualStorage(x) => {
            put_node_meta(&mut f, "monthlyvirtualstorage", &x.meta);
            put_storage_account(&mut f, &x.nodes, &x.factors, &x.max_volume, &x.min_volume, &x.cost, &x.initial_volume,
                &x.initial_volume_pc);
            put(&mut f, "months", JsonValue::Number(small_number_text(x.months)));
            put(&mut f, "initial_months", JsonValue::Number(small_number_text(x.initial_months)));
            put(&mut f, "reset_to_initial_volume", JsonValue::Bool(x.reset_to_initial_volume));
        },
        CoreNode::SeasonalVirtualStorage(x) => {
            put_node_meta(&mut f, "seasonalvirtualstorage", &x.meta);
            put_storage_account(&mut f, &x.nodes, &x.factors, &x.max_volume, &x.min_volume, &x.cost, &x.initial_volume,
                &x.initial_volume_pc);
            put(&mut f, "reset_day", JsonValue::Number(small_number_text(x.reset_day)));
            put(&mut f, "reset_month", JsonValue::Number(small_number_text(x.reset_month)));
            put(&mut f, "end_day", JsonValue::Number(small_number_text(x.end_day)));
            put(&mut f, "end_month", JsonValue::Number(small_number_text(x.end_month)));
            put(&mut f, "reset_to_initial_volume", JsonValue::Bool(x.reset_to_initial_volume));
        },
        CoreNode::RollingVirtualStorage(x) => {
            put_node_meta(&mut f, "rollingvirtualstorage", &x.meta);
            put_storage_account(&mut f, &x.nodes, &x.factors, &x.max_volume, &x.min_volume, &x.cost, &x.initial_volume,
                &x.initial_volume_pc);
            put_opt(&mut f, "timesteps", opt_number_json(&x.timesteps));
            put_opt(&mut f, "days", opt_number_json(&x.days));
        },
    }
    f
}

fn opt_number_json(x: &Option<String>) -> (r: Option<JsonValue>)
    ensures
        r == (match *x {
            Some(s) => Some(JsonValue::Number(s)),
            None => None::<JsonValue>,
        }),
{
    match x {
        Some(s) => Some(JsonValue::Number(s.clone())),
        None => None,
    }
}

/// Each canonical node tag names its own kind.
pub proof fn lemma_node_kind_tag(k: NodeKind)
    ensures
        node_kind_of_tag(node_kind_tag(k)) == Some(k),
{
    lemma_literals();
    match k {
        NodeKind::Input => {},
        NodeKind::Link => {},
        NodeKind::River => {},
        NodeKind::Output => {},
        NodeKind::Storage => {},
        NodeKind::Catchment => {},
        NodeKind::Aggregated => {},
        NodeKind::Reservoir => {},
        NodeKind::VirtualStorage => {},
        NodeKind::AnnualVirtualStorage => {},
        NodeKind::MonthlyVirtualStorage => {},
        NodeKind::SeasonalVirtualStorage => {},
        NodeKind::RollingVirtualStorage => {},
    }
}

/// The JSON form of a custom node: its tag and identity, then its attributes
/// as they were.
pub open spec fn custom_node_encodes(n: Node, f: Seq<(String, JsonValue)>) -> bool {
    match n {
        Node::Custom(c) => {
            let k = f.len() - c.attributes@.len();
            &&& 0 <= k
            &&& member(f.subrange(0, k), "type"@) is Some && member(f.subrange(0, k), "type"@)->Some_0 is Str
            &&& member(f.subrange(0, k), "type"@)->Some_0->Str_0@ == c.ty@
            &&& members_alike(c.attributes@, f.subrange(k, f.len() as int))
        },
        _ => true,
    }
}

impl Node {
    /// Encodes the node as a JSON object. A built-in node is written with its
    /// canonical tag, and decoding the result gives it back; a custom node is
    /// written with its tag, name and comment, then its attributes as they were.
    pub fn to_json(&self) -> (r: JsonValue)
        ensures
            r is Object,
            node_encodable(*self) ==> node_err(r->Object_0@) is None && node_ok(r->Object_0@, *self),
            custom_node_encodes(*self, r->Object_0@),
    {
        match self {
            Node::Core(c) => {
                let f = encode_core_node(c);
                proof {
                    lemma_node_kind_tag(node_kind_of_core(*c));
                    if node_encodable(*self) {
                        assert(core_node_kind(f@) == Some(node_kind_of_core(*c)));
                    }
                }
                JsonValue::Object(f)
            },
            Node::Custom(c) => {
                proof { lemma_literals(); }
                let mut f: Vec<(String, JsonValue)> = Vec::new();
                assert(forall|key: Seq<char>| #[trigger] member(f@, key) is None);
                put(&mut f, "type", JsonValue::Str(c.ty.clone()));
                put(&mut f, "name", JsonValue::Str(c.meta.name.clone()));
                match &c.meta.comment {
                    Some(x) => put(&mut f, "comment", JsonValue::Str(x.clone())),
                    None => {},
                }
                let ghost head = f@;
                let mut rest = copy_members(&c.attributes);
                let ghost tail = rest@;
                f.append(&mut rest);
                proof {
                    assert(f@.subrange(0, head.len() as int) =~= head);
                    assert(f@.subrange(head.len() as int, f@.len() as int) =~= tail);
                }
                JsonValue::Object(f)
            },
        }
    }
}

} // verus!
