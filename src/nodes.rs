use vstd::prelude::*;
use crate::json::{JsonValue, DecodeError, member, find_member, req_str, opt_str, opt_num, small_number,
    read_small_number, req_str_spec, opt_str_spec, opt_num_spec};
use crate::tags::{NodeKind, node_kind, node_kind_of_tag};
use crate::parameters::{ParameterValue, value_err, value_ok, values_err, values_ok, json_alike, members_alike,
    attributes_of, first_err, err_of, opt_numbers_err, opt_numbers_ok};
use crate::decode::{decode_value, decode_values, copy_json, attributes, lemma_member_at, decode_opt_numbers};
use crate::walk::{value_paths, values_paths, value_rewritten, values_rewritten, collect_values, rewrite_values,
    ParameterValueType, ParameterValueTypeMut, field_keys, field_keys_mut, opt_field, push_opt_field, opt_value_paths, opt_value_rewritten, opt_value_resource_paths,
    rewrite_opt_value};

verus! {

/// Identity fields shared by every node.
pub struct NodeMeta {
    pub name: String,
    pub comment: Option<String>,
    /// Where the node is drawn, kept as written.
    pub position: Option<JsonValue>,
}

/// A node whose type tag names no built-in kind: every member is kept.
pub struct CustomNode {
    pub ty: String,
    pub meta: NodeMeta,
    /// Every member but `type`, `name` and `comment`, in document order.
    pub attributes: Vec<(String, JsonValue)>,
}

pub struct InputNode {
    pub meta: NodeMeta,
    pub max_flow: Option<ParameterValue>,
    pub min_flow: Option<ParameterValue>,
    pub cost: Option<ParameterValue>,
}

pub struct LinkNode {
    pub meta: NodeMeta,
    pub max_flow: Option<ParameterValue>,
    pub min_flow: Option<ParameterValue>,
    pub cost: Option<ParameterValue>,
}

pub struct OutputNode {
    pub meta: NodeMeta,
    pub max_flow: Option<ParameterValue>,
    pub min_flow: Option<ParameterValue>,
    pub cost: Option<ParameterValue>,
}

pub struct StorageNode {
    pub meta: NodeMeta,
    pub max_volume: Option<ParameterValue>,
    pub min_volume: Option<ParameterValue>,
    pub cost: Option<ParameterValue>,
    pub initial_volume: Option<String>,
    pub initial_volume_pc: Option<String>,
}

pub struct CatchmentNode {
    pub meta: NodeMeta,
    pub flow: Option<ParameterValue>,
    pub cost: Option<ParameterValue>,
}

pub struct AggregatedNode {
    pub meta: NodeMeta,
    pub nodes: Vec<String>,
    pub max_flow: Option<ParameterValue>,
    pub min_flow: Option<ParameterValue>,
    pub factors: Option<Vec<ParameterValue>>,
}

pub struct ReservoirNode {
    pub meta: NodeMeta,
    pub max_volume: Option<ParameterValue>,
    pub min_volume: Option<ParameterValue>,
    pub cost: Option<ParameterValue>,
    pub initial_volume: Option<String>,
    pub initial_volume_pc: Option<String>,
}

/// A storage that accounts for the flows through other nodes.
pub struct VirtualStorageNode {
    pub meta: NodeMeta,
    pub nodes: Vec<String>,
    /// Numbers, kept as written.
    pub factors: Option<Vec<String>>,
    pub max_volume: Option<ParameterValue>,
    pub min_volume: Option<ParameterValue>,
    pub cost: Option<ParameterValue>,
    pub initial_volume: Option<String>,
    pub initial_volume_pc: Option<String>,
}

/// A virtual storage reset once a year, on a given day of a given month.
pub struct AnnualVirtualStorageNode {
    pub meta: NodeMeta,
    pub nodes: Vec<String>,
    /// Numbers, kept as written.
    pub factors: Option<Vec<String>>,
    pub max_volume: Option<ParameterValue>,
    pub min_volume: Option<ParameterValue>,
    pub cost: Option<ParameterValue>,
    pub initial_volume: Option<String>,
    pub initial_volume_pc: Option<String>,
    pub reset_day: u8,
    /// The month, 1 for January to 12 for December.
    pub reset_month: u8,
    pub reset_to_initial_volume: bool,
}

/// A virtual storage reset every given number of months.
pub struct MonthlyVirtualStorageNode {
    pub meta: NodeMeta,
    pub nodes: Vec<String>,
    /// Numbers, kept as written.
    pub factors: Option<Vec<String>>,
    pub max_volume: Option<ParameterValue>,
    pub min_volume: Option<ParameterValue>,
    pub cost: Option<ParameterValue>,
    pub initial_volume: Option<String>,
    pub initial_volume_pc: Option<String>,
    pub months: u8,
    pub initial_months: u8,
    pub reset_to_initial_volume: bool,
}

/// A virtual storage active from a reset day to an end day of each year.
pub struct SeasonalVirtualStorageNode {
    pub meta: NodeMeta,
    pub nodes: Vec<String>,
    /// Numbers, kept as written.
    pub factors: Option<Vec<String>>,
    pub max_volume: Option<ParameterValue>,
    pub min_volume: Option<ParameterValue>,
    pub cost: Option<ParameterValue>,
    pub initial_volume: Option<String>,
    pub initial_volume_pc: Option<String>,
    pub reset_day: u8,
    pub reset_month: u8,
    pub end_day: u8,
    pub end_month: u8,
    pub reset_to_initial_volume: bool,
}

/// A virtual storage over a rolling window of time steps or days.
pub struct RollingVirtualStorageNode {
    pub meta: NodeMeta,
    pub nodes: Vec<String>,
    /// Numbers, kept as written.
    pub factors: Option<Vec<String>>,
    pub max_volume: Option<ParameterValue>,
    pub min_volume: Option<ParameterValue>,
    pub cost: Option<ParameterValue>,
    pub initial_volume: Option<String>,
    pub initial_volume_pc: Option<String>,
    pub timesteps: Option<String>,
    pub days: Option<String>,
}

/// The day of the year's reset where a document gives none: the first.
pub fn default_reset_day() -> (r: u8)
    ensures
        r == 1,
{
    1
}

/// The month of the year's reset where a document gives none: January.
pub fn default_reset_month() -> (r: u8)
    ensures
        r == 1,
{
    1
}

pub fn default_months() -> (r: u8)
    ensures
        r == 1,
{
    1
}

pub fn default_initial_months() -> (r: u8)
    ensures
        r == 1,
{
    1
}

/// The last day of a season where a document gives none: the 31st.
pub fn default_end_day() -> (r: u8)
    ensures
        r == 31,
{
    31
}

/// The last month of a season where a document gives none: December.
pub fn default_end_month() -> (r: u8)
    ensures
        r == 12,
{
    12
}

/// A node of one of the built-in kinds.
pub enum CoreNode {
    Input(InputNode),
    Link(LinkNode),
    /// A river reach, with the fields of a link.
    River(LinkNode),
    Output(OutputNode),
    Storage(StorageNode),
    Catchment(CatchmentNode),
    Aggregated(AggregatedNode),
    Reservoir(ReservoirNode),
    VirtualStorage(VirtualStorageNode),
    AnnualVirtualStorage(AnnualVirtualStorageNode),
    MonthlyVirtualStorage(MonthlyVirtualStorageNode),
    SeasonalVirtualStorage(SeasonalVirtualStorageNode),
    RollingVirtualStorage(RollingVirtualStorageNode),
}

pub enum Node {
    Core(CoreNode),
    Custom(CustomNode),
}

// ----- decoding -----

pub open spec fn node_meta_err(f: Seq<(String, JsonValue)>) -> Option<DecodeError> {
    first_err(err_of(req_str_spec(f, "name")), err_of(opt_str_spec(f, "comment")))
}

pub open spec fn node_meta_ok(f: Seq<(String, JsonValue)>, m: NodeMeta) -> bool {
    &&& node_meta_err(f) is None
    &&& req_str_spec(f, "name") == Ok::<String, DecodeError>(m.name)
    &&& opt_str_spec(f, "comment") == Ok::<Option<String>, DecodeError>(m.comment)
    &&& match member(f, "position"@) {
        None => m.position is None,
        Some(JsonValue::Null) => m.position is None,
        Some(p) => m.position is Some && json_alike(p, m.position->Some_0),
    }
}

/// An optional parameter-valued member: absent or null gives `None`.
pub open spec fn opt_value_err(f: Seq<(String, JsonValue)>, key: &'static str) -> Option<DecodeError> {
    match member(f, key@) {
        None => None,
        Some(JsonValue::Null) => None,
        Some(j) => value_err(j, key),
    }
}

pub open spec fn opt_value_ok(f: Seq<(String, JsonValue)>, key: &'static str, v: Option<ParameterValue>) -> bool {
    opt_value_err(f, key) is None && match member(f, key@) {
        None => v is None,
        Some(JsonValue::Null) => v is None,
        Some(j) => v is Some && value_ok(j, v->Some_0),
    }
}

/// An optional member holding a list of parameter values.
pub open spec fn opt_values_err(f: Seq<(String, JsonValue)>, key: &'static str) -> Option<DecodeError> {
    match member(f, key@) {
        None => None,
        Some(JsonValue::Null) => None,
        Some(JsonValue::Array(a)) => values_err(a@, key),
        Some(_) => Some(DecodeError::InvalidField(key)),
    }
}

pub open spec fn opt_values_ok(f: Seq<(String, JsonValue)>, key: &'static str, v: Option<Vec<ParameterValue>>) -> bool {
    opt_values_err(f, key) is None && match member(f, key@) {
        Some(JsonValue::Array(a)) => v is Some && values_ok(a@, v->Some_0@),
        _ => v is None,
    }
}

/// A required member holding a list of strings.
pub open spec fn strings_err(f: Seq<(String, JsonValue)>, key: &'static str) -> Option<DecodeError> {
    match member(f, key@) {
        None => Some(DecodeError::MissingField(key)),
        Some(JsonValue::Array(a)) => if forall|i: int| 0 <= i < a@.len() ==> (#[trigger] a@[i]) is Str {
            None
        } else {
            Some(DecodeError::InvalidField(key))
        },
        Some(_) => Some(DecodeError::InvalidField(key)),
    }
}

pub open spec fn strings_ok(f: Seq<(String, JsonValue)>, key: &'static str, v: Seq<String>) -> bool {
    strings_err(f, key) is None && match member(f, key@) {
        Some(JsonValue::Array(a)) => v.len() == a@.len() && forall|i: int|
            0 <= i < a@.len() ==> (#[trigger] a@[i]) == JsonValue::Str(v[i]),
        _ => false,
    }
}

/// A small whole-number member; `default` where absent.
pub open spec fn small_member_spec(f: Seq<(String, JsonValue)>, key: &'static str, default: u8) -> Result<u8, DecodeError> {
    match member(f, key@) {
        None => Ok(default),
        Some(JsonValue::Number(s)) => match small_number(s@) {
            Some(v) => Ok(v),
            None => Err(DecodeError::InvalidField(key)),
        },
        Some(_) => Err(DecodeError::InvalidField(key)),
    }
}

/// A month member, 1 to 12; `default` where absent.
pub open spec fn month_member_spec(f: Seq<(String, JsonValue)>, key: &'static str, default: u8) -> Result<u8, DecodeError> {
    match small_member_spec(f, key, default) {
        Ok(v) => if 1 <= v && v <= 12 { Ok(v) } else { Err(DecodeError::InvalidField(key)) },
        Err(e) => Err(e),
    }
}

/// A true-or-false member; false where absent.
pub open spec fn flag_member_spec(f: Seq<(String, JsonValue)>, key: &'static str) -> Result<bool, DecodeError> {
    match member(f, key@) {
        None => Ok(false),
        Some(JsonValue::Bool(b)) => Ok(b),
        Some(_) => Err(DecodeError::InvalidField(key)),
    }
}

/// The members every virtual storage has.
pub open spec fn storage_account_err(f: Seq<(String, JsonValue)>) -> Option<DecodeError> {
    first_err(strings_err(f, "nodes"), first_err(opt_numbers_err(f, "factors"),
        first_err(opt_value_err(f, "max_volume"), first_err(opt_value_err(f, "min_volume"),
        first_err(opt_value_err(f, "cost"), first_err(err_of(opt_num_spec(f, "initial_volume")),
        err_of(opt_num_spec(f, "initial_volume_pc"))))))))
}

pub open spec fn storage_account_ok(f: Seq<(String, JsonValue)>, nodes: Seq<String>, factors: Option<Vec<String>>,
    max_volume: Option<ParameterValue>, min_volume: Option<ParameterValue>, cost: Option<ParameterValue>,
    initial_volume: Option<String>, initial_volume_pc: Option<String>) -> bool {
    &&& strings_ok(f, "nodes", nodes)
    &&& opt_numbers_ok(f, "factors", factors)
    &&& opt_value_ok(f, "max_volume", max_volume)
    &&& opt_value_ok(f, "min_volume", min_volume)
    &&& opt_value_ok(f, "cost", cost)
    &&& opt_num_spec(f, "initial_volume") == Ok::<Option<String>, DecodeError>(initial_volume)
    &&& opt_num_spec(f, "initial_volume_pc") == Ok::<Option<String>, DecodeError>(initial_volume_pc)
}

/// What decoding the members `f` as a node of kind `k` fails with, if it fails.
pub open spec fn core_node_err(k: NodeKind, f: Seq<(String, JsonValue)>) -> Option<DecodeError> {
    let m = node_meta_err(f);
    match k {
        NodeKind::Input | NodeKind::Link | NodeKind::River | NodeKind::Output => first_err(m, first_err(opt_value_err(f, "max_flow"),
            first_err(opt_value_err(f, "min_flow"), opt_value_err(f, "cost")))),
        NodeKind::Storage | NodeKind::Reservoir => first_err(m, first_err(opt_value_err(f, "max_volume"),
            first_err(opt_value_err(f, "min_volume"), first_err(opt_value_err(f, "cost"),
            first_err(err_of(opt_num_spec(f, "initial_volume")), err_of(opt_num_spec(f, "initial_volume_pc"))))))),
        NodeKind::Catchment => first_err(m, first_err(opt_value_err(f, "flow"), opt_value_err(f, "cost"))),
        NodeKind::Aggregated => first_err(m, first_err(strings_err(f, "nodes"), first_err(opt_value_err(f, "max_flow"),
            first_err(opt_value_err(f, "min_flow"), opt_values_err(f, "factors"))))),
        NodeKind::VirtualStorage => first_err(m, storage_account_err(f)),
        NodeKind::AnnualVirtualStorage => first_err(m, first_err(storage_account_err(f),
            first_err(err_of(small_member_spec(f, "reset_day", 1)), first_err(err_of(month_member_spec(f, "reset_month", 1)),
            err_of(flag_member_spec(f, "reset_to_initial_volume")))))),
        NodeKind::MonthlyVirtualStorage => first_err(m, first_err(storage_account_err(f),
            first_err(err_of(small_member_spec(f, "months", 1)), first_err(err_of(small_member_spec(f, "initial_months", 1)),
            err_of(flag_member_spec(f, "reset_to_initial_volume")))))),
        NodeKind::SeasonalVirtualStorage => first_err(m, first_err(storage_account_err(f),
            first_err(err_of(small_member_spec(f, "reset_day", 1)), first_err(err_of(month_member_spec(f, "reset_month", 1)),
            first_err(err_of(small_member_spec(f, "end_day", 31)), first_err(err_of(month_member_spec(f, "end_month", 12)),
            err_of(flag_member_spec(f, "reset_to_initial_volume")))))))),
        NodeKind::RollingVirtualStorage => first_err(m, first_err(storage_account_err(f),
            first_err(err_of(opt_num_spec(f, "timesteps")), err_of(opt_num_spec(f, "days"))))),
    }
}

/// `n` is what the members `f` decode to as a node of kind `k`.
pub open spec fn core_node_ok(k: NodeKind, f: Seq<(String, JsonValue)>, n: CoreNode) -> bool {
    core_node_err(k, f) is None && match n {
        CoreNode::Input(x) => k == NodeKind::Input && node_meta_ok(f, x.meta) && opt_value_ok(f, "max_flow", x.max_flow)
            && opt_value_ok(f, "min_flow", x.min_flow) && opt_value_ok(f, "cost", x.cost),
        CoreNode::Link(x) => k == NodeKind::Link && node_meta_ok(f, x.meta) && opt_value_ok(f, "max_flow", x.max_flow)
            && opt_value_ok(f, "min_flow", x.min_flow) && opt_value_ok(f, "cost", x.cost),
        CoreNode::River(x) => k == NodeKind::River && node_meta_ok(f, x.meta) && opt_value_ok(f, "max_flow", x.max_flow)
            && opt_value_ok(f, "min_flow", x.min_flow) && opt_value_ok(f, "cost", x.cost),
        CoreNode::Output(x) => k == NodeKind::Output && node_meta_ok(f, x.meta) && opt_value_ok(f, "max_flow", x.max_flow)
            && opt_value_ok(f, "min_flow", x.min_flow) && opt_value_ok(f, "cost", x.cost),
        CoreNode::Storage(x) => k == NodeKind::Storage && node_meta_ok(f, x.meta)
            && opt_value_ok(f, "max_volume", x.max_volume) && opt_value_ok(f, "min_volume", x.min_volume)
            && opt_value_ok(f, "cost", x.cost)
            && opt_num_spec(f, "initial_volume") == Ok::<Option<String>, DecodeError>(x.initial_volume)
            && opt_num_spec(f, "initial_volume_pc") == Ok::<Option<String>, DecodeError>(x.initial_volume_pc),
        CoreNode::Catchment(x) => k == NodeKind::Catchment && node_meta_ok(f, x.meta)
            && opt_value_ok(f, "flow", x.flow) && opt_value_ok(f, "cost", x.cost),
        CoreNode::Aggregated(x) => k == NodeKind::Aggregated && node_meta_ok(f, x.meta)
            && strings_ok(f, "nodes", x.nodes@) && opt_value_ok(f, "max_flow", x.max_flow)
            && opt_value_ok(f, "min_flow", x.min_flow) && opt_values_ok(f, "factors", x.factors),
        CoreNode::Reservoir(x) => k == NodeKind::Reservoir && node_meta_ok(f, x.meta)
            && opt_value_ok(f, "max_volume", x.max_volume) && opt_value_ok(f, "min_volume", x.min_volume)
            && opt_value_ok(f, "cost", x.cost)
            && opt_num_spec(f, "initial_volume") == Ok::<Option<String>, DecodeError>(x.initial_volume)
            && opt_num_spec(f, "initial_volume_pc") == Ok::<Option<String>, DecodeError>(x.initial_volume_pc),
        CoreNode::VirtualStorage(x) => k == NodeKind::VirtualStorage && node_meta_ok(f, x.meta)
            && storage_account_ok(f, x.nodes@, x.factors, x.max_volume, x.min_volume, x.cost, x.initial_volume,
            x.initial_volume_pc),
        CoreNode::AnnualVirtualStorage(x) => k == NodeKind::AnnualVirtualStorage && node_meta_ok(f, x.meta)
            && storage_account_ok(f, x.nodes@, x.factors, x.max_volume, x.min_volume, x.cost, x.initial_volume,
            x.initial_volume_pc)
            && small_member_spec(f, "reset_day", 1) == Ok::<u8, DecodeError>(x.reset_day)
            && month_member_spec(f, "reset_month", 1) == Ok::<u8, DecodeError>(x.reset_month)
            && flag_member_spec(f, "reset_to_initial_volume") == Ok::<bool, DecodeError>(x.reset_to_initial_volume),
        CoreNode::MonthlyVirtualStorage(x) => k == NodeKind::MonthlyVirtualStorage && node_meta_ok(f, x.meta)
            && storage_account_ok(f, x.nodes@, x.factors, x.max_volume, x.min_volume, x.cost, x.initial_volume,
            x.initial_volume_pc)
            && small_member_spec(f, "months", 1) == Ok::<u8, DecodeError>(x.months)
            && small_member_spec(f, "initial_months", 1) == Ok::<u8, DecodeError>(x.initial_months)
            && flag_member_spec(f, "reset_to_initial_volume") == Ok::<bool, DecodeError>(x.reset_to_initial_volume),
        CoreNode::SeasonalVirtualStorage(x) => k == NodeKind::SeasonalVirtualStorage && node_meta_ok(f, x.meta)
            && storage_account_ok(f, x.nodes@, x.factors, x.max_volume, x.min_volume, x.cost, x.initial_volume,
            x.initial_volume_pc)
            && small_member_spec(f, "reset_day", 1) == Ok::<u8, DecodeError>(x.reset_day)
            && month_member_spec(f, "reset_month", 1) == Ok::<u8, DecodeError>(x.reset_month)
            && small_member_spec(f, "end_day", 31) == Ok::<u8, DecodeError>(x.end_day)
            && month_member_spec(f, "end_month", 12) == Ok::<u8, DecodeError>(x.end_month)
            && flag_member_spec(f, "reset_to_initial_volume") == Ok::<bool, DecodeError>(x.reset_to_initial_volume),
        CoreNode::RollingVirtualStorage(x) => k == NodeKind::RollingVirtualStorage && node_meta_ok(f, x.meta)
            && storage_account_ok(f, x.nodes@, x.factors, x.max_volume, x.min_volume, x.cost, x.initial_volume,
            x.initial_volume_pc)
            && opt_num_spec(f, "timesteps") == Ok::<Option<String>, DecodeError>(x.timesteps)
            && opt_num_spec(f, "days") == Ok::<Option<String>, DecodeError>(x.days),
    }
}

/// The built-in kind that the members `f` decode to, if their tag names one and they fit it.
pub open spec fn core_node_kind(f: Seq<(String, JsonValue)>) -> Option<NodeKind> {
    match member(f, "type"@) {
        Some(JsonValue::Str(t)) => match node_kind_of_tag(t@) {
            Some(k) => if core_node_err(k, f) is None { Some(k) } else { None },
            None => None,
        },
        _ => None,
    }
}

/// Decoding a node: a built-in kind where the tag names one and the members
/// fit it, else a custom node, which needs a `type` and a `name`.
pub open spec fn node_err(f: Seq<(String, JsonValue)>) -> Option<DecodeError> {
    match core_node_kind(f) {
        Some(_) => None,
        None => first_err(err_of(req_str_spec(f, "type")), node_meta_err(f)),
    }
}

pub open spec fn node_ok(f: Seq<(String, JsonValue)>, n: Node) -> bool {
    match core_node_kind(f) {
        Some(k) => n is Core && core_node_ok(k, f, n->Core_0),
        None => node_err(f) is None && match n {
            Node::Custom(c) => req_str_spec(f, "type") == Ok::<String, DecodeError>(c.ty) && node_meta_ok(f, c.meta)
                && members_alike(attributes_of(f, false), c.attributes@),
            _ => false,
        },
    }
}

pub fn decode_node_meta(f: &Vec<(String, JsonValue)>) -> (r: Result<NodeMeta, DecodeError>)
    ensures
        match r {
            Ok(m) => node_meta_ok(f@, m),
            Err(e) => node_meta_err(f@) == Some(e),
        },
{
    let name = req_str(f, "name")?;
    let comment = opt_str(f, "comment")?;
    proof { lemma_member_at(f@, "position"@); }
    let position = match find_member(f, "position") {
        None => None,
        Some(i) => match &f[i].1 {
            JsonValue::Null => None,
            p => Some(copy_json(p)),
        },
    };
    Ok(NodeMeta { name, comment, position })
}

fn decode_opt_value(f: &Vec<(String, JsonValue)>, key: &'static str) -> (r: Result<Option<ParameterValue>, DecodeError>)
    ensures
        match r {
            Ok(v) => opt_value_ok(f@, key, v),
            Err(e) => opt_value_err(f@, key) == Some(e),
        },
{
    proof { lemma_member_at(f@, key@); }
    match find_member(f, key) {
        None => Ok(None),
        Some(i) => match &f[i].1 {
            JsonValue::Null => Ok(None),
            j => Ok(Some(decode_value(j, key)?)),
        },
    }
}

fn decode_opt_values(f: &Vec<(String, JsonValue)>, key: &'static str) -> (r: Result<Option<Vec<ParameterValue>>, DecodeError>)
    ensures
        match r {
            Ok(v) => opt_values_ok(f@, key, v),
            Err(e) => opt_values_err(f@, key) == Some(e),
        },
{
    proof { lemma_member_at(f@, key@); }
    match find_member(f, key) {
        None => Ok(None),
        Some(i) => match &f[i].1 {
            JsonValue::Null => Ok(None),
            JsonValue::Array(a) => Ok(Some(decode_values(a, key)?)),
            _ => Err(DecodeError::InvalidField(key)),
        },
    }
}

fn decode_string_items(a: &Vec<JsonValue>) -> (r: Option<Vec<String>>)
    ensures
        match r {
            Some(v) => v@.len() == a@.len() && forall|m: int| 0 <= m < a@.len() ==> (#[trigger] a@[m]) == JsonValue::Str(v@[m]),
            None => !(forall|m: int| 0 <= m < a@.len() ==> (#[trigger] a@[m]) is Str),
        },
{
    let mut out: Vec<String> = Vec::new();
    let mut k: usize = 0;
    while k < a.len()
        invariant
            k <= a@.len(),
            out@.len() == k,
            forall|m: int| 0 <= m < k ==> (#[trigger] a@[m]) == JsonValue::Str(out@[m]),
        decreases a.len() - k,
    {
        match &a[k] {
            JsonValue::Str(s) => out.push(s.clone()),
            _ => {
                assert(!(a@[k as int] is Str));
                return None;
            },
        }
        k = k + 1;
    }
    Some(out)
}

fn decode_strings(f: &Vec<(String, JsonValue)>, key: &'static str) -> (r: Result<Vec<String>, DecodeError>)
    ensures
        match r {
            Ok(v) => strings_ok(f@, key, v@),
            Err(e) => strings_err(f@, key) == Some(e),
        },
{
    proof { lemma_member_at(f@, key@); }
    match find_member(f, key) {
        None => Err(DecodeError::MissingField(key)),
        Some(i) => match &f[i].1 {
            JsonValue::Array(a) => match decode_string_items(a) {
                Some(v) => Ok(v),
                None => Err(DecodeError::InvalidField(key)),
            },
            _ => Err(DecodeError::InvalidField(key)),
        },
    }
}

fn decode_small_member(f: &Vec<(String, JsonValue)>, key: &'static str, default: u8) -> (r: Result<u8, DecodeError>)
    ensures
        r == small_member_spec(f@, key, default),
{
    proof { lemma_member_at(f@, key@); }
    match find_member(f, key) {
        None => Ok(default),
        Some(i) => match &f[i].1 {
            JsonValue::Number(s) => match read_small_number(s.as_str()) {
                Some(v) => Ok(v),
                None => Err(DecodeError::InvalidField(key)),
            },
            _ => Err(DecodeError::InvalidField(key)),
        },
    }
}

fn decode_month_member(f: &Vec<(String, JsonValue)>, key: &'static str, default: u8) -> (r: Result<u8, DecodeError>)
    ensures
        r == month_member_spec(f@, key, default),
{
    let v = decode_small_member(f, key, default)?;
    if 1 <= v && v <= 12 {
        Ok(v)
    } else {
        Err(DecodeError::InvalidField(key))
    }
}

fn decode_flag_member(f: &Vec<(String, JsonValue)>, key: &'static str) -> (r: Result<bool, DecodeError>)
    ensures
        r == flag_member_spec(f@, key),
{
    proof { lemma_member_at(f@, key@); }
    match find_member(f, key) {
        None => Ok(false),
        Some(i) => match &f[i].1 {
            JsonValue::Bool(b) => Ok(*b),
            _ => Err(DecodeError::InvalidField(key)),
        },
    }
}

/// The members that every virtual storage has, decoded.
struct StorageAccount {
    nodes: Vec<String>,
    factors: Option<Vec<String>>,
    max_volume: Option<ParameterValue>,
    min_volume: Option<ParameterValue>,
    cost: Option<ParameterValue>,
    initial_volume: Option<String>,
    initial_volume_pc: Option<String>,
}

fn decode_storage_account(f: &Vec<(String, JsonValue)>) -> (r: Result<StorageAccount, DecodeError>)
    ensures
        match r {
            Ok(a) => storage_account_err(f@) is None && storage_account_ok(f@, a.nodes@, a.factors, a.max_volume,
                a.min_volume, a.cost, a.initial_volume, a.initial_volume_pc),
            Err(e) => storage_account_err(f@) == Some(e),
        },
{
    let nodes = decode_strings(f, "nodes")?;
    let factors = decode_opt_numbers(f, "factors")?;
    let max_volume = decode_opt_value(f, "max_volume")?;
    let min_volume = decode_opt_value(f, "min_volume")?;
    let cost = decode_opt_value(f, "cost")?;
    let initial_volume = opt_num(f, "initial_volume")?;
    let initial_volume_pc = opt_num(f, "initial_volume_pc")?;
    Ok(StorageAccount { nodes, factors, max_volume, min_volume, cost, initial_volume, initial_volume_pc })
}

/// Decodes the members `f` as a node of kind `k`.
pub fn decode_core_node(k: NodeKind, f: &Vec<(String, JsonValue)>) -> (r: Result<CoreNode, DecodeError>)
    ensures
        match r {
            Ok(n) => core_node_ok(k, f@, n),
            Err(e) => core_node_err(k, f@) == Some(e),
        },
{
    let meta = decode_node_meta(f)?;
    match k {
        NodeKind::Input => {
            let max_flow = decode_opt_value(f, "max_flow")?;
            let min_flow = decode_opt_value(f, "min_flow")?;
            let cost = decode_opt_value(f, "cost")?;
            Ok(CoreNode::Input(InputNode { meta, max_flow, min_flow, cost }))
        },
        NodeKind::Link => {
            let max_flow = decode_opt_value(f, "max_flow")?;
            let min_flow = decode_opt_value(f, "min_flow")?;
            let cost = decode_opt_value(f, "cost")?;
            Ok(CoreNode::Link(LinkNode { meta, max_flow, min_flow, cost }))
        },
        NodeKind::River => {
            let max_flow = decode_opt_value(f, "max_flow")?;
            let min_flow = decode_opt_value(f, "min_flow")?;
            let cost = decode_opt_value(f, "cost")?;
            Ok(CoreNode::River(LinkNode { meta, max_flow, min_flow, cost }))
        },
        NodeKind::Output => {
            let max_flow = decode_opt_value(f, "max_flow")?;
            let min_flow = decode_opt_value(f, "min_flow")?;
            let cost = decode_opt_value(f, "cost")?;
            Ok(CoreNode::Output(OutputNode { meta, max_flow, min_flow, cost }))
        },
        NodeKind::Storage => {
            let max_volume = decode_opt_value(f, "max_volume")?;
            let min_volume = decode_opt_value(f, "min_volume")?;
            let cost = decode_opt_value(f, "cost")?;
            let initial_volume = opt_num(f, "initial_volume")?;
            let initial_volume_pc = opt_num(f, "initial_volume_pc")?;
            Ok(CoreNode::Storage(StorageNode { meta, max_volume, min_volume, cost, initial_volume, initial_volume_pc }))
        },
        NodeKind::Catchment => {
            let flow = decode_opt_value(f, "flow")?;
            let cost = decode_opt_value(f, "cost")?;
            Ok(CoreNode::Catchment(CatchmentNode { meta, flow, cost }))
        },
        NodeKind::Aggregated => {
            let nodes = decode_strings(f, "nodes")?;
            let max_flow = decode_opt_value(f, "max_flow")?;
            let min_flow = decode_opt_value(f, "min_flow")?;
            let factors = decode_opt_values(f, "factors")?;
            Ok(CoreNode::Aggregated(AggregatedNode { meta, nodes, max_flow, min_flow, factors }))
        },
        NodeKind::Reservoir => {
            let max_volume = decode_opt_value(f, "max_volume")?;
            let min_volume = decode_opt_value(f, "min_volume")?;
            let cost = decode_opt_value(f, "cost")?;
            let initial_volume = opt_num(f, "initial_volume")?;
            let initial_volume_pc = opt_num(f, "initial_volume_pc")?;
            Ok(CoreNode::Reservoir(ReservoirNode { meta, max_volume, min_volume, cost, initial_volume, initial_volume_pc }))
        },
        NodeKind::VirtualStorage => {
            let a = decode_storage_account(f)?;
            Ok(CoreNode::VirtualStorage(VirtualStorageNode {
                meta,
                nodes: a.nodes,
                factors: a.factors,
                max_volume: a.max_volume,
                min_volume: a.min_volume,
                cost: a.cost,
                initial_volume: a.initial_volume,
                initial_volume_pc: a.initial_volume_pc,
            }))
        },
        NodeKind::AnnualVirtualStorage => {
            let a = decode_storage_account(f)?;
            let reset_day = decode_small_member(f, "reset_day", default_reset_day())?;
            let reset_month = decode_month_member(f, "reset_month", default_reset_month())?;
            let reset_to_initial_volume = decode_flag_member(f, "reset_to_initial_volume")?;
            Ok(CoreNode::AnnualVirtualStorage(AnnualVirtualStorageNode {
                meta,
                nodes: a.nodes,
                factors: a.factors,
                max_volume: a.max_volume,
                min_volume: a.min_volume,
                cost: a.cost,
                initial_volume: a.initial_volume,
                initial_volume_pc: a.initial_volume_pc,
                reset_day,
                reset_month,
                reset_to_initial_volume,
            }))
        },
        NodeKind::MonthlyVirtualStorage => {
            let a = decode_storage_account(f)?;
            let months = decode_small_member(f, "months", default_months())?;
            let initial_months = decode_small_member(f, "initial_months", default_initial_months())?;
            let reset_to_initial_volume = decode_flag_member(f, "reset_to_initial_volume")?;
            Ok(CoreNode::MonthlyVirtualStorage(MonthlyVirtualStorageNode {
                meta,
                nodes: a.nodes,
                factors: a.factors,
                max_volume: a.max_volume,
                min_volume: a.min_volume,
                cost: a.cost,
                initial_volume: a.initial_volume,
                initial_volume_pc: a.initial_volume_pc,
                months,
                initial_months,
                reset_to_initial_volume,
            }))
        },
        NodeKind::SeasonalVirtualStorage => {
            let a = decode_storage_account(f)?;
            let reset_day = decode_small_member(f, "reset_day", default_reset_day())?;
            let reset_month = decode_month_member(f, "reset_month", default_reset_month())?;
            let end_day = decode_small_member(f, "end_day", default_end_day())?;
            let end_month = decode_month_member(f, "end_month", default_end_month())?;
            let reset_to_initial_volume = decode_flag_member(f, "reset_to_initial_volume")?;
            Ok(CoreNode::SeasonalVirtualStorage(SeasonalVirtualStorageNode {
                meta,
                nodes: a.nodes,
                factors: a.factors,
                max_volume: a.max_volume,
                min_volume: a.min_volume,
                cost: a.cost,
                initial_volume: a.initial_volume,
                initial_volume_pc: a.initial_volume_pc,
                reset_day,
                reset_month,
                end_day,
                end_month,
                reset_to_initial_volume,
            }))
        },
        NodeKind::RollingVirtualStorage => {
            let a = decode_storage_account(f)?;
            let timesteps = opt_num(f, "timesteps")?;
            let days = opt_num(f, "days")?;
            Ok(CoreNode::RollingVirtualStorage(RollingVirtualStorageNode {
                meta,
                nodes: a.nodes,
                factors: a.factors,
                max_volume: a.max_volume,
                min_volume: a.min_volume,
                cost: a.cost,
                initial_volume: a.initial_volume,
                initial_volume_pc: a.initial_volume_pc,
                timesteps,
                days,
            }))
        },
    }
}

impl Node {
    /// Decodes a node from a JSON object.
    pub fn from_json(j: &JsonValue) -> (r: Result<Node, DecodeError>)
        ensures
            match *j {
                JsonValue::Object(f) => match r {
                    Ok(n) => node_err(f@) is None && node_ok(f@, n),
                    Err(e) => node_err(f@) == Some(e),
                },
                _ => r == Err::<Node, DecodeError>(DecodeError::NotAnObject),
            },
    {
        let f = match j {
            JsonValue::Object(f) => f,
            _ => return Err(DecodeError::NotAnObject),
        };
        let ty = req_str(f, "type")?;
        match node_kind(ty.as_str()) {
            Some(k) => match decode_core_node(k, f) {
                Ok(n) => return Ok(Node::Core(n)),
                Err(_) => {},
            },
            None => {},
        }
        let meta = decode_node_meta(f)?;
        let attributes = attributes(f, false);
        Ok(Node::Custom(CustomNode { ty, meta, attributes }))
    }
}

// ----- resource paths -----

/// Every path reachable from a built-in node through its parameter-valued
/// fields, in field order, repeats kept.
pub open spec fn core_node_paths(n: CoreNode) -> Seq<String> {
    match n {
        CoreNode::Input(x) => opt_value_paths(x.max_flow) + opt_value_paths(x.min_flow) + opt_value_paths(x.cost),
        CoreNode::Link(x) => opt_value_paths(x.max_flow) + opt_value_paths(x.min_flow) + opt_value_paths(x.cost),
        CoreNode::River(x) => opt_value_paths(x.max_flow) + opt_value_paths(x.min_flow) + opt_value_paths(x.cost),
        CoreNode::Output(x) => opt_value_paths(x.max_flow) + opt_value_paths(x.min_flow) + opt_value_paths(x.cost),
        CoreNode::Storage(x) => opt_value_paths(x.max_volume) + opt_value_paths(x.min_volume) + opt_value_paths(x.cost),
        CoreNode::Catchment(x) => opt_value_paths(x.flow) + opt_value_paths(x.cost),
        CoreNode::Aggregated(x) => opt_value_paths(x.max_flow) + opt_value_paths(x.min_flow) + match x.factors {
            Some(v) => values_paths(v@),
            None => Seq::empty(),
        },
        CoreNode::Reservoir(x) => opt_value_paths(x.max_volume) + opt_value_paths(x.min_volume) + opt_value_paths(x.cost),
        CoreNode::VirtualStorage(x) => opt_value_paths(x.max_volume) + opt_value_paths(x.min_volume) + opt_value_paths(x.cost),
        CoreNode::AnnualVirtualStorage(x) => opt_value_paths(x.max_volume) + opt_value_paths(x.min_volume) + opt_value_paths(x.cost),
        CoreNode::MonthlyVirtualStorage(x) => opt_value_paths(x.max_volume) + opt_value_paths(x.min_volume) + opt_value_paths(x.cost),
        CoreNode::SeasonalVirtualStorage(x) => opt_value_paths(x.max_volume) + opt_value_paths(x.min_volume) + opt_value_paths(x.cost),
        CoreNode::RollingVirtualStorage(x) => opt_value_paths(x.max_volume) + opt_value_paths(x.min_volume) + opt_value_paths(x.cost),
    }
}

/// Every path reachable from a node; a custom one holds none that can be known.
pub open spec fn node_paths(n: Node) -> Seq<String> {
    match n {
        Node::Core(c) => core_node_paths(c),
        Node::Custom(_) => Seq::empty(),
    }
}

/// `b` is the node `a` with every reachable path sent through `m`, all else kept.
pub open spec fn node_rewritten(a: Node, b: Node, m: Seq<(String, String)>) -> bool {
    match (a, b) {
        (Node::Core(CoreNode::Input(x)), Node::Core(CoreNode::Input(y))) => y.meta == x.meta
            && opt_value_rewritten(x.max_flow, y.max_flow, m) && opt_value_rewritten(x.min_flow, y.min_flow, m)
            && opt_value_rewritten(x.cost, y.cost, m),
        (Node::Core(CoreNode::Link(x)), Node::Core(CoreNode::Link(y))) => y.meta == x.meta
            && opt_value_rewritten(x.max_flow, y.max_flow, m) && opt_value_rewritten(x.min_flow, y.min_flow, m)
            && opt_value_rewritten(x.cost, y.cost, m),
        (Node::Core(CoreNode::River(x)), Node::Core(CoreNode::River(y))) => y.meta == x.meta
            && opt_value_rewritten(x.max_flow, y.max_flow, m) && opt_value_rewritten(x.min_flow, y.min_flow, m)
            && opt_value_rewritten(x.cost, y.cost, m),
        (Node::Core(CoreNode::Output(x)), Node::Core(CoreNode::Output(y))) => y.meta == x.meta
            && opt_value_rewritten(x.max_flow, y.max_flow, m) && opt_value_rewritten(x.min_flow, y.min_flow, m)
            && opt_value_rewritten(x.cost, y.cost, m),
        (Node::Core(CoreNode::Storage(x)), Node::Core(CoreNode::Storage(y))) => y.meta == x.meta
            && opt_value_rewritten(x.max_volume, y.max_volume, m) && opt_value_rewritten(x.min_volume, y.min_volume, m)
            && opt_value_rewritten(x.cost, y.cost, m) && y.initial_volume == x.initial_volume
            && y.initial_volume_pc == x.initial_volume_pc,
        (Node::Core(CoreNode::Catchment(x)), Node::Core(CoreNode::Catchment(y))) => y.meta == x.meta
            && opt_value_rewritten(x.flow, y.flow, m) && opt_value_rewritten(x.cost, y.cost, m),
        (Node::Core(CoreNode::Aggregated(x)), Node::Core(CoreNode::Aggregated(y))) => y.meta == x.meta
            && y.nodes == x.nodes && opt_value_rewritten(x.max_flow, y.max_flow, m)
            && opt_value_rewritten(x.min_flow, y.min_flow, m) && match x.factors {
                Some(v) => y.factors is Some && values_rewritten(v@, y.factors->Some_0@, m),
                None => y.factors is None,
            },
        (Node::Core(CoreNode::Reservoir(x)), Node::Core(CoreNode::Reservoir(y))) => y.meta == x.meta && y.initial_volume == x.initial_volume && y.initial_volume_pc == x.initial_volume_pc
            && opt_value_rewritten(x.max_volume, y.max_volume, m) && opt_value_rewritten(x.min_volume, y.min_volume, m)
            && opt_value_rewritten(x.cost, y.cost, m),
        (Node::Core(CoreNode::VirtualStorage(x)), Node::Core(CoreNode::VirtualStorage(y))) => y.meta == x.meta && y.nodes == x.nodes && y.factors == x.factors && y.initial_volume == x.initial_volume && y.initial_volume_pc == x.initial_volume_pc
            && opt_value_rewritten(x.max_volume, y.max_volume, m) && opt_value_rewritten(x.min_volume, y.min_volume, m)
            && opt_value_rewritten(x.cost, y.cost, m),
        (Node::Core(CoreNode::AnnualVirtualStorage(x)), Node::Core(CoreNode::AnnualVirtualStorage(y))) => y.meta == x.meta && y.nodes == x.nodes && y.factors == x.factors && y.initial_volume == x.initial_volume && y.initial_volume_pc == x.initial_volume_pc && y.reset_day == x.reset_day && y.reset_month == x.reset_month && y.reset_to_initial_volume == x.reset_to_initial_volume
            && opt_value_rewritten(x.max_volume, y.max_volume, m) && opt_value_rewritten(x.min_volume, y.min_volume, m)
            && opt_value_rewritten(x.cost, y.cost, m),
        (Node::Core(CoreNode::MonthlyVirtualStorage(x)), Node::Core(CoreNode::MonthlyVirtualStorage(y))) => y.meta == x.meta && y.nodes == x.nodes && y.factors == x.factors && y.initial_volume == x.initial_volume && y.initial_volume_pc == x.initial_volume_pc && y.months == x.months && y.initial_months == x.initial_months && y.reset_to_initial_volume == x.reset_to_initial_volume
            && opt_value_rewritten(x.max_volume, y.max_volume, m) && opt_value_rewritten(x.min_volume, y.min_volume, m)
            && opt_value_rewritten(x.cost, y.cost, m),
        (Node::Core(CoreNode::SeasonalVirtualStorage(x)), Node::Core(CoreNode::SeasonalVirtualStorage(y))) => y.meta == x.meta && y.nodes == x.nodes && y.factors == x.factors && y.initial_volume == x.initial_volume && y.initial_volume_pc == x.initial_volume_pc && y.reset_day == x.reset_day && y.reset_month == x.reset_month && y.end_day == x.end_day && y.end_month == x.end_month && y.reset_to_initial_volume == x.reset_to_initial_volume
            && opt_value_rewritten(x.max_volume, y.max_volume, m) && opt_value_rewritten(x.min_volume, y.min_volume, m)
            && opt_value_rewritten(x.cost, y.cost, m),
        (Node::Core(CoreNode::RollingVirtualStorage(x)), Node::Core(CoreNode::RollingVirtualStorage(y))) => y.meta == x.meta && y.nodes == x.nodes && y.factors == x.factors && y.initial_volume == x.initial_volume && y.initial_volume_pc == x.initial_volume_pc && y.timesteps == x.timesteps && y.days == x.days
            && opt_value_rewritten(x.max_volume, y.max_volume, m) && opt_value_rewritten(x.min_volume, y.min_volume, m)
            && opt_value_rewritten(x.cost, y.cost, m),
        (Node::Custom(_), _) => b == a,
        _ => false,
    }
}

fn append3(a: Vec<String>, b: Vec<String>, c: Vec<String>) -> (r: Vec<String>)
    ensures
        r@ == a@ + b@ + c@,
{
    let mut a = a;
    let mut b = b;
    let mut c = c;
    a.append(&mut b);
    a.append(&mut c);
    a
}

/// The member nodes of an aggregated node or a virtual storage.
pub open spec fn member_nodes(n: Node) -> Option<Seq<String>> {
    match n {
        Node::Core(CoreNode::Aggregated(x)) => Some(x.nodes@),
        Node::Core(CoreNode::VirtualStorage(x)) => Some(x.nodes@),
        Node::Core(CoreNode::AnnualVirtualStorage(x)) => Some(x.nodes@),
        Node::Core(CoreNode::MonthlyVirtualStorage(x)) => Some(x.nodes@),
        Node::Core(CoreNode::SeasonalVirtualStorage(x)) => Some(x.nodes@),
        Node::Core(CoreNode::RollingVirtualStorage(x)) => Some(x.nodes@),
        _ => None,
    }
}

fn copy_names(v: &Vec<String>) -> (r: Vec<String>)
    ensures
        r@ == v@,
{
    let mut out: Vec<String> = Vec::new();
    let mut i: usize = 0;
    while i < v.len()
        invariant
            i <= v@.len(),
            out@ == v@.subrange(0, i as int),
        decreases v.len() - i,
    {
        out.push(v[i].clone());
        assert(out@ =~= v@.subrange(0, i + 1));
        i = i + 1;
    }
    assert(out@ =~= v@);
    out
}

impl Node {
    /// The node's name.
    pub fn name(&self) -> (r: &str)
        ensures
            r@ == self.meta_spec().name@,
    {
        match self {
            Node::Core(CoreNode::Input(x)) => x.meta.name.as_str(),
            Node::Core(CoreNode::Link(x)) => x.meta.name.as_str(),
            Node::Core(CoreNode::River(x)) => x.meta.name.as_str(),
            Node::Core(CoreNode::Output(x)) => x.meta.name.as_str(),
            Node::Core(CoreNode::Storage(x)) => x.meta.name.as_str(),
            Node::Core(CoreNode::Catchment(x)) => x.meta.name.as_str(),
            Node::Core(CoreNode::Aggregated(x)) => x.meta.name.as_str(),
            Node::Core(CoreNode::Reservoir(x)) => x.meta.name.as_str(),
            Node::Core(CoreNode::VirtualStorage(x)) => x.meta.name.as_str(),
            Node::Core(CoreNode::AnnualVirtualStorage(x)) => x.meta.name.as_str(),
            Node::Core(CoreNode::MonthlyVirtualStorage(x)) => x.meta.name.as_str(),
            Node::Core(CoreNode::SeasonalVirtualStorage(x)) => x.meta.name.as_str(),
            Node::Core(CoreNode::RollingVirtualStorage(x)) => x.meta.name.as_str(),

            Node::Custom(x) => x.meta.name.as_str(),
        }
    }

    /// The identity fields of a node.
    pub open spec fn meta_spec(&self) -> NodeMeta {
        match self {
            Node::Core(CoreNode::Input(x)) => x.meta,
            Node::Core(CoreNode::Link(x)) => x.meta,
            Node::Core(CoreNode::River(x)) => x.meta,
            Node::Core(CoreNode::Output(x)) => x.meta,
            Node::Core(CoreNode::Storage(x)) => x.meta,
            Node::Core(CoreNode::Catchment(x)) => x.meta,
            Node::Core(CoreNode::Aggregated(x)) => x.meta,
            Node::Core(CoreNode::Reservoir(x)) => x.meta,
            Node::Core(CoreNode::VirtualStorage(x)) => x.meta,
            Node::Core(CoreNode::AnnualVirtualStorage(x)) => x.meta,
            Node::Core(CoreNode::MonthlyVirtualStorage(x)) => x.meta,
            Node::Core(CoreNode::SeasonalVirtualStorage(x)) => x.meta,
            Node::Core(CoreNode::RollingVirtualStorage(x)) => x.meta,

            Node::Custom(x) => x.meta,
        }
    }

    /// The node's position, as written, if it has one.
    pub fn position(&self) -> (r: Option<&JsonValue>)
        ensures
            match r {
                Some(p) => self.meta_spec().position == Some(*p),
                None => self.meta_spec().position is None,
            },
    {
        let meta = match self {
            Node::Core(CoreNode::Input(x)) => &x.meta,
            Node::Core(CoreNode::Link(x)) => &x.meta,
            Node::Core(CoreNode::River(x)) => &x.meta,
            Node::Core(CoreNode::Output(x)) => &x.meta,
            Node::Core(CoreNode::Storage(x)) => &x.meta,
            Node::Core(CoreNode::Catchment(x)) => &x.meta,
            Node::Core(CoreNode::Aggregated(x)) => &x.meta,
            Node::Core(CoreNode::Reservoir(x)) => &x.meta,
            Node::Core(CoreNode::VirtualStorage(x)) => &x.meta,
            Node::Core(CoreNode::AnnualVirtualStorage(x)) => &x.meta,
            Node::Core(CoreNode::MonthlyVirtualStorage(x)) => &x.meta,
            Node::Core(CoreNode::SeasonalVirtualStorage(x)) => &x.meta,
            Node::Core(CoreNode::RollingVirtualStorage(x)) => &x.meta,

            Node::Custom(x) => &x.meta,
        };
        match &meta.position {
            Some(p) => Some(p),
            None => None,
        }
    }

    /// The nodes that this node refers to, by attribute: the members of an
    /// aggregated node or of a virtual storage.
    pub fn node_references(&self) -> (r: Vec<(&'static str, Vec<String>)>)
        ensures
            match member_nodes(*self) {
                Some(v) => r@.len() == 1 && r@[0].0 == "nodes" && r@[0].1@ == v,
                None => r@.len() == 0,
            },
    {
        let mut out: Vec<(&'static str, Vec<String>)> = Vec::new();
        let names = match self {
            Node::Core(CoreNode::Aggregated(x)) => &x.nodes,
            Node::Core(CoreNode::VirtualStorage(x)) => &x.nodes,
            Node::Core(CoreNode::AnnualVirtualStorage(x)) => &x.nodes,
            Node::Core(CoreNode::MonthlyVirtualStorage(x)) => &x.nodes,
            Node::Core(CoreNode::SeasonalVirtualStorage(x)) => &x.nodes,
            Node::Core(CoreNode::RollingVirtualStorage(x)) => &x.nodes,
            _ => return out,
        };
        out.push(("nodes", copy_names(names)));
        out
    }

    /// Every path reachable from the node through its parameter-valued
    /// fields, repeats kept; none for a custom node.
    pub fn resource_paths(&self) -> (r: Vec<String>)
        ensures
            r@ == node_paths(*self),
    {
        match self {
            Node::Core(CoreNode::Input(x)) => append3(opt_value_resource_paths(&x.max_flow),
                opt_value_resource_paths(&x.min_flow), opt_value_resource_paths(&x.cost)),
            Node::Core(CoreNode::Link(x)) => append3(opt_value_resource_paths(&x.max_flow),
                opt_value_resource_paths(&x.min_flow), opt_value_resource_paths(&x.cost)),
            Node::Core(CoreNode::River(x)) => append3(opt_value_resource_paths(&x.max_flow),
                opt_value_resource_paths(&x.min_flow), opt_value_resource_paths(&x.cost)),
            Node::Core(CoreNode::Output(x)) => append3(opt_value_resource_paths(&x.max_flow),
                opt_value_resource_paths(&x.min_flow), opt_value_resource_paths(&x.cost)),
            Node::Core(CoreNode::Storage(x)) => append3(opt_value_resource_paths(&x.max_volume),
                opt_value_resource_paths(&x.min_volume), opt_value_resource_paths(&x.cost)),
            Node::Core(CoreNode::Catchment(x)) => append3(opt_value_resource_paths(&x.flow),
                opt_value_resource_paths(&x.cost), Vec::new()),
            Node::Core(CoreNode::Aggregated(x)) => {
                let rest = match &x.factors {
                    Some(v) => collect_values(v),
                    None => Vec::new(),
                };
                append3(opt_value_resource_paths(&x.max_flow), opt_value_resource_paths(&x.min_flow), rest)
            },
            Node::Core(CoreNode::Reservoir(x)) => append3(opt_value_resource_paths(&x.max_volume),
                opt_value_resource_paths(&x.min_volume), opt_value_resource_paths(&x.cost)),
            Node::Core(CoreNode::VirtualStorage(x)) => append3(opt_value_resource_paths(&x.max_volume),
                opt_value_resource_paths(&x.min_volume), opt_value_resource_paths(&x.cost)),
            Node::Core(CoreNode::AnnualVirtualStorage(x)) => append3(opt_value_resource_paths(&x.max_volume),
                opt_value_resource_paths(&x.min_volume), opt_value_resource_paths(&x.cost)),
            Node::Core(CoreNode::MonthlyVirtualStorage(x)) => append3(opt_value_resource_paths(&x.max_volume),
                opt_value_resource_paths(&x.min_volume), opt_value_resource_paths(&x.cost)),
            Node::Core(CoreNode::SeasonalVirtualStorage(x)) => append3(opt_value_resource_paths(&x.max_volume),
                opt_value_resource_paths(&x.min_volume), opt_value_resource_paths(&x.cost)),
            Node::Core(CoreNode::RollingVirtualStorage(x)) => append3(opt_value_resource_paths(&x.max_volume),
                opt_value_resource_paths(&x.min_volume), opt_value_resource_paths(&x.cost)),
            Node::Custom(_) => Vec::new(),
        }
    }

    /// Sends every path reachable from the node through `m`; paths that `m`
    /// does not name are kept.
    pub fn update_resource_paths(&mut self, m: &Vec<(String, String)>)
        ensures
            node_rewritten(*old(self), *final(self), m@),
    {
        match self {
            Node::Core(CoreNode::Input(x)) => {
                rewrite_opt_value(&mut x.max_flow, m);
                rewrite_opt_value(&mut x.min_flow, m);
                rewrite_opt_value(&mut x.cost, m);
            },
            Node::Core(CoreNode::Link(x)) => {
                rewrite_opt_value(&mut x.max_flow, m);
                rewrite_opt_value(&mut x.min_flow, m);
                rewrite_opt_value(&mut x.cost, m);
            },
            Node::Core(CoreNode::River(x)) => {
                rewrite_opt_value(&mut x.max_flow, m);
                rewrite_opt_value(&mut x.min_flow, m);
                rewrite_opt_value(&mut x.cost, m);
            },
            Node::Core(CoreNode::Output(x)) => {
                rewrite_opt_value(&mut x.max_flow, m);
                rewrite_opt_value(&mut x.min_flow, m);
                rewrite_opt_value(&mut x.cost, m);
            },
            Node::Core(CoreNode::Storage(x)) => {
                rewrite_opt_value(&mut x.max_volume, m);
                rewrite_opt_value(&mut x.min_volume, m);
                rewrite_opt_value(&mut x.cost, m);
            },
            Node::Core(CoreNode::Catchment(x)) => {
                rewrite_opt_value(&mut x.flow, m);
                rewrite_opt_value(&mut x.cost, m);
            },
            Node::Core(CoreNode::Aggregated(x)) => {
                rewrite_opt_value(&mut x.max_flow, m);
                rewrite_opt_value(&mut x.min_flow, m);
                match &mut x.factors {
                    Some(v) => rewrite_values(v, m),
                    None => {},
                }
            },
            Node::Core(CoreNode::Reservoir(x)) => {
                rewrite_opt_value(&mut x.max_volume, m);
                rewrite_opt_value(&mut x.min_volume, m);
                rewrite_opt_value(&mut x.cost, m);
            },
            Node::Core(CoreNode::VirtualStorage(x)) => {
                rewrite_opt_value(&mut x.max_volume, m);
                rewrite_opt_value(&mut x.min_volume, m);
                rewrite_opt_value(&mut x.cost, m);
            },
            Node::Core(CoreNode::AnnualVirtualStorage(x)) => {
                rewrite_opt_value(&mut x.max_volume, m);
                rewrite_opt_value(&mut x.min_volume, m);
                rewrite_opt_value(&mut x.cost, m);
            },
            Node::Core(CoreNode::MonthlyVirtualStorage(x)) => {
                rewrite_opt_value(&mut x.max_volume, m);
                rewrite_opt_value(&mut x.min_volume, m);
                rewrite_opt_value(&mut x.cost, m);
            },
            Node::Core(CoreNode::SeasonalVirtualStorage(x)) => {
                rewrite_opt_value(&mut x.max_volume, m);
                rewrite_opt_value(&mut x.min_volume, m);
                rewrite_opt_value(&mut x.cost, m);
            },
            Node::Core(CoreNode::RollingVirtualStorage(x)) => {
                rewrite_opt_value(&mut x.max_volume, m);
                rewrite_opt_value(&mut x.min_volume, m);
                rewrite_opt_value(&mut x.cost, m);
            },
            Node::Custom(_) => {},
        }
    }
}

/// The parameter-valued fields of a node that are present, by attribute, in field order.
pub open spec fn node_fields<'a>(n: &'a Node) -> Seq<(&'static str, ParameterValueType<'a>)> {
    match n {
        Node::Core(CoreNode::Input(x)) => opt_field("max_flow", &x.max_flow) + opt_field("min_flow", &x.min_flow)
            + opt_field("cost", &x.cost),
        Node::Core(CoreNode::Link(x)) => opt_field("max_flow", &x.max_flow) + opt_field("min_flow", &x.min_flow)
            + opt_field("cost", &x.cost),
        Node::Core(CoreNode::River(x)) => opt_field("max_flow", &x.max_flow) + opt_field("min_flow", &x.min_flow)
            + opt_field("cost", &x.cost),
        Node::Core(CoreNode::Output(x)) => opt_field("max_flow", &x.max_flow) + opt_field("min_flow", &x.min_flow)
            + opt_field("cost", &x.cost),
        Node::Core(CoreNode::Storage(x)) => opt_field("max_volume", &x.max_volume)
            + opt_field("min_volume", &x.min_volume) + opt_field("cost", &x.cost),
        Node::Core(CoreNode::Catchment(x)) => opt_field("flow", &x.flow) + opt_field("cost", &x.cost),
        Node::Core(CoreNode::Aggregated(x)) => opt_field("max_flow", &x.max_flow)
            + opt_field("min_flow", &x.min_flow) + match &x.factors {
                Some(v) => seq![("factors", ParameterValueType::List(v))],
                None => Seq::empty(),
            },
        Node::Core(CoreNode::Reservoir(x)) => opt_field("max_volume", &x.max_volume)
            + opt_field("min_volume", &x.min_volume) + opt_field("cost", &x.cost),
        Node::Core(CoreNode::VirtualStorage(x)) => opt_field("max_volume", &x.max_volume)
            + opt_field("min_volume", &x.min_volume) + opt_field("cost", &x.cost),
        Node::Core(CoreNode::AnnualVirtualStorage(x)) => opt_field("max_volume", &x.max_volume)
            + opt_field("min_volume", &x.min_volume) + opt_field("cost", &x.cost),
        Node::Core(CoreNode::MonthlyVirtualStorage(x)) => opt_field("max_volume", &x.max_volume)
            + opt_field("min_volume", &x.min_volume) + opt_field("cost", &x.cost),
        Node::Core(CoreNode::SeasonalVirtualStorage(x)) => opt_field("max_volume", &x.max_volume)
            + opt_field("min_volume", &x.min_volume) + opt_field("cost", &x.cost),
        Node::Core(CoreNode::RollingVirtualStorage(x)) => opt_field("max_volume", &x.max_volume)
            + opt_field("min_volume", &x.min_volume) + opt_field("cost", &x.cost),
        Node::Custom(_) => Seq::<(&'static str, ParameterValueType<'_>)>::empty(),
    }
}

impl Node {
    /// Writable handles to the parameter-valued fields of this node that are
    /// present, by attribute, in the order of `parameters`; none for a custom node.
    pub fn parameters_mut(&mut self) -> (r: Vec<(&'static str, ParameterValueTypeMut<'_>)>)
        ensures
            field_keys_mut(r@) == field_keys(node_fields(&*old(self))),
    {
        let ghost before = *self;
        let mut out: Vec<(&'static str, ParameterValueTypeMut<'_>)> = Vec::new();
        match self {
            Node::Core(CoreNode::Input(x)) => {
                match &mut x.max_flow {
                    Some(v) => out.push(("max_flow", ParameterValueTypeMut::Single(v))),
                    None => {},
                }
                match &mut x.min_flow {
                    Some(v) => out.push(("min_flow", ParameterValueTypeMut::Single(v))),
                    None => {},
                }
                match &mut x.cost {
                    Some(v) => out.push(("cost", ParameterValueTypeMut::Single(v))),
                    None => {},
                }
            },
            Node::Core(CoreNode::Link(x)) => {
                match &mut x.max_flow {
                    Some(v) => out.push(("max_flow", ParameterValueTypeMut::Single(v))),
                    None => {},
                }
                match &mut x.min_flow {
                    Some(v) => out.push(("min_flow", ParameterValueTypeMut::Single(v))),
                    None => {},
                }
                match &mut x.cost {
                    Some(v) => out.push(("cost", ParameterValueTypeMut::Single(v))),
                    None => {},
                }
            },
            Node::Core(CoreNode::River(x)) => {
                match &mut x.max_flow {
                    Some(v) => out.push(("max_flow", ParameterValueTypeMut::Single(v))),
                    None => {},
                }
                match &mut x.min_flow {
                    Some(v) => out.push(("min_flow", ParameterValueTypeMut::Single(v))),
                    None => {},
                }
                match &mut x.cost {
                    Some(v) => out.push(("cost", ParameterValueTypeMut::Single(v))),
                    None => {},
                }
            },
            Node::Core(CoreNode::Output(x)) => {
                match &mut x.max_flow {
                    Some(v) => out.push(("max_flow", ParameterValueTypeMut::Single(v))),
                    None => {},
                }
                match &mut x.min_flow {
                    Some(v) => out.push(("min_flow", ParameterValueTypeMut::Single(v))),
                    None => {},
                }
                match &mut x.cost {
                    Some(v) => out.push(("cost", ParameterValueTypeMut::Single(v))),
                    None => {},
                }
            },
            Node::Core(CoreNode::Storage(x)) => {
                match &mut x.max_volume {
                    Some(v) => out.push(("max_volume", ParameterValueTypeMut::Single(v))),
                    None => {},
                }
                match &mut x.min_volume {
                    Some(v) => out.push(("min_volume", ParameterValueTypeMut::Single(v))),
                    None => {},
                }
                match &mut x.cost {
                    Some(v) => out.push(("cost", ParameterValueTypeMut::Single(v))),
                    None => {},
                }
            },
            Node::Core(CoreNode::Catchment(x)) => {
                match &mut x.flow {
                    Some(v) => out.push(("flow", ParameterValueTypeMut::Single(v))),
                    None => {},
                }
                match &mut x.cost {
                    Some(v) => out.push(("cost", ParameterValueTypeMut::Single(v))),
                    None => {},
                }
            },
            Node::Core(CoreNode::Aggregated(x)) => {
                match &mut x.max_flow {
                    Some(v) => out.push(("max_flow", ParameterValueTypeMut::Single(v))),
                    None => {},
                }
                match &mut x.min_flow {
                    Some(v) => out.push(("min_flow", ParameterValueTypeMut::Single(v))),
                    None => {},
                }
                match &mut x.factors {
                    Some(v) => out.push(("factors", ParameterValueTypeMut::List(v))),
                    None => {},
                }
            },
            Node::Core(CoreNode::Reservoir(x)) => {
                match &mut x.max_volume {
                    Some(v) => out.push(("max_volume", ParameterValueTypeMut::Single(v))),
                    None => {},
                }
                match &mut x.min_volume {
                    Some(v) => out.push(("min_volume", ParameterValueTypeMut::Single(v))),
                    None => {},
                }
                match &mut x.cost {
                    Some(v) => out.push(("cost", ParameterValueTypeMut::Single(v))),
                    None => {},
                }
            },
            Node::Core(CoreNode::VirtualStorage(x)) => {
                match &mut x.max_volume {
                    Some(v) => out.push(("max_volume", ParameterValueTypeMut::Single(v))),
                    None => {},
                }
                match &mut x.min_volume {
                    Some(v) => out.push(("min_volume", ParameterValueTypeMut::Single(v))),
                    None => {},
                }
                match &mut x.cost {
                    Some(v) => out.push(("cost", ParameterValueTypeMut::Single(v))),
                    None => {},
                }
            },
            Node::Core(CoreNode::AnnualVirtualStorage(x)) => {
                match &mut x.max_volume {
                    Some(v) => out.push(("max_volume", ParameterValueTypeMut::Single(v))),
                    None => {},
                }
                match &mut x.min_volume {
                    Some(v) => out.push(("min_volume", ParameterValueTypeMut::Single(v))),
                    None => {},
                }
                match &mut x.cost {
                    Some(v) => out.push(("cost", ParameterValueTypeMut::Single(v))),
                    None => {},
                }
            },
            Node::Core(CoreNode::MonthlyVirtualStorage(x)) => {
                match &mut x.max_volume {
                    Some(v) => out.push(("max_volume", ParameterValueTypeMut::Single(v))),
                    None => {},
                }
                match &mut x.min_volume {
                    Some(v) => out.push(("min_volume", ParameterValueTypeMut::Single(v))),
                    None => {},
                }
                match &mut x.cost {
                    Some(v) => out.push(("cost", ParameterValueTypeMut::Single(v))),
                    None => {},
                }
            },
            Node::Core(CoreNode::SeasonalVirtualStorage(x)) => {
                match &mut x.max_volume {
                    Some(v) => out.push(("max_volume", ParameterValueTypeMut::Single(v))),
                    None => {},
                }
                match &mut x.min_volume {
                    Some(v) => out.push(("min_volume", ParameterValueTypeMut::Single(v))),
                    None => {},
                }
                match &mut x.cost {
                    Some(v) => out.push(("cost", ParameterValueTypeMut::Single(v))),
                    None => {},
                }
            },
            Node::Core(CoreNode::RollingVirtualStorage(x)) => {
                match &mut x.max_volume {
                    Some(v) => out.push(("max_volume", ParameterValueTypeMut::Single(v))),
                    None => {},
                }
                match &mut x.min_volume {
                    Some(v) => out.push(("min_volume", ParameterValueTypeMut::Single(v))),
                    None => {},
                }
                match &mut x.cost {
                    Some(v) => out.push(("cost", ParameterValueTypeMut::Single(v))),
                    None => {},
                }
            },
            Node::Custom(_) => {},
        }
        assert(field_keys_mut(out@) =~= field_keys(node_fields(&before)));
        out
    }

    /// The parameter-valued fields of this node that are present, by
    /// attribute, in field order; none for a custom node.
    pub fn parameters(&self) -> (r: Vec<(&'static str, ParameterValueType<'_>)>)
        ensures
            r@ == node_fields(self),
    {
        let mut out: Vec<(&'static str, ParameterValueType<'_>)> = Vec::new();
        match self {
            Node::Core(CoreNode::Input(x)) => {
                push_opt_field(&mut out, "max_flow", &x.max_flow);
                push_opt_field(&mut out, "min_flow", &x.min_flow);
                push_opt_field(&mut out, "cost", &x.cost);
            },
            Node::Core(CoreNode::Link(x)) => {
                push_opt_field(&mut out, "max_flow", &x.max_flow);
                push_opt_field(&mut out, "min_flow", &x.min_flow);
                push_opt_field(&mut out, "cost", &x.cost);
            },
            Node::Core(CoreNode::River(x)) => {
                push_opt_field(&mut out, "max_flow", &x.max_flow);
                push_opt_field(&mut out, "min_flow", &x.min_flow);
                push_opt_field(&mut out, "cost", &x.cost);
            },
            Node::Core(CoreNode::Output(x)) => {
                push_opt_field(&mut out, "max_flow", &x.max_flow);
                push_opt_field(&mut out, "min_flow", &x.min_flow);
                push_opt_field(&mut out, "cost", &x.cost);
            },
            Node::Core(CoreNode::Storage(x)) => {
                push_opt_field(&mut out, "max_volume", &x.max_volume);
                push_opt_field(&mut out, "min_volume", &x.min_volume);
                push_opt_field(&mut out, "cost", &x.cost);
            },
            Node::Core(CoreNode::Catchment(x)) => {
                push_opt_field(&mut out, "flow", &x.flow);
                push_opt_field(&mut out, "cost", &x.cost);
            },
            Node::Core(CoreNode::Aggregated(x)) => {
                push_opt_field(&mut out, "max_flow", &x.max_flow);
                push_opt_field(&mut out, "min_flow", &x.min_flow);
                let ghost before = out@;
                match &x.factors {
                    Some(v) => out.push(("factors", ParameterValueType::List(v))),
                    None => {},
                }
                assert(out@ =~= before + match &x.factors {
                    Some(v) => seq![("factors", ParameterValueType::List(v))],
                    None => Seq::empty(),
                });
            },
            Node::Core(CoreNode::Reservoir(x)) => {
                push_opt_field(&mut out, "max_volume", &x.max_volume);
                push_opt_field(&mut out, "min_volume", &x.min_volume);
                push_opt_field(&mut out, "cost", &x.cost);
            },
            Node::Core(CoreNode::VirtualStorage(x)) => {
                push_opt_field(&mut out, "max_volume", &x.max_volume);
                push_opt_field(&mut out, "min_volume", &x.min_volume);
                push_opt_field(&mut out, "cost", &x.cost);
            },
            Node::Core(CoreNode::AnnualVirtualStorage(x)) => {
                push_opt_field(&mut out, "max_volume", &x.max_volume);
                push_opt_field(&mut out, "min_volume", &x.min_volume);
                push_opt_field(&mut out, "cost", &x.cost);
            },
            Node::Core(CoreNode::MonthlyVirtualStorage(x)) => {
                push_opt_field(&mut out, "max_volume", &x.max_volume);
                push_opt_field(&mut out, "min_volume", &x.min_volume);
                push_opt_field(&mut out, "cost", &x.cost);
            },
            Node::Core(CoreNode::SeasonalVirtualStorage(x)) => {
                push_opt_field(&mut out, "max_volume", &x.max_volume);
                push_opt_field(&mut out, "min_volume", &x.min_volume);
                push_opt_field(&mut out, "cost", &x.cost);
            },
            Node::Core(CoreNode::RollingVirtualStorage(x)) => {
                push_opt_field(&mut out, "max_volume", &x.max_volume);
                push_opt_field(&mut out, "min_volume", &x.min_volume);
                push_opt_field(&mut out, "cost", &x.cost);
            },
            Node::Custom(_) => {},
        }
        assert(Seq::<(&'static str, ParameterValueType<'_>)>::empty() + opt_field("flow", &None::<ParameterValue>)
            =~= opt_field("flow", &None::<ParameterValue>));
        out
    }

    /// The node's type: its kind's canonical tag in lower case, or the tag of a
    /// custom node as written.
    pub fn node_type(&self) -> (r: &str)
        ensures
            r@ == match *self {
                Node::Core(CoreNode::Input(_)) => "input"@,
                Node::Core(CoreNode::Link(_)) => "link"@,
                Node::Core(CoreNode::River(_)) => "river"@,
                Node::Core(CoreNode::Output(_)) => "output"@,
                Node::Core(CoreNode::Storage(_)) => "storage"@,
                Node::Core(CoreNode::Catchment(_)) => "catchment"@,
                Node::Core(CoreNode::Aggregated(_)) => "aggregated"@,
                Node::Core(CoreNode::Reservoir(_)) => "reservoir"@,
                Node::Core(CoreNode::VirtualStorage(_)) => "virtualstorage"@,
                Node::Core(CoreNode::AnnualVirtualStorage(_)) => "annualvirtualstorage"@,
                Node::Core(CoreNode::MonthlyVirtualStorage(_)) => "monthlyvirtualstorage"@,
                Node::Core(CoreNode::SeasonalVirtualStorage(_)) => "seasonalvirtualstorage"@,
                Node::Core(CoreNode::RollingVirtualStorage(_)) => "rollingvirtualstorage"@,
                Node::Custom(c) => c.ty@,
            },
    {
        match self {
            Node::Core(CoreNode::Input(_)) => "input",
            Node::Core(CoreNode::Link(_)) => "link",
            Node::Core(CoreNode::River(_)) => "river",
            Node::Core(CoreNode::Output(_)) => "output",
            Node::Core(CoreNode::Storage(_)) => "storage",
            Node::Core(CoreNode::Catchment(_)) => "catchment",
            Node::Core(CoreNode::Aggregated(_)) => "aggregated",
            Node::Core(CoreNode::Reservoir(_)) => "reservoir",
            Node::Core(CoreNode::VirtualStorage(_)) => "virtualstorage",
            Node::Core(CoreNode::AnnualVirtualStorage(_)) => "annualvirtualstorage",
            Node::Core(CoreNode::MonthlyVirtualStorage(_)) => "monthlyvirtualstorage",
            Node::Core(CoreNode::SeasonalVirtualStorage(_)) => "seasonalvirtualstorage",
            Node::Core(CoreNode::RollingVirtualStorage(_)) => "rollingvirtualstorage",

            Node::Custom(c) => c.ty.as_str(),
        }
    }
}

} // verus!
