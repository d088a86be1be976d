use vstd::prelude::*;
use crate::json::str_eq;
use crate::parameters::{Parameter, ParameterValue, CoreParameter, ParameterMeta, DeficitParameter, FlowParameter, StorageParameter,
    TablesArrayParameter, UniformDrawdownProfileParameter, ControlCurvePiecewiseInterpolatedParameter,
    NodeThresholdParameter, StorageThresholdParameter};
use crate::walk::{parameter_paths, parameter_rewritten, mapped, stable, lemma_mapped_twice,
    lemma_parameter_rewrite_idempotent, lemma_opt_value_rewrite_idempotent, lemma_values_rewrite_idempotent,
    opt_seq, opt_list_seq, values_paths, value_paths, opt_value_paths, lemma_values_paths_concat,
    lemma_values_paths_one, lemma_values_paths_contain, nested_at, lemma_discovery_at_depth};
use crate::nodes::{Node, CoreNode, node_paths, node_rewritten};
use crate::tables::Table;
use crate::model::{PywrNetwork, PywrModel};

verus! {

// ----- names and types -----

impl CoreParameter {
    pub open spec fn meta_spec(&self) -> ParameterMeta {
        match self {
            CoreParameter::Aggregated(p) => p.meta,
            CoreParameter::Constant(p) => p.meta,
            CoreParameter::ControlCurvePiecewiseInterpolated(p) => p.meta,
            CoreParameter::DailyProfile(p) => p.meta,
            CoreParameter::DataFrame(p) => p.meta,
            CoreParameter::Deficit(p) => p.meta,
            CoreParameter::Flow(p) => p.meta,
            CoreParameter::IndexedArray(p) => p.meta,
            CoreParameter::Max(p) => p.meta,
            CoreParameter::Negative(p) => p.meta,
            CoreParameter::Storage(p) => p.meta,
            CoreParameter::TablesArray(p) => p.meta,
            CoreParameter::UniformDrawdownProfile(p) => p.meta,
            CoreParameter::AggregatedIndex(p) => p.meta,
            CoreParameter::Min(p) => p.meta,
            CoreParameter::MonthlyProfile(p) => p.meta,
            CoreParameter::ParameterThreshold(p) => p.meta,
            CoreParameter::NodeThreshold(p) => p.meta,
            CoreParameter::StorageThreshold(p) => p.meta,
            CoreParameter::MultipleThresholdIndex(p) => p.meta,
            CoreParameter::MultipleThresholdParameterIndex(p) => p.meta,
            CoreParameter::CurrentYearThreshold(p) => p.meta,
            CoreParameter::CurrentOrdinalDayThreshold(p) => p.meta,

        }
    }

    pub fn meta(&self) -> (r: &ParameterMeta)
        ensures
            *r == self.meta_spec(),
    {
        match self {
            CoreParameter::Aggregated(p) => &p.meta,
            CoreParameter::Constant(p) => &p.meta,
            CoreParameter::ControlCurvePiecewiseInterpolated(p) => &p.meta,
            CoreParameter::DailyProfile(p) => &p.meta,
            CoreParameter::DataFrame(p) => &p.meta,
            CoreParameter::Deficit(p) => &p.meta,
            CoreParameter::Flow(p) => &p.meta,
            CoreParameter::IndexedArray(p) => &p.meta,
            CoreParameter::Max(p) => &p.meta,
            CoreParameter::Negative(p) => &p.meta,
            CoreParameter::Storage(p) => &p.meta,
            CoreParameter::TablesArray(p) => &p.meta,
            CoreParameter::UniformDrawdownProfile(p) => &p.meta,
            CoreParameter::AggregatedIndex(p) => &p.meta,
            CoreParameter::Min(p) => &p.meta,
            CoreParameter::MonthlyProfile(p) => &p.meta,
            CoreParameter::ParameterThreshold(p) => &p.meta,
            CoreParameter::NodeThreshold(p) => &p.meta,
            CoreParameter::StorageThreshold(p) => &p.meta,
            CoreParameter::MultipleThresholdIndex(p) => &p.meta,
            CoreParameter::MultipleThresholdParameterIndex(p) => &p.meta,
            CoreParameter::CurrentYearThreshold(p) => &p.meta,
            CoreParameter::CurrentOrdinalDayThreshold(p) => &p.meta,

        }
    }

    /// The name of the parameter's kind.
    pub fn ty(&self) -> (r: &'static str)
        ensures
            r@ == core_type_name(*self),
    {
        match self {
            CoreParameter::Aggregated(_) => "Aggregated",
            CoreParameter::Constant(_) => "Constant",
            CoreParameter::ControlCurvePiecewiseInterpolated(_) => "ControlCurvePiecewiseInterpolated",
            CoreParameter::DailyProfile(_) => "DailyProfile",
            CoreParameter::DataFrame(_) => "DataFrame",
            CoreParameter::Deficit(_) => "Deficit",
            CoreParameter::Flow(_) => "Flow",
            CoreParameter::IndexedArray(_) => "IndexedArray",
            CoreParameter::Max(_) => "Max",
            CoreParameter::Negative(_) => "Negative",
            CoreParameter::Storage(_) => "Storage",
            CoreParameter::TablesArray(_) => "TablesArray",
            CoreParameter::UniformDrawdownProfile(_) => "UniformDrawdownProfile",
            CoreParameter::AggregatedIndex(_) => "AggregatedIndex",
            CoreParameter::Min(_) => "Min",
            CoreParameter::MonthlyProfile(_) => "MonthlyProfile",
            CoreParameter::ParameterThreshold(_) => "ParameterThreshold",
            CoreParameter::NodeThreshold(_) => "NodeThreshold",
            CoreParameter::StorageThreshold(_) => "StorageThreshold",
            CoreParameter::MultipleThresholdIndex(_) => "MultipleThresholdIndex",
            CoreParameter::MultipleThresholdParameterIndex(_) => "MultipleThresholdParameterIndex",
            CoreParameter::CurrentYearThreshold(_) => "CurrentYearThreshold",
            CoreParameter::CurrentOrdinalDayThreshold(_) => "CurrentOrdinalDayThreshold",

        }
    }
}

pub open spec fn core_type_name(c: CoreParameter) -> Seq<char> {
    match c {
        CoreParameter::Aggregated(_) => "Aggregated"@,
        CoreParameter::Constant(_) => "Constant"@,
        CoreParameter::ControlCurvePiecewiseInterpolated(_) => "ControlCurvePiecewiseInterpolated"@,
        CoreParameter::DailyProfile(_) => "DailyProfile"@,
        CoreParameter::DataFrame(_) => "DataFrame"@,
        CoreParameter::Deficit(_) => "Deficit"@,
        CoreParameter::Flow(_) => "Flow"@,
        CoreParameter::IndexedArray(_) => "IndexedArray"@,
        CoreParameter::Max(_) => "Max"@,
        CoreParameter::Negative(_) => "Negative"@,
        CoreParameter::Storage(_) => "Storage"@,
        CoreParameter::TablesArray(_) => "TablesArray"@,
        CoreParameter::UniformDrawdownProfile(_) => "UniformDrawdownProfile"@,
        CoreParameter::AggregatedIndex(_) => "AggregatedIndex"@,
        CoreParameter::Min(_) => "Min"@,
        CoreParameter::MonthlyProfile(_) => "MonthlyProfile"@,
        CoreParameter::ParameterThreshold(_) => "ParameterThreshold"@,
        CoreParameter::NodeThreshold(_) => "NodeThreshold"@,
        CoreParameter::StorageThreshold(_) => "StorageThreshold"@,
        CoreParameter::MultipleThresholdIndex(_) => "MultipleThresholdIndex"@,
        CoreParameter::MultipleThresholdParameterIndex(_) => "MultipleThresholdParameterIndex"@,
        CoreParameter::CurrentYearThreshold(_) => "CurrentYearThreshold"@,
        CoreParameter::CurrentOrdinalDayThreshold(_) => "CurrentOrdinalDayThreshold"@,

    }
}

/// A parameter's name, if it has one: inline parameters may have none.
pub open spec fn parameter_name(p: Parameter) -> Option<String> {
    match p {
        Parameter::Core(c) => c.meta_spec().name,
        Parameter::Custom(c) => c.meta.name,
    }
}

impl DeficitParameter {
    pub fn node_references(&self) -> (r: Vec<(&'static str, String)>)
        ensures
            r@ == seq![("node", self.node)],
    {
        let mut v: Vec<(&'static str, String)> = Vec::new();
        v.push(("node", self.node.clone()));
        assert(v@ =~= seq![("node", self.node)]);
        v
    }
}

impl FlowParameter {
    pub fn node_references(&self) -> (r: Vec<(&'static str, String)>)
        ensures
            r@ == seq![("node", self.node)],
    {
        let mut v: Vec<(&'static str, String)> = Vec::new();
        v.push(("node", self.node.clone()));
        assert(v@ =~= seq![("node", self.node)]);
        v
    }
}

impl StorageParameter {
    pub fn node_references(&self) -> (r: Vec<(&'static str, String)>)
        ensures
            r@ == seq![("storage_node", self.storage_node)],
    {
        let mut v: Vec<(&'static str, String)> = Vec::new();
        v.push(("storage_node", self.storage_node.clone()));
        assert(v@ =~= seq![("storage_node", self.storage_node)]);
        v
    }
}

impl ControlCurvePiecewiseInterpolatedParameter {
    pub fn node_references(&self) -> (r: Vec<(&'static str, String)>)
        ensures
            r@ == seq![("storage_node", self.storage_node)],
    {
        let mut v: Vec<(&'static str, String)> = Vec::new();
        v.push(("storage_node", self.storage_node.clone()));
        assert(v@ =~= seq![("storage_node", self.storage_node)]);
        v
    }
}

impl NodeThresholdParameter {
    pub fn node_references(&self) -> (r: Vec<(&'static str, String)>)
        ensures
            r@ == seq![("node", self.node)],
    {
        let mut v: Vec<(&'static str, String)> = Vec::new();
        v.push(("node", self.node.clone()));
        assert(v@ =~= seq![("node", self.node)]);
        v
    }
}

impl StorageThresholdParameter {
    pub fn node_references(&self) -> (r: Vec<(&'static str, String)>)
        ensures
            r@ == seq![("storage_node", self.storage_node)],
    {
        let mut v: Vec<(&'static str, String)> = Vec::new();
        v.push(("storage_node", self.storage_node.clone()));
        assert(v@ =~= seq![("storage_node", self.storage_node)]);
        v
    }
}

impl TablesArrayParameter {
    /// The node a tables array names is where its data is stored, not a node
    /// of the network: it refers to none.
    pub fn node_references(&self) -> (r: Vec<(&'static str, String)>)
        ensures
            r@.len() == 0,
    {
        Vec::new()
    }
}

impl UniformDrawdownProfileParameter {
    pub fn node_references(&self) -> (r: Vec<(&'static str, String)>)
        ensures
            r@.len() == 0,
    {
        Vec::new()
    }
}

/// The nodes a parameter refers to, by attribute.
pub open spec fn parameter_node_references(p: Parameter) -> Seq<(&'static str, String)> {
    match p {
        Parameter::Core(CoreParameter::Deficit(x)) => seq![("node", x.node)],
        Parameter::Core(CoreParameter::Flow(x)) => seq![("node", x.node)],
        Parameter::Core(CoreParameter::Storage(x)) => seq![("storage_node", x.storage_node)],
        Parameter::Core(CoreParameter::ControlCurvePiecewiseInterpolated(x)) => seq![("storage_node", x.storage_node)],
        Parameter::Core(CoreParameter::NodeThreshold(x)) => seq![("node", x.node)],
        Parameter::Core(CoreParameter::StorageThreshold(x)) => seq![("storage_node", x.storage_node)],
        _ => Seq::empty(),
    }
}

impl Parameter {
    /// The parameter's name, if it has one.
    pub fn name(&self) -> (r: Option<&str>)
        ensures
            match r {
                Some(s) => parameter_name(*self) is Some && s@ == parameter_name(*self)->Some_0@,
                None => parameter_name(*self) is None,
            },
    {
        let meta = match self {
            Parameter::Core(c) => c.meta(),
            Parameter::Custom(c) => &c.meta,
        };
        match &meta.name {
            Some(n) => Some(n.as_str()),
            None => None,
        }
    }

    /// The parameter's type: its kind's name, or the tag of a custom parameter as written.
    pub fn ty(&self) -> (r: &str)
        ensures
            r@ == match *self {
                Parameter::Core(c) => core_type_name(c),
                Parameter::Custom(c) => c.ty@,
            },
    {
        match self {
            Parameter::Core(c) => c.ty(),
            Parameter::Custom(c) => c.ty.as_str(),
        }
    }

    pub fn is_custom(&self) -> (r: bool)
        ensures
            r == (*self is Custom),
    {
        match self {
            Parameter::Core(_) => false,
            Parameter::Custom(_) => true,
        }
    }

    /// The nodes this parameter refers to, by attribute; none for a custom one.
    pub fn node_references(&self) -> (r: Vec<(&'static str, String)>)
        ensures
            r@ == parameter_node_references(*self),
    {
        match self {
            Parameter::Core(CoreParameter::Deficit(x)) => x.node_references(),
            Parameter::Core(CoreParameter::Flow(x)) => x.node_references(),
            Parameter::Core(CoreParameter::Storage(x)) => x.node_references(),
            Parameter::Core(CoreParameter::ControlCurvePiecewiseInterpolated(x)) => x.node_references(),
            Parameter::Core(CoreParameter::NodeThreshold(x)) => x.node_references(),
            Parameter::Core(CoreParameter::StorageThreshold(x)) => x.node_references(),
            _ => {
                let v: Vec<(&'static str, String)> = Vec::new();
                assert(v@ =~= parameter_node_references(*self));
                v
            },
        }
    }
}

// ----- path sets -----

/// The set of paths that `s` holds, compared by their characters.
pub open spec fn path_set(s: Seq<String>) -> Set<Seq<char>> {
    Set::new(|v: Seq<char>| exists|i: int| 0 <= i < s.len() && (#[trigger] s[i])@ == v)
}

/// No two entries of `s` hold the same path.
pub open spec fn distinct_paths(s: Seq<String>) -> bool {
    forall|i: int, j: int| 0 <= i < s.len() && 0 <= j < s.len() && i != j ==> (#[trigger] s[i])@ != (#[trigger] s[j])@
}

fn insert_path(out: &mut Vec<String>, p: &String)
    requires
        distinct_paths(old(out)@),
    ensures
        distinct_paths(final(out)@),
        path_set(final(out)@) == path_set(old(out)@).insert(p@),
{
    let mut i: usize = 0;
    while i < out.len()
        invariant
            i <= out@.len(),
            out@ == old(out)@,
            distinct_paths(out@),
            forall|j: int| 0 <= j < i ==> (#[trigger] out@[j])@ != p@,
        decreases out.len() - i,
    {
        if str_eq(out[i].as_str(), p.as_str()) {
            assert(path_set(out@) =~= path_set(out@).insert(p@));
            return;
        }
        i = i + 1;
    }
    let ghost before = out@;
    out.push(p.clone());
    assert(path_set(out@) =~= path_set(before).insert(p@)) by {
        assert forall|v: Seq<char>| path_set(out@).contains(v) <==> path_set(before).insert(p@).contains(v) by {
            if path_set(before).contains(v) {
                let k = choose|k: int| 0 <= k < before.len() && (#[trigger] before[k])@ == v;
                assert(out@[k] == before[k]);
            }
            if path_set(out@).contains(v) {
                let k = choose|k: int| 0 <= k < out@.len() && (#[trigger] out@[k])@ == v;
                if k < before.len() {
                    assert(out@[k] == before[k]);
                }
            }
            if v == p@ {
                assert(out@[before.len() as int]@ == v);
            }
        }
    }
}

/// Adds every path of `v` to the set held in `out`.
fn insert_paths(out: &mut Vec<String>, v: &Vec<String>)
    requires
        distinct_paths(old(out)@),
    ensures
        distinct_paths(final(out)@),
        path_set(final(out)@) == path_set(old(out)@).union(path_set(v@)),
{
    let ghost start = out@;
    let mut i: usize = 0;
    while i < v.len()
        invariant
            i <= v@.len(),
            distinct_paths(out@),
            path_set(out@) == path_set(start).union(path_set(v@.subrange(0, i as int))),
        decreases v.len() - i,
    {
        insert_path(out, &v[i]);
        proof {
            let pre = v@.subrange(0, i as int);
            let next = v@.subrange(0, i + 1);
            assert(path_set(next) =~= path_set(pre).insert(v@[i as int]@)) by {
                assert forall|x: Seq<char>| path_set(next).contains(x) <==> path_set(pre).insert(v@[i as int]@).contains(x) by {
                    if path_set(next).contains(x) {
                        let k = choose|k: int| 0 <= k < next.len() && (#[trigger] next[k])@ == x;
                        if k < i {
                            assert(next[k] == pre[k]);
                        }
                    }
                    if path_set(pre).contains(x) {
                        let k = choose|k: int| 0 <= k < pre.len() && (#[trigger] pre[k])@ == x;
                        assert(next[k] == pre[k]);
                    }
                    if x == v@[i as int]@ {
                        assert(next[i as int] == v@[i as int]);
                    }
                }
            }
            assert(path_set(out@) =~= path_set(start).union(path_set(next)));
        }
        i = i + 1;
    }
    assert(v@.subrange(0, v@.len() as int) =~= v@);
}

/// Every path reachable from a list of nodes, repeats kept.
pub open spec fn nodes_paths(s: Seq<Node>) -> Seq<String>
    decreases s.len(),
{
    if s.len() == 0 {
        Seq::empty()
    } else {
        nodes_paths(s.drop_last()) + node_paths(s.last())
    }
}

pub open spec fn parameters_paths(s: Seq<Parameter>) -> Seq<String>
    decreases s.len(),
{
    if s.len() == 0 {
        Seq::empty()
    } else {
        parameters_paths(s.drop_last()) + parameter_paths(s.last())
    }
}

pub open spec fn tables_paths(s: Seq<Table>) -> Seq<String>
    decreases s.len(),
{
    if s.len() == 0 {
        Seq::empty()
    } else {
        tables_paths(s.drop_last()).push(s.last().url)
    }
}

pub open spec fn network_node_paths(n: PywrNetwork) -> Seq<String> {
    match n.nodes {
        Some(v) => nodes_paths(v@),
        None => Seq::empty(),
    }
}

pub open spec fn network_parameter_paths(n: PywrNetwork) -> Seq<String> {
    match n.parameters {
        Some(v) => parameters_paths(v.0@),
        None => Seq::empty(),
    }
}

pub open spec fn network_table_paths(n: PywrNetwork) -> Seq<String> {
    match n.tables {
        Some(v) => tables_paths(v.0@),
        None => Seq::empty(),
    }
}

/// Every path reachable from a network: through its nodes, its parameters and its tables.
pub open spec fn network_paths(n: PywrNetwork) -> Seq<String> {
    network_node_paths(n) + network_parameter_paths(n) + network_table_paths(n)
}

proof fn lemma_path_set_concat(a: Seq<String>, b: Seq<String>)
    ensures
        path_set(a + b) == path_set(a).union(path_set(b)),
{
    assert forall|x: Seq<char>| path_set(a + b).contains(x) <==> path_set(a).union(path_set(b)).contains(x) by {
        if path_set(a + b).contains(x) {
            let k = choose|k: int| 0 <= k < (a + b).len() && (#[trigger] (a + b)[k])@ == x;
            if k < a.len() {
                assert((a + b)[k] == a[k]);
            } else {
                assert((a + b)[k] == b[k - a.len()]);
            }
        }
        if path_set(a).contains(x) {
            let k = choose|k: int| 0 <= k < a.len() && (#[trigger] a[k])@ == x;
            assert((a + b)[k] == a[k]);
        }
        if path_set(b).contains(x) {
            let k = choose|k: int| 0 <= k < b.len() && (#[trigger] b[k])@ == x;
            assert((a + b)[k + a.len()] == b[k]);
        }
    }
    assert(path_set(a + b) =~= path_set(a).union(path_set(b)));
}

// ----- rewriting a network -----

/// `b` is the network `a` with every path of its nodes, parameters and tables
/// sent through `m`; edges and recorders are kept.
pub open spec fn network_rewritten(a: PywrNetwork, b: PywrNetwork, m: Seq<(String, String)>) -> bool {
    &&& b.edges == a.edges
    &&& b.recorders == a.recorders
    &&& match a.nodes {
        Some(v) => b.nodes is Some && b.nodes->Some_0@.len() == v@.len() && forall|i: int|
            0 <= i < v@.len() ==> node_rewritten(#[trigger] v@[i], b.nodes->Some_0@[i], m),
        None => b.nodes is None,
    }
    &&& match a.parameters {
        Some(v) => b.parameters is Some && b.parameters->Some_0.0@.len() == v.0@.len() && forall|i: int|
            0 <= i < v.0@.len() ==> parameter_rewritten(#[trigger] v.0@[i], b.parameters->Some_0.0@[i], m),
        None => b.parameters is None,
    }
    &&& match a.tables {
        Some(v) => b.tables is Some && b.tables->Some_0.0@.len() == v.0@.len() && forall|i: int|
            0 <= i < v.0@.len() ==> (#[trigger] b.tables->Some_0.0@[i]).name == v.0@[i].name
                && b.tables->Some_0.0@[i].url == mapped(m, v.0@[i].url),
        None => b.tables is None,
    }
}

/// `r` is the position of the first node named `name`, or `None` where no node is.
pub open spec fn node_index_result(n: PywrNetwork, name: Seq<char>, r: Option<usize>) -> bool {
    match n.nodes {
        Some(v) => match r {
            Some(i) => i < v@.len() && v@[i as int].meta_spec().name@ == name && forall|j: int|
                0 <= j < i ==> (#[trigger] v@[j]).meta_spec().name@ != name,
            None => forall|j: int| 0 <= j < v@.len() ==> (#[trigger] v@[j]).meta_spec().name@ != name,
        },
        None => r is None,
    }
}

/// `r` is the first node named `name`, or `None` where no node is.
pub open spec fn node_result(n: PywrNetwork, name: Seq<char>, r: Option<Node>) -> bool {
    match n.nodes {
        Some(v) => match r {
            Some(x) => exists|i: int| 0 <= i < v@.len() && v@[i] == x && (#[trigger] v@[i]).meta_spec().name@ == name
                && forall|j: int| 0 <= j < i ==> (#[trigger] v@[j]).meta_spec().name@ != name,
            None => forall|j: int| 0 <= j < v@.len() ==> (#[trigger] v@[j]).meta_spec().name@ != name,
        },
        None => r is None,
    }
}

/// `r` is the node at position `idx`, or `None` past the end.
pub open spec fn node_at_result(n: PywrNetwork, idx: usize, r: Option<Node>) -> bool {
    match n.nodes {
        Some(v) => match r {
            Some(x) => idx < v@.len() && x == v@[idx as int],
            None => idx >= v@.len(),
        },
        None => r is None,
    }
}

pub open spec fn named(p: Parameter, name: Seq<char>) -> bool {
    parameter_name(p) is Some && parameter_name(p)->Some_0@ == name
}

/// `r` is the position of the first parameter named `name`, or `None` where no parameter is.
pub open spec fn parameter_index_result(n: PywrNetwork, name: Seq<char>, r: Option<usize>) -> bool {
    match n.parameters {
        Some(v) => match r {
            Some(i) => i < v.0@.len() && named(v.0@[i as int], name) && forall|j: int|
                0 <= j < i ==> !named(#[trigger] v.0@[j], name),
            None => forall|j: int| 0 <= j < v.0@.len() ==> !named(#[trigger] v.0@[j], name),
        },
        None => r is None,
    }
}

/// `r` is the first parameter named `name`, or `None` where no parameter is.
pub open spec fn parameter_result(n: PywrNetwork, name: Seq<char>, r: Option<Parameter>) -> bool {
    match n.parameters {
        Some(v) => match r {
            Some(x) => exists|i: int| 0 <= i < v.0@.len() && v.0@[i] == x && named(#[trigger] v.0@[i], name)
                && forall|j: int| 0 <= j < i ==> !named(#[trigger] v.0@[j], name),
            None => forall|j: int| 0 <= j < v.0@.len() ==> !named(#[trigger] v.0@[j], name),
        },
        None => r is None,
    }
}

/// `r` is the parameter at position `idx`, or `None` past the end.
pub open spec fn parameter_at_result(n: PywrNetwork, idx: usize, r: Option<Parameter>) -> bool {
    match n.parameters {
        Some(v) => match r {
            Some(x) => idx < v.0@.len() && x == v.0@[idx as int],
            None => idx >= v.0@.len(),
        },
        None => r is None,
    }
}

pub open spec fn deref_opt<T>(r: Option<&T>) -> Option<T> {
    match r {
        Some(x) => Some(*x),
        None => None,
    }
}

impl PywrNetwork {
    /// The position of the first node named `name`.
    pub fn get_node_index_by_name(&self, name: &str) -> (r: Option<usize>)
        ensures
            node_index_result(*self, name@, r),
    {
        match &self.nodes {
            Some(v) => {
                let mut i: usize = 0;
                while i < v.len()
                    invariant
                        i <= v@.len(),
                        self.nodes == Some(*v),
                        forall|j: int| 0 <= j < i ==> (#[trigger] v@[j]).meta_spec().name@ != name@,
                    decreases v.len() - i,
                {
                    if str_eq(v[i].name(), name) {
                        return Some(i);
                    }
                    i = i + 1;
                }
                None
            },
            None => None,
        }
    }

    /// The first node named `name`.
    pub fn get_node_by_name(&self, name: &str) -> (r: Option<&Node>)
        ensures
            node_result(*self, name@, deref_opt(r)),
    {
        match self.get_node_index_by_name(name) {
            Some(i) => match &self.nodes {
                Some(v) => Some(&v[i]),
                None => None,
            },
            None => None,
        }
    }

    /// The node at position `idx`.
    pub fn get_node(&self, idx: usize) -> (r: Option<&Node>)
        ensures
            node_at_result(*self, idx, deref_opt(r)),
    {
        match &self.nodes {
            Some(v) => if idx < v.len() {
                Some(&v[idx])
            } else {
                None
            },
            None => None,
        }
    }

    /// The position of the first parameter named `name`.
    pub fn get_parameter_index_by_name(&self, name: &str) -> (r: Option<usize>)
        ensures
            parameter_index_result(*self, name@, r),
    {
        match &self.parameters {
            Some(v) => {
                let mut i: usize = 0;
                while i < v.0.len()
                    invariant
                        i <= v.0@.len(),
                        self.parameters == Some(*v),
                        forall|j: int| 0 <= j < i ==> !named(#[trigger] v.0@[j], name@),
                    decreases v.0.len() - i,
                {
                    match v.0[i].name() {
                        Some(n) => if str_eq(n, name) {
                            return Some(i);
                        },
                        None => {},
                    }
                    i = i + 1;
                }
                None
            },
            None => None,
        }
    }

    /// The first parameter named `name`.
    pub fn get_parameter_by_name(&self, name: &str) -> (r: Option<&Parameter>)
        ensures
            parameter_result(*self, name@, deref_opt(r)),
    {
        match self.get_parameter_index_by_name(name) {
            Some(i) => match &self.parameters {
                Some(v) => Some(&v.0[i]),
                None => None,
            },
            None => None,
        }
    }

    /// The parameter at position `idx`.
    pub fn get_parameter(&self, idx: usize) -> (r: Option<&Parameter>)
        ensures
            parameter_at_result(*self, idx, deref_opt(r)),
    {
        match &self.parameters {
            Some(v) => if idx < v.0.len() {
                Some(&v.0[idx])
            } else {
                None
            },
            None => None,
        }
    }

    /// The set of paths reachable from the nodes, parameters defined inline in them included.
    pub fn node_resource_paths(&self) -> (r: Vec<String>)
        ensures
            distinct_paths(r@),
            path_set(r@) == path_set(network_node_paths(*self)),
    {
        let mut out: Vec<String> = Vec::new();
        match &self.nodes {
            Some(v) => {
                let mut i: usize = 0;
                while i < v.len()
                    invariant
                        i <= v@.len(),
                        distinct_paths(out@),
                        path_set(out@) == path_set(nodes_paths(v@.subrange(0, i as int))),
                    decreases v.len() - i,
                {
                    let p = v[i].resource_paths();
                    insert_paths(&mut out, &p);
                    proof {
                        let next = v@.subrange(0, i + 1);
                        assert(next.drop_last() =~= v@.subrange(0, i as int));
                        lemma_path_set_concat(nodes_paths(v@.subrange(0, i as int)), node_paths(v@[i as int]));
                    }
                    i = i + 1;
                }
                assert(v@.subrange(0, v@.len() as int) =~= v@);
            },
            None => {
                assert(path_set(out@) =~= path_set(network_node_paths(*self)));
            },
        }
        out
    }

    /// The set of paths reachable from the parameters.
    pub fn parameter_resource_paths(&self) -> (r: Vec<String>)
        ensures
            distinct_paths(r@),
            path_set(r@) == path_set(network_parameter_paths(*self)),
    {
        let mut out: Vec<String> = Vec::new();
        match &self.parameters {
            Some(v) => {
                let mut i: usize = 0;
                while i < v.0.len()
                    invariant
                        i <= v.0@.len(),
                        distinct_paths(out@),
                        path_set(out@) == path_set(parameters_paths(v.0@.subrange(0, i as int))),
                    decreases v.0.len() - i,
                {
                    let p = v.0[i].resource_paths();
                    insert_paths(&mut out, &p);
                    proof {
                        let next = v.0@.subrange(0, i + 1);
                        assert(next.drop_last() =~= v.0@.subrange(0, i as int));
                        lemma_path_set_concat(parameters_paths(v.0@.subrange(0, i as int)), parameter_paths(v.0@[i as int]));
                    }
                    i = i + 1;
                }
                assert(v.0@.subrange(0, v.0@.len() as int) =~= v.0@);
            },
            None => {
                assert(path_set(out@) =~= path_set(network_parameter_paths(*self)));
            },
        }
        out
    }

    /// The set of paths of the tables.
    pub fn table_resource_paths(&self) -> (r: Vec<String>)
        ensures
            distinct_paths(r@),
            path_set(r@) == path_set(network_table_paths(*self)),
    {
        let mut out: Vec<String> = Vec::new();
        match &self.tables {
            Some(v) => {
                let mut i: usize = 0;
                while i < v.0.len()
                    invariant
                        i <= v.0@.len(),
                        distinct_paths(out@),
                        path_set(out@) == path_set(tables_paths(v.0@.subrange(0, i as int))),
                    decreases v.0.len() - i,
                {
                    let p = v.0[i].resource_paths();
                    insert_paths(&mut out, &p);
                    proof {
                        let next = v.0@.subrange(0, i + 1);
                        assert(next.drop_last() =~= v.0@.subrange(0, i as int));
                        assert(tables_paths(next) == tables_paths(v.0@.subrange(0, i as int)) + seq![v.0@[i as int].url]);
                        lemma_path_set_concat(tables_paths(v.0@.subrange(0, i as int)), seq![v.0@[i as int].url]);
                    }
                    i = i + 1;
                }
                assert(v.0@.subrange(0, v.0@.len() as int) =~= v.0@);
            },
            None => {
                assert(path_set(out@) =~= path_set(network_table_paths(*self)));
            },
        }
        out
    }

    /// The set of every path the network refers to: through nodes, parameters and tables.
    pub fn resource_paths(&self) -> (r: Vec<String>)
        ensures
            distinct_paths(r@),
            path_set(r@) == path_set(network_paths(*self)),
    {
        let mut out: Vec<String> = Vec::new();
        let a = self.node_resource_paths();
        let b = self.parameter_resource_paths();
        let c = self.table_resource_paths();
        insert_paths(&mut out, &a);
        insert_paths(&mut out, &b);
        insert_paths(&mut out, &c);
        proof {
            lemma_path_set_concat(network_node_paths(*self), network_parameter_paths(*self));
            lemma_path_set_concat(network_node_paths(*self) + network_parameter_paths(*self), network_table_paths(*self));
            assert(path_set(Seq::<String>::empty()) =~= Set::<Seq<char>>::empty());
            assert(path_set(out@) =~= path_set(network_paths(*self)));
        }
        out
    }

    /// Sends every path of the nodes, parameters and tables through `m`;
    /// paths that `m` does not name are kept.
    pub fn update_resource_paths(&mut self, m: &Vec<(String, String)>)
        ensures
            network_rewritten(*old(self), *final(self), m@),
    {
        match &mut self.nodes {
            Some(v) => {
                let ghost orig = v@;
                let mut i: usize = 0;
                while i < v.len()
                    invariant
                        i <= v@.len(),
                        v@.len() == orig.len(),
                        forall|j: int| 0 <= j < i ==> node_rewritten(#[trigger] orig[j], v@[j], m@),
                        forall|j: int| i <= j < v@.len() ==> #[trigger] v@[j] == orig[j],
                    decreases v.len() - i,
                {
                    v[i].update_resource_paths(m);
                    i = i + 1;
                }
            },
            None => {},
        }
        match &mut self.parameters {
            Some(v) => {
                let ghost orig = v.0@;
                let mut i: usize = 0;
                while i < v.0.len()
                    invariant
                        i <= v.0@.len(),
                        v.0@.len() == orig.len(),
                        forall|j: int| 0 <= j < i ==> parameter_rewritten(#[trigger] orig[j], v.0@[j], m@),
                        forall|j: int| i <= j < v.0@.len() ==> #[trigger] v.0@[j] == orig[j],
                    decreases v.0.len() - i,
                {
                    v.0[i].update_resource_paths(m);
                    i = i + 1;
                }
            },
            None => {},
        }
        match &mut self.tables {
            Some(v) => {
                let ghost orig = v.0@;
                let mut i: usize = 0;
                while i < v.0.len()
                    invariant
                        i <= v.0@.len(),
                        v.0@.len() == orig.len(),
                        forall|j: int| 0 <= j < i ==> (#[trigger] v.0@[j]).name == orig[j].name
                            && v.0@[j].url == mapped(m@, orig[j].url),
                        forall|j: int| i <= j < v.0@.len() ==> #[trigger] v.0@[j] == orig[j],
                    decreases v.0.len() - i,
                {
                    v.0[i].update_resource_paths(m);
                    i = i + 1;
                }
            },
            None => {},
        }
    }
}

// ----- set semantics -----

proof fn lemma_nodes_paths_contain(s: Seq<Node>, i: int)
    requires
        0 <= i < s.len(),
    ensures
        path_set(node_paths(s[i])).subset_of(path_set(nodes_paths(s))),
    decreases s.len(),
{
    let pre = nodes_paths(s.drop_last());
    lemma_path_set_concat(pre, node_paths(s.last()));
    if i < s.len() - 1 {
        lemma_nodes_paths_contain(s.drop_last(), i);
        assert(s.drop_last()[i] == s[i]);
    }
}

/// Set semantics: a path that two nodes of a network both refer to is one
/// entry, exactly, of the network's set of paths.
pub proof fn lemma_shared_path_once(n: PywrNetwork, r: Seq<String>, i: int, j: int, p: Seq<char>)
    requires
        n.nodes is Some,
        0 <= i < n.nodes->Some_0@.len(),
        0 <= j < n.nodes->Some_0@.len(),
        path_set(node_paths(n.nodes->Some_0@[i])).contains(p),
        path_set(node_paths(n.nodes->Some_0@[j])).contains(p),
        distinct_paths(r),
        path_set(r) == path_set(network_paths(n)),
    ensures
        exists|k: int| 0 <= k < r.len() && r[k]@ == p && forall|l: int| 0 <= l < r.len() && (#[trigger] r[l])@ == p ==> l == k,
{
    let v = n.nodes->Some_0@;
    lemma_nodes_paths_contain(v, i);
    lemma_path_set_concat(network_node_paths(n), network_parameter_paths(n));
    lemma_path_set_concat(network_node_paths(n) + network_parameter_paths(n), network_table_paths(n));
    assert(path_set(r).contains(p));
    let k = choose|k: int| 0 <= k < r.len() && (#[trigger] r[k])@ == p;
    assert forall|l: int| 0 <= l < r.len() && (#[trigger] r[l])@ == p implies l == k by {
        if l != k {
            assert(r[l]@ != r[k]@);
        }
    }
}

impl PywrModel {
    pub fn get_node_index_by_name(&self, name: &str) -> (r: Option<usize>)
        ensures
            node_index_result(self.network, name@, r),
    {
        self.network.get_node_index_by_name(name)
    }

    pub fn get_node_by_name(&self, name: &str) -> (r: Option<&Node>)
        ensures
            node_result(self.network, name@, deref_opt(r)),
    {
        self.network.get_node_by_name(name)
    }

    pub fn get_node(&self, idx: usize) -> (r: Option<&Node>)
        ensures
            node_at_result(self.network, idx, deref_opt(r)),
    {
        self.network.get_node(idx)
    }

    pub fn get_parameter_index_by_name(&self, name: &str) -> (r: Option<usize>)
        ensures
            parameter_index_result(self.network, name@, r),
    {
        self.network.get_parameter_index_by_name(name)
    }

    pub fn get_parameter_by_name(&self, name: &str) -> (r: Option<&Parameter>)
        ensures
            parameter_result(self.network, name@, deref_opt(r)),
    {
        self.network.get_parameter_by_name(name)
    }

    pub fn get_parameter(&self, idx: usize) -> (r: Option<&Parameter>)
        ensures
            parameter_at_result(self.network, idx, deref_opt(r)),
    {
        self.network.get_parameter(idx)
    }

    /// The set of every path the model refers to.
    pub fn resource_paths(&self) -> (r: Vec<String>)
        ensures
            distinct_paths(r@),
            path_set(r@) == path_set(network_paths(self.network)),
    {
        self.network.resource_paths()
    }

    pub fn node_resource_paths(&self) -> (r: Vec<String>)
        ensures
            distinct_paths(r@),
            path_set(r@) == path_set(network_node_paths(self.network)),
    {
        self.network.node_resource_paths()
    }

    pub fn parameter_resource_paths(&self) -> (r: Vec<String>)
        ensures
            distinct_paths(r@),
            path_set(r@) == path_set(network_parameter_paths(self.network)),
    {
        self.network.parameter_resource_paths()
    }

    pub fn table_resource_paths(&self) -> (r: Vec<String>)
        ensures
            distinct_paths(r@),
            path_set(r@) == path_set(network_table_paths(self.network)),
    {
        self.network.table_resource_paths()
    }

    /// Sends every path of the model through `m`; paths that `m` does not name are kept.
    pub fn update_resource_paths(&mut self, m: &Vec<(String, String)>)
        ensures
            final(self).metadata == old(self).metadata,
            final(self).timestepper == old(self).timestepper,
            final(self).scenarios == old(self).scenarios,
            network_rewritten(old(self).network, final(self).network, m@),
    {
        self.network.update_resource_paths(m)
    }
}

// ----- custom entities -----

/// The type tags of the custom nodes of `s`, in order, repeats kept.
pub open spec fn custom_node_tags(s: Seq<Node>) -> Seq<String>
    decreases s.len(),
{
    if s.len() == 0 {
        Seq::empty()
    } else {
        custom_node_tags(s.drop_last()) + match s.last() {
            Node::Custom(c) => seq![c.ty],
            _ => Seq::empty(),
        }
    }
}

/// The type tags of the custom parameters of `s`, in order, repeats kept.
pub open spec fn custom_parameter_tags(s: Seq<Parameter>) -> Seq<String>
    decreases s.len(),
{
    if s.len() == 0 {
        Seq::empty()
    } else {
        custom_parameter_tags(s.drop_last()) + match s.last() {
            Parameter::Custom(c) => seq![c.ty],
            _ => Seq::empty(),
        }
    }
}

proof fn lemma_path_set_one(p: String)
    ensures
        path_set(seq![p]) == Set::<Seq<char>>::empty().insert(p@),
{
    assert(seq![p][0] == p);
    assert(path_set(seq![p]) =~= Set::<Seq<char>>::empty().insert(p@));
}

impl PywrNetwork {
    /// The distinct type tags of the custom nodes: those no built-in kind took.
    pub fn custom_node_types(&self) -> (r: Vec<String>)
        ensures
            distinct_paths(r@),
            path_set(r@) == path_set(match self.nodes {
                Some(v) => custom_node_tags(v@),
                None => Seq::empty(),
            }),
    {
        let mut out: Vec<String> = Vec::new();
        match &self.nodes {
            Some(v) => {
                let mut i: usize = 0;
                while i < v.len()
                    invariant
                        i <= v@.len(),
                        distinct_paths(out@),
                        path_set(out@) == path_set(custom_node_tags(v@.subrange(0, i as int))),
                    decreases v.len() - i,
                {
                    let ghost pre = custom_node_tags(v@.subrange(0, i as int));
                    proof {
                        let next = v@.subrange(0, i + 1);
                        assert(next.drop_last() =~= v@.subrange(0, i as int));
                    }
                    match &v[i] {
                        Node::Custom(c) => {
                            insert_path(&mut out, &c.ty);
                            proof {
                                lemma_path_set_concat(pre, seq![c.ty]);
                                lemma_path_set_one(c.ty);
                                assert(path_set(pre).insert(c.ty@) =~= path_set(pre).union(Set::<Seq<char>>::empty().insert(c.ty@)));
                            }
                        },
                        _ => {
                            proof {
                                lemma_path_set_concat(pre, Seq::<String>::empty());
                                assert(path_set(Seq::<String>::empty()) =~= Set::<Seq<char>>::empty());
                                assert(path_set(pre).union(Set::<Seq<char>>::empty()) =~= path_set(pre));
                            }
                        },
                    }
                    i = i + 1;
                }
                assert(v@.subrange(0, v@.len() as int) =~= v@);
            },
            None => {
                assert(path_set(out@) =~= path_set(Seq::<String>::empty()));
            },
        }
        out
    }

    /// The distinct type tags of the custom parameters: those no built-in kind took.
    pub fn custom_parameter_types(&self) -> (r: Vec<String>)
        ensures
            distinct_paths(r@),
            path_set(r@) == path_set(match self.parameters {
                Some(v) => custom_parameter_tags(v.0@),
                None => Seq::empty(),
            }),
    {
        let mut out: Vec<String> = Vec::new();
        match &self.parameters {
            Some(v) => {
                let mut i: usize = 0;
                while i < v.0.len()
                    invariant
                        i <= v.0@.len(),
                        distinct_paths(out@),
                        path_set(out@) == path_set(custom_parameter_tags(v.0@.subrange(0, i as int))),
                    decreases v.0.len() - i,
                {
                    let ghost pre = custom_parameter_tags(v.0@.subrange(0, i as int));
                    proof {
                        let next = v.0@.subrange(0, i + 1);
                        assert(next.drop_last() =~= v.0@.subrange(0, i as int));
                    }
                    match &v.0[i] {
                        Parameter::Custom(c) => {
                            insert_path(&mut out, &c.ty);
                            proof {
                                lemma_path_set_concat(pre, seq![c.ty]);
                                lemma_path_set_one(c.ty);
                                assert(path_set(pre).insert(c.ty@) =~= path_set(pre).union(Set::<Seq<char>>::empty().insert(c.ty@)));
                            }
                        },
                        _ => {
                            proof {
                                lemma_path_set_concat(pre, Seq::<String>::empty());
                                assert(path_set(Seq::<String>::empty()) =~= Set::<Seq<char>>::empty());
                                assert(path_set(pre).union(Set::<Seq<char>>::empty()) =~= path_set(pre));
                            }
                        },
                    }
                    i = i + 1;
                }
                assert(v.0@.subrange(0, v.0@.len() as int) =~= v.0@);
            },
            None => {
                assert(path_set(out@) =~= path_set(Seq::<String>::empty()));
            },
        }
        out
    }
}

// ----- idempotence of rewriting, for nodes and networks -----

/// Under a stable mapping, a rewritten node is left as it is by a second rewrite.
pub proof fn lemma_node_rewrite_idempotent(a: Node, b: Node, m: Seq<(String, String)>)
    requires
        stable(m),
        node_rewritten(a, b, m),
    ensures
        node_rewritten(b, b, m),
{
    match a {
        Node::Core(CoreNode::Input(x)) => {
            let y = b->Core_0->Input_0;
            lemma_opt_value_rewrite_idempotent(x.max_flow, y.max_flow, m);
            lemma_opt_value_rewrite_idempotent(x.min_flow, y.min_flow, m);
            lemma_opt_value_rewrite_idempotent(x.cost, y.cost, m);
        },
        Node::Core(CoreNode::Link(x)) => {
            let y = b->Core_0->Link_0;
            lemma_opt_value_rewrite_idempotent(x.max_flow, y.max_flow, m);
            lemma_opt_value_rewrite_idempotent(x.min_flow, y.min_flow, m);
            lemma_opt_value_rewrite_idempotent(x.cost, y.cost, m);
        },
        Node::Core(CoreNode::River(x)) => {
            let y = b->Core_0->River_0;
            lemma_opt_value_rewrite_idempotent(x.max_flow, y.max_flow, m);
            lemma_opt_value_rewrite_idempotent(x.min_flow, y.min_flow, m);
            lemma_opt_value_rewrite_idempotent(x.cost, y.cost, m);
        },
        Node::Core(CoreNode::Output(x)) => {
            let y = b->Core_0->Output_0;
            lemma_opt_value_rewrite_idempotent(x.max_flow, y.max_flow, m);
            lemma_opt_value_rewrite_idempotent(x.min_flow, y.min_flow, m);
            lemma_opt_value_rewrite_idempotent(x.cost, y.cost, m);
        },
        Node::Core(CoreNode::Storage(x)) => {
            let y = b->Core_0->Storage_0;
            lemma_opt_value_rewrite_idempotent(x.max_volume, y.max_volume, m);
            lemma_opt_value_rewrite_idempotent(x.min_volume, y.min_volume, m);
            lemma_opt_value_rewrite_idempotent(x.cost, y.cost, m);
        },
        Node::Core(CoreNode::Reservoir(x)) => {
            let y = b->Core_0->Reservoir_0;
            lemma_opt_value_rewrite_idempotent(x.max_volume, y.max_volume, m);
            lemma_opt_value_rewrite_idempotent(x.min_volume, y.min_volume, m);
            lemma_opt_value_rewrite_idempotent(x.cost, y.cost, m);
        },
        Node::Core(CoreNode::VirtualStorage(x)) => {
            let y = b->Core_0->VirtualStorage_0;
            lemma_opt_value_rewrite_idempotent(x.max_volume, y.max_volume, m);
            lemma_opt_value_rewrite_idempotent(x.min_volume, y.min_volume, m);
            lemma_opt_value_rewrite_idempotent(x.cost, y.cost, m);
        },
        Node::Core(CoreNode::AnnualVirtualStorage(x)) => {
            let y = b->Core_0->AnnualVirtualStorage_0;
            lemma_opt_value_rewrite_idempotent(x.max_volume, y.max_volume, m);
            lemma_opt_value_rewrite_idempotent(x.min_volume, y.min_volume, m);
            lemma_opt_value_rewrite_idempotent(x.cost, y.cost, m);
        },
        Node::Core(CoreNode::MonthlyVirtualStorage(x)) => {
            let y = b->Core_0->MonthlyVirtualStorage_0;
            lemma_opt_value_rewrite_idempotent(x.max_volume, y.max_volume, m);
            lemma_opt_value_rewrite_idempotent(x.min_volume, y.min_volume, m);
            lemma_opt_value_rewrite_idempotent(x.cost, y.cost, m);
        },
        Node::Core(CoreNode::SeasonalVirtualStorage(x)) => {
            let y = b->Core_0->SeasonalVirtualStorage_0;
            lemma_opt_value_rewrite_idempotent(x.max_volume, y.max_volume, m);
            lemma_opt_value_rewrite_idempotent(x.min_volume, y.min_volume, m);
            lemma_opt_value_rewrite_idempotent(x.cost, y.cost, m);
        },
        Node::Core(CoreNode::RollingVirtualStorage(x)) => {
            let y = b->Core_0->RollingVirtualStorage_0;
            lemma_opt_value_rewrite_idempotent(x.max_volume, y.max_volume, m);
            lemma_opt_value_rewrite_idempotent(x.min_volume, y.min_volume, m);
            lemma_opt_value_rewrite_idempotent(x.cost, y.cost, m);
        },
        Node::Core(CoreNode::Catchment(x)) => {
            let y = b->Core_0->Catchment_0;
            lemma_opt_value_rewrite_idempotent(x.flow, y.flow, m);
            lemma_opt_value_rewrite_idempotent(x.cost, y.cost, m);
        },
        Node::Core(CoreNode::Aggregated(x)) => {
            let y = b->Core_0->Aggregated_0;
            lemma_opt_value_rewrite_idempotent(x.max_flow, y.max_flow, m);
            lemma_opt_value_rewrite_idempotent(x.min_flow, y.min_flow, m);
            match x.factors {
                Some(v) => lemma_values_rewrite_idempotent(v@, y.factors->Some_0@, m),
                None => {},
            }
        },
        Node::Custom(_) => {},
    }
}

/// Rewriting a network is idempotent under a stable mapping: once the paths
/// of its nodes, parameters and tables have been rewritten, rewriting them
/// again with the same mapping leaves the network as it is.
pub proof fn lemma_network_rewrite_idempotent(a: PywrNetwork, b: PywrNetwork, m: Seq<(String, String)>)
    requires
        stable(m),
        network_rewritten(a, b, m),
    ensures
        network_rewritten(b, b, m),
{
    if a.nodes is Some {
        let v = a.nodes->Some_0@;
        let w = b.nodes->Some_0@;
        assert forall|i: int| 0 <= i < w.len() implies node_rewritten(#[trigger] w[i], w[i], m) by {
            lemma_node_rewrite_idempotent(v[i], w[i], m);
        }
    }
    if a.parameters is Some {
        let v = a.parameters->Some_0.0@;
        let w = b.parameters->Some_0.0@;
        assert forall|i: int| 0 <= i < w.len() implies parameter_rewritten(#[trigger] w[i], w[i], m) by {
            lemma_parameter_rewrite_idempotent(v[i], w[i], m);
        }
    }
    if a.tables is Some {
        let v = a.tables->Some_0.0@;
        let w = b.tables->Some_0.0@;
        assert forall|i: int| 0 <= i < w.len() implies (#[trigger] w[i]).name == w[i].name
            && w[i].url == mapped(m, w[i].url) by {
            lemma_mapped_twice(m, v[i].url);
        }
    }
}

// ----- discovery from a node -----

/// The parameter values that a node owns directly, in field order.
pub open spec fn node_owned_values(n: Node) -> Seq<ParameterValue> {
    match n {
        Node::Core(CoreNode::Input(x)) => opt_seq(x.max_flow) + opt_seq(x.min_flow) + opt_seq(x.cost),
        Node::Core(CoreNode::Link(x)) => opt_seq(x.max_flow) + opt_seq(x.min_flow) + opt_seq(x.cost),
        Node::Core(CoreNode::River(x)) => opt_seq(x.max_flow) + opt_seq(x.min_flow) + opt_seq(x.cost),
        Node::Core(CoreNode::Output(x)) => opt_seq(x.max_flow) + opt_seq(x.min_flow) + opt_seq(x.cost),
        Node::Core(CoreNode::Storage(x)) => opt_seq(x.max_volume) + opt_seq(x.min_volume) + opt_seq(x.cost),
        Node::Core(CoreNode::Reservoir(x)) => opt_seq(x.max_volume) + opt_seq(x.min_volume) + opt_seq(x.cost),
        Node::Core(CoreNode::VirtualStorage(x)) => opt_seq(x.max_volume) + opt_seq(x.min_volume) + opt_seq(x.cost),
        Node::Core(CoreNode::AnnualVirtualStorage(x)) => opt_seq(x.max_volume) + opt_seq(x.min_volume) + opt_seq(x.cost),
        Node::Core(CoreNode::MonthlyVirtualStorage(x)) => opt_seq(x.max_volume) + opt_seq(x.min_volume) + opt_seq(x.cost),
        Node::Core(CoreNode::SeasonalVirtualStorage(x)) => opt_seq(x.max_volume) + opt_seq(x.min_volume) + opt_seq(x.cost),
        Node::Core(CoreNode::RollingVirtualStorage(x)) => opt_seq(x.max_volume) + opt_seq(x.min_volume) + opt_seq(x.cost),
        Node::Core(CoreNode::Catchment(x)) => opt_seq(x.flow) + opt_seq(x.cost),
        Node::Core(CoreNode::Aggregated(x)) => opt_seq(x.max_flow) + opt_seq(x.min_flow) + opt_list_seq(x.factors),
        Node::Custom(_) => Seq::empty(),
    }
}

proof fn lemma_opt_value_seq(v: Option<ParameterValue>)
    ensures
        opt_value_paths(v) == values_paths(opt_seq(v)),
{
    match v {
        Some(x) => lemma_values_paths_one(x),
        None => {},
    }
}

/// A node's paths are those of the values it owns, in order.
pub proof fn lemma_node_paths_owned(n: Node)
    ensures
        node_paths(n) == values_paths(node_owned_values(n)),
{
    match n {
        Node::Core(CoreNode::Input(x)) => {
            lemma_opt_value_seq(x.max_flow);
            lemma_opt_value_seq(x.min_flow);
            lemma_opt_value_seq(x.cost);
            lemma_values_paths_concat(opt_seq(x.max_flow), opt_seq(x.min_flow));
            lemma_values_paths_concat(opt_seq(x.max_flow) + opt_seq(x.min_flow), opt_seq(x.cost));
        },
        Node::Core(CoreNode::Link(x)) => {
            lemma_opt_value_seq(x.max_flow);
            lemma_opt_value_seq(x.min_flow);
            lemma_opt_value_seq(x.cost);
            lemma_values_paths_concat(opt_seq(x.max_flow), opt_seq(x.min_flow));
            lemma_values_paths_concat(opt_seq(x.max_flow) + opt_seq(x.min_flow), opt_seq(x.cost));
        },
        Node::Core(CoreNode::River(x)) => {
            lemma_opt_value_seq(x.max_flow);
            lemma_opt_value_seq(x.min_flow);
            lemma_opt_value_seq(x.cost);
            lemma_values_paths_concat(opt_seq(x.max_flow), opt_seq(x.min_flow));
            lemma_values_paths_concat(opt_seq(x.max_flow) + opt_seq(x.min_flow), opt_seq(x.cost));
        },
        Node::Core(CoreNode::Output(x)) => {
            lemma_opt_value_seq(x.max_flow);
            lemma_opt_value_seq(x.min_flow);
            lemma_opt_value_seq(x.cost);
            lemma_values_paths_concat(opt_seq(x.max_flow), opt_seq(x.min_flow));
            lemma_values_paths_concat(opt_seq(x.max_flow) + opt_seq(x.min_flow), opt_seq(x.cost));
        },
        Node::Core(CoreNode::Storage(x)) => {
            lemma_opt_value_seq(x.max_volume);
            lemma_opt_value_seq(x.min_volume);
            lemma_opt_value_seq(x.cost);
            lemma_values_paths_concat(opt_seq(x.max_volume), opt_seq(x.min_volume));
            lemma_values_paths_concat(opt_seq(x.max_volume) + opt_seq(x.min_volume), opt_seq(x.cost));
        },
        Node::Core(CoreNode::Reservoir(x)) => {
            lemma_opt_value_seq(x.max_volume);
            lemma_opt_value_seq(x.min_volume);
            lemma_opt_value_seq(x.cost);
            lemma_values_paths_concat(opt_seq(x.max_volume), opt_seq(x.min_volume));
            lemma_values_paths_concat(opt_seq(x.max_volume) + opt_seq(x.min_volume), opt_seq(x.cost));
        },
        Node::Core(CoreNode::VirtualStorage(x)) => {
            lemma_opt_value_seq(x.max_volume);
            lemma_opt_value_seq(x.min_volume);
            lemma_opt_value_seq(x.cost);
            lemma_values_paths_concat(opt_seq(x.max_volume), opt_seq(x.min_volume));
            lemma_values_paths_concat(opt_seq(x.max_volume) + opt_seq(x.min_volume), opt_seq(x.cost));
        },
        Node::Core(CoreNode::AnnualVirtualStorage(x)) => {
            lemma_opt_value_seq(x.max_volume);
            lemma_opt_value_seq(x.min_volume);
            lemma_opt_value_seq(x.cost);
            lemma_values_paths_concat(opt_seq(x.max_volume), opt_seq(x.min_volume));
            lemma_values_paths_concat(opt_seq(x.max_volume) + opt_seq(x.min_volume), opt_seq(x.cost));
        },
        Node::Core(CoreNode::MonthlyVirtualStorage(x)) => {
            lemma_opt_value_seq(x.max_volume);
            lemma_opt_value_seq(x.min_volume);
            lemma_opt_value_seq(x.cost);
            lemma_values_paths_concat(opt_seq(x.max_volume), opt_seq(x.min_volume));
            lemma_values_paths_concat(opt_seq(x.max_volume) + opt_seq(x.min_volume), opt_seq(x.cost));
        },
        Node::Core(CoreNode::SeasonalVirtualStorage(x)) => {
            lemma_opt_value_seq(x.max_volume);
            lemma_opt_value_seq(x.min_volume);
            lemma_opt_value_seq(x.cost);
            lemma_values_paths_concat(opt_seq(x.max_volume), opt_seq(x.min_volume));
            lemma_values_paths_concat(opt_seq(x.max_volume) + opt_seq(x.min_volume), opt_seq(x.cost));
        },
        Node::Core(CoreNode::RollingVirtualStorage(x)) => {
            lemma_opt_value_seq(x.max_volume);
            lemma_opt_value_seq(x.min_volume);
            lemma_opt_value_seq(x.cost);
            lemma_values_paths_concat(opt_seq(x.max_volume), opt_seq(x.min_volume));
            lemma_values_paths_concat(opt_seq(x.max_volume) + opt_seq(x.min_volume), opt_seq(x.cost));
        },
        Node::Core(CoreNode::Catchment(x)) => {
            lemma_opt_value_seq(x.flow);
            lemma_opt_value_seq(x.cost);
            lemma_values_paths_concat(opt_seq(x.flow), opt_seq(x.cost));
        },
        Node::Core(CoreNode::Aggregated(x)) => {
            lemma_opt_value_seq(x.max_flow);
            lemma_opt_value_seq(x.min_flow);
            lemma_values_paths_concat(opt_seq(x.max_flow), opt_seq(x.min_flow));
            lemma_values_paths_concat(opt_seq(x.max_flow) + opt_seq(x.min_flow), opt_list_seq(x.factors));
        },
        Node::Custom(_) => {},
    }
}

/// Discovery from a node: every path reachable from a parameter defined in
/// place at any depth inside one of a node's parameter values is found by the
/// node's own path collection.
pub proof fn lemma_node_discovery(n: Node, i: int, q: Parameter, depth: nat)
    requires
        0 <= i < node_owned_values(n).len(),
        node_owned_values(n)[i] is Inline,
        nested_at(*node_owned_values(n)[i]->Inline_0, q, depth),
    ensures
        forall|k: int| 0 <= k < parameter_paths(q).len() ==> node_paths(n).contains(#[trigger] parameter_paths(q)[k]),
{
    let s = node_owned_values(n);
    let r = *s[i]->Inline_0;
    lemma_discovery_at_depth(r, q, depth);
    lemma_node_paths_owned(n);
    lemma_values_paths_contain(s, i);
    assert(value_paths(s[i]) == parameter_paths(r));
    assert forall|k: int| 0 <= k < parameter_paths(q).len() implies node_paths(n).contains(
        #[trigger] parameter_paths(q)[k]) by {
        let x = parameter_paths(q)[k];
        let w = choose|w: int| 0 <= w < parameter_paths(r).len() && parameter_paths(r)[w] == x;
        assert(values_paths(s).contains(value_paths(s[i])[w]));
    }
}

} // verus!
