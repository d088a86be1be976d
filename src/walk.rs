use vstd::prelude::*;
use crate::json::str_eq;
use crate::parameters::{ExternalDataRef, ParameterValue, AggregatedParameter, MonthlyProfileParameter, ConstantParameter,
    DailyProfileParameter, DataFrameParameter, TablesArrayParameter, CoreParameter, Parameter};

verus! {

// ----- path mappings -----

/// Where the mapping `m` sends `p`: the value of the first entry whose key is
/// `p`, or `p` itself where no key is.
pub open spec fn mapped(m: Seq<(String, String)>, p: String) -> String
    decreases m.len(),
{
    if m.len() == 0 {
        p
    } else if m[0].0@ == p@ {
        m[0].1
    } else {
        mapped(m.drop_first(), p)
    }
}

/// A mapping none of whose targets is sent anywhere else: applying it to a
/// path it produced changes nothing.
pub open spec fn stable(m: Seq<(String, String)>) -> bool {
    forall|i: int| 0 <= i < m.len() ==> mapped(m, (#[trigger] m[i]).1) == m[i].1
}

/// Looks `p` up in the mapping `m`.
pub fn map_path(m: &Vec<(String, String)>, p: &String) -> (r: String)
    ensures
        r == mapped(m@, *p),
{
    let mut i: usize = 0;
    assert(m@.subrange(0, m@.len() as int) =~= m@);
    while i < m.len()
        invariant
            i <= m@.len(),
            mapped(m@, *p) == mapped(m@.subrange(i as int, m@.len() as int), *p),
        decreases m.len() - i,
    {
        let ghost rest = m@.subrange(i as int, m@.len() as int);
        assert(rest[0] == m@[i as int]);
        if str_eq(m[i].0.as_str(), p.as_str()) {
            return m[i].1.clone();
        }
        assert(rest.drop_first() =~= m@.subrange(i + 1, m@.len() as int));
        i = i + 1;
    }
    p.clone()
}

proof fn lemma_mapped_source(m: Seq<(String, String)>, p: String)
    ensures
        mapped(m, p) == p || exists|i: int| 0 <= i < m.len() && mapped(m, p) == (#[trigger] m[i]).1,
    decreases m.len(),
{
    if m.len() > 0 && m[0].0@ != p@ {
        lemma_mapped_source(m.drop_first(), p);
        if mapped(m, p) != p {
            let i = choose|i: int| 0 <= i < m.drop_first().len() && mapped(m.drop_first(), p) == (#[trigger] m.drop_first()[i]).1;
            assert(m[i + 1] == m.drop_first()[i]);
        }
    }
}

/// Under a stable mapping, mapping a path twice maps it once.
pub proof fn lemma_mapped_twice(m: Seq<(String, String)>, p: String)
    requires
        stable(m),
    ensures
        mapped(m, mapped(m, p)) == mapped(m, p),
{
    lemma_mapped_source(m, p);
    if mapped(m, p) != p {
        let i = choose|i: int| 0 <= i < m.len() && mapped(m, p) == (#[trigger] m[i]).1;
    }
}

// ----- the paths that an entity holds -----

pub open spec fn opt_path(x: Option<String>) -> Seq<String> {
    match x {
        Some(p) => seq![p],
        None => Seq::empty(),
    }
}

pub open spec fn external_path(x: Option<ExternalDataRef>) -> Seq<String> {
    match x {
        Some(e) => seq![e.url],
        None => Seq::empty(),
    }
}

/// The paths held directly by the fields of a parameter, nested parameters aside.
pub open spec fn own_paths(c: CoreParameter) -> Seq<String> {
    match c {
        CoreParameter::Constant(p) => external_path(p.external),
        CoreParameter::DailyProfile(p) => external_path(p.external),
        CoreParameter::DataFrame(p) => opt_path(p.url),
        CoreParameter::TablesArray(p) => seq![p.url],
        CoreParameter::MonthlyProfile(p) => external_path(p.external),
        _ => Seq::empty(),
    }
}

/// Every path reachable from a parameter value, in field order, repeats kept.
/// A table lookup adds none here: a table's path is counted once, with the
/// tables of the network.
pub open spec fn value_paths(v: ParameterValue) -> Seq<String>
    decreases v,
{
    match v {
        ParameterValue::Inline(p) => parameter_paths(*p),
        _ => Seq::empty(),
    }
}

pub open spec fn values_paths(s: Seq<ParameterValue>) -> Seq<String>
    decreases s,
{
    if s.len() == 0 {
        Seq::empty()
    } else {
        values_paths(s.drop_last()) + value_paths(s.last())
    }
}

pub open spec fn opt_value_paths(v: Option<ParameterValue>) -> Seq<String>
    decreases v,
{
    match v {
        Some(x) => value_paths(x),
        None => Seq::empty(),
    }
}

pub open spec fn opt_values_paths(v: Option<Vec<ParameterValue>>) -> Seq<String>
    decreases v,
{
    match v {
        Some(x) => values_paths(x@),
        None => Seq::empty(),
    }
}

/// Every path reachable from a built-in parameter: its own, then those of
/// the parameters it owns.
pub open spec fn core_paths(c: CoreParameter) -> Seq<String>
    decreases c,
{
    own_paths(c) + match c {
        CoreParameter::Aggregated(p) => values_paths(p.parameters@),
        CoreParameter::ControlCurvePiecewiseInterpolated(p) => opt_value_paths(p.control_curve)
            + opt_values_paths(p.control_curves) + opt_values_paths(p.parameters),
        CoreParameter::IndexedArray(p) => values_paths(p.parameters@) + value_paths(p.index_parameter),
        CoreParameter::Max(p) => value_paths(p.parameter),
        CoreParameter::Negative(p) => value_paths(p.parameter),
        CoreParameter::AggregatedIndex(p) => values_paths(p.parameters@),
        CoreParameter::Min(p) => value_paths(p.parameter),
        CoreParameter::ParameterThreshold(p) => value_paths(p.parameter) + value_paths(p.threshold),
        CoreParameter::NodeThreshold(p) => value_paths(p.threshold),
        CoreParameter::StorageThreshold(p) => value_paths(p.threshold),
        CoreParameter::MultipleThresholdIndex(p) => values_paths(p.thresholds@),
        CoreParameter::MultipleThresholdParameterIndex(p) => value_paths(p.parameter) + values_paths(p.thresholds@),
        CoreParameter::CurrentYearThreshold(p) => value_paths(p.threshold),
        CoreParameter::CurrentOrdinalDayThreshold(p) => value_paths(p.threshold),
        _ => Seq::empty(),
    }
}

/// Every path reachable from a parameter; a custom one holds none that can be known.
pub open spec fn parameter_paths(p: Parameter) -> Seq<String>
    decreases p,
{
    match p {
        Parameter::Core(c) => core_paths(c),
        Parameter::Custom(_) => Seq::empty(),
    }
}

// ----- rewriting -----

pub open spec fn opt_mapped(m: Seq<(String, String)>, x: Option<String>) -> Option<String> {
    match x {
        Some(p) => Some(mapped(m, p)),
        None => None,
    }
}

pub open spec fn external_mapped(m: Seq<(String, String)>, x: Option<ExternalDataRef>) -> Option<ExternalDataRef> {
    match x {
        Some(e) => Some(ExternalDataRef { url: mapped(m, e.url), column: e.column, index: e.index }),
        None => None,
    }
}

/// `b` is `a` with every path reachable from it sent through `m`, all else kept.
pub open spec fn value_rewritten(a: ParameterValue, b: ParameterValue, m: Seq<(String, String)>) -> bool
    decreases a,
{
    match a {
        ParameterValue::Inline(p) => b is Inline && parameter_rewritten(*p, *b->Inline_0, m),
        _ => b == a,
    }
}

pub open spec fn values_rewritten(s: Seq<ParameterValue>, t: Seq<ParameterValue>, m: Seq<(String, String)>) -> bool
    decreases s,
{
    s.len() == t.len() && forall|i: int| 0 <= i < s.len() ==> value_rewritten(#[trigger] s[i], t[i], m)
}

pub open spec fn opt_value_rewritten(a: Option<ParameterValue>, b: Option<ParameterValue>, m: Seq<(String, String)>) -> bool
    decreases a,
{
    match a {
        Some(x) => b is Some && value_rewritten(x, b->Some_0, m),
        None => b is None,
    }
}

pub open spec fn opt_values_rewritten(a: Option<Vec<ParameterValue>>, b: Option<Vec<ParameterValue>>, m: Seq<(String, String)>) -> bool
    decreases a,
{
    match a {
        Some(x) => b is Some && values_rewritten(x@, b->Some_0@, m),
        None => b is None,
    }
}

pub open spec fn core_rewritten(a: CoreParameter, b: CoreParameter, m: Seq<(String, String)>) -> bool
    decreases a,
{
    match a {
        CoreParameter::Aggregated(p) => match b {
            CoreParameter::Aggregated(q) => q.meta == p.meta && q.agg_func == p.agg_func
                && values_rewritten(p.parameters@, q.parameters@, m),
            _ => false,
        },
        CoreParameter::ControlCurvePiecewiseInterpolated(p) => match b {
            CoreParameter::ControlCurvePiecewiseInterpolated(q) => q.meta == p.meta && q.storage_node == p.storage_node
                && q.values == p.values && q.minimum == p.minimum
                && opt_value_rewritten(p.control_curve, q.control_curve, m)
                && opt_values_rewritten(p.control_curves, q.control_curves, m)
                && opt_values_rewritten(p.parameters, q.parameters, m),
            _ => false,
        },
        CoreParameter::Constant(p) => b == CoreParameter::Constant(ConstantParameter {
            meta: p.meta,
            value: p.value,
            external: external_mapped(m, p.external),
            table: p.table,
        }),
        CoreParameter::DailyProfile(p) => b == CoreParameter::DailyProfile(DailyProfileParameter {
            meta: p.meta,
            values: p.values,
            external: external_mapped(m, p.external),
            table_ref: p.table_ref,
        }),
        CoreParameter::DataFrame(p) => b == CoreParameter::DataFrame(DataFrameParameter {
            meta: p.meta,
            url: opt_mapped(m, p.url),
            table: p.table,
            column: p.column,
            index: p.index,
            scenario: p.scenario,
        }),
        CoreParameter::IndexedArray(p) => match b {
            CoreParameter::IndexedArray(q) => q.meta == p.meta && values_rewritten(p.parameters@, q.parameters@, m)
                && value_rewritten(p.index_parameter, q.index_parameter, m),
            _ => false,
        },
        CoreParameter::Max(p) => match b {
            CoreParameter::Max(q) => q.meta == p.meta && q.threshold == p.threshold
                && value_rewritten(p.parameter, q.parameter, m),
            _ => false,
        },
        CoreParameter::Negative(p) => match b {
            CoreParameter::Negative(q) => q.meta == p.meta && value_rewritten(p.parameter, q.parameter, m),
            _ => false,
        },
        CoreParameter::AggregatedIndex(p) => match b {
            CoreParameter::AggregatedIndex(q) => q.meta == p.meta && q.agg_func == p.agg_func
                && values_rewritten(p.parameters@, q.parameters@, m),
            _ => false,
        },
        CoreParameter::Min(p) => match b {
            CoreParameter::Min(q) => q.meta == p.meta && q.threshold == p.threshold
                && value_rewritten(p.parameter, q.parameter, m),
            _ => false,
        },
        CoreParameter::MonthlyProfile(p) => b == CoreParameter::MonthlyProfile(MonthlyProfileParameter {
            meta: p.meta,
            interp_day: p.interp_day,
            values: p.values,
            external: external_mapped(m, p.external),
            table_ref: p.table_ref,
        }),
        CoreParameter::ParameterThreshold(p) => match b {
            CoreParameter::ParameterThreshold(q) => q.meta == p.meta && q.values == p.values && q.predicate == p.predicate
                && value_rewritten(p.parameter, q.parameter, m) && value_rewritten(p.threshold, q.threshold, m),
            _ => false,
        },
        CoreParameter::NodeThreshold(p) => match b {
            CoreParameter::NodeThreshold(q) => q.meta == p.meta && q.node == p.node && q.values == p.values
                && q.predicate == p.predicate && value_rewritten(p.threshold, q.threshold, m),
            _ => false,
        },
        CoreParameter::StorageThreshold(p) => match b {
            CoreParameter::StorageThreshold(q) => q.meta == p.meta && q.storage_node == p.storage_node
                && q.values == p.values && q.predicate == p.predicate && value_rewritten(p.threshold, q.threshold, m),
            _ => false,
        },
        CoreParameter::MultipleThresholdIndex(p) => match b {
            CoreParameter::MultipleThresholdIndex(q) => q.meta == p.meta && q.node == p.node
                && values_rewritten(p.thresholds@, q.thresholds@, m),
            _ => false,
        },
        CoreParameter::MultipleThresholdParameterIndex(p) => match b {
            CoreParameter::MultipleThresholdParameterIndex(q) => q.meta == p.meta
                && value_rewritten(p.parameter, q.parameter, m) && values_rewritten(p.thresholds@, q.thresholds@, m),
            _ => false,
        },
        CoreParameter::CurrentYearThreshold(p) => match b {
            CoreParameter::CurrentYearThreshold(q) => q.meta == p.meta && q.values == p.values
                && q.predicate == p.predicate && value_rewritten(p.threshold, q.threshold, m),
            _ => false,
        },
        CoreParameter::CurrentOrdinalDayThreshold(p) => match b {
            CoreParameter::CurrentOrdinalDayThreshold(q) => q.meta == p.meta && q.values == p.values
                && q.predicate == p.predicate && value_rewritten(p.threshold, q.threshold, m),
            _ => false,
        },
        CoreParameter::TablesArray(p) => b == CoreParameter::TablesArray(TablesArrayParameter {
            meta: p.meta,
            node: p.node,
            wh: p.wh,
            scenario: p.scenario,
            url: mapped(m, p.url),
        }),
        _ => b == a,
    }
}

pub open spec fn parameter_rewritten(a: Parameter, b: Parameter, m: Seq<(String, String)>) -> bool
    decreases a,
{
    match a {
        Parameter::Core(c) => b is Core && core_rewritten(c, b->Core_0, m),
        Parameter::Custom(_) => b == a,
    }
}

// ----- idempotence of rewriting -----

/// Under a stable mapping, a rewritten value is left as it is by a second rewrite.
pub proof fn lemma_value_rewrite_idempotent(a: ParameterValue, b: ParameterValue, m: Seq<(String, String)>)
    requires
        stable(m),
        value_rewritten(a, b, m),
    ensures
        value_rewritten(b, b, m),
    decreases a,
{
    match a {
        ParameterValue::Inline(p) => lemma_parameter_rewrite_idempotent(*p, *b->Inline_0, m),
        _ => {},
    }
}

pub proof fn lemma_values_rewrite_idempotent(s: Seq<ParameterValue>, t: Seq<ParameterValue>, m: Seq<(String, String)>)
    requires
        stable(m),
        values_rewritten(s, t, m),
    ensures
        values_rewritten(t, t, m),
    decreases s,
{
    assert forall|i: int| 0 <= i < t.len() implies value_rewritten(#[trigger] t[i], t[i], m) by {
        lemma_value_rewrite_idempotent(s[i], t[i], m);
    }
}

pub proof fn lemma_opt_value_rewrite_idempotent(a: Option<ParameterValue>, b: Option<ParameterValue>, m: Seq<(String, String)>)
    requires
        stable(m),
        opt_value_rewritten(a, b, m),
    ensures
        opt_value_rewritten(b, b, m),
    decreases a,
{
    match a {
        Some(x) => lemma_value_rewrite_idempotent(x, b->Some_0, m),
        None => {},
    }
}

pub proof fn lemma_opt_values_rewrite_idempotent(a: Option<Vec<ParameterValue>>, b: Option<Vec<ParameterValue>>, m: Seq<(String, String)>)
    requires
        stable(m),
        opt_values_rewritten(a, b, m),
    ensures
        opt_values_rewritten(b, b, m),
    decreases a,
{
    match a {
        Some(x) => lemma_values_rewrite_idempotent(x@, b->Some_0@, m),
        None => {},
    }
}

pub proof fn lemma_core_rewrite_idempotent(a: CoreParameter, b: CoreParameter, m: Seq<(String, String)>)
    requires
        stable(m),
        core_rewritten(a, b, m),
    ensures
        core_rewritten(b, b, m),
    decreases a,
{
    match a {
        CoreParameter::Aggregated(p) => {
            lemma_values_rewrite_idempotent(p.parameters@, b->Aggregated_0.parameters@, m);
        },
        CoreParameter::ControlCurvePiecewiseInterpolated(p) => {
            let q = b->ControlCurvePiecewiseInterpolated_0;
            lemma_opt_value_rewrite_idempotent(p.control_curve, q.control_curve, m);
            lemma_opt_values_rewrite_idempotent(p.control_curves, q.control_curves, m);
            lemma_opt_values_rewrite_idempotent(p.parameters, q.parameters, m);
        },
        CoreParameter::Constant(p) => {
            match p.external {
                Some(e) => lemma_mapped_twice(m, e.url),
                None => {},
            }
        },
        CoreParameter::DailyProfile(p) => {
            match p.external {
                Some(e) => lemma_mapped_twice(m, e.url),
                None => {},
            }
        },
        CoreParameter::DataFrame(p) => {
            match p.url {
                Some(u) => lemma_mapped_twice(m, u),
                None => {},
            }
        },
        CoreParameter::IndexedArray(p) => {
            lemma_values_rewrite_idempotent(p.parameters@, b->IndexedArray_0.parameters@, m);
            lemma_value_rewrite_idempotent(p.index_parameter, b->IndexedArray_0.index_parameter, m);
        },
        CoreParameter::Max(p) => {
            lemma_value_rewrite_idempotent(p.parameter, b->Max_0.parameter, m);
        },
        CoreParameter::Negative(p) => {
            lemma_value_rewrite_idempotent(p.parameter, b->Negative_0.parameter, m);
        },
        CoreParameter::TablesArray(p) => {
            lemma_mapped_twice(m, p.url);
        },
        CoreParameter::AggregatedIndex(p) => {
            lemma_values_rewrite_idempotent(p.parameters@, b->AggregatedIndex_0.parameters@, m);
        },
        CoreParameter::Min(p) => {
            lemma_value_rewrite_idempotent(p.parameter, b->Min_0.parameter, m);
        },
        CoreParameter::MonthlyProfile(p) => {
            match p.external {
                Some(e) => lemma_mapped_twice(m, e.url),
                None => {},
            }
        },
        CoreParameter::ParameterThreshold(p) => {
            lemma_value_rewrite_idempotent(p.parameter, b->ParameterThreshold_0.parameter, m);
            lemma_value_rewrite_idempotent(p.threshold, b->ParameterThreshold_0.threshold, m);
        },
        CoreParameter::NodeThreshold(p) => {
            lemma_value_rewrite_idempotent(p.threshold, b->NodeThreshold_0.threshold, m);
        },
        CoreParameter::StorageThreshold(p) => {
            lemma_value_rewrite_idempotent(p.threshold, b->StorageThreshold_0.threshold, m);
        },
        CoreParameter::MultipleThresholdIndex(p) => {
            lemma_values_rewrite_idempotent(p.thresholds@, b->MultipleThresholdIndex_0.thresholds@, m);
        },
        CoreParameter::MultipleThresholdParameterIndex(p) => {
            lemma_value_rewrite_idempotent(p.parameter, b->MultipleThresholdParameterIndex_0.parameter, m);
            lemma_values_rewrite_idempotent(p.thresholds@, b->MultipleThresholdParameterIndex_0.thresholds@, m);
        },
        CoreParameter::CurrentYearThreshold(p) => {
            lemma_value_rewrite_idempotent(p.threshold, b->CurrentYearThreshold_0.threshold, m);
        },
        CoreParameter::CurrentOrdinalDayThreshold(p) => {
            lemma_value_rewrite_idempotent(p.threshold, b->CurrentOrdinalDayThreshold_0.threshold, m);
        },
        _ => {},
    }
}

/// Rewriting is idempotent under a stable mapping: once a parameter's paths
/// have been rewritten, rewriting them again with the same mapping leaves the
/// parameter as it is.
pub proof fn lemma_parameter_rewrite_idempotent(a: Parameter, b: Parameter, m: Seq<(String, String)>)
    requires
        stable(m),
        parameter_rewritten(a, b, m),
    ensures
        parameter_rewritten(b, b, m),
    decreases a,
{
    match a {
        Parameter::Core(c) => lemma_core_rewrite_idempotent(c, b->Core_0, m),
        Parameter::Custom(_) => {},
    }
}

// ----- collecting and rewriting -----

fn push_external(out: &mut Vec<String>, x: &Option<ExternalDataRef>)
    ensures
        final(out)@ == old(out)@ + external_path(*x),
{
    match x {
        Some(e) => out.push(e.url.clone()),
        None => {},
    }
    assert(final(out)@ =~= old(out)@ + external_path(*x));
}

fn rewrite_external(x: &mut Option<ExternalDataRef>, m: &Vec<(String, String)>)
    ensures
        *final(x) == external_mapped(m@, *old(x)),
{
    match x {
        Some(e) => {
            e.url = map_path(m, &e.url);
        },
        None => {},
    }
}

fn rewrite_opt(x: &mut Option<String>, m: &Vec<(String, String)>)
    ensures
        *final(x) == opt_mapped(m@, *old(x)),
{
    match x {
        Some(p) => {
            *p = map_path(m, p);
        },
        None => {},
    }
}

pub fn opt_value_resource_paths(v: &Option<ParameterValue>) -> (r: Vec<String>)
    ensures
        r@ == opt_value_paths(*v),
    decreases *v,
{
    match v {
        Some(x) => x.resource_paths(),
        None => Vec::new(),
    }
}

pub fn opt_values_resource_paths(v: &Option<Vec<ParameterValue>>) -> (r: Vec<String>)
    ensures
        r@ == opt_values_paths(*v),
    decreases *v,
{
    match v {
        Some(x) => collect_values(x),
        None => Vec::new(),
    }
}

pub fn rewrite_opt_value(v: &mut Option<ParameterValue>, m: &Vec<(String, String)>)
    ensures
        opt_value_rewritten(*old(v), *final(v), m@),
    decreases *old(v),
{
    match v {
        Some(x) => x.update_resource_paths(m),
        None => {},
    }
}

pub fn rewrite_opt_values(v: &mut Option<Vec<ParameterValue>>, m: &Vec<(String, String)>)
    ensures
        opt_values_rewritten(*old(v), *final(v), m@),
    decreases *old(v),
{
    match v {
        Some(x) => rewrite_values(x, m),
        None => {},
    }
}

/// Every path reachable from a list of parameter values.
pub fn collect_values(s: &Vec<ParameterValue>) -> (r: Vec<String>)
    ensures
        r@ == values_paths(s@),
    decreases s@,
{
    let mut out: Vec<String> = Vec::new();
    let mut i: usize = 0;
    while i < s.len()
        invariant
            i <= s@.len(),
            out@ == values_paths(s@.subrange(0, i as int)),
        decreases s.len() - i,
    {
        let mut sub = s[i].resource_paths();
        proof {
            let next = s@.subrange(0, i + 1);
            assert(next.drop_last() =~= s@.subrange(0, i as int));
            assert(next.last() == s@[i as int]);
        }
        out.append(&mut sub);
        i = i + 1;
    }
    assert(s@.subrange(0, s@.len() as int) =~= s@);
    out
}

/// Sends every path reachable from a list of parameter values through `m`.
pub fn rewrite_values(s: &mut Vec<ParameterValue>, m: &Vec<(String, String)>)
    ensures
        values_rewritten(old(s)@, final(s)@, m@),
    decreases old(s)@,
{
    let ghost orig = s@;
    let mut i: usize = 0;
    while i < s.len()
        invariant
            i <= s@.len(),
            s@.len() == orig.len(),
            orig == old(s)@,
            forall|j: int| 0 <= j < i ==> value_rewritten(#[trigger] orig[j], s@[j], m@),
            forall|j: int| i <= j < s@.len() ==> #[trigger] s@[j] == orig[j],
        decreases s.len() - i,
    {
        proof {
            assert(s@[i as int] == orig[i as int]);
            assert(decreases_to!(orig => orig[i as int]));
        }
        s[i].update_resource_paths(m);
        i = i + 1;
    }
}

impl ParameterValue {
    /// Every path reachable from this value: those of an inline parameter, none otherwise.
    pub fn resource_paths(&self) -> (r: Vec<String>)
        ensures
            r@ == value_paths(*self),
        decreases *self,
    {
        match self {
            ParameterValue::Inline(p) => p.resource_paths(),
            _ => Vec::new(),
        }
    }

    /// Sends every path reachable from this value through `m`.
    pub fn update_resource_paths(&mut self, m: &Vec<(String, String)>)
        ensures
            value_rewritten(*old(self), *final(self), m@),
        decreases *old(self),
    {
        match self {
            ParameterValue::Inline(p) => p.update_resource_paths(m),
            _ => {},
        }
    }
}

impl CoreParameter {
    /// The paths held directly by this parameter's own fields.
    pub fn own_resource_paths(&self) -> (r: Vec<String>)
        ensures
            r@ == own_paths(*self),
    {
        let mut out: Vec<String> = Vec::new();
        match self {
            CoreParameter::Constant(p) => push_external(&mut out, &p.external),
            CoreParameter::DailyProfile(p) => push_external(&mut out, &p.external),
            CoreParameter::DataFrame(p) => match &p.url {
                Some(u) => out.push(u.clone()),
                None => {},
            },
            CoreParameter::TablesArray(p) => out.push(p.url.clone()),
            CoreParameter::MonthlyProfile(p) => push_external(&mut out, &p.external),
            _ => {},
        }
        assert(out@ =~= own_paths(*self));
        out
    }

    /// Every path reachable from this parameter: its own, then those of the
    /// parameters it owns.
    pub fn resource_paths_recursive(&self) -> (r: Vec<String>)
        ensures
            r@ == core_paths(*self),
        decreases *self,
    {
        let mut out = self.own_resource_paths();
        match self {
            CoreParameter::Aggregated(p) => {
                let mut sub = collect_values(&p.parameters);
                out.append(&mut sub);
            },
            CoreParameter::ControlCurvePiecewiseInterpolated(p) => {
                let mut a = opt_value_resource_paths(&p.control_curve);
                let mut b = opt_values_resource_paths(&p.control_curves);
                let mut c = opt_values_resource_paths(&p.parameters);
                out.append(&mut a);
                out.append(&mut b);
                out.append(&mut c);
            },
            CoreParameter::IndexedArray(p) => {
                let mut sub = collect_values(&p.parameters);
                out.append(&mut sub);
                let mut last = p.index_parameter.resource_paths();
                out.append(&mut last);
            },
            CoreParameter::Max(p) => {
                let mut sub = p.parameter.resource_paths();
                out.append(&mut sub);
            },
            CoreParameter::Negative(p) => {
                let mut sub = p.parameter.resource_paths();
                out.append(&mut sub);
            },
            CoreParameter::AggregatedIndex(p) => {
                let mut sub = collect_values(&p.parameters);
                out.append(&mut sub);
            },
            CoreParameter::Min(p) => {
                let mut sub = p.parameter.resource_paths();
                out.append(&mut sub);
            },
            CoreParameter::ParameterThreshold(p) => {
                let mut a = p.parameter.resource_paths();
                let mut b = p.threshold.resource_paths();
                out.append(&mut a);
                out.append(&mut b);
            },
            CoreParameter::NodeThreshold(p) => {
                let mut sub = p.threshold.resource_paths();
                out.append(&mut sub);
            },
            CoreParameter::StorageThreshold(p) => {
                let mut sub = p.threshold.resource_paths();
                out.append(&mut sub);
            },
            CoreParameter::MultipleThresholdIndex(p) => {
                let mut sub = collect_values(&p.thresholds);
                out.append(&mut sub);
            },
            CoreParameter::MultipleThresholdParameterIndex(p) => {
                let mut a = p.parameter.resource_paths();
                let mut b = collect_values(&p.thresholds);
                out.append(&mut a);
                out.append(&mut b);
            },
            CoreParameter::CurrentYearThreshold(p) => {
                let mut sub = p.threshold.resource_paths();
                out.append(&mut sub);
            },
            CoreParameter::CurrentOrdinalDayThreshold(p) => {
                let mut sub = p.threshold.resource_paths();
                out.append(&mut sub);
            },
            _ => {},
        }
        assert(out@ =~= core_paths(*self));
        out
    }

    /// Sends every path reachable from this parameter through `m`.
    pub fn update_resource_paths_recursive(&mut self, m: &Vec<(String, String)>)
        ensures
            core_rewritten(*old(self), *final(self), m@),
        decreases *old(self),
    {
        match self {
            CoreParameter::Aggregated(p) => rewrite_values(&mut p.parameters, m),
            CoreParameter::ControlCurvePiecewiseInterpolated(p) => {
                rewrite_opt_value(&mut p.control_curve, m);
                rewrite_opt_values(&mut p.control_curves, m);
                rewrite_opt_values(&mut p.parameters, m);
            },
            CoreParameter::Constant(p) => rewrite_external(&mut p.external, m),
            CoreParameter::DailyProfile(p) => rewrite_external(&mut p.external, m),
            CoreParameter::DataFrame(p) => rewrite_opt(&mut p.url, m),
            CoreParameter::IndexedArray(p) => {
                rewrite_values(&mut p.parameters, m);
                p.index_parameter.update_resource_paths(m);
            },
            CoreParameter::Max(p) => p.parameter.update_resource_paths(m),
            CoreParameter::Negative(p) => p.parameter.update_resource_paths(m),
            CoreParameter::TablesArray(p) => {
                p.url = map_path(m, &p.url);
            },
            CoreParameter::AggregatedIndex(p) => rewrite_values(&mut p.parameters, m),
            CoreParameter::Min(p) => p.parameter.update_resource_paths(m),
            CoreParameter::MonthlyProfile(p) => rewrite_external(&mut p.external, m),
            CoreParameter::ParameterThreshold(p) => {
                p.parameter.update_resource_paths(m);
                p.threshold.update_resource_paths(m);
            },
            CoreParameter::NodeThreshold(p) => p.threshold.update_resource_paths(m),
            CoreParameter::StorageThreshold(p) => p.threshold.update_resource_paths(m),
            CoreParameter::MultipleThresholdIndex(p) => rewrite_values(&mut p.thresholds, m),
            CoreParameter::MultipleThresholdParameterIndex(p) => {
                p.parameter.update_resource_paths(m);
                rewrite_values(&mut p.thresholds, m);
            },
            CoreParameter::CurrentYearThreshold(p) => p.threshold.update_resource_paths(m),
            CoreParameter::CurrentOrdinalDayThreshold(p) => p.threshold.update_resource_paths(m),
            _ => {},
        }
    }
}

impl Parameter {
    /// Every path reachable from this parameter, repeats kept; none for a custom one.
    pub fn resource_paths(&self) -> (r: Vec<String>)
        ensures
            r@ == parameter_paths(*self),
        decreases *self,
    {
        match self {
            Parameter::Core(c) => c.resource_paths_recursive(),
            Parameter::Custom(_) => Vec::new(),
        }
    }

    /// Sends every path reachable from this parameter through `m`; paths that
    /// `m` does not name are kept.
    pub fn update_resource_paths(&mut self, m: &Vec<(String, String)>)
        ensures
            parameter_rewritten(*old(self), *final(self), m@),
        decreases *old(self),
    {
        match self {
            Parameter::Core(c) => c.update_resource_paths_recursive(m),
            Parameter::Custom(_) => {},
        }
    }
}

// ----- discovery through nesting -----

/// Every path reachable from the value at position `i` of a list is reachable from the list.
pub proof fn lemma_values_paths_contain(s: Seq<ParameterValue>, i: int)
    requires
        0 <= i < s.len(),
    ensures
        forall|k: int| 0 <= k < value_paths(s[i]).len() ==> values_paths(s).contains(#[trigger] value_paths(s[i])[k]),
    decreases s.len(),
{
    let last = s.len() - 1;
    assert forall|k: int| 0 <= k < value_paths(s[i]).len() implies values_paths(s).contains(#[trigger] value_paths(s[i])[k]) by {
        let pre = values_paths(s.drop_last());
        if i == last {
            assert(values_paths(s)[pre.len() + k] == value_paths(s[i])[k]);
        } else {
            lemma_values_paths_contain(s.drop_last(), i);
            assert(s.drop_last()[i] == s[i]);
            let w = choose|w: int| 0 <= w < pre.len() && pre[w] == value_paths(s[i])[k];
            assert(values_paths(s)[w] == pre[w]);
        }
    }
}

/// Nested discovery: a path held by a parameter defined inline in the list
/// of an aggregated parameter is found by the aggregated parameter's own
/// path collection.
pub proof fn lemma_nested_discovery(a: AggregatedParameter, i: int)
    requires
        0 <= i < a.parameters@.len(),
        a.parameters@[i] is Inline,
    ensures
        forall|k: int| 0 <= k < parameter_paths(*a.parameters@[i]->Inline_0).len() ==>
            parameter_paths(Parameter::Core(CoreParameter::Aggregated(a))).contains(
                #[trigger] parameter_paths(*a.parameters@[i]->Inline_0)[k]),
{
    let c = CoreParameter::Aggregated(a);
    let inner = *a.parameters@[i]->Inline_0;
    lemma_values_paths_contain(a.parameters@, i);
    assert(value_paths(a.parameters@[i]) == parameter_paths(inner));
    assert forall|k: int| 0 <= k < parameter_paths(inner).len() implies
        parameter_paths(Parameter::Core(c)).contains(#[trigger] parameter_paths(inner)[k]) by {
        let rest = values_paths(a.parameters@);
        let w = choose|w: int| 0 <= w < rest.len() && rest[w] == parameter_paths(inner)[k];
        assert(core_paths(c) == own_paths(c) + rest);
        assert(core_paths(c)[own_paths(c).len() + w] == rest[w]);
    }
}

// ----- discovery at any depth -----

pub open spec fn opt_seq(v: Option<ParameterValue>) -> Seq<ParameterValue> {
    match v {
        Some(x) => seq![x],
        None => Seq::empty(),
    }
}

pub open spec fn opt_list_seq(v: Option<Vec<ParameterValue>>) -> Seq<ParameterValue> {
    match v {
        Some(x) => x@,
        None => Seq::empty(),
    }
}

/// The parameter values that a built-in parameter owns directly, in field order.
pub open spec fn owned_values(c: CoreParameter) -> Seq<ParameterValue> {
    match c {
        CoreParameter::Aggregated(p) => p.parameters@,
        CoreParameter::ControlCurvePiecewiseInterpolated(p) => opt_seq(p.control_curve)
            + opt_list_seq(p.control_curves) + opt_list_seq(p.parameters),
        CoreParameter::IndexedArray(p) => p.parameters@ + seq![p.index_parameter],
        CoreParameter::Max(p) => seq![p.parameter],
        CoreParameter::Negative(p) => seq![p.parameter],
        CoreParameter::AggregatedIndex(p) => p.parameters@,
        CoreParameter::Min(p) => seq![p.parameter],
        CoreParameter::ParameterThreshold(p) => seq![p.parameter] + seq![p.threshold],
        CoreParameter::NodeThreshold(p) => seq![p.threshold],
        CoreParameter::StorageThreshold(p) => seq![p.threshold],
        CoreParameter::MultipleThresholdIndex(p) => p.thresholds@,
        CoreParameter::MultipleThresholdParameterIndex(p) => seq![p.parameter] + p.thresholds@,
        CoreParameter::CurrentYearThreshold(p) => seq![p.threshold],
        CoreParameter::CurrentOrdinalDayThreshold(p) => seq![p.threshold],
        _ => Seq::empty(),
    }
}

pub proof fn lemma_values_paths_concat(a: Seq<ParameterValue>, b: Seq<ParameterValue>)
    ensures
        values_paths(a + b) == values_paths(a) + values_paths(b),
    decreases b.len(),
{
    if b.len() == 0 {
        assert(a + b =~= a);
        assert(values_paths(a) + Seq::<String>::empty() =~= values_paths(a));
    } else {
        assert((a + b).drop_last() =~= a + b.drop_last());
        assert((a + b).last() == b.last());
        lemma_values_paths_concat(a, b.drop_last());
        assert(values_paths(a) + values_paths(b.drop_last()) + value_paths(b.last())
            =~= values_paths(a) + (values_paths(b.drop_last()) + value_paths(b.last())));
    }
}

pub proof fn lemma_values_paths_one(v: ParameterValue)
    ensures
        values_paths(seq![v]) == value_paths(v),
{
    assert(seq![v].drop_last() =~= Seq::<ParameterValue>::empty());
    assert(seq![v].last() == v);
    assert(values_paths(Seq::<ParameterValue>::empty()) == Seq::<String>::empty());
    assert(values_paths(seq![v]) == values_paths(seq![v].drop_last()) + value_paths(seq![v].last()));
    assert(Seq::<String>::empty() + value_paths(v) =~= value_paths(v));
}

proof fn lemma_opt_paths(v: Option<ParameterValue>, w: Option<Vec<ParameterValue>>)
    ensures
        opt_value_paths(v) == values_paths(opt_seq(v)),
        opt_values_paths(w) == values_paths(opt_list_seq(w)),
{
    match v {
        Some(x) => lemma_values_paths_one(x),
        None => {},
    }
}

/// A built-in parameter's paths are its own, then those of the values it owns, in order.
pub proof fn lemma_core_paths_owned(c: CoreParameter)
    ensures
        core_paths(c) == own_paths(c) + values_paths(owned_values(c)),
{
    match c {
        CoreParameter::ControlCurvePiecewiseInterpolated(p) => {
            lemma_opt_paths(p.control_curve, p.control_curves);
            lemma_opt_paths(p.control_curve, p.parameters);
            lemma_values_paths_concat(opt_seq(p.control_curve), opt_list_seq(p.control_curves));
            lemma_values_paths_concat(opt_seq(p.control_curve) + opt_list_seq(p.control_curves), opt_list_seq(p.parameters));
        },
        CoreParameter::IndexedArray(p) => {
            lemma_values_paths_concat(p.parameters@, seq![p.index_parameter]);
            lemma_values_paths_one(p.index_parameter);
        },
        CoreParameter::Max(p) => lemma_values_paths_one(p.parameter),
        CoreParameter::Negative(p) => lemma_values_paths_one(p.parameter),
        CoreParameter::Min(p) => lemma_values_paths_one(p.parameter),
        CoreParameter::ParameterThreshold(p) => {
            lemma_values_paths_concat(seq![p.parameter], seq![p.threshold]);
            lemma_values_paths_one(p.parameter);
            lemma_values_paths_one(p.threshold);
        },
        CoreParameter::NodeThreshold(p) => lemma_values_paths_one(p.threshold),
        CoreParameter::StorageThreshold(p) => lemma_values_paths_one(p.threshold),
        CoreParameter::MultipleThresholdParameterIndex(p) => {
            lemma_values_paths_concat(seq![p.parameter], p.thresholds@);
            lemma_values_paths_one(p.parameter);
        },
        CoreParameter::CurrentYearThreshold(p) => lemma_values_paths_one(p.threshold),
        CoreParameter::CurrentOrdinalDayThreshold(p) => lemma_values_paths_one(p.threshold),
        _ => {
            assert(values_paths(Seq::<ParameterValue>::empty()) == Seq::<String>::empty());
        },
    }
    let own = own_paths(c);
    assert(own + values_paths(owned_values(c)) =~= core_paths(c));
}

/// `q` is a parameter defined in place `n` levels down inside `p`, through
/// the parameter values that each level owns.
pub open spec fn nested_at(p: Parameter, q: Parameter, n: nat) -> bool
    decreases n,
{
    if n == 0 {
        p == q
    } else {
        p is Core && exists|i: int| 0 <= i < owned_values(p->Core_0).len()
            && (#[trigger] owned_values(p->Core_0)[i]) is Inline
            && nested_at(*owned_values(p->Core_0)[i]->Inline_0, q, (n - 1) as nat)
    }
}

/// Discovery at any depth: every path reachable from a parameter defined in
/// place at any depth inside `p` is found by `p`'s own path collection.
pub proof fn lemma_discovery_at_depth(p: Parameter, q: Parameter, n: nat)
    requires
        nested_at(p, q, n),
    ensures
        forall|k: int| 0 <= k < parameter_paths(q).len() ==> parameter_paths(p).contains(#[trigger] parameter_paths(q)[k]),
    decreases n,
{
    if n > 0 {
        let c = p->Core_0;
        let s = owned_values(c);
        let i = choose|i: int| 0 <= i < s.len() && (#[trigger] s[i]) is Inline
            && nested_at(*s[i]->Inline_0, q, (n - 1) as nat);
        let r = *s[i]->Inline_0;
        lemma_discovery_at_depth(r, q, (n - 1) as nat);
        lemma_core_paths_owned(c);
        lemma_values_paths_contain(s, i);
        assert(value_paths(s[i]) == parameter_paths(r));
        assert forall|k: int| 0 <= k < parameter_paths(q).len() implies parameter_paths(p).contains(
            #[trigger] parameter_paths(q)[k]) by {
            let x = parameter_paths(q)[k];
            let w = choose|w: int| 0 <= w < parameter_paths(r).len() && parameter_paths(r)[w] == x;
            assert(values_paths(s).contains(value_paths(s[i])[w]));
            let z = choose|z: int| 0 <= z < values_paths(s).len() && values_paths(s)[z] == x;
            assert(core_paths(c)[own_paths(c).len() + z] == x);
        }
    }
}

// ----- the parameter-valued fields of a parameter -----

/// A read-only handle to a parameter-valued field: one value, or a list of them.
pub enum ParameterValueType<'a> {
    Single(&'a ParameterValue),
    List(&'a Vec<ParameterValue>),
}

/// The handle to an optional parameter-valued field, where it is present.
pub open spec fn opt_field<'a>(k: &'static str, v: &'a Option<ParameterValue>) -> Seq<(&'static str, ParameterValueType<'a>)> {
    match v {
        Some(x) => seq![(k, ParameterValueType::Single(x))],
        None => Seq::empty(),
    }
}

pub(crate) fn push_opt_field<'a>(out: &mut Vec<(&'static str, ParameterValueType<'a>)>, k: &'static str, v: &'a Option<ParameterValue>)
    ensures
        final(out)@ == old(out)@ + opt_field(k, v),
{
    match v {
        Some(x) => out.push((k, ParameterValueType::Single(x))),
        None => {},
    }
    assert(final(out)@ =~= old(out)@ + opt_field(k, v));
}

/// The handle to an optional list of parameter values, where it is present.
pub open spec fn opt_list_field<'a>(k: &'static str, v: &'a Option<Vec<ParameterValue>>) -> Seq<(&'static str, ParameterValueType<'a>)> {
    match v {
        Some(x) => seq![(k, ParameterValueType::List(x))],
        None => Seq::empty(),
    }
}

fn push_opt_list_field<'a>(out: &mut Vec<(&'static str, ParameterValueType<'a>)>, k: &'static str, v: &'a Option<Vec<ParameterValue>>)
    ensures
        final(out)@ == old(out)@ + opt_list_field(k, v),
{
    match v {
        Some(x) => out.push((k, ParameterValueType::List(x))),
        None => {},
    }
    assert(final(out)@ =~= old(out)@ + opt_list_field(k, v));
}

impl AggregatedParameter {
    /// An aggregated parameter refers to no node.
    pub fn node_references(&self) -> (r: Vec<(&'static str, String)>)
        ensures
            r@.len() == 0,
    {
        Vec::new()
    }

    /// Its one parameter-valued field: the list it aggregates.
    pub fn parameters(&self) -> (r: Vec<(&'static str, ParameterValueType<'_>)>)
        ensures
            r@ == seq![("parameters", ParameterValueType::List(&self.parameters))],
    {
        let mut out: Vec<(&'static str, ParameterValueType<'_>)> = Vec::new();
        out.push(("parameters", ParameterValueType::List(&self.parameters)));
        assert(out@ =~= seq![("parameters", ParameterValueType::List(&self.parameters))]);
        out
    }
}

pub open spec fn single<'a>(k: &'static str, v: &'a ParameterValue) -> Seq<(&'static str, ParameterValueType<'a>)> {
    seq![(k, ParameterValueType::Single(v))]
}

pub open spec fn list<'a>(k: &'static str, v: &'a Vec<ParameterValue>) -> Seq<(&'static str, ParameterValueType<'a>)> {
    seq![(k, ParameterValueType::List(v))]
}

/// The parameter-valued fields of a built-in parameter, by attribute, in field order.
pub open spec fn core_fields<'a>(c: &'a CoreParameter) -> Seq<(&'static str, ParameterValueType<'a>)> {
    match c {
        CoreParameter::Aggregated(p) => list("parameters", &p.parameters),
        CoreParameter::AggregatedIndex(p) => list("parameters", &p.parameters),
        CoreParameter::ControlCurvePiecewiseInterpolated(p) => opt_field("control_curve", &p.control_curve)
            + opt_list_field("control_curves", &p.control_curves) + opt_list_field("parameters", &p.parameters),
        CoreParameter::IndexedArray(p) => list("parameters", &p.parameters) + single("index_parameter", &p.index_parameter),
        CoreParameter::Max(p) => single("parameter", &p.parameter),
        CoreParameter::Min(p) => single("parameter", &p.parameter),
        CoreParameter::Negative(p) => single("parameter", &p.parameter),
        CoreParameter::ParameterThreshold(p) => single("parameter", &p.parameter) + single("threshold", &p.threshold),
        CoreParameter::NodeThreshold(p) => single("threshold", &p.threshold),
        CoreParameter::StorageThreshold(p) => single("threshold", &p.threshold),
        CoreParameter::MultipleThresholdIndex(p) => list("thresholds", &p.thresholds),
        CoreParameter::MultipleThresholdParameterIndex(p) => single("parameter", &p.parameter)
            + list("thresholds", &p.thresholds),
        CoreParameter::CurrentYearThreshold(p) => single("threshold", &p.threshold),
        CoreParameter::CurrentOrdinalDayThreshold(p) => single("threshold", &p.threshold),
        _ => Seq::empty(),
    }
}

fn push_single<'a>(out: &mut Vec<(&'static str, ParameterValueType<'a>)>, k: &'static str, v: &'a ParameterValue)
    ensures
        final(out)@ == old(out)@ + single(k, v),
{
    out.push((k, ParameterValueType::Single(v)));
    assert(final(out)@ =~= old(out)@ + single(k, v));
}

fn push_list<'a>(out: &mut Vec<(&'static str, ParameterValueType<'a>)>, k: &'static str, v: &'a Vec<ParameterValue>)
    ensures
        final(out)@ == old(out)@ + list(k, v),
{
    out.push((k, ParameterValueType::List(v)));
    assert(final(out)@ =~= old(out)@ + list(k, v));
}

impl CoreParameter {
    /// The parameter-valued fields of this parameter, by attribute, in field order.
    pub fn parameters(&self) -> (r: Vec<(&'static str, ParameterValueType<'_>)>)
        ensures
            r@ == core_fields(self),
    {
        let mut out: Vec<(&'static str, ParameterValueType<'_>)> = Vec::new();
        match self {
            CoreParameter::Aggregated(p) => push_list(&mut out, "parameters", &p.parameters),
            CoreParameter::AggregatedIndex(p) => push_list(&mut out, "parameters", &p.parameters),
            CoreParameter::ControlCurvePiecewiseInterpolated(p) => {
                push_opt_field(&mut out, "control_curve", &p.control_curve);
                push_opt_list_field(&mut out, "control_curves", &p.control_curves);
                push_opt_list_field(&mut out, "parameters", &p.parameters);
            },
            CoreParameter::IndexedArray(p) => {
                push_list(&mut out, "parameters", &p.parameters);
                push_single(&mut out, "index_parameter", &p.index_parameter);
            },
            CoreParameter::Max(p) => push_single(&mut out, "parameter", &p.parameter),
            CoreParameter::Min(p) => push_single(&mut out, "parameter", &p.parameter),
            CoreParameter::Negative(p) => push_single(&mut out, "parameter", &p.parameter),
            CoreParameter::ParameterThreshold(p) => {
                push_single(&mut out, "parameter", &p.parameter);
                push_single(&mut out, "threshold", &p.threshold);
            },
            CoreParameter::NodeThreshold(p) => push_single(&mut out, "threshold", &p.threshold),
            CoreParameter::StorageThreshold(p) => push_single(&mut out, "threshold", &p.threshold),
            CoreParameter::MultipleThresholdIndex(p) => push_list(&mut out, "thresholds", &p.thresholds),
            CoreParameter::MultipleThresholdParameterIndex(p) => {
                push_single(&mut out, "parameter", &p.parameter);
                push_list(&mut out, "thresholds", &p.thresholds);
            },
            CoreParameter::CurrentYearThreshold(p) => push_single(&mut out, "threshold", &p.threshold),
            CoreParameter::CurrentOrdinalDayThreshold(p) => push_single(&mut out, "threshold", &p.threshold),
            _ => {},
        }
        assert(out@ =~= core_fields(self));
        out
    }
}


/// A writable handle to a parameter-valued field: one value, or a list of them.
pub enum ParameterValueTypeMut<'a> {
    Single(&'a mut ParameterValue),
    List(&'a mut Vec<ParameterValue>),
}

/// The attribute names of a list of field handles, in order.
pub open spec fn field_keys<'a>(s: Seq<(&'static str, ParameterValueType<'a>)>) -> Seq<&'static str> {
    s.map_values(|e: (&'static str, ParameterValueType<'a>)| e.0)
}

pub open spec fn field_keys_mut<'a>(s: Seq<(&'static str, ParameterValueTypeMut<'a>)>) -> Seq<&'static str> {
    s.map_values(|e: (&'static str, ParameterValueTypeMut<'a>)| e.0)
}

impl CoreParameter {
    /// Writable handles to the parameter-valued fields of this parameter, by
    /// attribute, in the order of `parameters`.
    pub fn parameters_mut(&mut self) -> (r: Vec<(&'static str, ParameterValueTypeMut<'_>)>)
        ensures
            field_keys_mut(r@) == field_keys(core_fields(&*old(self))),
    {
        let ghost before = *self;
        let mut out: Vec<(&'static str, ParameterValueTypeMut<'_>)> = Vec::new();
        match self {
            CoreParameter::Aggregated(p) => {
                out.push(("parameters", ParameterValueTypeMut::List(&mut p.parameters)));
                assert(field_keys_mut(out@) =~= field_keys(core_fields(&before)));
            },
            CoreParameter::AggregatedIndex(p) => {
                out.push(("parameters", ParameterValueTypeMut::List(&mut p.parameters)));
            },
            CoreParameter::ControlCurvePiecewiseInterpolated(p) => {
                match &mut p.control_curve {
                    Some(x) => out.push(("control_curve", ParameterValueTypeMut::Single(x))),
                    None => {},
                }
                match &mut p.control_curves {
                    Some(x) => out.push(("control_curves", ParameterValueTypeMut::List(x))),
                    None => {},
                }
                match &mut p.parameters {
                    Some(x) => out.push(("parameters", ParameterValueTypeMut::List(x))),
                    None => {},
                }
                assert(field_keys_mut(out@) =~= field_keys(core_fields(&before)));
            },
            CoreParameter::IndexedArray(p) => {
                out.push(("parameters", ParameterValueTypeMut::List(&mut p.parameters)));
                out.push(("index_parameter", ParameterValueTypeMut::Single(&mut p.index_parameter)));
            },
            CoreParameter::Max(p) => {
                out.push(("parameter", ParameterValueTypeMut::Single(&mut p.parameter)));
                assert(field_keys_mut(out@) =~= field_keys(core_fields(&before)));
            },
            CoreParameter::Min(p) => {
                out.push(("parameter", ParameterValueTypeMut::Single(&mut p.parameter)));
            },
            CoreParameter::Negative(p) => {
                out.push(("parameter", ParameterValueTypeMut::Single(&mut p.parameter)));
                assert(field_keys_mut(out@) =~= field_keys(core_fields(&before)));
            },
            CoreParameter::ParameterThreshold(p) => {
                out.push(("parameter", ParameterValueTypeMut::Single(&mut p.parameter)));
                out.push(("threshold", ParameterValueTypeMut::Single(&mut p.threshold)));
            },
            CoreParameter::NodeThreshold(p) => {
                out.push(("threshold", ParameterValueTypeMut::Single(&mut p.threshold)));
                assert(field_keys_mut(out@) =~= field_keys(core_fields(&before)));
            },
            CoreParameter::StorageThreshold(p) => {
                out.push(("threshold", ParameterValueTypeMut::Single(&mut p.threshold)));
            },
            CoreParameter::MultipleThresholdIndex(p) => {
                out.push(("thresholds", ParameterValueTypeMut::List(&mut p.thresholds)));
                assert(field_keys_mut(out@) =~= field_keys(core_fields(&before)));
            },
            CoreParameter::MultipleThresholdParameterIndex(p) => {
                out.push(("parameter", ParameterValueTypeMut::Single(&mut p.parameter)));
                out.push(("thresholds", ParameterValueTypeMut::List(&mut p.thresholds)));
            },
            CoreParameter::CurrentYearThreshold(p) => {
                out.push(("threshold", ParameterValueTypeMut::Single(&mut p.threshold)));
                assert(field_keys_mut(out@) =~= field_keys(core_fields(&before)));
            },
            CoreParameter::CurrentOrdinalDayThreshold(p) => {
                out.push(("threshold", ParameterValueTypeMut::Single(&mut p.threshold)));
            },
            _ => {
                assert(field_keys_mut(out@) =~= field_keys(core_fields(&before)));
            },
        }
        out
    }
}

impl Parameter {
    /// Writable handles to the parameter-valued fields of this parameter, by
    /// attribute, in the order of `parameters`; none for a custom one.
    pub fn parameters_mut(&mut self) -> (r: Vec<(&'static str, ParameterValueTypeMut<'_>)>)
        ensures
            match *old(self) {
                Parameter::Core(c) => field_keys_mut(r@) == field_keys(core_fields(&c)),
                Parameter::Custom(_) => r@.len() == 0,
            },
    {
        match self {
            Parameter::Core(c) => c.parameters_mut(),
            Parameter::Custom(_) => Vec::new(),
        }
    }

    /// The parameter-valued fields of this parameter, by attribute; none for a custom one.
    pub fn parameters(&self) -> (r: Vec<(&'static str, ParameterValueType<'_>)>)
        ensures
            match self {
                Parameter::Core(c) => r@ == core_fields(c),
                Parameter::Custom(_) => r@.len() == 0,
            },
    {
        match self {
            Parameter::Core(c) => c.parameters(),
            Parameter::Custom(_) => Vec::new(),
        }
    }
}

} // verus!
