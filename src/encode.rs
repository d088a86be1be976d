use vstd::prelude::*;
use crate::json::{JsonValue, member, member_index};
use crate::parameters::{ParameterMeta, TableIndexEntry, TableIndex, TableDataRef, ExternalDataRef, ParameterValue,
    AggFunc, CoreParameter, Parameter, entry_ok, is_entry, opt_index_ok, table_ref_err, table_ref_ok,
    opt_table_ref_ok, opt_external_ok, opt_external_err, value_err, value_ok, values_err, values_ok,
    value_member_err, value_member_ok, values_member_err, values_member_ok, core_ok, core_kind, parameter_ok,
    CustomParameter, members_alike, opt_value_member_err, opt_value_member_ok, opt_values_member_err,
    opt_values_member_ok, pair_ok, IndexAggFunc, Predicate, MonthInterpDay, opt_numbers_ok};
use crate::tags::{ParameterKind, parameter_kind_of_tag};
use crate::decode::{lemma_values_err_skip, lemma_member_at, copy_members};

verus! {

/// Length and first characters of every member key and kind tag: enough to
/// tell any two of them apart.
pub proof fn lemma_literals()
    ensures
        "type"@.len() == 4 && "type"@[0] == 't' && "type"@[1] == 'y',
        "name"@.len() == 4 && "name"@[0] == 'n' && "name"@[1] == 'a',
        "node"@.len() == 4 && "node"@[0] == 'n' && "node"@[1] == 'o',
        "comment"@.len() == 7 && "comment"@[0] == 'c',
        "agg_func"@.len() == 8 && "agg_func"@[0] == 'a',
        "scenario"@.len() == 8 && "scenario"@[0] == 's',
        "parameters"@.len() == 10 && "parameters"@[0] == 'p',
        "value"@.len() == 5 && "value"@[0] == 'v',
        "index"@.len() == 5 && "index"@[0] == 'i',
        "table"@.len() == 5 && "table"@[0] == 't',
        "where"@.len() == 5 && "where"@[0] == 'w',
        "url"@.len() == 3 && "url"@[0] == 'u',
        "column"@.len() == 6 && "column"@[0] == 'c',
        "values"@.len() == 6 && "values"@[0] == 'v',
        "index_parameter"@.len() == 15 && "index_parameter"@[0] == 'i',
        "parameter"@.len() == 9 && "parameter"@[0] == 'p',
        "threshold"@.len() == 9 && "threshold"@[0] == 't',
        "reset_day"@.len() == 9 && "reset_day"@[0] == 'r',
        "storage_node"@.len() == 12 && "storage_node"@[0] == 's',
        "reset_month"@.len() == 11 && "reset_month"@[0] == 'r',
        "residual_days"@.len() == 13 && "residual_days"@[0] == 'r',
        "aggregated"@.len() == 10 && "aggregated"@[0] == 'a',
        "constant"@.len() == 8 && "constant"@[0] == 'c',
        "dailyprofile"@.len() == 12 && "dailyprofile"@[0] == 'd',
        "dataframe"@.len() == 9 && "dataframe"@[0] == 'd',
        "deficit"@.len() == 7 && "deficit"@[0] == 'd',
        "flow"@.len() == 4 && "flow"@[0] == 'f',
        "indexedarray"@.len() == 12 && "indexedarray"@[0] == 'i',
        "max"@.len() == 3 && "max"@[0] == 'm',
        "negative"@.len() == 8 && "negative"@[0] == 'n',
        "storage"@.len() == 7 && "storage"@[0] == 's',
        "tablesarray"@.len() == 11 && "tablesarray"@[0] == 't',
        "uniformdrawdownprofile"@.len() == 22 && "uniformdrawdownprofile"@[0] == 'u',
        "sum"@.len() == 3 && "sum"@[0] == 's',
        "product"@.len() == 7 && "product"@[0] == 'p',
        "min"@.len() == 3 && "min"@[0] == 'm' && "min"@[1] == 'i' && "max"@[1] == 'a',
        "input"@.len() == 5 && "input"@[0] == 'i',
        "link"@.len() == 4 && "link"@[0] == 'l',
        "river"@.len() == 5 && "river"@[0] == 'r',
        "output"@.len() == 6 && "output"@[0] == 'o',
        "catchment"@.len() == 9 && "catchment"@[0] == 'c',
        "position"@.len() == 8 && "position"@[0] == 'p',
        "max_flow"@.len() == 8 && "max_flow"@[0] == 'm' && "max_flow"@[1] == 'a',
        "min_flow"@.len() == 8 && "min_flow"@[0] == 'm' && "min_flow"@[1] == 'i',
        "cost"@.len() == 4 && "cost"@[0] == 'c',
        "max_volume"@.len() == 10 && "max_volume"@[0] == 'm' && "max_volume"@[1] == 'a',
        "min_volume"@.len() == 10 && "min_volume"@[0] == 'm' && "min_volume"@[1] == 'i',
        "initial_volume"@.len() == 14 && "initial_volume"@[0] == 'i',
        "initial_volume_pc"@.len() == 17 && "initial_volume_pc"@[0] == 'i',
        "nodes"@.len() == 5 && "nodes"@[0] == 'n',
        "factors"@.len() == 7 && "factors"@[0] == 'f',
        "controlcurvepiecewiseinterpolated"@.len() == 33 && "controlcurvepiecewiseinterpolated"@[0] == 'c',
        "control_curve"@.len() == 13 && "control_curve"@[0] == 'c',
        "control_curves"@.len() == 14 && "control_curves"@[0] == 'c',
        "minimum"@.len() == 7 && "minimum"@[0] == 'm',
        "aggregatedindex"@.len() == 15 && "aggregatedindex"@[0] == 'a',
        "monthlyprofile"@.len() == 14 && "monthlyprofile"@[0] == 'm',
        "parameterthreshold"@.len() == 18 && "parameterthreshold"@[0] == 'p',
        "nodethreshold"@.len() == 13 && "nodethreshold"@[0] == 'n',
        "storagethreshold"@.len() == 16 && "storagethreshold"@[0] == 's',
        "multiplethresholdindex"@.len() == 22 && "multiplethresholdindex"@[0] == 'm',
        "multiplethresholdparameterindex"@.len() == 31 && "multiplethresholdparameterindex"@[0] == 'm',
        "currentyearthreshold"@.len() == 20 && "currentyearthreshold"@[0] == 'c',
        "currentordinaldaythreshold"@.len() == 26 && "currentordinaldaythreshold"@[0] == 'c',
        "predicate"@.len() == 9 && "predicate"@[0] == 'p' && "predicate"@[1] == 'r',
        "thresholds"@.len() == 10 && "thresholds"@[0] == 't',
        "interp_day"@.len() == 10 && "interp_day"@[0] == 'i',
        "any"@.len() == 3 && "any"@[0] == 'a' && "any"@[1] == 'n',
        "all"@.len() == 3 && "all"@[0] == 'a' && "all"@[1] == 'l',
        "first"@.len() == 5 && "first"@[0] == 'f',
        "last"@.len() == 4 && "last"@[0] == 'l',
        "LT"@.len() == 2 && "LT"@[0] == 'L' && "LT"@[1] == 'T',
        "GT"@.len() == 2 && "GT"@[0] == 'G' && "GT"@[1] == 'T',
        "EQ"@.len() == 2 && "EQ"@[0] == 'E' && "EQ"@[1] == 'Q',
        "LE"@.len() == 2 && "LE"@[0] == 'L' && "LE"@[1] == 'E',
        "GE"@.len() == 2 && "GE"@[0] == 'G' && "GE"@[1] == 'E',
        "<"@.len() == 1 && "<"@[0] == '<',
        ">"@.len() == 1 && ">"@[0] == '>',
        "=="@.len() == 2 && "=="@[0] == '=' && "=="@[1] == '=',
        "<="@.len() == 2 && "<="@[0] == '<' && "<="@[1] == '=',
        ">="@.len() == 2 && ">="@[0] == '>' && ">="@[1] == '=',
        "parameter"@[1] == 'a',
        "reservoir"@.len() == 9 && "reservoir"@[0] == 'r',
        "virtualstorage"@.len() == 14 && "virtualstorage"@[0] == 'v',
        "annualvirtualstorage"@.len() == 20 && "annualvirtualstorage"@[0] == 'a',
        "monthlyvirtualstorage"@.len() == 21 && "monthlyvirtualstorage"@[0] == 'm',
        "seasonalvirtualstorage"@.len() == 22 && "seasonalvirtualstorage"@[0] == 's',
        "rollingvirtualstorage"@.len() == 21 && "rollingvirtualstorage"@[0] == 'r',
        "reset_to_initial_volume"@.len() == 23 && "reset_to_initial_volume"@[0] == 'r',
        "months"@.len() == 6 && "months"@[0] == 'm',
        "initial_months"@.len() == 14 && "initial_months"@[0] == 'i' && "initial_months"@[8] == 'm',
        "end_day"@.len() == 7 && "end_day"@[0] == 'e',
        "end_month"@.len() == 9 && "end_month"@[0] == 'e',
        "timesteps"@.len() == 9 && "timesteps"@[0] == 't' && "timesteps"@[1] == 'i',
        "days"@.len() == 4 && "days"@[0] == 'd',
        "initial_volume"@[8] == 'v' && "threshold"@[1] == 'h',
        "edges"@.len() == 5 && "edges"@[0] == 'e',
        "tables"@.len() == 6 && "tables"@[0] == 't',
        "recorders"@.len() == 9 && "recorders"@[0] == 'r',
        "metadata"@.len() == 8 && "metadata"@[0] == 'm' && "metadata"@[1] == 'e',
        "timestepper"@.len() == 11 && "timestepper"@[0] == 't',
        "scenarios"@.len() == 9 && "scenarios"@[0] == 's',
        "title"@.len() == 5 && "title"@[0] == 't',
        "description"@.len() == 11 && "description"@[0] == 'd',
        "minimum_version"@.len() == 15 && "minimum_version"@[0] == 'm',
        "start"@.len() == 5 && "start"@[0] == 's',
        "end"@.len() == 3 && "end"@[0] == 'e',
        "timestep"@.len() == 8 && "timestep"@[0] == 't',
        "size"@.len() == 4 && "size"@[0] == 's',
        "slice"@.len() == 5 && "slice"@[0] == 's',
        "ensemble_names"@.len() == 14 && "ensemble_names"@[0] == 'e',
{
    reveal_strlit("metadata");
    reveal_strlit("timestepper");
    reveal_strlit("scenarios");
    reveal_strlit("title");
    reveal_strlit("description");
    reveal_strlit("minimum_version");
    reveal_strlit("start");
    reveal_strlit("end");
    reveal_strlit("timestep");
    reveal_strlit("size");
    reveal_strlit("slice");
    reveal_strlit("ensemble_names");

    reveal_strlit("edges");
    reveal_strlit("tables");
    reveal_strlit("recorders");
    reveal_strlit("reservoir");
    reveal_strlit("virtualstorage");
    reveal_strlit("annualvirtualstorage");
    reveal_strlit("monthlyvirtualstorage");
    reveal_strlit("seasonalvirtualstorage");
    reveal_strlit("rollingvirtualstorage");
    reveal_strlit("reset_to_initial_volume");
    reveal_strlit("months");
    reveal_strlit("initial_months");
    reveal_strlit("end_day");
    reveal_strlit("end_month");
    reveal_strlit("timesteps");
    reveal_strlit("days");

    reveal_strlit("aggregatedindex");
    reveal_strlit("monthlyprofile");
    reveal_strlit("parameterthreshold");
    reveal_strlit("nodethreshold");
    reveal_strlit("storagethreshold");
    reveal_strlit("multiplethresholdindex");
    reveal_strlit("multiplethresholdparameterindex");
    reveal_strlit("currentyearthreshold");
    reveal_strlit("currentordinaldaythreshold");
    reveal_strlit("predicate");
    reveal_strlit("thresholds");
    reveal_strlit("interp_day");
    reveal_strlit("any");
    reveal_strlit("all");
    reveal_strlit("first");
    reveal_strlit("last");
    reveal_strlit("LT");
    reveal_strlit("GT");
    reveal_strlit("EQ");
    reveal_strlit("LE");
    reveal_strlit("GE");
    reveal_strlit("<");
    reveal_strlit(">");
    reveal_strlit("==");
    reveal_strlit("<=");
    reveal_strlit(">=");

    reveal_strlit("controlcurvepiecewiseinterpolated");
    reveal_strlit("control_curve");
    reveal_strlit("control_curves");
    reveal_strlit("minimum");
    reveal_strlit("input");
    reveal_strlit("link");
    reveal_strlit("river");
    reveal_strlit("output");
    reveal_strlit("catchment");
    reveal_strlit("position");
    reveal_strlit("max_flow");
    reveal_strlit("min_flow");
    reveal_strlit("cost");
    reveal_strlit("max_volume");
    reveal_strlit("min_volume");
    reveal_strlit("initial_volume");
    reveal_strlit("initial_volume_pc");
    reveal_strlit("nodes");
    reveal_strlit("factors");
    reveal_strlit("sum");
    reveal_strlit("product");
    reveal_strlit("min");
    reveal_strlit("type");
    reveal_strlit("name");
    reveal_strlit("node");
    reveal_strlit("comment");
    reveal_strlit("agg_func");
    reveal_strlit("scenario");
    reveal_strlit("parameters");
    reveal_strlit("value");
    reveal_strlit("index");
    reveal_strlit("table");
    reveal_strlit("where");
    reveal_strlit("url");
    reveal_strlit("column");
    reveal_strlit("values");
    reveal_strlit("index_parameter");
    reveal_strlit("parameter");
    reveal_strlit("threshold");
    reveal_strlit("reset_day");
    reveal_strlit("storage_node");
    reveal_strlit("reset_month");
    reveal_strlit("residual_days");
    reveal_strlit("aggregated");
    reveal_strlit("constant");
    reveal_strlit("dailyprofile");
    reveal_strlit("dataframe");
    reveal_strlit("deficit");
    reveal_strlit("flow");
    reveal_strlit("indexedarray");
    reveal_strlit("max");
    reveal_strlit("negative");
    reveal_strlit("storage");
    reveal_strlit("tablesarray");
    reveal_strlit("uniformdrawdownprofile");
}

/// The canonical tag of each kind.
pub open spec fn kind_tag(k: ParameterKind) -> Seq<char> {
    match k {
        ParameterKind::Aggregated => "aggregated"@,
        ParameterKind::Constant => "constant"@,
        ParameterKind::ControlCurvePiecewiseInterpolated => "controlcurvepiecewiseinterpolated"@,
        ParameterKind::DailyProfile => "dailyprofile"@,
        ParameterKind::DataFrame => "dataframe"@,
        ParameterKind::Deficit => "deficit"@,
        ParameterKind::Flow => "flow"@,
        ParameterKind::IndexedArray => "indexedarray"@,
        ParameterKind::Max => "max"@,
        ParameterKind::Negative => "negative"@,
        ParameterKind::Storage => "storage"@,
        ParameterKind::TablesArray => "tablesarray"@,
        ParameterKind::UniformDrawdownProfile => "uniformdrawdownprofile"@,
        ParameterKind::AggregatedIndex => "aggregatedindex"@,
        ParameterKind::Min => "min"@,
        ParameterKind::MonthlyProfile => "monthlyprofile"@,
        ParameterKind::ParameterThreshold => "parameterthreshold"@,
        ParameterKind::NodeThreshold => "nodethreshold"@,
        ParameterKind::StorageThreshold => "storagethreshold"@,
        ParameterKind::MultipleThresholdIndex => "multiplethresholdindex"@,
        ParameterKind::MultipleThresholdParameterIndex => "multiplethresholdparameterindex"@,
        ParameterKind::CurrentYearThreshold => "currentyearthreshold"@,
        ParameterKind::CurrentOrdinalDayThreshold => "currentordinaldaythreshold"@,

    }
}

pub open spec fn kind_of(c: CoreParameter) -> ParameterKind {
    match c {
        CoreParameter::Aggregated(_) => ParameterKind::Aggregated,
        CoreParameter::Constant(_) => ParameterKind::Constant,
        CoreParameter::ControlCurvePiecewiseInterpolated(_) => ParameterKind::ControlCurvePiecewiseInterpolated,
        CoreParameter::DailyProfile(_) => ParameterKind::DailyProfile,
        CoreParameter::DataFrame(_) => ParameterKind::DataFrame,
        CoreParameter::Deficit(_) => ParameterKind::Deficit,
        CoreParameter::Flow(_) => ParameterKind::Flow,
        CoreParameter::IndexedArray(_) => ParameterKind::IndexedArray,
        CoreParameter::Max(_) => ParameterKind::Max,
        CoreParameter::Negative(_) => ParameterKind::Negative,
        CoreParameter::Storage(_) => ParameterKind::Storage,
        CoreParameter::TablesArray(_) => ParameterKind::TablesArray,
        CoreParameter::UniformDrawdownProfile(_) => ParameterKind::UniformDrawdownProfile,
        CoreParameter::AggregatedIndex(_) => ParameterKind::AggregatedIndex,
        CoreParameter::Min(_) => ParameterKind::Min,
        CoreParameter::MonthlyProfile(_) => ParameterKind::MonthlyProfile,
        CoreParameter::ParameterThreshold(_) => ParameterKind::ParameterThreshold,
        CoreParameter::NodeThreshold(_) => ParameterKind::NodeThreshold,
        CoreParameter::StorageThreshold(_) => ParameterKind::StorageThreshold,
        CoreParameter::MultipleThresholdIndex(_) => ParameterKind::MultipleThresholdIndex,
        CoreParameter::MultipleThresholdParameterIndex(_) => ParameterKind::MultipleThresholdParameterIndex,
        CoreParameter::CurrentYearThreshold(_) => ParameterKind::CurrentYearThreshold,
        CoreParameter::CurrentOrdinalDayThreshold(_) => ParameterKind::CurrentOrdinalDayThreshold,

    }
}

/// A parameter value that its encoding gives back: built-in parameters all
/// the way down, and no constant that takes both a file and a table.
pub open spec fn value_encodable(v: ParameterValue) -> bool
    decreases v,
{
    match v {
        ParameterValue::Inline(p) => parameter_encodable(*p),
        _ => true,
    }
}

pub open spec fn values_encodable(s: Seq<ParameterValue>) -> bool
    decreases s,
{
    forall|i: int| 0 <= i < s.len() ==> value_encodable(#[trigger] s[i])
}

pub open spec fn core_encodable(c: CoreParameter) -> bool
    decreases c,
{
    match c {
        CoreParameter::Aggregated(p) => values_encodable(p.parameters@),
        CoreParameter::Constant(p) => !(p.external is Some && p.table is Some),
        CoreParameter::ControlCurvePiecewiseInterpolated(p) => {
            &&& (p.control_curve is Some ==> value_encodable(p.control_curve->Some_0))
            &&& (p.control_curves is Some ==> values_encodable(p.control_curves->Some_0@))
            &&& (p.parameters is Some ==> values_encodable(p.parameters->Some_0@))
        },
        CoreParameter::DailyProfile(p) => !(p.external is Some && p.table_ref is Some),
        CoreParameter::IndexedArray(p) => values_encodable(p.parameters@) && value_encodable(p.index_parameter),
        CoreParameter::Max(p) => value_encodable(p.parameter),
        CoreParameter::Negative(p) => value_encodable(p.parameter),
        CoreParameter::AggregatedIndex(p) => values_encodable(p.parameters@),
        CoreParameter::Min(p) => value_encodable(p.parameter),
        CoreParameter::MonthlyProfile(p) => !(p.external is Some && p.table_ref is Some)
            && (p.values is Some ==> p.values->Some_0@.len() == 12),
        CoreParameter::ParameterThreshold(p) => value_encodable(p.parameter) && value_encodable(p.threshold),
        CoreParameter::NodeThreshold(p) => value_encodable(p.threshold),
        CoreParameter::StorageThreshold(p) => value_encodable(p.threshold),
        CoreParameter::MultipleThresholdIndex(p) => values_encodable(p.thresholds@),
        CoreParameter::MultipleThresholdParameterIndex(p) => value_encodable(p.parameter) && values_encodable(p.thresholds@),
        CoreParameter::CurrentYearThreshold(p) => value_encodable(p.threshold),
        CoreParameter::CurrentOrdinalDayThreshold(p) => value_encodable(p.threshold),
        _ => true,
    }
}

pub open spec fn parameter_encodable(p: Parameter) -> bool
    decreases p,
{
    match p {
        Parameter::Core(c) => core_encodable(c),
        Parameter::Custom(_) => false,
    }
}

/// What a member lookup gives after `k` is appended with value `v`.
pub open spec fn put_member(before: Option<JsonValue>, k: Seq<char>, key: Seq<char>, v: JsonValue) -> Option<JsonValue> {
    match before {
        Some(x) => Some(x),
        None => if k == key { Some(v) } else { None },
    }
}

pub(crate) fn put(f: &mut Vec<(String, JsonValue)>, k: &str, v: JsonValue)
    ensures
        forall|key: Seq<char>| #[trigger] member(final(f)@, key) == put_member(member(old(f)@, key), k@, key, v),
{
    let ghost before = f@;
    let s = k.to_string();
    proof {
        assert forall|key: Seq<char>| #[trigger] member(before.push((s, v)), key) == put_member(member(before, key), k@, key, v) by {
            crate::json::lemma_member_push(before, s, v, key);
        }
    }
    f.push((s, v));
}

fn opt_str_json(x: &Option<String>) -> (r: Option<JsonValue>)
    ensures
        r == (match *x {
            Some(s) => Some(JsonValue::Str(s)),
            None => None::<JsonValue>,
        }),
{
    match x {
        Some(s) => Some(JsonValue::Str(s.clone())),
        None => None,
    }
}

pub(crate) fn put_opt(f: &mut Vec<(String, JsonValue)>, k: &str, v: Option<JsonValue>)
    ensures
        forall|key: Seq<char>| #[trigger] member(final(f)@, key) == match v {
            Some(x) => put_member(member(old(f)@, key), k@, key, x),
            None => member(old(f)@, key),
        },
{
    match v {
        Some(x) => put(f, k, x),
        None => {},
    }
}

fn put_meta(f: &mut Vec<(String, JsonValue)>, tag: &str, meta: &ParameterMeta)
    requires
        old(f)@.len() == 0,
    ensures
        member(final(f)@, "type"@) is Some && member(final(f)@, "type"@)->Some_0 is Str
            && member(final(f)@, "type"@)->Some_0->Str_0@ == tag@,
        member(final(f)@, "name"@) == (match meta.name {
            Some(s) => Some(JsonValue::Str(s)),
            None => None::<JsonValue>,
        }),
        member(final(f)@, "comment"@) == (match meta.comment {
            Some(s) => Some(JsonValue::Str(s)),
            None => None::<JsonValue>,
        }),
        forall|key: Seq<char>| key != "type"@ && key != "name"@ && key != "comment"@ ==> #[trigger] member(final(f)@, key) is None,
{
    proof { lemma_literals(); }
    assert(forall|key: Seq<char>| #[trigger] member(f@, key) is None);
    put(f, "type", JsonValue::Str(tag.to_string()));
    put_opt(f, "name", opt_str_json(&meta.name));
    put_opt(f, "comment", opt_str_json(&meta.comment));
}

pub open spec fn agg_func_tag(a: AggFunc) -> Seq<char> {
    match a {
        AggFunc::Sum => "sum"@,
        AggFunc::Product => "product"@,
        AggFunc::Max => "max"@,
        AggFunc::Min => "min"@,
    }
}

fn agg_func_name(a: AggFunc) -> (r: &'static str)
    ensures
        r@ == agg_func_tag(a),
{
    match a {
        AggFunc::Sum => "sum",
        AggFunc::Product => "product",
        AggFunc::Max => "max",
        AggFunc::Min => "min",
    }
}

pub open spec fn index_agg_func_tag(a: IndexAggFunc) -> Seq<char> {
    match a {
        IndexAggFunc::Sum => "sum"@,
        IndexAggFunc::Product => "product"@,
        IndexAggFunc::Max => "max"@,
        IndexAggFunc::Min => "min"@,
        IndexAggFunc::Any => "any"@,
        IndexAggFunc::All => "all"@,
    }
}

fn index_agg_func_name(a: IndexAggFunc) -> (r: &'static str)
    ensures
        r@ == index_agg_func_tag(a),
{
    match a {
        IndexAggFunc::Sum => "sum",
        IndexAggFunc::Product => "product",
        IndexAggFunc::Max => "max",
        IndexAggFunc::Min => "min",
        IndexAggFunc::Any => "any",
        IndexAggFunc::All => "all",
    }
}

pub open spec fn predicate_tag(p: Predicate) -> Seq<char> {
    match p {
        Predicate::LT => "LT"@,
        Predicate::GT => "GT"@,
        Predicate::EQ => "EQ"@,
        Predicate::LE => "LE"@,
        Predicate::GE => "GE"@,
    }
}

fn predicate_name(p: Predicate) -> (r: &'static str)
    ensures
        r@ == predicate_tag(p),
{
    match p {
        Predicate::LT => "LT",
        Predicate::GT => "GT",
        Predicate::EQ => "EQ",
        Predicate::LE => "LE",
        Predicate::GE => "GE",
    }
}

fn interp_day_json(d: Option<MonthInterpDay>) -> (r: Option<JsonValue>)
    ensures
        match d {
            Some(MonthInterpDay::First) => r is Some && r->Some_0 is Str && r->Some_0->Str_0@ == "first"@,
            Some(MonthInterpDay::Last) => r is Some && r->Some_0 is Str && r->Some_0->Str_0@ == "last"@,
            None => r is None,
        },
{
    match d {
        Some(MonthInterpDay::First) => Some(JsonValue::Str("first".to_string())),
        Some(MonthInterpDay::Last) => Some(JsonValue::Str("last".to_string())),
        None => None,
    }
}

pub(crate) fn put_opt_numbers(f: &mut Vec<(String, JsonValue)>, k: &'static str, v: &Option<Vec<String>>)
    requires
        member(old(f)@, k@) is None,
    ensures
        opt_numbers_ok(final(f)@, k, *v),
        forall|key: Seq<char>| key != k@ ==> #[trigger] member(final(f)@, key) == member(old(f)@, key),
        match *v {
            Some(x) => member(final(f)@, k@) is Some && member(final(f)@, k@)->Some_0 is Array
                && member(final(f)@, k@)->Some_0->Array_0@.len() == x@.len(),
            None => member(final(f)@, k@) is None,
        },
{
    match v {
        Some(x) => put(f, k, JsonValue::Array(encode_numbers(x))),
        None => {},
    }
}

/// `j` is the JSON form of the selector `t`.
pub open spec fn index_encodes(t: TableIndex, j: JsonValue) -> bool {
    match t {
        TableIndex::Single(e) => entry_ok(j, e),
        TableIndex::Multi(v) => j is Array && j->Array_0@.len() == v@.len() && forall|i: int|
            0 <= i < v@.len() ==> entry_ok(#[trigger] j->Array_0@[i], v@[i]),
    }
}

fn encode_entry(e: &TableIndexEntry) -> (r: JsonValue)
    ensures
        entry_ok(r, *e),
{
    match e {
        TableIndexEntry::Name(s) => JsonValue::Str(s.clone()),
        TableIndexEntry::Index(s) => JsonValue::Number(s.clone()),
    }
}

fn encode_index(t: &TableIndex) -> (r: JsonValue)
    ensures
        index_encodes(*t, r),
{
    match t {
        TableIndex::Single(e) => encode_entry(e),
        TableIndex::Multi(v) => {
            let mut out: Vec<JsonValue> = Vec::new();
            let mut i: usize = 0;
            while i < v.len()
                invariant
                    i <= v@.len(),
                    out@.len() == i,
                    forall|k: int| 0 <= k < i ==> entry_ok(#[trigger] out@[k], v@[k]),
                decreases v.len() - i,
            {
                out.push(encode_entry(&v[i]));
                i = i + 1;
            }
            JsonValue::Array(out)
        },
    }
}

fn encode_opt_index(t: &Option<TableIndex>) -> (r: Option<JsonValue>)
    ensures
        match *t {
            Some(x) => r is Some && index_encodes(x, r->Some_0),
            None => r is None,
        },
{
    match t {
        Some(x) => Some(encode_index(x)),
        None => None,
    }
}

proof fn lemma_index_member(f: Seq<(String, JsonValue)>, key: &'static str, t: Option<TableIndex>, j: Option<JsonValue>)
    requires
        member(f, key@) == j,
        match t {
            Some(x) => j is Some && index_encodes(x, j->Some_0),
            None => j is None,
        },
    ensures
        opt_index_ok(f, key, t),
{
    match t {
        Some(TableIndex::Multi(v)) => {
            let a = j->Some_0->Array_0@;
            assert forall|i: int| 0 <= i < a.len() implies is_entry(#[trigger] a[i]) by {
                assert(entry_ok(a[i], v@[i]));
            }
        },
        _ => {},
    }
}

/// A value whose decoding succeeds has no error, whatever member it stands in.
pub proof fn lemma_value_ok_no_err(j: JsonValue, v: ParameterValue, key: &'static str)
    requires
        value_ok(j, v),
    ensures
        value_err(j, key) is None,
{
}

pub proof fn lemma_values_ok_no_err(a: Seq<JsonValue>, s: Seq<ParameterValue>, key: &'static str)
    requires
        values_ok(a, s),
    ensures
        values_err(a, key) is None,
{
    assert forall|j: int| 0 <= j < a.len() implies value_err(#[trigger] a[j], key) is None by {
        lemma_value_ok_no_err(a[j], s[j], key);
    }
    lemma_values_err_skip(a, key, a.len() as int);
}

proof fn lemma_value_member(f: Seq<(String, JsonValue)>, key: &'static str, j: JsonValue, v: ParameterValue)
    requires
        member(f, key@) == Some(j),
        value_ok(j, v),
    ensures
        value_member_err(f, key) is None,
        value_member_ok(f, key, v),
{
    lemma_member_at(f, key@);
    lemma_value_ok_no_err(j, v, key);
}

proof fn lemma_values_member(f: Seq<(String, JsonValue)>, key: &'static str, a: Vec<JsonValue>, s: Seq<ParameterValue>)
    requires
        member(f, key@) == Some(JsonValue::Array(a)),
        values_ok(a@, s),
    ensures
        values_member_err(f, key) is None,
        values_member_ok(f, key, s),
{
    lemma_member_at(f, key@);
    lemma_values_ok_no_err(a@, s, key);
}

/// Encodes a list of parameter values.
pub fn encode_values(s: &Vec<ParameterValue>) -> (r: Vec<JsonValue>)
    ensures
        r@.len() == s@.len(),
        values_encodable(s@) ==> values_ok(r@, s@),
    decreases s@,
{
    let mut out: Vec<JsonValue> = Vec::new();
    let mut i: usize = 0;
    while i < s.len()
        invariant
            i <= s@.len(),
            out@.len() == i,
            forall|k: int| 0 <= k < i ==> value_encodable(#[trigger] s@[k]) ==> value_ok(out@[k], s@[k]),
        decreases s.len() - i,
    {
        out.push(encode_value(&s[i]));
        i = i + 1;
    }
    out
}

/// Encodes a parameter value: a constant as its number, a reference as its
/// name, an inline parameter as its object, a table lookup as its reference.
pub fn encode_value(v: &ParameterValue) -> (r: JsonValue)
    ensures
        value_encodable(*v) ==> value_ok(r, *v),
    decreases *v,
{
    match v {
        ParameterValue::Constant(s) => JsonValue::Number(s.clone()),
        ParameterValue::Reference(s) => JsonValue::Str(s.clone()),
        ParameterValue::Inline(p) => {
            let f = encode_parameter_fields(p);
            JsonValue::Object(f)
        },
        ParameterValue::Table(t) => {
            proof { lemma_literals(); }
            let mut f: Vec<(String, JsonValue)> = Vec::new();
            assert(forall|key: Seq<char>| #[trigger] member(f@, key) is None);
            put_table_ref(&mut f, t);
            proof {
                lemma_member_at(f@, "type"@);
            }
            JsonValue::Object(f)
        },
    }
}

fn put_table_ref(f: &mut Vec<(String, JsonValue)>, t: &TableDataRef)
    requires
        member(old(f)@, "table"@) is None,
        member(old(f)@, "column"@) is None,
        member(old(f)@, "index"@) is None,
    ensures
        table_ref_err(final(f)@) is None,
        table_ref_ok(final(f)@, *t),
        forall|key: Seq<char>| key != "table"@ && key != "column"@ && key != "index"@
            ==> #[trigger] member(final(f)@, key) == member(old(f)@, key),
{
    proof { lemma_literals(); }
    put(f, "table", JsonValue::Str(t.table.clone()));
    let c = encode_opt_index(&t.column);
    put_opt(f, "column", c);
    let x = encode_opt_index(&t.index);
    put_opt(f, "index", x);
    proof {
        lemma_index_member(f@, "column", t.column, c);
        lemma_index_member(f@, "index", t.index, x);
    }
}

/// Writes where a parameter's data comes from: a file, a table, or neither.
fn put_sources(f: &mut Vec<(String, JsonValue)>, external: &Option<ExternalDataRef>, table: &Option<TableDataRef>)
    requires
        member(old(f)@, "url"@) is None,
        member(old(f)@, "table"@) is None,
        member(old(f)@, "column"@) is None,
        member(old(f)@, "index"@) is None,
    ensures
        !(external is Some && table is Some) ==> opt_external_ok(final(f)@, *external)
            && opt_table_ref_ok(final(f)@, *table),
        forall|key: Seq<char>| key != "url"@ && key != "table"@ && key != "column"@ && key != "index"@
            ==> #[trigger] member(final(f)@, key) == member(old(f)@, key),
{
    proof { lemma_literals(); }
    match external {
        Some(e) => {
            put_external(f, e);
            match table {
                Some(t) => put(f, "table", JsonValue::Str(t.table.clone())),
                None => {},
            }
        },
        None => match table {
            Some(t) => put_table_ref(f, t),
            None => {},
        },
    }
}

fn put_external(f: &mut Vec<(String, JsonValue)>, e: &ExternalDataRef)
    requires
        member(old(f)@, "url"@) is None,
        member(old(f)@, "column"@) is None,
        member(old(f)@, "index"@) is None,
    ensures
        opt_external_err(final(f)@) is None,
        opt_external_ok(final(f)@, Some(*e)),
        forall|key: Seq<char>| key != "url"@ && key != "column"@ && key != "index"@
            ==> #[trigger] member(final(f)@, key) == member(old(f)@, key),
{
    proof { lemma_literals(); }
    put(f, "url", JsonValue::Str(e.url.clone()));
    let c = encode_opt_index(&e.column);
    put_opt(f, "column", c);
    let x = encode_opt_index(&e.index);
    put_opt(f, "index", x);
    proof {
        lemma_index_member(f@, "column", e.column, c);
        lemma_index_member(f@, "index", e.index, x);
    }
}

fn opt_num_json(x: &Option<String>) -> (r: Option<JsonValue>)
    ensures
        r == (match *x {
            Some(s) => Some(JsonValue::Number(s)),
            None => None::<JsonValue>,
        }),
{
    match x {
        Some(s) => Some(JsonValue::Number(s.clone())),
        None => None,
    }
}

fn encode_numbers(v: &Vec<String>) -> (r: Vec<JsonValue>)
    ensures
        r@.len() == v@.len(),
        forall|i: int| 0 <= i < v@.len() ==> (#[trigger] r@[i]) == JsonValue::Number(v@[i]),
{
    let mut out: Vec<JsonValue> = Vec::new();
    let mut i: usize = 0;
    while i < v.len()
        invariant
            i <= v@.len(),
            out@.len() == i,
            forall|k: int| 0 <= k < i ==> (#[trigger] out@[k]) == JsonValue::Number(v@[k]),
        decreases v.len() - i,
    {
        out.push(JsonValue::Number(v[i].clone()));
        i = i + 1;
    }
    out
}

proof fn lemma_opt_value_member(f: Seq<(String, JsonValue)>, key: &'static str, j: Option<JsonValue>, v: Option<ParameterValue>)
    requires
        member(f, key@) == j,
        match v {
            Some(x) => j is Some && value_ok(j->Some_0, x),
            None => j is None,
        },
    ensures
        opt_value_member_err(f, key) is None,
        opt_value_member_ok(f, key, v),
{
    lemma_member_at(f, key@);
    match v {
        Some(x) => lemma_value_ok_no_err(j->Some_0, x, key),
        None => {},
    }
}

proof fn lemma_opt_values_member(f: Seq<(String, JsonValue)>, key: &'static str, a: Option<Vec<JsonValue>>, v: Option<Vec<ParameterValue>>)
    requires
        member(f, key@) == (match a {
            Some(x) => Some(JsonValue::Array(x)),
            None => None::<JsonValue>,
        }),
        match v {
            Some(x) => a is Some && values_ok(a->Some_0@, x@),
            None => a is None,
        },
    ensures
        opt_values_member_err(f, key) is None,
        opt_values_member_ok(f, key, v),
{
    lemma_member_at(f, key@);
    match v {
        Some(x) => lemma_values_ok_no_err(a->Some_0@, x@, key),
        None => {},
    }
}

fn encode_opt_value(v: &Option<ParameterValue>) -> (r: Option<JsonValue>)
    ensures
        match *v {
            Some(x) => r is Some && (value_encodable(x) ==> value_ok(r->Some_0, x)),
            None => r is None,
        },
    decreases *v,
{
    match v {
        Some(x) => Some(encode_value(x)),
        None => None,
    }
}

fn encode_opt_values(v: &Option<Vec<ParameterValue>>) -> (r: Option<Vec<JsonValue>>)
    ensures
        match *v {
            Some(x) => r is Some && (values_encodable(x@) ==> values_ok(r->Some_0@, x@)),
            None => r is None,
        },
    decreases *v,
{
    match v {
        Some(x) => Some(encode_values(x)),
        None => None,
    }
}

fn array_of(a: Option<Vec<JsonValue>>) -> (r: Option<JsonValue>)
    ensures
        r == (match a {
            Some(x) => Some(JsonValue::Array(x)),
            None => None::<JsonValue>,
        }),
{
    match a {
        Some(x) => Some(JsonValue::Array(x)),
        None => None,
    }
}

fn encode_pairs(v: &Vec<(String, String)>) -> (r: Vec<JsonValue>)
    ensures
        r@.len() == v@.len(),
        forall|i: int| 0 <= i < v@.len() ==> pair_ok(#[trigger] r@[i], v@[i]),
{
    let mut out: Vec<JsonValue> = Vec::new();
    let mut i: usize = 0;
    while i < v.len()
        invariant
            i <= v@.len(),
            out@.len() == i,
            forall|k: int| 0 <= k < i ==> pair_ok(#[trigger] out@[k], v@[k]),
        decreases v.len() - i,
    {
        let mut p: Vec<JsonValue> = Vec::new();
        p.push(JsonValue::Number(v[i].0.clone()));
        p.push(JsonValue::Number(v[i].1.clone()));
        out.push(JsonValue::Array(p));
        i = i + 1;
    }
    out
}

/// Encodes a built-in parameter's members: its canonical tag, its identity,
/// then its fields. Decoding them gives the parameter back.
pub fn encode_core(c: &CoreParameter) -> (r: Vec<(String, JsonValue)>)
    ensures
        core_encodable(*c) ==> core_ok(kind_of(*c), r@, None, *c),
        member(r@, "type"@) is Some && member(r@, "type"@)->Some_0 is Str
            && member(r@, "type"@)->Some_0->Str_0@ == kind_tag(kind_of(*c)),
    decreases *c,
{
    proof { lemma_literals(); }
    let mut f: Vec<(String, JsonValue)> = Vec::new();
    match c {
        CoreParameter::Aggregated(p) => {
            put_meta(&mut f, "aggregated", &p.meta);
            put(&mut f, "agg_func", JsonValue::Str(agg_func_name(p.agg_func).to_string()));
            let a = encode_values(&p.parameters);
            let ghost ga = a;
            put(&mut f, "parameters", JsonValue::Array(a));
            proof {
                if values_encodable(p.parameters@) {
                    lemma_values_member(f@, "parameters", ga, p.parameters@);
                }
            }
        },
        CoreParameter::ControlCurvePiecewiseInterpolated(p) => {
            put_meta(&mut f, "controlcurvepiecewiseinterpolated", &p.meta);
            let cc = encode_opt_value(&p.control_curve);
            let ghost gcc = cc;
            put_opt(&mut f, "control_curve", cc);
            let ccs = encode_opt_values(&p.control_curves);
            let ghost gccs = ccs;
            put_opt(&mut f, "control_curves", array_of(ccs));
            put(&mut f, "storage_node", JsonValue::Str(p.storage_node.clone()));
            match &p.values {
                Some(v) => put(&mut f, "values", JsonValue::Array(encode_pairs(v))),
                None => {},
            }
            let ps = encode_opt_values(&p.parameters);
            let ghost gps = ps;
            put_opt(&mut f, "parameters", array_of(ps));
            put_opt(&mut f, "minimum", opt_num_json(&p.minimum));
            proof {
                if core_encodable(*c) {
                    lemma_opt_value_member(f@, "control_curve", gcc, p.control_curve);
                    lemma_opt_values_member(f@, "control_curves", gccs, p.control_curves);
                    lemma_opt_values_member(f@, "parameters", gps, p.parameters);
                }
            }
        },
        CoreParameter::Constant(p) => {
            put_meta(&mut f, "constant", &p.meta);
            put_opt(&mut f, "value", opt_num_json(&p.value));
            put_sources(&mut f, &p.external, &p.table);
        },
        CoreParameter::DailyProfile(p) => {
            put_meta(&mut f, "dailyprofile", &p.meta);
            match &p.values {
                Some(v) => put(&mut f, "values", JsonValue::Array(encode_numbers(v))),
                None => {},
            }
            put_sources(&mut f, &p.external, &p.table_ref);
        },
        CoreParameter::DataFrame(p) => {
            put_meta(&mut f, "dataframe", &p.meta);
            put_opt(&mut f, "url", opt_str_json(&p.url));
            put_opt(&mut f, "table", opt_str_json(&p.table));
            put_opt(&mut f, "column", opt_str_json(&p.column));
            put_opt(&mut f, "index", opt_str_json(&p.index));
            put_opt(&mut f, "scenario", opt_str_json(&p.scenario));
        },
        CoreParameter::Deficit(p) => {
            put_meta(&mut f, "deficit", &p.meta);
            put(&mut f, "node", JsonValue::Str(p.node.clone()));
        },
        CoreParameter::Flow(p) => {
            put_meta(&mut f, "flow", &p.meta);
            put(&mut f, "node", JsonValue::Str(p.node.clone()));
        },
        CoreParameter::IndexedArray(p) => {
            put_meta(&mut f, "indexedarray", &p.meta);
            let a = encode_values(&p.parameters);
            let ghost ga = a;
            put(&mut f, "parameters", JsonValue::Array(a));
            let j = encode_value(&p.index_parameter);
            let ghost gj = j;
            put(&mut f, "index_parameter", j);
            proof {
                if values_encodable(p.parameters@) {
                    lemma_values_member(f@, "parameters", ga, p.parameters@);
                }
                if value_encodable(p.index_parameter) {
                    lemma_value_member(f@, "index_parameter", gj, p.index_parameter);
                }
            }
        },
        CoreParameter::Max(p) => {
            put_meta(&mut f, "max", &p.meta);
            let j = encode_value(&p.parameter);
            let ghost gj = j;
            put(&mut f, "parameter", j);
            put_opt(&mut f, "threshold", opt_num_json(&p.threshold));
            proof {
                if value_encodable(p.parameter) {
                    lemma_value_member(f@, "parameter", gj, p.parameter);
                }
            }
        },
        CoreParameter::Negative(p) => {
            put_meta(&mut f, "negative", &p.meta);
            let j = encode_value(&p.parameter);
            let ghost gj = j;
            put(&mut f, "parameter", j);
            proof {
                if value_encodable(p.parameter) {
                    lemma_value_member(f@, "parameter", gj, p.parameter);
                }
            }
        },
        CoreParameter::Storage(p) => {
            put_meta(&mut f, "storage", &p.meta);
            put(&mut f, "storage_node", JsonValue::Str(p.storage_node.clone()));
        },
        CoreParameter::TablesArray(p) => {
            put_meta(&mut f, "tablesarray", &p.meta);
            put(&mut f, "node", JsonValue::Str(p.node.clone()));
            put(&mut f, "where", JsonValue::Str(p.wh.clone()));
            put_opt(&mut f, "scenario", opt_str_json(&p.scenario));
            put(&mut f, "url", JsonValue::Str(p.url.clone()));
        },
        CoreParameter::AggregatedIndex(p) => {
            put_meta(&mut f, "aggregatedindex", &p.meta);
            put(&mut f, "agg_func", JsonValue::Str(index_agg_func_name(p.agg_func).to_string()));
            let a = encode_values(&p.parameters);
            let ghost ga = a;
            put(&mut f, "parameters", JsonValue::Array(a));
            proof {
                if values_encodable(p.parameters@) {
                    lemma_values_member(f@, "parameters", ga, p.parameters@);
                }
            }
        },
        CoreParameter::Min(p) => {
            put_meta(&mut f, "min", &p.meta);
            let j = encode_value(&p.parameter);
            let ghost gj = j;
            put(&mut f, "parameter", j);
            put_opt(&mut f, "threshold", opt_num_json(&p.threshold));
            proof {
                if value_encodable(p.parameter) {
                    lemma_value_member(f@, "parameter", gj, p.parameter);
                }
            }
        },
        CoreParameter::MonthlyProfile(p) => {
            put_meta(&mut f, "monthlyprofile", &p.meta);
            put_opt(&mut f, "interp_day", interp_day_json(p.interp_day));
            put_opt_numbers(&mut f, "values", &p.values);
            put_sources(&mut f, &p.external, &p.table_ref);
        },
        CoreParameter::ParameterThreshold(p) => {
            put_meta(&mut f, "parameterthreshold", &p.meta);
            let j = encode_value(&p.parameter);
            let ghost gj = j;
            put(&mut f, "parameter", j);
            let t = encode_value(&p.threshold);
            let ghost gt = t;
            put(&mut f, "threshold", t);
            put_opt_numbers(&mut f, "values", &p.values);
            put(&mut f, "predicate", JsonValue::Str(predicate_name(p.predicate).to_string()));
            proof {
                if core_encodable(*c) {
                    lemma_value_member(f@, "parameter", gj, p.parameter);
                    lemma_value_member(f@, "threshold", gt, p.threshold);
                }
            }
        },
        CoreParameter::NodeThreshold(p) => {
            put_meta(&mut f, "nodethreshold", &p.meta);
            put(&mut f, "node", JsonValue::Str(p.node.clone()));
            let t = encode_value(&p.threshold);
            let ghost gt = t;
            put(&mut f, "threshold", t);
            put_opt_numbers(&mut f, "values", &p.values);
            put(&mut f, "predicate", JsonValue::Str(predicate_name(p.predicate).to_string()));
            proof {
                if core_encodable(*c) {
                    lemma_value_member(f@, "threshold", gt, p.threshold);
                }
            }
        },
        CoreParameter::StorageThreshold(p) => {
            put_meta(&mut f, "storagethreshold", &p.meta);
            put(&mut f, "storage_node", JsonValue::Str(p.storage_node.clone()));
            let t = encode_value(&p.threshold);
            let ghost gt = t;
            put(&mut f, "threshold", t);
            put_opt_numbers(&mut f, "values", &p.values);
            put(&mut f, "predicate", JsonValue::Str(predicate_name(p.predicate).to_string()));
            proof {
                if core_encodable(*c) {
                    lemma_value_member(f@, "threshold", gt, p.threshold);
                }
            }
        },
        CoreParameter::MultipleThresholdIndex(p) => {
            put_meta(&mut f, "multiplethresholdindex", &p.meta);
            put(&mut f, "node", JsonValue::Str(p.node.clone()));
            let a = encode_values(&p.thresholds);
            let ghost ga = a;
            put(&mut f, "thresholds", JsonValue::Array(a));
            proof {
                if core_encodable(*c) {
                    lemma_values_member(f@, "thresholds", ga, p.thresholds@);
                }
            }
        },
        CoreParameter::MultipleThresholdParameterIndex(p) => {
            put_meta(&mut f, "multiplethresholdparameterindex", &p.meta);
            let j = encode_value(&p.parameter);
            let ghost gj = j;
            put(&mut f, "parameter", j);
            let a = encode_values(&p.thresholds);
            let ghost ga = a;
            put(&mut f, "thresholds", JsonValue::Array(a));
            proof {
                if core_encodable(*c) {
                    lemma_value_member(f@, "parameter", gj, p.parameter);
                    lemma_values_member(f@, "thresholds", ga, p.thresholds@);
                }
            }
        },
        CoreParameter::CurrentYearThreshold(p) => {
            put_meta(&mut f, "currentyearthreshold", &p.meta);
            let t = encode_value(&p.threshold);
            let ghost gt = t;
            put(&mut f, "threshold", t);
            put_opt_numbers(&mut f, "values", &p.values);
            put(&mut f, "predicate", JsonValue::Str(predicate_name(p.predicate).to_string()));
            proof {
                if core_encodable(*c) {
                    lemma_value_member(f@, "threshold", gt, p.threshold);
                }
            }
        },
        CoreParameter::CurrentOrdinalDayThreshold(p) => {
            put_meta(&mut f, "currentordinaldaythreshold", &p.meta);
            let t = encode_value(&p.threshold);
            let ghost gt = t;
            put(&mut f, "threshold", t);
            put_opt_numbers(&mut f, "values", &p.values);
            put(&mut f, "predicate", JsonValue::Str(predicate_name(p.predicate).to_string()));
            proof {
                if core_encodable(*c) {
                    lemma_value_member(f@, "threshold", gt, p.threshold);
                }
            }
        },
        CoreParameter::UniformDrawdownProfile(p) => {
            put_meta(&mut f, "uniformdrawdownprofile", &p.meta);
            put_opt(&mut f, "reset_day", opt_num_json(&p.reset_day));
            put_opt(&mut f, "reset_month", opt_num_json(&p.reset_month));
            put_opt(&mut f, "residual_days", opt_num_json(&p.residual_days));
        },
    }
    f
}

/// Each canonical tag names its own kind.
pub proof fn lemma_kind_tag(k: ParameterKind)
    ensures
        parameter_kind_of_tag(kind_tag(k)) == Some(k),
{
    lemma_literals();
    match k {
        ParameterKind::Aggregated => {},
        ParameterKind::Constant => {},
        ParameterKind::ControlCurvePiecewiseInterpolated => {},
        ParameterKind::DailyProfile => {},
        ParameterKind::DataFrame => {},
        ParameterKind::Deficit => {},
        ParameterKind::Flow => {},
        ParameterKind::IndexedArray => {},
        ParameterKind::Max => {},
        ParameterKind::Negative => {},
        ParameterKind::Storage => {},
        ParameterKind::TablesArray => {},
        ParameterKind::UniformDrawdownProfile => {},
        ParameterKind::AggregatedIndex => {},
        ParameterKind::Min => {},
        ParameterKind::MonthlyProfile => {},
        ParameterKind::ParameterThreshold => {},
        ParameterKind::NodeThreshold => {},
        ParameterKind::StorageThreshold => {},
        ParameterKind::MultipleThresholdIndex => {},
        ParameterKind::MultipleThresholdParameterIndex => {},
        ParameterKind::CurrentYearThreshold => {},
        ParameterKind::CurrentOrdinalDayThreshold => {},

    }
}

/// The identity members of a custom parameter, and nothing else.
pub open spec fn identity_members(g: Seq<(String, JsonValue)>, ty: String, meta: ParameterMeta) -> bool {
    &&& member(g, "type"@) is Some && member(g, "type"@)->Some_0 is Str && member(g, "type"@)->Some_0->Str_0@ == ty@
    &&& member(g, "name"@) == (match meta.name {
        Some(s) => Some(JsonValue::Str(s)),
        None => None::<JsonValue>,
    })
    &&& member(g, "comment"@) == (match meta.comment {
        Some(s) => Some(JsonValue::Str(s)),
        None => None::<JsonValue>,
    })
    &&& forall|key: Seq<char>| key != "type"@ && key != "name"@ && key != "comment"@ ==> #[trigger] member(g, key) is None
}

/// `f` is the encoding of the custom parameter `c`: its tag and identity,
/// then its attributes as they were.
pub open spec fn custom_encodes(c: CustomParameter, f: Seq<(String, JsonValue)>) -> bool {
    let k = f.len() - c.attributes@.len();
    &&& 0 <= k
    &&& identity_members(f.subrange(0, k), c.ty, c.meta)
    &&& members_alike(c.attributes@, f.subrange(k, f.len() as int))
}

/// Encodes a parameter's members. For a built-in parameter, decoding them
/// gives it back; a custom one is written with its tag, identity and
/// attributes as they were.
pub fn encode_parameter_fields(p: &Parameter) -> (r: Vec<(String, JsonValue)>)
    ensures
        member_index(r@, "type"@) is Some,
        parameter_encodable(*p) ==> parameter_ok(r@, None, *p),
        match *p {
            Parameter::Custom(c) => custom_encodes(c, r@),
            _ => true,
        },
    decreases *p,
{
    match p {
        Parameter::Core(c) => {
            let f = encode_core(c);
            proof {
                lemma_kind_tag(kind_of(*c));
                lemma_member_at(f@, "type"@);
                if core_encodable(*c) {
                    assert(core_kind(f@, None) == Some(kind_of(*c)));
                }
            }
            f
        },
        Parameter::Custom(c) => {
            let mut f: Vec<(String, JsonValue)> = Vec::new();
            put_meta(&mut f, c.ty.as_str(), &c.meta);
            proof { lemma_member_at(f@, "type"@); }
            let ghost head = f@;
            let mut rest = copy_members(&c.attributes);
            let ghost tail = rest@;
            f.append(&mut rest);
            proof {
                assert(f@.subrange(0, head.len() as int) =~= head);
                assert(f@.subrange(head.len() as int, f@.len() as int) =~= tail);
                lemma_member_index_prefix(head, tail, "type"@);
                assert(f@ =~= head + tail);
            }
            f
        },
    }
}

/// A key found in a prefix is found in the whole.
proof fn lemma_member_index_prefix(a: Seq<(String, JsonValue)>, b: Seq<(String, JsonValue)>, key: Seq<char>)
    requires
        member_index(a, key) is Some,
    ensures
        member_index(a + b, key) is Some,
    decreases a.len(),
{
    if a[0].0@ != key {
        assert((a + b).drop_first() =~= a.drop_first() + b);
        lemma_member_index_prefix(a.drop_first(), b, key);
    } else {
        assert((a + b)[0] == a[0]);
    }
}

/// `f` is the body of the custom parameter `c` in a named map: its tag and
/// comment, then its attributes as they were; the name is the map's key.
pub open spec fn custom_entry_encodes(c: CustomParameter, f: Seq<(String, JsonValue)>) -> bool {
    let k = f.len() - c.attributes@.len();
    let g = f.subrange(0, k);
    &&& 0 <= k
    &&& member(g, "type"@) == Some(JsonValue::Str(c.ty))
    &&& member(g, "comment"@) == (match c.meta.comment {
        Some(s) => Some(JsonValue::Str(s)),
        None => None::<JsonValue>,
    })
    &&& forall|key: Seq<char>| key != "type"@ && key != "comment"@ ==> #[trigger] member(g, key) is None
    &&& members_alike(c.attributes@, f.subrange(k, f.len() as int))
}

/// Encodes the body of a custom parameter for a named map.
pub fn encode_custom_entry(c: &CustomParameter) -> (r: Vec<(String, JsonValue)>)
    ensures
        custom_entry_encodes(*c, r@),
{
    proof { lemma_literals(); }
    let mut f: Vec<(String, JsonValue)> = Vec::new();
    assert(forall|key: Seq<char>| #[trigger] member(f@, key) is None);
    put(&mut f, "type", JsonValue::Str(c.ty.clone()));
    put_opt(&mut f, "comment", opt_str_json(&c.meta.comment));
    let ghost head = f@;
    let mut rest = copy_members(&c.attributes);
    let ghost tail = rest@;
    f.append(&mut rest);
    proof {
        assert(f@.subrange(0, head.len() as int) =~= head);
        assert(f@.subrange(head.len() as int, f@.len() as int) =~= tail);
    }
    f
}

impl Parameter {
    /// Encodes the parameter as a JSON object. A built-in parameter is written
    /// with its canonical tag, and decoding the result gives it back; a custom
    /// parameter is written with its tag, identity and attributes as they were.
    pub fn to_json(&self) -> (r: JsonValue)
        ensures
            r is Object,
            parameter_encodable(*self) ==> parameter_ok(r->Object_0@, None, *self),
            match *self {
                Parameter::Custom(c) => custom_encodes(c, r->Object_0@),
                _ => true,
            },
    {
        JsonValue::Object(encode_parameter_fields(self))
    }
}

} // verus!
