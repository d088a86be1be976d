use vstd::prelude::*;
use crate::json::{JsonValue, DecodeError, member, member_index, find_member, req_str, opt_str, opt_num, str_eq,
    lemma_member_index_bounds};
use crate::tags::{ParameterKind, parameter_kind, parameter_kind_of_tag};
use crate::parameters::{ParameterMeta, CustomParameter, TableIndexEntry, TableIndex, TableDataRef, ExternalDataRef,
    ParameterValue, AggFunc, AggregatedParameter, ConstantParameter, DailyProfileParameter, DataFrameParameter,
    DeficitParameter, FlowParameter, IndexedArrayParameter, MaxParameter, NegativeParameter, StorageParameter,
    TablesArrayParameter, UniformDrawdownProfileParameter, CoreParameter, Parameter,
    ControlCurvePiecewiseInterpolatedParameter, IndexAggFunc, MonthInterpDay, Predicate, AggregatedIndexParameter,
    MinParameter, MonthlyProfileParameter, ParameterThresholdParameter, NodeThresholdParameter,
    StorageThresholdParameter, MultipleThresholdIndexParameter, MultipleThresholdParameterIndexParameter,
    CurrentYearThresholdParameter, CurrentOrdinalDayThresholdParameter, index_agg_func_spec, interp_day_spec,
    predicate_spec, month_count_err, opt_value_member_err, opt_value_member_ok, opt_values_member_err,
    opt_values_member_ok, pair_ok, is_pair, opt_pairs_ok, opt_pairs_err, meta_spec, agg_func_spec,
    entry_ok, is_entry, opt_index_ok, opt_index_err, table_ref_err, table_ref_ok, opt_table_ref_ok,
    opt_table_ref_err, opt_external_ok, opt_external_err, opt_numbers_ok, opt_numbers_err, value_err, value_ok,
    values_err, values_ok, value_member_err, value_member_ok, values_member_err, values_member_ok, core_ok,
    core_err, json_alike, members_alike, is_identity_key, attributes_of, parameter_err, parameter_ok};

verus! {

pub proof fn lemma_member_at(f: Seq<(String, JsonValue)>, key: Seq<char>)
    ensures
        match member_index(f, key) {
            Some(i) => 0 <= i < f.len() && member(f, key) == Some(f[i].1),
            None => member(f, key) is None,
        },
{
    lemma_member_index_bounds(f, key);
}

/// With no error before position `i`, the first error of `a` is that of `a[i..]`.
pub proof fn lemma_values_err_skip(a: Seq<JsonValue>, key: &'static str, i: int)
    requires
        0 <= i <= a.len(),
        forall|j: int| 0 <= j < i ==> value_err(#[trigger] a[j], key) is None,
    ensures
        values_err(a, key) == values_err(a.subrange(i, a.len() as int), key),
    decreases i,
{
    if i == 0 {
        assert(a.subrange(0, a.len() as int) =~= a);
    } else {
        let t = a.drop_first();
        assert forall|j: int| 0 <= j < i - 1 implies value_err(#[trigger] t[j], key) is None by {
            assert(t[j] == a[j + 1]);
        }
        lemma_values_err_skip(t, key, i - 1);
        assert(t.subrange(i - 1, t.len() as int) =~= a.subrange(i, a.len() as int));
    }
}

pub fn decode_meta(f: &Vec<(String, JsonValue)>, name: &Option<String>) -> (r: Result<ParameterMeta, DecodeError>)
    ensures
        r == meta_spec(f@, *name),
{
    let n = match name {
        Some(s) => Some(s.clone()),
        None => opt_str(f, "name")?,
    };
    let c = opt_str(f, "comment")?;
    Ok(ParameterMeta { name: n, comment: c })
}

pub fn decode_agg_func(f: &Vec<(String, JsonValue)>) -> (r: Result<AggFunc, DecodeError>)
    ensures
        r == agg_func_spec(f@),
{
    proof { lemma_member_at(f@, "agg_func"@); }
    match find_member(f, "agg_func") {
        None => Err(DecodeError::MissingField("agg_func")),
        Some(i) => match &f[i].1 {
            JsonValue::Str(s) => {
                if str_eq(s.as_str(), "sum") {
                    Ok(AggFunc::Sum)
                } else if str_eq(s.as_str(), "product") {
                    Ok(AggFunc::Product)
                } else if str_eq(s.as_str(), "max") {
                    Ok(AggFunc::Max)
                } else if str_eq(s.as_str(), "min") {
                    Ok(AggFunc::Min)
                } else {
                    Err(DecodeError::InvalidField("agg_func"))
                }
            },
            _ => Err(DecodeError::InvalidField("agg_func")),
        },
    }
}

pub fn decode_index_agg_func(f: &Vec<(String, JsonValue)>) -> (r: Result<IndexAggFunc, DecodeError>)
    ensures
        r == index_agg_func_spec(f@),
{
    proof { lemma_member_at(f@, "agg_func"@); }
    match find_member(f, "agg_func") {
        None => Err(DecodeError::MissingField("agg_func")),
        Some(i) => match &f[i].1 {
            JsonValue::Str(s) => {
                if str_eq(s.as_str(), "sum") {
                    Ok(IndexAggFunc::Sum)
                } else if str_eq(s.as_str(), "product") {
                    Ok(IndexAggFunc::Product)
                } else if str_eq(s.as_str(), "max") {
                    Ok(IndexAggFunc::Max)
                } else if str_eq(s.as_str(), "min") {
                    Ok(IndexAggFunc::Min)
                } else if str_eq(s.as_str(), "any") {
                    Ok(IndexAggFunc::Any)
                } else if str_eq(s.as_str(), "all") {
                    Ok(IndexAggFunc::All)
                } else {
                    Err(DecodeError::InvalidField("agg_func"))
                }
            },
            _ => Err(DecodeError::InvalidField("agg_func")),
        },
    }
}

pub fn decode_interp_day(f: &Vec<(String, JsonValue)>) -> (r: Result<Option<MonthInterpDay>, DecodeError>)
    ensures
        r == interp_day_spec(f@),
{
    proof { lemma_member_at(f@, "interp_day"@); }
    match find_member(f, "interp_day") {
        None => Ok(None),
        Some(i) => match &f[i].1 {
            JsonValue::Null => Ok(None),
            JsonValue::Str(s) => {
                if str_eq(s.as_str(), "first") {
                    Ok(Some(MonthInterpDay::First))
                } else if str_eq(s.as_str(), "last") {
                    Ok(Some(MonthInterpDay::Last))
                } else {
                    Err(DecodeError::InvalidField("interp_day"))
                }
            },
            _ => Err(DecodeError::InvalidField("interp_day")),
        },
    }
}

pub fn decode_predicate(f: &Vec<(String, JsonValue)>) -> (r: Result<Predicate, DecodeError>)
    ensures
        r == predicate_spec(f@),
{
    proof { lemma_member_at(f@, "predicate"@); }
    match find_member(f, "predicate") {
        None => Ok(Predicate::LT),
        Some(i) => match &f[i].1 {
            JsonValue::Str(s) => {
                let s = s.as_str();
                if str_eq(s, "LT") || str_eq(s, "<") {
                    Ok(Predicate::LT)
                } else if str_eq(s, "GT") || str_eq(s, ">") {
                    Ok(Predicate::GT)
                } else if str_eq(s, "EQ") || str_eq(s, "==") {
                    Ok(Predicate::EQ)
                } else if str_eq(s, "LE") || str_eq(s, "<=") {
                    Ok(Predicate::LE)
                } else if str_eq(s, "GE") || str_eq(s, ">=") {
                    Ok(Predicate::GE)
                } else {
                    Err(DecodeError::InvalidField("predicate"))
                }
            },
            _ => Err(DecodeError::InvalidField("predicate")),
        },
    }
}

fn decode_entry(j: &JsonValue) -> (r: Option<TableIndexEntry>)
    ensures
        match r {
            Some(e) => entry_ok(*j, e),
            None => !is_entry(*j),
        },
{
    match j {
        JsonValue::Str(s) => Some(TableIndexEntry::Name(s.clone())),
        JsonValue::Number(s) => Some(TableIndexEntry::Index(s.clone())),
        _ => None,
    }
}

fn decode_entries(a: &Vec<JsonValue>) -> (r: Option<Vec<TableIndexEntry>>)
    ensures
        match r {
            Some(v) => v@.len() == a@.len() && forall|m: int| 0 <= m < a@.len() ==> entry_ok(#[trigger] a@[m], v@[m]),
            None => !(forall|m: int| 0 <= m < a@.len() ==> is_entry(#[trigger] a@[m])),
        },
{
    let mut out: Vec<TableIndexEntry> = Vec::new();
    let mut k: usize = 0;
    while k < a.len()
        invariant
            k <= a@.len(),
            out@.len() == k,
            forall|m: int| 0 <= m < k ==> entry_ok(#[trigger] a@[m], out@[m]),
        decreases a.len() - k,
    {
        match decode_entry(&a[k]) {
            Some(e) => out.push(e),
            None => {
                assert(!is_entry(a@[k as int]));
                return None;
            },
        }
        k = k + 1;
    }
    Some(out)
}

fn decode_numbers(a: &Vec<JsonValue>) -> (r: Option<Vec<String>>)
    ensures
        match r {
            Some(v) => v@.len() == a@.len() && forall|m: int|
                0 <= m < a@.len() ==> (#[trigger] a@[m]) == JsonValue::Number(v@[m]),
            None => !(forall|m: int| 0 <= m < a@.len() ==> (#[trigger] a@[m]) is Number),
        },
{
    let mut out: Vec<String> = Vec::new();
    let mut k: usize = 0;
    while k < a.len()
        invariant
            k <= a@.len(),
            out@.len() == k,
            forall|m: int| 0 <= m < k ==> (#[trigger] a@[m]) == JsonValue::Number(out@[m]),
        decreases a.len() - k,
    {
        match &a[k] {
            JsonValue::Number(s) => out.push(s.clone()),
            _ => {
                assert(!(a@[k as int] is Number));
                return None;
            },
        }
        k = k + 1;
    }
    Some(out)
}

pub fn decode_opt_index(f: &Vec<(String, JsonValue)>, key: &'static str) -> (r: Result<Option<TableIndex>, DecodeError>)
    ensures
        match r {
            Ok(x) => opt_index_ok(f@, key, x),
            Err(e) => opt_index_err(f@, key) == Some(e),
        },
{
    proof { lemma_member_at(f@, key@); }
    match find_member(f, key) {
        None => Ok(None),
        Some(i) => match &f[i].1 {
            JsonValue::Null => Ok(None),
            JsonValue::Array(a) => match decode_entries(a) {
                Some(v) => Ok(Some(TableIndex::Multi(v))),
                None => Err(DecodeError::InvalidField(key)),
            },
            j => match decode_entry(j) {
                Some(e) => Ok(Some(TableIndex::Single(e))),
                None => Err(DecodeError::InvalidField(key)),
            },
        },
    }
}

pub fn decode_table_ref(f: &Vec<(String, JsonValue)>) -> (r: Result<TableDataRef, DecodeError>)
    ensures
        match r {
            Ok(t) => table_ref_err(f@) is None && table_ref_ok(f@, t),
            Err(e) => table_ref_err(f@) == Some(e),
        },
{
    let table = req_str(f, "table")?;
    let column = decode_opt_index(f, "column")?;
    let index = decode_opt_index(f, "index")?;
    Ok(TableDataRef { table, column, index })
}

pub fn decode_opt_table_ref(f: &Vec<(String, JsonValue)>) -> (r: Result<Option<TableDataRef>, DecodeError>)
    ensures
        match r {
            Ok(t) => opt_table_ref_ok(f@, t),
            Err(e) => opt_table_ref_err(f@) == Some(e),
        },
{
    proof { lemma_member_at(f@, "table"@); }
    match find_member(f, "table") {
        None => Ok(None),
        Some(i) => match &f[i].1 {
            JsonValue::Null => Ok(None),
            _ => Ok(Some(decode_table_ref(f)?)),
        },
    }
}

pub fn decode_opt_external(f: &Vec<(String, JsonValue)>) -> (r: Result<Option<ExternalDataRef>, DecodeError>)
    ensures
        match r {
            Ok(x) => opt_external_ok(f@, x),
            Err(e) => opt_external_err(f@) == Some(e),
        },
{
    proof { lemma_member_at(f@, "url"@); }
    match find_member(f, "url") {
        None => Ok(None),
        Some(i) => match &f[i].1 {
            JsonValue::Null => Ok(None),
            JsonValue::Str(u) => {
                let column = decode_opt_index(f, "column")?;
                let index = decode_opt_index(f, "index")?;
                Ok(Some(ExternalDataRef { url: u.clone(), column, index }))
            },
            _ => Err(DecodeError::InvalidField("url")),
        },
    }
}

pub fn decode_opt_numbers(f: &Vec<(String, JsonValue)>, key: &'static str) -> (r: Result<Option<Vec<String>>, DecodeError>)
    ensures
        match r {
            Ok(x) => opt_numbers_ok(f@, key, x),
            Err(e) => opt_numbers_err(f@, key) == Some(e),
        },
{
    proof { lemma_member_at(f@, key@); }
    match find_member(f, key) {
        None => Ok(None),
        Some(i) => match &f[i].1 {
            JsonValue::Null => Ok(None),
            JsonValue::Array(a) => match decode_numbers(a) {
                Some(v) => Ok(Some(v)),
                None => Err(DecodeError::InvalidField(key)),
            },
            _ => Err(DecodeError::InvalidField(key)),
        },
    }
}

/// Decodes a parameter value; `key` names the member it stands in, for errors.
pub fn decode_value(j: &JsonValue, key: &'static str) -> (r: Result<ParameterValue, DecodeError>)
    ensures
        match r {
            Ok(v) => value_err(*j, key) is None && value_ok(*j, v),
            Err(e) => value_err(*j, key) == Some(e),
        },
    decreases *j, 0int,
{
    match j {
        JsonValue::Number(s) => Ok(ParameterValue::Constant(s.clone())),
        JsonValue::Str(s) => Ok(ParameterValue::Reference(s.clone())),
        JsonValue::Object(f) => {
            if find_member(f, "type").is_some() {
                let p = decode_parameter_fields(f, &None)?;
                Ok(ParameterValue::Inline(Box::new(p)))
            } else {
                Ok(ParameterValue::Table(decode_table_ref(f)?))
            }
        },
        _ => Err(DecodeError::InvalidField(key)),
    }
}

pub fn decode_values(a: &Vec<JsonValue>, key: &'static str) -> (r: Result<Vec<ParameterValue>, DecodeError>)
    ensures
        match r {
            Ok(v) => values_err(a@, key) is None && values_ok(a@, v@),
            Err(e) => values_err(a@, key) == Some(e),
        },
    decreases a@, 0int,
{
    let mut out: Vec<ParameterValue> = Vec::new();
    let mut k: usize = 0;
    while k < a.len()
        invariant
            k <= a@.len(),
            out@.len() == k,
            forall|m: int| 0 <= m < k ==> value_err(#[trigger] a@[m], key) is None,
            forall|m: int| 0 <= m < k ==> value_ok(#[trigger] a@[m], out@[m]),
        decreases a.len() - k,
    {
        match decode_value(&a[k], key) {
            Ok(v) => out.push(v),
            Err(e) => {
                proof {
                    lemma_values_err_skip(a@, key, k as int);
                    assert(a@.subrange(k as int, a@.len() as int)[0] == a@[k as int]);
                }
                return Err(e);
            },
        }
        k = k + 1;
    }
    proof {
        lemma_values_err_skip(a@, key, a@.len() as int);
    }
    Ok(out)
}

pub fn decode_value_member(f: &Vec<(String, JsonValue)>, key: &'static str) -> (r: Result<ParameterValue, DecodeError>)
    ensures
        match r {
            Ok(v) => value_member_err(f@, key) is None && value_member_ok(f@, key, v),
            Err(e) => value_member_err(f@, key) == Some(e),
        },
    decreases f@, 1int,
{
    match find_member(f, key) {
        None => Err(DecodeError::MissingField(key)),
        Some(i) => decode_value(&f[i].1, key),
    }
}

pub fn decode_values_member(f: &Vec<(String, JsonValue)>, key: &'static str) -> (r: Result<Vec<ParameterValue>, DecodeError>)
    ensures
        match r {
            Ok(v) => values_member_err(f@, key) is None && values_member_ok(f@, key, v@),
            Err(e) => values_member_err(f@, key) == Some(e),
        },
    decreases f@, 1int,
{
    match find_member(f, key) {
        None => Err(DecodeError::MissingField(key)),
        Some(i) => match &f[i].1 {
            JsonValue::Array(a) => decode_values(a, key),
            _ => Err(DecodeError::InvalidField(key)),
        },
    }
}

pub fn decode_opt_value_member(f: &Vec<(String, JsonValue)>, key: &'static str) -> (r: Result<Option<ParameterValue>, DecodeError>)
    ensures
        match r {
            Ok(v) => opt_value_member_err(f@, key) is None && opt_value_member_ok(f@, key, v),
            Err(e) => opt_value_member_err(f@, key) == Some(e),
        },
    decreases f@, 1int,
{
    match find_member(f, key) {
        None => Ok(None),
        Some(i) => match &f[i].1 {
            JsonValue::Null => Ok(None),
            j => Ok(Some(decode_value(j, key)?)),
        },
    }
}

pub fn decode_opt_values_member(f: &Vec<(String, JsonValue)>, key: &'static str) -> (r: Result<Option<Vec<ParameterValue>>, DecodeError>)
    ensures
        match r {
            Ok(v) => opt_values_member_err(f@, key) is None && opt_values_member_ok(f@, key, v),
            Err(e) => opt_values_member_err(f@, key) == Some(e),
        },
    decreases f@, 1int,
{
    match find_member(f, key) {
        None => Ok(None),
        Some(i) => match &f[i].1 {
            JsonValue::Null => Ok(None),
            JsonValue::Array(a) => Ok(Some(decode_values(a, key)?)),
            _ => Err(DecodeError::InvalidField(key)),
        },
    }
}

fn decode_pairs(a: &Vec<JsonValue>) -> (r: Option<Vec<(String, String)>>)
    ensures
        match r {
            Some(v) => v@.len() == a@.len() && forall|m: int| 0 <= m < a@.len() ==> pair_ok(#[trigger] a@[m], v@[m]),
            None => !(forall|m: int| 0 <= m < a@.len() ==> is_pair(#[trigger] a@[m])),
        },
{
    let mut out: Vec<(String, String)> = Vec::new();
    let mut k: usize = 0;
    while k < a.len()
        invariant
            k <= a@.len(),
            out@.len() == k,
            forall|m: int| 0 <= m < k ==> pair_ok(#[trigger] a@[m], out@[m]),
        decreases a.len() - k,
    {
        let pair = match &a[k] {
            JsonValue::Array(p) => {
                if p.len() != 2 {
                    None
                } else {
                    match (&p[0], &p[1]) {
                        (JsonValue::Number(x), JsonValue::Number(y)) => Some((x.clone(), y.clone())),
                        _ => None,
                    }
                }
            },
            _ => None,
        };
        match pair {
            Some(p) => out.push(p),
            None => {
                assert(!is_pair(a@[k as int]));
                return None;
            },
        }
        k = k + 1;
    }
    Some(out)
}

pub fn decode_opt_pairs(f: &Vec<(String, JsonValue)>, key: &'static str) -> (r: Result<Option<Vec<(String, String)>>, DecodeError>)
    ensures
        match r {
            Ok(x) => opt_pairs_ok(f@, key, x),
            Err(e) => opt_pairs_err(f@, key) == Some(e),
        },
{
    proof { lemma_member_at(f@, key@); }
    match find_member(f, key) {
        None => Ok(None),
        Some(i) => match &f[i].1 {
            JsonValue::Null => Ok(None),
            JsonValue::Array(a) => match decode_pairs(a) {
                Some(v) => Ok(Some(v)),
                None => Err(DecodeError::InvalidField(key)),
            },
            _ => Err(DecodeError::InvalidField(key)),
        },
    }
}

/// Decodes the members `f` as a parameter of kind `k`.
pub fn decode_core(k: ParameterKind, f: &Vec<(String, JsonValue)>, name: &Option<String>) -> (r: Result<CoreParameter, DecodeError>)
    ensures
        match r {
            Ok(c) => core_ok(k, f@, *name, c),
            Err(e) => core_err(k, f@, *name) == Some(e),
        },
    decreases f@, 2int,
{
    let meta = decode_meta(f, name)?;
    match k {
        ParameterKind::Aggregated => {
            let agg_func = decode_agg_func(f)?;
            let parameters = decode_values_member(f, "parameters")?;
            Ok(CoreParameter::Aggregated(AggregatedParameter { meta, agg_func, parameters }))
        },
        ParameterKind::Constant => {
            let value = opt_num(f, "value")?;
            let external = decode_opt_external(f)?;
            let table = decode_opt_table_ref(f)?;
            Ok(CoreParameter::Constant(ConstantParameter { meta, value, external, table }))
        },
        ParameterKind::ControlCurvePiecewiseInterpolated => {
            let control_curve = decode_opt_value_member(f, "control_curve")?;
            let control_curves = decode_opt_values_member(f, "control_curves")?;
            let storage_node = req_str(f, "storage_node")?;
            let values = decode_opt_pairs(f, "values")?;
            let parameters = decode_opt_values_member(f, "parameters")?;
            let minimum = opt_num(f, "minimum")?;
            Ok(CoreParameter::ControlCurvePiecewiseInterpolated(ControlCurvePiecewiseInterpolatedParameter {
                meta,
                control_curve,
                control_curves,
                storage_node,
                values,
                parameters,
                minimum,
            }))
        },
        ParameterKind::DailyProfile => {
            let values = decode_opt_numbers(f, "values")?;
            let external = decode_opt_external(f)?;
            let table_ref = decode_opt_table_ref(f)?;
            Ok(CoreParameter::DailyProfile(DailyProfileParameter { meta, values, external, table_ref }))
        },
        ParameterKind::DataFrame => {
            let url = opt_str(f, "url")?;
            let table = opt_str(f, "table")?;
            let column = opt_str(f, "column")?;
            let index = opt_str(f, "index")?;
            let scenario = opt_str(f, "scenario")?;
            Ok(CoreParameter::DataFrame(DataFrameParameter { meta, url, table, column, index, scenario }))
        },
        ParameterKind::Deficit => {
            let node = req_str(f, "node")?;
            Ok(CoreParameter::Deficit(DeficitParameter { meta, node }))
        },
        ParameterKind::Flow => {
            let node = req_str(f, "node")?;
            Ok(CoreParameter::Flow(FlowParameter { meta, node }))
        },
        ParameterKind::IndexedArray => {
            let parameters = decode_values_member(f, "parameters")?;
            let index_parameter = decode_value_member(f, "index_parameter")?;
            Ok(CoreParameter::IndexedArray(IndexedArrayParameter { meta, parameters, index_parameter }))
        },
        ParameterKind::Max => {
            let parameter = decode_value_member(f, "parameter")?;
            let threshold = opt_num(f, "threshold")?;
            Ok(CoreParameter::Max(MaxParameter { meta, parameter, threshold }))
        },
        ParameterKind::Negative => {
            let parameter = decode_value_member(f, "parameter")?;
            Ok(CoreParameter::Negative(NegativeParameter { meta, parameter }))
        },
        ParameterKind::Storage => {
            let storage_node = req_str(f, "storage_node")?;
            Ok(CoreParameter::Storage(StorageParameter { meta, storage_node }))
        },
        ParameterKind::TablesArray => {
            let node = req_str(f, "node")?;
            let wh = req_str(f, "where")?;
            let scenario = opt_str(f, "scenario")?;
            let url = req_str(f, "url")?;
            Ok(CoreParameter::TablesArray(TablesArrayParameter { meta, node, wh, scenario, url }))
        },
        ParameterKind::AggregatedIndex => {
            let agg_func = decode_index_agg_func(f)?;
            let parameters = decode_values_member(f, "parameters")?;
            Ok(CoreParameter::AggregatedIndex(AggregatedIndexParameter { meta, agg_func, parameters }))
        },
        ParameterKind::Min => {
            let parameter = decode_value_member(f, "parameter")?;
            let threshold = opt_num(f, "threshold")?;
            Ok(CoreParameter::Min(MinParameter { meta, parameter, threshold }))
        },
        ParameterKind::MonthlyProfile => {
            let interp_day = decode_interp_day(f)?;
            let values = decode_opt_numbers(f, "values")?;
            match &values {
                Some(v) => if v.len() != 12 {
                    return Err(DecodeError::InvalidField("values"));
                },
                None => {},
            }
            let external = decode_opt_external(f)?;
            let table_ref = decode_opt_table_ref(f)?;
            Ok(CoreParameter::MonthlyProfile(MonthlyProfileParameter { meta, interp_day, values, external, table_ref }))
        },
        ParameterKind::ParameterThreshold => {
            let parameter = decode_value_member(f, "parameter")?;
            let threshold = decode_value_member(f, "threshold")?;
            let values = decode_opt_numbers(f, "values")?;
            let predicate = decode_predicate(f)?;
            Ok(CoreParameter::ParameterThreshold(ParameterThresholdParameter { meta, parameter, threshold, values, predicate }))
        },
        ParameterKind::NodeThreshold => {
            let node = req_str(f, "node")?;
            let threshold = decode_value_member(f, "threshold")?;
            let values = decode_opt_numbers(f, "values")?;
            let predicate = decode_predicate(f)?;
            Ok(CoreParameter::NodeThreshold(NodeThresholdParameter { meta, node, threshold, values, predicate }))
        },
        ParameterKind::StorageThreshold => {
            let storage_node = req_str(f, "storage_node")?;
            let threshold = decode_value_member(f, "threshold")?;
            let values = decode_opt_numbers(f, "values")?;
            let predicate = decode_predicate(f)?;
            Ok(CoreParameter::StorageThreshold(StorageThresholdParameter {
                meta,
                storage_node,
                threshold,
                values,
                predicate,
            }))
        },
        ParameterKind::MultipleThresholdIndex => {
            let node = req_str(f, "node")?;
            let thresholds = decode_values_member(f, "thresholds")?;
            Ok(CoreParameter::MultipleThresholdIndex(MultipleThresholdIndexParameter { meta, node, thresholds }))
        },
        ParameterKind::MultipleThresholdParameterIndex => {
            let parameter = decode_value_member(f, "parameter")?;
            let thresholds = decode_values_member(f, "thresholds")?;
            Ok(CoreParameter::MultipleThresholdParameterIndex(MultipleThresholdParameterIndexParameter {
                meta,
                parameter,
                thresholds,
            }))
        },
        ParameterKind::CurrentYearThreshold => {
            let threshold = decode_value_member(f, "threshold")?;
            let values = decode_opt_numbers(f, "values")?;
            let predicate = decode_predicate(f)?;
            Ok(CoreParameter::CurrentYearThreshold(CurrentYearThresholdParameter { meta, threshold, values, predicate }))
        },
        ParameterKind::CurrentOrdinalDayThreshold => {
            let threshold = decode_value_member(f, "threshold")?;
            let values = decode_opt_numbers(f, "values")?;
            let predicate = decode_predicate(f)?;
            Ok(CoreParameter::CurrentOrdinalDayThreshold(CurrentOrdinalDayThresholdParameter {
                meta,
                threshold,
                values,
                predicate,
            }))
        },
        ParameterKind::UniformDrawdownProfile => {
            let reset_day = opt_num(f, "reset_day")?;
            let reset_month = opt_num(f, "reset_month")?;
            let residual_days = opt_num(f, "residual_days")?;
            Ok(CoreParameter::UniformDrawdownProfile(UniformDrawdownProfileParameter {
                meta,
                reset_day,
                reset_month,
                residual_days,
            }))
        },
    }
}

/// A deep copy of a JSON value.
pub fn copy_json(j: &JsonValue) -> (r: JsonValue)
    ensures
        json_alike(*j, r),
    decreases *j,
{
    match j {
        JsonValue::Null => JsonValue::Null,
        JsonValue::Bool(b) => JsonValue::Bool(*b),
        JsonValue::Number(s) => JsonValue::Number(s.clone()),
        JsonValue::Str(s) => JsonValue::Str(s.clone()),
        JsonValue::Array(a) => JsonValue::Array(copy_array(a)),
        JsonValue::Object(f) => JsonValue::Object(copy_members(f)),
    }
}

/// A deep copy of the items of an array.
pub fn copy_array(a: &Vec<JsonValue>) -> (r: Vec<JsonValue>)
    ensures
        r@.len() == a@.len(),
        forall|m: int| 0 <= m < a@.len() ==> json_alike(#[trigger] a@[m], r@[m]),
    decreases a@,
{
    let mut out: Vec<JsonValue> = Vec::new();
    let mut k: usize = 0;
    while k < a.len()
        invariant
            k <= a@.len(),
            out@.len() == k,
            forall|m: int| 0 <= m < k ==> json_alike(#[trigger] a@[m], out@[m]),
        decreases a.len() - k,
    {
        out.push(copy_json(&a[k]));
        k = k + 1;
    }
    out
}

/// A deep copy of the members of an object.
pub fn copy_members(f: &Vec<(String, JsonValue)>) -> (r: Vec<(String, JsonValue)>)
    ensures
        members_alike(f@, r@),
    decreases f@,
{
    let mut out: Vec<(String, JsonValue)> = Vec::new();
    let mut k: usize = 0;
    while k < f.len()
        invariant
            k <= f@.len(),
            out@.len() == k,
            forall|m: int| 0 <= m < k ==> (#[trigger] f@[m]).0 == out@[m].0 && json_alike(f@[m].1, out@[m].1),
        decreases f.len() - k,
    {
        let v = copy_json(&f[k].1);
        out.push((f[k].0.clone(), v));
        k = k + 1;
    }
    out
}

fn is_identity(k: &str, keep_name: bool) -> (r: bool)
    ensures
        r == is_identity_key(k@, keep_name),
{
    str_eq(k, "type") || str_eq(k, "comment") || (!keep_name && str_eq(k, "name"))
}

/// Copies the members that a custom entity keeps as attributes, in order.
pub fn attributes(f: &Vec<(String, JsonValue)>, keep_name: bool) -> (r: Vec<(String, JsonValue)>)
    ensures
        members_alike(attributes_of(f@, keep_name), r@),
{
    let mut out: Vec<(String, JsonValue)> = Vec::new();
    let mut k: usize = 0;
    while k < f.len()
        invariant
            k <= f@.len(),
            members_alike(attributes_of(f@.subrange(0, k as int), keep_name), out@),
        decreases f.len() - k,
    {
        let ghost pre = f@.subrange(0, k as int);
        let ghost next = f@.subrange(0, k + 1);
        assert(next.drop_last() =~= pre);
        assert(next.last() == f@[k as int]);
        if !is_identity(f[k].0.as_str(), keep_name) {
            let v = copy_json(&f[k].1);
            out.push((f[k].0.clone(), v));
            assert(attributes_of(next, keep_name) == attributes_of(pre, keep_name).push(f@[k as int]));
        }
        k = k + 1;
    }
    assert(f@.subrange(0, f@.len() as int) =~= f@);
    out
}

/// Decodes the members `f` of an object as a parameter; `name`, where given,
/// stands for the `name` member.
pub fn decode_parameter_fields(f: &Vec<(String, JsonValue)>, name: &Option<String>) -> (r: Result<Parameter, DecodeError>)
    ensures
        match r {
            Ok(p) => parameter_err(f@, *name) is None && parameter_ok(f@, *name, p),
            Err(e) => parameter_err(f@, *name) == Some(e),
        },
    decreases f@, 4int,
{
    proof { lemma_member_at(f@, "type"@); }
    let ty = req_str(f, "type")?;
    match parameter_kind(ty.as_str()) {
        Some(k) => match decode_core(k, f, name) {
            Ok(c) => return Ok(Parameter::Core(c)),
            Err(_) => {},
        },
        None => {},
    }
    let meta = decode_meta(f, name)?;
    let attributes = attributes(f, name.is_some());
    Ok(Parameter::Custom(CustomParameter { ty, meta, attributes }))
}

impl Parameter {
    /// Decodes a parameter from a JSON object.
    pub fn from_json(j: &JsonValue) -> (r: Result<Parameter, DecodeError>)
        ensures
            match *j {
                JsonValue::Object(f) => match r {
                    Ok(p) => parameter_err(f@, None) is None && parameter_ok(f@, None, p),
                    Err(e) => parameter_err(f@, None) == Some(e),
                },
                _ => r == Err::<Parameter, DecodeError>(DecodeError::NotAnObject),
            },
    {
        match j {
            JsonValue::Object(f) => decode_parameter_fields(f, &None),
            _ => Err(DecodeError::NotAnObject),
        }
    }
}

/// Fallback totality: members whose `type` names no built-in kind never fail
/// to decode, as long as `name` and `comment` are strings where present; they
/// give a custom parameter that keeps the tag as written and every other member.
pub proof fn lemma_fallback_total(f: Seq<(String, JsonValue)>, name: Option<String>, p: Parameter)
    requires
        member(f, "type"@) is Some,
        member(f, "type"@)->Some_0 is Str,
        parameter_kind_of_tag(member(f, "type"@)->Some_0->Str_0@) is None,
        meta_spec(f, name) is Ok,
    ensures
        parameter_err(f, name) is None,
        parameter_ok(f, name, p) ==> p is Custom && p->Custom_0.ty == member(f, "type"@)->Some_0->Str_0
            && members_alike(attributes_of(f, name is Some), p->Custom_0.attributes@),
{
}

/// Likeness of JSON values holds both ways.
pub proof fn lemma_json_alike_symmetric(a: JsonValue, b: JsonValue)
    requires
        json_alike(a, b),
    ensures
        json_alike(b, a),
    decreases a,
{
    match a {
        JsonValue::Array(x) => {
            let y = b->Array_0;
            assert forall|i: int| 0 <= i < y@.len() implies json_alike(#[trigger] y@[i], x@[i]) by {
                lemma_json_alike_symmetric(x@[i], y@[i]);
            }
        },
        JsonValue::Object(x) => {
            let y = b->Object_0;
            assert forall|i: int| 0 <= i < y@.len() implies (#[trigger] y@[i]).0 == x@[i].0 && json_alike(y@[i].1, x@[i].1) by {
                lemma_json_alike_symmetric(x@[i].1, y@[i].1);
            }
        },
        _ => {},
    }
}

} // verus!
