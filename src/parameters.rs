use vstd::prelude::*;
use crate::json::{JsonValue, DecodeError, member, member_index, req_str_spec, opt_str_spec, opt_num_spec};
use crate::tags::{ParameterKind, parameter_kind_of_tag};

verus! {

/// Identity fields shared by every parameter.
pub struct ParameterMeta {
    pub name: Option<String>,
    pub comment: Option<String>,
}

/// A parameter whose type tag names no built-in kind: every member is kept.
pub struct CustomParameter {
    /// The type tag as written in the document.
    pub ty: String,
    pub meta: ParameterMeta,
    /// Every member but `type` and `comment`, in document order; `name` too
    /// where the parameter was defined in place rather than in a named map.
    pub attributes: Vec<(String, JsonValue)>,
}

/// One column or index selector of a table: a name, or a position kept as written.
pub enum TableIndexEntry {
    Name(String),
    Index(String),
}

/// A column or index selector: one entry, or a list of them for multi-index tables.
pub enum TableIndex {
    Single(TableIndexEntry),
    Multi(Vec<TableIndexEntry>),
}

/// A reference to a named table of the document.
pub struct TableDataRef {
    pub table: String,
    pub column: Option<TableIndex>,
    pub index: Option<TableIndex>,
}

/// A reference to a data file outside the document.
pub struct ExternalDataRef {
    pub url: String,
    pub column: Option<TableIndex>,
    pub index: Option<TableIndex>,
}

/// The value of a parameter-valued field.
pub enum ParameterValue {
    /// A number, kept as written.
    Constant(String),
    /// The name of a parameter defined elsewhere.
    Reference(String),
    /// A parameter defined in place, owned by this value.
    Inline(Box<Parameter>),
    /// A lookup into a table.
    Table(TableDataRef),
}

#[derive(Clone, Copy, Debug, PartialEq, Eq, Structural)]
pub enum AggFunc {
    Sum,
    Product,
    Max,
    Min,
}

#[derive(Clone, Copy, Debug, PartialEq, Eq, Structural)]
pub enum IndexAggFunc {
    Sum,
    Product,
    Max,
    Min,
    Any,
    All,
}

#[derive(Clone, Copy, Debug, PartialEq, Eq, Structural)]
pub enum MonthInterpDay {
    First,
    Last,
}

/// How a value is compared with a threshold.
#[derive(Clone, Copy, Debug, PartialEq, Eq, Structural)]
pub enum Predicate {
    LT,
    GT,
    EQ,
    LE,
    GE,
}

pub struct AggregatedIndexParameter {
    pub meta: ParameterMeta,
    pub agg_func: IndexAggFunc,
    pub parameters: Vec<ParameterValue>,
}

pub struct MinParameter {
    pub meta: ParameterMeta,
    pub parameter: ParameterValue,
    pub threshold: Option<String>,
}

pub struct MonthlyProfileParameter {
    pub meta: ParameterMeta,
    pub interp_day: Option<MonthInterpDay>,
    /// Twelve numbers, kept as written.
    pub values: Option<Vec<String>>,
    pub external: Option<ExternalDataRef>,
    pub table_ref: Option<TableDataRef>,
}

pub struct ParameterThresholdParameter {
    pub meta: ParameterMeta,
    pub parameter: ParameterValue,
    pub threshold: ParameterValue,
    pub values: Option<Vec<String>>,
    pub predicate: Predicate,
}

pub struct NodeThresholdParameter {
    pub meta: ParameterMeta,
    pub node: String,
    pub threshold: ParameterValue,
    pub values: Option<Vec<String>>,
    pub predicate: Predicate,
}

pub struct StorageThresholdParameter {
    pub meta: ParameterMeta,
    pub storage_node: String,
    pub threshold: ParameterValue,
    pub values: Option<Vec<String>>,
    pub predicate: Predicate,
}

pub struct MultipleThresholdIndexParameter {
    pub meta: ParameterMeta,
    pub node: String,
    pub thresholds: Vec<ParameterValue>,
}

pub struct MultipleThresholdParameterIndexParameter {
    pub meta: ParameterMeta,
    pub parameter: ParameterValue,
    pub thresholds: Vec<ParameterValue>,
}

pub struct CurrentYearThresholdParameter {
    pub meta: ParameterMeta,
    pub threshold: ParameterValue,
    pub values: Option<Vec<String>>,
    pub predicate: Predicate,
}

pub struct CurrentOrdinalDayThresholdParameter {
    pub meta: ParameterMeta,
    pub threshold: ParameterValue,
    pub values: Option<Vec<String>>,
    pub predicate: Predicate,
}

pub struct AggregatedParameter {
    pub meta: ParameterMeta,
    pub agg_func: AggFunc,
    pub parameters: Vec<ParameterValue>,
}

pub struct ConstantParameter {
    pub meta: ParameterMeta,
    pub value: Option<String>,
    pub external: Option<ExternalDataRef>,
    pub table: Option<TableDataRef>,
}

/// Interpolates between pairs of values over the storage of a node, at control curves.
pub struct ControlCurvePiecewiseInterpolatedParameter {
    pub meta: ParameterMeta,
    pub control_curve: Option<ParameterValue>,
    pub control_curves: Option<Vec<ParameterValue>>,
    pub storage_node: String,
    /// Pairs of numbers, kept as written.
    pub values: Option<Vec<(String, String)>>,
    pub parameters: Option<Vec<ParameterValue>>,
    pub minimum: Option<String>,
}

pub struct DailyProfileParameter {
    pub meta: ParameterMeta,
    pub values: Option<Vec<String>>,
    pub external: Option<ExternalDataRef>,
    pub table_ref: Option<TableDataRef>,
}

pub struct DataFrameParameter {
    pub meta: ParameterMeta,
    pub url: Option<String>,
    pub table: Option<String>,
    pub column: Option<String>,
    pub index: Option<String>,
    pub scenario: Option<String>,
}

pub struct DeficitParameter {
    pub meta: ParameterMeta,
    pub node: String,
}

pub struct FlowParameter {
    pub meta: ParameterMeta,
    pub node: String,
}

pub struct IndexedArrayParameter {
    pub meta: ParameterMeta,
    pub parameters: Vec<ParameterValue>,
    pub index_parameter: ParameterValue,
}

pub struct MaxParameter {
    pub meta: ParameterMeta,
    pub parameter: ParameterValue,
    pub threshold: Option<String>,
}

pub struct NegativeParameter {
    pub meta: ParameterMeta,
    pub parameter: ParameterValue,
}

pub struct StorageParameter {
    pub meta: ParameterMeta,
    pub storage_node: String,
}

pub struct TablesArrayParameter {
    pub meta: ParameterMeta,
    pub node: String,
    pub wh: String,
    pub scenario: Option<String>,
    pub url: String,
}

pub struct UniformDrawdownProfileParameter {
    pub meta: ParameterMeta,
    pub reset_day: Option<String>,
    pub reset_month: Option<String>,
    pub residual_days: Option<String>,
}

/// A parameter of one of the built-in kinds.
pub enum CoreParameter {
    Aggregated(AggregatedParameter),
    Constant(ConstantParameter),
    ControlCurvePiecewiseInterpolated(ControlCurvePiecewiseInterpolatedParameter),
    DailyProfile(DailyProfileParameter),
    DataFrame(DataFrameParameter),
    Deficit(DeficitParameter),
    Flow(FlowParameter),
    IndexedArray(IndexedArrayParameter),
    Max(MaxParameter),
    Negative(NegativeParameter),
    Storage(StorageParameter),
    TablesArray(TablesArrayParameter),
    UniformDrawdownProfile(UniformDrawdownProfileParameter),
    AggregatedIndex(AggregatedIndexParameter),
    Min(MinParameter),
    MonthlyProfile(MonthlyProfileParameter),
    ParameterThreshold(ParameterThresholdParameter),
    NodeThreshold(NodeThresholdParameter),
    StorageThreshold(StorageThresholdParameter),
    MultipleThresholdIndex(MultipleThresholdIndexParameter),
    MultipleThresholdParameterIndex(MultipleThresholdParameterIndexParameter),
    CurrentYearThreshold(CurrentYearThresholdParameter),
    CurrentOrdinalDayThreshold(CurrentOrdinalDayThresholdParameter),
}

pub enum Parameter {
    Core(CoreParameter),
    Custom(CustomParameter),
}

// ----- decoding: what each decoder gives, as spec functions -----

/// The first error of two steps.
pub open spec fn first_err(a: Option<DecodeError>, b: Option<DecodeError>) -> Option<DecodeError> {
    if a is Some { a } else { b }
}

pub open spec fn err_of<T>(r: Result<T, DecodeError>) -> Option<DecodeError> {
    match r {
        Ok(_) => None,
        Err(e) => Some(e),
    }
}

/// Identity fields: `name` comes from `name` where given, else from the member.
pub open spec fn meta_spec(f: Seq<(String, JsonValue)>, name: Option<String>) -> Result<ParameterMeta, DecodeError> {
    let n = match name {
        Some(s) => Ok(Some(s)),
        None => opt_str_spec(f, "name"),
    };
    match n {
        Err(e) => Err(e),
        Ok(n) => match opt_str_spec(f, "comment") {
            Err(e) => Err(e),
            Ok(c) => Ok(ParameterMeta { name: n, comment: c }),
        },
    }
}

pub open spec fn agg_func_spec(f: Seq<(String, JsonValue)>) -> Result<AggFunc, DecodeError> {
    match member(f, "agg_func"@) {
        None => Err(DecodeError::MissingField("agg_func")),
        Some(JsonValue::Str(s)) => if s@ == "sum"@ {
            Ok(AggFunc::Sum)
        } else if s@ == "product"@ {
            Ok(AggFunc::Product)
        } else if s@ == "max"@ {
            Ok(AggFunc::Max)
        } else if s@ == "min"@ {
            Ok(AggFunc::Min)
        } else {
            Err(DecodeError::InvalidField("agg_func"))
        },
        Some(_) => Err(DecodeError::InvalidField("agg_func")),
    }
}

pub open spec fn index_agg_func_spec(f: Seq<(String, JsonValue)>) -> Result<IndexAggFunc, DecodeError> {
    match member(f, "agg_func"@) {
        None => Err(DecodeError::MissingField("agg_func")),
        Some(JsonValue::Str(s)) => if s@ == "sum"@ {
            Ok(IndexAggFunc::Sum)
        } else if s@ == "product"@ {
            Ok(IndexAggFunc::Product)
        } else if s@ == "max"@ {
            Ok(IndexAggFunc::Max)
        } else if s@ == "min"@ {
            Ok(IndexAggFunc::Min)
        } else if s@ == "any"@ {
            Ok(IndexAggFunc::Any)
        } else if s@ == "all"@ {
            Ok(IndexAggFunc::All)
        } else {
            Err(DecodeError::InvalidField("agg_func"))
        },
        Some(_) => Err(DecodeError::InvalidField("agg_func")),
    }
}

/// The day of the month that monthly values stand for: absent or null gives `None`.
pub open spec fn interp_day_spec(f: Seq<(String, JsonValue)>) -> Result<Option<MonthInterpDay>, DecodeError> {
    match member(f, "interp_day"@) {
        None => Ok(None),
        Some(JsonValue::Null) => Ok(None),
        Some(JsonValue::Str(s)) => if s@ == "first"@ {
            Ok(Some(MonthInterpDay::First))
        } else if s@ == "last"@ {
            Ok(Some(MonthInterpDay::Last))
        } else {
            Err(DecodeError::InvalidField("interp_day"))
        },
        Some(_) => Err(DecodeError::InvalidField("interp_day")),
    }
}

/// The comparison of a threshold parameter: by name or by symbol; "less than" where absent.
pub open spec fn predicate_spec(f: Seq<(String, JsonValue)>) -> Result<Predicate, DecodeError> {
    match member(f, "predicate"@) {
        None => Ok(Predicate::LT),
        Some(JsonValue::Str(s)) => if s@ == "LT"@ || s@ == "<"@ {
            Ok(Predicate::LT)
        } else if s@ == "GT"@ || s@ == ">"@ {
            Ok(Predicate::GT)
        } else if s@ == "EQ"@ || s@ == "=="@ {
            Ok(Predicate::EQ)
        } else if s@ == "LE"@ || s@ == "<="@ {
            Ok(Predicate::LE)
        } else if s@ == "GE"@ || s@ == ">="@ {
            Ok(Predicate::GE)
        } else {
            Err(DecodeError::InvalidField("predicate"))
        },
        Some(_) => Err(DecodeError::InvalidField("predicate")),
    }
}

/// Monthly values are twelve.
pub open spec fn month_count_err(f: Seq<(String, JsonValue)>) -> Option<DecodeError> {
    match member(f, "values"@) {
        Some(JsonValue::Array(a)) => if a@.len() == 12 { None } else { Some(DecodeError::InvalidField("values")) },
        _ => None,
    }
}

/// A single table selector entry: a string or a number.
pub open spec fn entry_ok(j: JsonValue, e: TableIndexEntry) -> bool {
    match j {
        JsonValue::Str(s) => e == TableIndexEntry::Name(s),
        JsonValue::Number(s) => e == TableIndexEntry::Index(s),
        _ => false,
    }
}

pub open spec fn is_entry(j: JsonValue) -> bool {
    j is Str || j is Number
}

/// An optional selector member: absent or null gives `None`.
pub open spec fn opt_index_err(f: Seq<(String, JsonValue)>, key: &'static str) -> Option<DecodeError> {
    match member(f, key@) {
        None => None,
        Some(JsonValue::Null) => None,
        Some(JsonValue::Str(_)) => None,
        Some(JsonValue::Number(_)) => None,
        Some(JsonValue::Array(a)) => if forall|i: int| 0 <= i < a@.len() ==> is_entry(#[trigger] a@[i]) {
            None
        } else {
            Some(DecodeError::InvalidField(key))
        },
        Some(_) => Some(DecodeError::InvalidField(key)),
    }
}

pub open spec fn opt_index_ok(f: Seq<(String, JsonValue)>, key: &'static str, r: Option<TableIndex>) -> bool {
    opt_index_err(f, key) is None && match member(f, key@) {
        None => r is None,
        Some(JsonValue::Null) => r is None,
        Some(JsonValue::Array(a)) => match r {
            Some(TableIndex::Multi(v)) => v@.len() == a@.len() && forall|i: int|
                0 <= i < a@.len() ==> entry_ok(#[trigger] a@[i], v@[i]),
            _ => false,
        },
        Some(j) => match r {
            Some(TableIndex::Single(e)) => entry_ok(j, e),
            _ => false,
        },
    }
}

/// A table reference held in the members `table`, `column` and `index`.
pub open spec fn table_ref_err(f: Seq<(String, JsonValue)>) -> Option<DecodeError> {
    first_err(err_of(req_str_spec(f, "table")), first_err(opt_index_err(f, "column"), opt_index_err(f, "index")))
}

pub open spec fn table_ref_ok(f: Seq<(String, JsonValue)>, t: TableDataRef) -> bool {
    req_str_spec(f, "table") == Ok::<String, DecodeError>(t.table) && opt_index_ok(f, "column", t.column)
        && opt_index_ok(f, "index", t.index)
}

/// An optional table reference: present where the member `table` is.
pub open spec fn opt_table_ref_err(f: Seq<(String, JsonValue)>) -> Option<DecodeError> {
    match member(f, "table"@) {
        None => None,
        Some(JsonValue::Null) => None,
        Some(_) => table_ref_err(f),
    }
}

pub open spec fn opt_table_ref_ok(f: Seq<(String, JsonValue)>, t: Option<TableDataRef>) -> bool {
    opt_table_ref_err(f) is None && match member(f, "table"@) {
        None => t is None,
        Some(JsonValue::Null) => t is None,
        Some(_) => t is Some && table_ref_ok(f, t->Some_0),
    }
}

/// An optional reference to an outside file: present where the member `url` is.
pub open spec fn opt_external_err(f: Seq<(String, JsonValue)>) -> Option<DecodeError> {
    match member(f, "url"@) {
        None => None,
        Some(JsonValue::Null) => None,
        Some(JsonValue::Str(_)) => first_err(opt_index_err(f, "column"), opt_index_err(f, "index")),
        Some(_) => Some(DecodeError::InvalidField("url")),
    }
}

pub open spec fn opt_external_ok(f: Seq<(String, JsonValue)>, x: Option<ExternalDataRef>) -> bool {
    opt_external_err(f) is None && match member(f, "url"@) {
        Some(JsonValue::Str(u)) => match x {
            Some(e) => e.url == u && opt_index_ok(f, "column", e.column) && opt_index_ok(f, "index", e.index),
            None => false,
        },
        _ => x is None,
    }
}

/// An optional list of numbers.
pub open spec fn opt_numbers_err(f: Seq<(String, JsonValue)>, key: &'static str) -> Option<DecodeError> {
    match member(f, key@) {
        None => None,
        Some(JsonValue::Null) => None,
        Some(JsonValue::Array(a)) => if forall|i: int| 0 <= i < a@.len() ==> (#[trigger] a@[i]) is Number {
            None
        } else {
            Some(DecodeError::InvalidField(key))
        },
        Some(_) => Some(DecodeError::InvalidField(key)),
    }
}

pub open spec fn opt_numbers_ok(f: Seq<(String, JsonValue)>, key: &'static str, r: Option<Vec<String>>) -> bool {
    opt_numbers_err(f, key) is None && match member(f, key@) {
        Some(JsonValue::Array(a)) => match r {
            Some(v) => v@.len() == a@.len() && forall|i: int|
                0 <= i < a@.len() ==> (#[trigger] a@[i]) == JsonValue::Number(v@[i]),
            None => false,
        },
        _ => r is None,
    }
}

/// What a parameter value decodes to: a number is a constant, a string a
/// reference, an object with a `type` member an inline parameter, another
/// object a table reference.
pub open spec fn value_err(j: JsonValue, key: &'static str) -> Option<DecodeError>
    decreases j, 0int,
{
    match j {
        JsonValue::Number(_) => None,
        JsonValue::Str(_) => None,
        JsonValue::Object(f) => if member_index(f@, "type"@) is Some {
            parameter_err(f@, None)
        } else {
            table_ref_err(f@)
        },
        _ => Some(DecodeError::InvalidField(key)),
    }
}

pub open spec fn value_ok(j: JsonValue, v: ParameterValue) -> bool
    decreases j, 0int,
{
    match j {
        JsonValue::Number(s) => v == ParameterValue::Constant(s),
        JsonValue::Str(s) => v == ParameterValue::Reference(s),
        JsonValue::Object(f) => if member_index(f@, "type"@) is Some {
            v is Inline && parameter_ok(f@, None, *v->Inline_0)
        } else {
            v is Table && table_ref_err(f@) is None && table_ref_ok(f@, v->Table_0)
        },
        _ => false,
    }
}

/// The first error among the values of a list.
pub open spec fn values_err(a: Seq<JsonValue>, key: &'static str) -> Option<DecodeError>
    decreases a, 0int,
{
    if a.len() == 0 {
        None
    } else {
        first_err(value_err(a[0], key), values_err(a.drop_first(), key))
    }
}

pub open spec fn values_ok(a: Seq<JsonValue>, s: Seq<ParameterValue>) -> bool
    decreases a, 0int,
{
    a.len() == s.len() && forall|i: int| 0 <= i < a.len() ==> value_ok(#[trigger] a[i], s[i])
}

/// A required parameter-valued member.
pub open spec fn value_member_err(f: Seq<(String, JsonValue)>, key: &'static str) -> Option<DecodeError>
    decreases f, 1int,
{
    match member_index(f, key@) {
        None => Some(DecodeError::MissingField(key)),
        Some(i) => if 0 <= i < f.len() {
            value_err(f[i].1, key)
        } else {
            None
        },
    }
}

pub open spec fn value_member_ok(f: Seq<(String, JsonValue)>, key: &'static str, v: ParameterValue) -> bool
    decreases f, 1int,
{
    match member_index(f, key@) {
        None => false,
        Some(i) => 0 <= i < f.len() && value_err(f[i].1, key) is None && value_ok(f[i].1, v),
    }
}

/// A required member that holds a list of parameter values.
pub open spec fn values_member_err(f: Seq<(String, JsonValue)>, key: &'static str) -> Option<DecodeError>
    decreases f, 1int,
{
    match member_index(f, key@) {
        None => Some(DecodeError::MissingField(key)),
        Some(i) => if 0 <= i < f.len() {
            match f[i].1 {
                JsonValue::Array(a) => values_err(a@, key),
                _ => Some(DecodeError::InvalidField(key)),
            }
        } else {
            None
        },
    }
}

pub open spec fn values_member_ok(f: Seq<(String, JsonValue)>, key: &'static str, s: Seq<ParameterValue>) -> bool
    decreases f, 1int,
{
    match member_index(f, key@) {
        None => false,
        Some(i) => 0 <= i < f.len() && match f[i].1 {
            JsonValue::Array(a) => values_err(a@, key) is None && values_ok(a@, s),
            _ => false,
        },
    }
}

/// An optional parameter-valued member: absent or null gives `None`.
pub open spec fn opt_value_member_err(f: Seq<(String, JsonValue)>, key: &'static str) -> Option<DecodeError>
    decreases f, 1int,
{
    match member_index(f, key@) {
        None => None,
        Some(i) => if 0 <= i < f.len() {
            match f[i].1 {
                JsonValue::Null => None,
                j => value_err(j, key),
            }
        } else {
            None
        },
    }
}

pub open spec fn opt_value_member_ok(f: Seq<(String, JsonValue)>, key: &'static str, v: Option<ParameterValue>) -> bool
    decreases f, 1int,
{
    match member_index(f, key@) {
        None => v is None,
        Some(i) => 0 <= i < f.len() && match f[i].1 {
            JsonValue::Null => v is None,
            j => v is Some && value_err(j, key) is None && value_ok(j, v->Some_0),
        },
    }
}

/// An optional member holding a list of parameter values.
pub open spec fn opt_values_member_err(f: Seq<(String, JsonValue)>, key: &'static str) -> Option<DecodeError>
    decreases f, 1int,
{
    match member_index(f, key@) {
        None => None,
        Some(i) => if 0 <= i < f.len() {
            match f[i].1 {
                JsonValue::Null => None,
                JsonValue::Array(a) => values_err(a@, key),
                _ => Some(DecodeError::InvalidField(key)),
            }
        } else {
            None
        },
    }
}

pub open spec fn opt_values_member_ok(f: Seq<(String, JsonValue)>, key: &'static str, v: Option<Vec<ParameterValue>>) -> bool
    decreases f, 1int,
{
    match member_index(f, key@) {
        None => v is None,
        Some(i) => 0 <= i < f.len() && match f[i].1 {
            JsonValue::Null => v is None,
            JsonValue::Array(a) => v is Some && values_err(a@, key) is None && values_ok(a@, v->Some_0@),
            _ => false,
        },
    }
}

/// One entry of a list of pairs: an array of exactly two numbers.
pub open spec fn pair_ok(j: JsonValue, p: (String, String)) -> bool {
    j is Array && j->Array_0@.len() == 2 && j->Array_0@[0] == JsonValue::Number(p.0)
        && j->Array_0@[1] == JsonValue::Number(p.1)
}

pub open spec fn is_pair(j: JsonValue) -> bool {
    j is Array && j->Array_0@.len() == 2 && j->Array_0@[0] is Number && j->Array_0@[1] is Number
}

/// An optional list of pairs of numbers.
pub open spec fn opt_pairs_err(f: Seq<(String, JsonValue)>, key: &'static str) -> Option<DecodeError> {
    match member(f, key@) {
        None => None,
        Some(JsonValue::Null) => None,
        Some(JsonValue::Array(a)) => if forall|i: int| 0 <= i < a@.len() ==> is_pair(#[trigger] a@[i]) {
            None
        } else {
            Some(DecodeError::InvalidField(key))
        },
        Some(_) => Some(DecodeError::InvalidField(key)),
    }
}

pub open spec fn opt_pairs_ok(f: Seq<(String, JsonValue)>, key: &'static str, r: Option<Vec<(String, String)>>) -> bool {
    opt_pairs_err(f, key) is None && match member(f, key@) {
        Some(JsonValue::Array(a)) => match r {
            Some(v) => v@.len() == a@.len() && forall|i: int| 0 <= i < a@.len() ==> pair_ok(#[trigger] a@[i], v@[i]),
            None => false,
        },
        _ => r is None,
    }
}

/// What decoding the members `f` as a parameter of kind `k` fails with, if it fails.
pub open spec fn core_err(k: ParameterKind, f: Seq<(String, JsonValue)>, name: Option<String>) -> Option<DecodeError>
    decreases f, 2int,
{
    let m = err_of(meta_spec(f, name));
    match k {
        ParameterKind::Aggregated => first_err(m, first_err(err_of(agg_func_spec(f)), values_member_err(f, "parameters"))),
        ParameterKind::Constant => first_err(m, first_err(err_of(opt_num_spec(f, "value")),
            first_err(opt_external_err(f), opt_table_ref_err(f)))),
        ParameterKind::ControlCurvePiecewiseInterpolated => first_err(m, first_err(opt_value_member_err(f, "control_curve"),
            first_err(opt_values_member_err(f, "control_curves"), first_err(err_of(req_str_spec(f, "storage_node")),
            first_err(opt_pairs_err(f, "values"), first_err(opt_values_member_err(f, "parameters"),
            err_of(opt_num_spec(f, "minimum")))))))),
        ParameterKind::DailyProfile => first_err(m, first_err(opt_numbers_err(f, "values"),
            first_err(opt_external_err(f), opt_table_ref_err(f)))),
        ParameterKind::DataFrame => first_err(m, first_err(err_of(opt_str_spec(f, "url")),
            first_err(err_of(opt_str_spec(f, "table")), first_err(err_of(opt_str_spec(f, "column")),
            first_err(err_of(opt_str_spec(f, "index")), err_of(opt_str_spec(f, "scenario"))))))),
        ParameterKind::Deficit => first_err(m, err_of(req_str_spec(f, "node"))),
        ParameterKind::Flow => first_err(m, err_of(req_str_spec(f, "node"))),
        ParameterKind::IndexedArray => first_err(m, first_err(values_member_err(f, "parameters"),
            value_member_err(f, "index_parameter"))),
        ParameterKind::Max => first_err(m, first_err(value_member_err(f, "parameter"), err_of(opt_num_spec(f, "threshold")))),
        ParameterKind::Negative => first_err(m, value_member_err(f, "parameter")),
        ParameterKind::Storage => first_err(m, err_of(req_str_spec(f, "storage_node"))),
        ParameterKind::TablesArray => first_err(m, first_err(err_of(req_str_spec(f, "node")),
            first_err(err_of(req_str_spec(f, "where")), first_err(err_of(opt_str_spec(f, "scenario")),
            err_of(req_str_spec(f, "url")))))),
        ParameterKind::UniformDrawdownProfile => first_err(m, first_err(err_of(opt_num_spec(f, "reset_day")),
            first_err(err_of(opt_num_spec(f, "reset_month")), err_of(opt_num_spec(f, "residual_days"))))),
        ParameterKind::AggregatedIndex => first_err(m, first_err(err_of(index_agg_func_spec(f)),
            values_member_err(f, "parameters"))),
        ParameterKind::Min => first_err(m, first_err(value_member_err(f, "parameter"), err_of(opt_num_spec(f, "threshold")))),
        ParameterKind::MonthlyProfile => first_err(m, first_err(err_of(interp_day_spec(f)), first_err(opt_numbers_err(f, "values"),
            first_err(month_count_err(f), first_err(opt_external_err(f), opt_table_ref_err(f)))))),
        ParameterKind::ParameterThreshold => first_err(m, first_err(value_member_err(f, "parameter"),
            first_err(value_member_err(f, "threshold"), first_err(opt_numbers_err(f, "values"), err_of(predicate_spec(f)))))),
        ParameterKind::NodeThreshold => first_err(m, first_err(err_of(req_str_spec(f, "node")),
            first_err(value_member_err(f, "threshold"), first_err(opt_numbers_err(f, "values"), err_of(predicate_spec(f)))))),
        ParameterKind::StorageThreshold => first_err(m, first_err(err_of(req_str_spec(f, "storage_node")),
            first_err(value_member_err(f, "threshold"), first_err(opt_numbers_err(f, "values"), err_of(predicate_spec(f)))))),
        ParameterKind::MultipleThresholdIndex => first_err(m, first_err(err_of(req_str_spec(f, "node")),
            values_member_err(f, "thresholds"))),
        ParameterKind::MultipleThresholdParameterIndex => first_err(m, first_err(value_member_err(f, "parameter"),
            values_member_err(f, "thresholds"))),
        ParameterKind::CurrentYearThreshold => first_err(m, first_err(value_member_err(f, "threshold"),
            first_err(opt_numbers_err(f, "values"), err_of(predicate_spec(f))))),
        ParameterKind::CurrentOrdinalDayThreshold => first_err(m, first_err(value_member_err(f, "threshold"),
            first_err(opt_numbers_err(f, "values"), err_of(predicate_spec(f))))),
    }
}

/// `c` is what the members `f` decode to as a parameter of kind `k`.
pub open spec fn core_ok(k: ParameterKind, f: Seq<(String, JsonValue)>, name: Option<String>, c: CoreParameter) -> bool
    decreases f, 2int,
{
    core_err(k, f, name) is None && match c {
        CoreParameter::Aggregated(p) => k == ParameterKind::Aggregated && meta_spec(f, name) == Ok::<ParameterMeta, DecodeError>(p.meta)
            && agg_func_spec(f) == Ok::<AggFunc, DecodeError>(p.agg_func) && values_member_ok(f, "parameters", p.parameters@),
        CoreParameter::Constant(p) => k == ParameterKind::Constant && meta_spec(f, name) == Ok::<ParameterMeta, DecodeError>(p.meta)
            && opt_num_spec(f, "value") == Ok::<Option<String>, DecodeError>(p.value)
            && opt_external_ok(f, p.external) && opt_table_ref_ok(f, p.table),
        CoreParameter::ControlCurvePiecewiseInterpolated(p) => k == ParameterKind::ControlCurvePiecewiseInterpolated
            && meta_spec(f, name) == Ok::<ParameterMeta, DecodeError>(p.meta)
            && opt_value_member_ok(f, "control_curve", p.control_curve)
            && opt_values_member_ok(f, "control_curves", p.control_curves)
            && req_str_spec(f, "storage_node") == Ok::<String, DecodeError>(p.storage_node)
            && opt_pairs_ok(f, "values", p.values) && opt_values_member_ok(f, "parameters", p.parameters)
            && opt_num_spec(f, "minimum") == Ok::<Option<String>, DecodeError>(p.minimum),
        CoreParameter::DailyProfile(p) => k == ParameterKind::DailyProfile && meta_spec(f, name) == Ok::<ParameterMeta, DecodeError>(p.meta)
            && opt_numbers_ok(f, "values", p.values) && opt_external_ok(f, p.external) && opt_table_ref_ok(f, p.table_ref),
        CoreParameter::DataFrame(p) => k == ParameterKind::DataFrame && meta_spec(f, name) == Ok::<ParameterMeta, DecodeError>(p.meta)
            && opt_str_spec(f, "url") == Ok::<Option<String>, DecodeError>(p.url)
            && opt_str_spec(f, "table") == Ok::<Option<String>, DecodeError>(p.table)
            && opt_str_spec(f, "column") == Ok::<Option<String>, DecodeError>(p.column)
            && opt_str_spec(f, "index") == Ok::<Option<String>, DecodeError>(p.index)
            && opt_str_spec(f, "scenario") == Ok::<Option<String>, DecodeError>(p.scenario),
        CoreParameter::Deficit(p) => k == ParameterKind::Deficit && meta_spec(f, name) == Ok::<ParameterMeta, DecodeError>(p.meta)
            && req_str_spec(f, "node") == Ok::<String, DecodeError>(p.node),
        CoreParameter::Flow(p) => k == ParameterKind::Flow && meta_spec(f, name) == Ok::<ParameterMeta, DecodeError>(p.meta)
            && req_str_spec(f, "node") == Ok::<String, DecodeError>(p.node),
        CoreParameter::IndexedArray(p) => k == ParameterKind::IndexedArray && meta_spec(f, name) == Ok::<ParameterMeta, DecodeError>(p.meta)
            && values_member_ok(f, "parameters", p.parameters@) && value_member_ok(f, "index_parameter", p.index_parameter),
        CoreParameter::Max(p) => k == ParameterKind::Max && meta_spec(f, name) == Ok::<ParameterMeta, DecodeError>(p.meta)
            && value_member_ok(f, "parameter", p.parameter) && opt_num_spec(f, "threshold") == Ok::<Option<String>, DecodeError>(p.threshold),
        CoreParameter::Negative(p) => k == ParameterKind::Negative && meta_spec(f, name) == Ok::<ParameterMeta, DecodeError>(p.meta)
            && value_member_ok(f, "parameter", p.parameter),
        CoreParameter::Storage(p) => k == ParameterKind::Storage && meta_spec(f, name) == Ok::<ParameterMeta, DecodeError>(p.meta)
            && req_str_spec(f, "storage_node") == Ok::<String, DecodeError>(p.storage_node),
        CoreParameter::TablesArray(p) => k == ParameterKind::TablesArray && meta_spec(f, name) == Ok::<ParameterMeta, DecodeError>(p.meta)
            && req_str_spec(f, "node") == Ok::<String, DecodeError>(p.node) && req_str_spec(f, "where") == Ok::<String, DecodeError>(p.wh)
            && opt_str_spec(f, "scenario") == Ok::<Option<String>, DecodeError>(p.scenario)
            && req_str_spec(f, "url") == Ok::<String, DecodeError>(p.url),
        CoreParameter::AggregatedIndex(p) => k == ParameterKind::AggregatedIndex && meta_spec(f, name) == Ok::<ParameterMeta, DecodeError>(p.meta)
            && index_agg_func_spec(f) == Ok::<IndexAggFunc, DecodeError>(p.agg_func) && values_member_ok(f, "parameters", p.parameters@),
        CoreParameter::Min(p) => k == ParameterKind::Min && meta_spec(f, name) == Ok::<ParameterMeta, DecodeError>(p.meta)
            && value_member_ok(f, "parameter", p.parameter) && opt_num_spec(f, "threshold") == Ok::<Option<String>, DecodeError>(p.threshold),
        CoreParameter::MonthlyProfile(p) => k == ParameterKind::MonthlyProfile && meta_spec(f, name) == Ok::<ParameterMeta, DecodeError>(p.meta)
            && interp_day_spec(f) == Ok::<Option<MonthInterpDay>, DecodeError>(p.interp_day)
            && opt_numbers_ok(f, "values", p.values) && opt_external_ok(f, p.external) && opt_table_ref_ok(f, p.table_ref),
        CoreParameter::ParameterThreshold(p) => k == ParameterKind::ParameterThreshold
            && meta_spec(f, name) == Ok::<ParameterMeta, DecodeError>(p.meta)
            && value_member_ok(f, "parameter", p.parameter) && value_member_ok(f, "threshold", p.threshold)
            && opt_numbers_ok(f, "values", p.values) && predicate_spec(f) == Ok::<Predicate, DecodeError>(p.predicate),
        CoreParameter::NodeThreshold(p) => k == ParameterKind::NodeThreshold && meta_spec(f, name) == Ok::<ParameterMeta, DecodeError>(p.meta)
            && req_str_spec(f, "node") == Ok::<String, DecodeError>(p.node) && value_member_ok(f, "threshold", p.threshold)
            && opt_numbers_ok(f, "values", p.values) && predicate_spec(f) == Ok::<Predicate, DecodeError>(p.predicate),
        CoreParameter::StorageThreshold(p) => k == ParameterKind::StorageThreshold
            && meta_spec(f, name) == Ok::<ParameterMeta, DecodeError>(p.meta)
            && req_str_spec(f, "storage_node") == Ok::<String, DecodeError>(p.storage_node)
            && value_member_ok(f, "threshold", p.threshold)
            && opt_numbers_ok(f, "values", p.values) && predicate_spec(f) == Ok::<Predicate, DecodeError>(p.predicate),
        CoreParameter::MultipleThresholdIndex(p) => k == ParameterKind::MultipleThresholdIndex
            && meta_spec(f, name) == Ok::<ParameterMeta, DecodeError>(p.meta)
            && req_str_spec(f, "node") == Ok::<String, DecodeError>(p.node) && values_member_ok(f, "thresholds", p.thresholds@),
        CoreParameter::MultipleThresholdParameterIndex(p) => k == ParameterKind::MultipleThresholdParameterIndex
            && meta_spec(f, name) == Ok::<ParameterMeta, DecodeError>(p.meta)
            && value_member_ok(f, "parameter", p.parameter) && values_member_ok(f, "thresholds", p.thresholds@),
        CoreParameter::CurrentYearThreshold(p) => k == ParameterKind::CurrentYearThreshold
            && meta_spec(f, name) == Ok::<ParameterMeta, DecodeError>(p.meta) && value_member_ok(f, "threshold", p.threshold)
            && opt_numbers_ok(f, "values", p.values) && predicate_spec(f) == Ok::<Predicate, DecodeError>(p.predicate),
        CoreParameter::CurrentOrdinalDayThreshold(p) => k == ParameterKind::CurrentOrdinalDayThreshold
            && meta_spec(f, name) == Ok::<ParameterMeta, DecodeError>(p.meta) && value_member_ok(f, "threshold", p.threshold)
            && opt_numbers_ok(f, "values", p.values) && predicate_spec(f) == Ok::<Predicate, DecodeError>(p.predicate),
        CoreParameter::UniformDrawdownProfile(p) => k == ParameterKind::UniformDrawdownProfile
            && meta_spec(f, name) == Ok::<ParameterMeta, DecodeError>(p.meta)
            && opt_num_spec(f, "reset_day") == Ok::<Option<String>, DecodeError>(p.reset_day)
            && opt_num_spec(f, "reset_month") == Ok::<Option<String>, DecodeError>(p.reset_month)
            && opt_num_spec(f, "residual_days") == Ok::<Option<String>, DecodeError>(p.residual_days),
    }
}

/// The members that a custom entity does not keep as attributes: `type` and
/// `comment`, and `name` too unless the name comes from elsewhere (the key of
/// a named map).
pub open spec fn is_identity_key(k: Seq<char>, keep_name: bool) -> bool {
    k == "type"@ || k == "comment"@ || (!keep_name && k == "name"@)
}

/// The members of `f` that a custom entity keeps as attributes, in order.
pub open spec fn attributes_of(f: Seq<(String, JsonValue)>, keep_name: bool) -> Seq<(String, JsonValue)>
    decreases f.len(),
{
    if f.len() == 0 {
        Seq::empty()
    } else if is_identity_key(f.last().0@, keep_name) {
        attributes_of(f.drop_last(), keep_name)
    } else {
        attributes_of(f.drop_last(), keep_name).push(f.last())
    }
}

/// Two JSON values are alike: the same tree, with the same strings.
pub open spec fn json_alike(a: JsonValue, b: JsonValue) -> bool
    decreases a,
{
    match a {
        JsonValue::Array(x) => b is Array && x@.len() == b->Array_0@.len() && forall|i: int|
            0 <= i < x@.len() ==> json_alike(#[trigger] x@[i], b->Array_0@[i]),
        JsonValue::Object(x) => b is Object && x@.len() == b->Object_0@.len() && forall|i: int|
            0 <= i < x@.len() ==> (#[trigger] x@[i]).0 == b->Object_0@[i].0 && json_alike(x@[i].1, b->Object_0@[i].1),
        _ => a == b,
    }
}

pub open spec fn members_alike(a: Seq<(String, JsonValue)>, b: Seq<(String, JsonValue)>) -> bool {
    a.len() == b.len() && forall|i: int| 0 <= i < a.len() ==> (#[trigger] a[i]).0 == b[i].0 && json_alike(a[i].1, b[i].1)
}

/// Whether the members `f` decode as a custom parameter.
pub open spec fn fallback_err(f: Seq<(String, JsonValue)>, name: Option<String>) -> Option<DecodeError> {
    first_err(err_of(req_str_spec(f, "type")), err_of(meta_spec(f, name)))
}

pub open spec fn fallback_ok(f: Seq<(String, JsonValue)>, name: Option<String>, c: CustomParameter) -> bool {
    fallback_err(f, name) is None && req_str_spec(f, "type") == Ok::<String, DecodeError>(c.ty)
        && meta_spec(f, name) == Ok::<ParameterMeta, DecodeError>(c.meta)
        && members_alike(attributes_of(f, name is Some), c.attributes@)
}

/// The built-in kind that the members `f` decode to, if their tag names one and they fit it.
pub open spec fn core_kind(f: Seq<(String, JsonValue)>, name: Option<String>) -> Option<ParameterKind>
    decreases f, 3int,
{
    match member(f, "type"@) {
        Some(JsonValue::Str(t)) => match parameter_kind_of_tag(t@) {
            Some(k) => if core_err(k, f, name) is None { Some(k) } else { None },
            None => None,
        },
        _ => None,
    }
}

/// Decoding a parameter: a built-in kind where the tag names one and the members
/// fit it, else a custom parameter.
pub open spec fn parameter_err(f: Seq<(String, JsonValue)>, name: Option<String>) -> Option<DecodeError>
    decreases f, 4int,
{
    match core_kind(f, name) {
        Some(_) => None,
        None => fallback_err(f, name),
    }
}

pub open spec fn parameter_ok(f: Seq<(String, JsonValue)>, name: Option<String>, p: Parameter) -> bool
    decreases f, 4int,
{
    match core_kind(f, name) {
        Some(k) => p is Core && core_ok(k, f, name, p->Core_0),
        None => p is Custom && fallback_ok(f, name, p->Custom_0),
    }
}

} // verus!
