use vstd::prelude::*;
use crate::json::str_eq;

verus! {

/// What `str::to_lowercase` makes of a string.
pub uninterp spec fn lower_of(s: Seq<char>) -> Seq<char>;

/// Relies on `str::to_lowercase`: the result depends on the characters alone.
#[verifier::external_body]
fn lowercase(s: &str) -> (r: String)
    ensures
        r@ == lower_of(s@),
{
    s.to_lowercase()
}

/// `s` without `suffix` at its end, or `s` itself where it does not end so.
pub open spec fn without_suffix(s: Seq<char>, suffix: Seq<char>) -> Seq<char> {
    if suffix.len() <= s.len() && s.subrange(s.len() - suffix.len(), s.len() as int) == suffix {
        s.subrange(0, s.len() - suffix.len())
    } else {
        s
    }
}

/// Removes `suffix` from the end of `s` if it is there.
pub fn remove_suffix<'a>(s: &'a str, suffix: &str) -> (r: &'a str)
    ensures
        r@ == without_suffix(s@, suffix@),
{
    let n = s.unicode_len();
    let k = suffix.unicode_len();
    if k > n {
        return s;
    }
    let tail = s.substring_char(n - k, n);
    if str_eq(tail, suffix) {
        s.substring_char(0, n - k)
    } else {
        s
    }
}

/// The canonical form of a type tag: lower-cased, without `suffix`.
pub open spec fn normalized_tag(raw: Seq<char>, suffix: Seq<char>) -> Seq<char> {
    without_suffix(lower_of(raw), suffix)
}

/// Lower-cases a type tag and removes `suffix` from its end.
pub fn normalize_tag(raw: &str, suffix: &str) -> (r: String)
    ensures
        r@ == normalized_tag(raw@, suffix@),
{
    let lower = lowercase(raw);
    remove_suffix(lower.as_str(), suffix).to_string()
}

/// The built-in parameter kinds.
#[derive(Clone, Copy, Debug, PartialEq, Eq, Structural)]
pub enum ParameterKind {
    Aggregated,
    Constant,
    ControlCurvePiecewiseInterpolated,
    DailyProfile,
    DataFrame,
    Deficit,
    Flow,
    IndexedArray,
    Max,
    Negative,
    Storage,
    TablesArray,
    UniformDrawdownProfile,
    AggregatedIndex,
    Min,
    MonthlyProfile,
    ParameterThreshold,
    NodeThreshold,
    StorageThreshold,
    MultipleThresholdIndex,
    MultipleThresholdParameterIndex,
    CurrentYearThreshold,
    CurrentOrdinalDayThreshold,
}

/// The parameter kind that a normalized tag names, if any.
pub open spec fn parameter_kind_of(tag: Seq<char>) -> Option<ParameterKind> {
    if tag == "aggregated"@ {
        Some(ParameterKind::Aggregated)
    } else if tag == "constant"@ {
        Some(ParameterKind::Constant)
    } else if tag == "controlcurvepiecewiseinterpolated"@ {
        Some(ParameterKind::ControlCurvePiecewiseInterpolated)
    } else if tag == "dailyprofile"@ {
        Some(ParameterKind::DailyProfile)
    } else if tag == "dataframe"@ {
        Some(ParameterKind::DataFrame)
    } else if tag == "deficit"@ {
        Some(ParameterKind::Deficit)
    } else if tag == "flow"@ {
        Some(ParameterKind::Flow)
    } else if tag == "indexedarray"@ {
        Some(ParameterKind::IndexedArray)
    } else if tag == "max"@ {
        Some(ParameterKind::Max)
    } else if tag == "negative"@ {
        Some(ParameterKind::Negative)
    } else if tag == "storage"@ {
        Some(ParameterKind::Storage)
    } else if tag == "tablesarray"@ {
        Some(ParameterKind::TablesArray)
    } else if tag == "uniformdrawdownprofile"@ {
        Some(ParameterKind::UniformDrawdownProfile)
    } else if tag == "aggregatedindex"@ {
        Some(ParameterKind::AggregatedIndex)
    } else if tag == "min"@ {
        Some(ParameterKind::Min)
    } else if tag == "monthlyprofile"@ {
        Some(ParameterKind::MonthlyProfile)
    } else if tag == "parameterthreshold"@ {
        Some(ParameterKind::ParameterThreshold)
    } else if tag == "nodethreshold"@ {
        Some(ParameterKind::NodeThreshold)
    } else if tag == "storagethreshold"@ {
        Some(ParameterKind::StorageThreshold)
    } else if tag == "multiplethresholdindex"@ {
        Some(ParameterKind::MultipleThresholdIndex)
    } else if tag == "multiplethresholdparameterindex"@ {
        Some(ParameterKind::MultipleThresholdParameterIndex)
    } else if tag == "currentyearthreshold"@ {
        Some(ParameterKind::CurrentYearThreshold)
    } else if tag == "currentordinaldaythreshold"@ {
        Some(ParameterKind::CurrentOrdinalDayThreshold)
    } else {
        None
    }
}

/// Looks a normalized tag up among the parameter kinds.
pub fn match_parameter_kind(tag: &str) -> (r: Option<ParameterKind>)
    ensures
        r == parameter_kind_of(tag@),
{
    if str_eq(tag, "aggregated") {
        Some(ParameterKind::Aggregated)
    } else if str_eq(tag, "constant") {
        Some(ParameterKind::Constant)
    } else if str_eq(tag, "controlcurvepiecewiseinterpolated") {
        Some(ParameterKind::ControlCurvePiecewiseInterpolated)
    } else if str_eq(tag, "dailyprofile") {
        Some(ParameterKind::DailyProfile)
    } else if str_eq(tag, "dataframe") {
        Some(ParameterKind::DataFrame)
    } else if str_eq(tag, "deficit") {
        Some(ParameterKind::Deficit)
    } else if str_eq(tag, "flow") {
        Some(ParameterKind::Flow)
    } else if str_eq(tag, "indexedarray") {
        Some(ParameterKind::IndexedArray)
    } else if str_eq(tag, "max") {
        Some(ParameterKind::Max)
    } else if str_eq(tag, "negative") {
        Some(ParameterKind::Negative)
    } else if str_eq(tag, "storage") {
        Some(ParameterKind::Storage)
    } else if str_eq(tag, "tablesarray") {
        Some(ParameterKind::TablesArray)
    } else if str_eq(tag, "uniformdrawdownprofile") {
        Some(ParameterKind::UniformDrawdownProfile)
    } else if str_eq(tag, "aggregatedindex") {
        Some(ParameterKind::AggregatedIndex)
    } else if str_eq(tag, "min") {
        Some(ParameterKind::Min)
    } else if str_eq(tag, "monthlyprofile") {
        Some(ParameterKind::MonthlyProfile)
    } else if str_eq(tag, "parameterthreshold") {
        Some(ParameterKind::ParameterThreshold)
    } else if str_eq(tag, "nodethreshold") {
        Some(ParameterKind::NodeThreshold)
    } else if str_eq(tag, "storagethreshold") {
        Some(ParameterKind::StorageThreshold)
    } else if str_eq(tag, "multiplethresholdindex") {
        Some(ParameterKind::MultipleThresholdIndex)
    } else if str_eq(tag, "multiplethresholdparameterindex") {
        Some(ParameterKind::MultipleThresholdParameterIndex)
    } else if str_eq(tag, "currentyearthreshold") {
        Some(ParameterKind::CurrentYearThreshold)
    } else if str_eq(tag, "currentordinaldaythreshold") {
        Some(ParameterKind::CurrentOrdinalDayThreshold)
    } else {
        None
    }
}

/// The parameter kind that a raw type tag names, if any: a tag already in
/// canonical form names its kind as it is, any other is normalized first.
pub open spec fn parameter_kind_of_tag(raw: Seq<char>) -> Option<ParameterKind> {
    match parameter_kind_of(raw) {
        Some(k) => Some(k),
        None => parameter_kind_of(normalized_tag(raw, "parameter"@)),
    }
}

/// Normalizes a raw parameter type tag and looks it up among the parameter kinds.
pub fn parameter_kind(raw: &str) -> (r: Option<ParameterKind>)
    ensures
        r == parameter_kind_of_tag(raw@),
{
    match match_parameter_kind(raw) {
        Some(k) => Some(k),
        None => {
            let tag = normalize_tag(raw, "parameter");
            match_parameter_kind(tag.as_str())
        },
    }
}

/// The built-in node kinds.
#[derive(Clone, Copy, Debug, PartialEq, Eq, Structural)]
pub enum NodeKind {
    Input,
    Link,
    River,
    Output,
    Storage,
    Catchment,
    Aggregated,
    Reservoir,
    VirtualStorage,
    AnnualVirtualStorage,
    MonthlyVirtualStorage,
    SeasonalVirtualStorage,
    RollingVirtualStorage,
}

/// The node kind that a normalized tag names, if any.
pub open spec fn node_kind_of(tag: Seq<char>) -> Option<NodeKind> {
    if tag == "input"@ {
        Some(NodeKind::Input)
    } else if tag == "link"@ {
        Some(NodeKind::Link)
    } else if tag == "river"@ {
        Some(NodeKind::River)
    } else if tag == "output"@ {
        Some(NodeKind::Output)
    } else if tag == "storage"@ {
        Some(NodeKind::Storage)
    } else if tag == "catchment"@ {
        Some(NodeKind::Catchment)
    } else if tag == "aggregated"@ {
        Some(NodeKind::Aggregated)
    } else if tag == "reservoir"@ {
        Some(NodeKind::Reservoir)
    } else if tag == "virtualstorage"@ {
        Some(NodeKind::VirtualStorage)
    } else if tag == "annualvirtualstorage"@ {
        Some(NodeKind::AnnualVirtualStorage)
    } else if tag == "monthlyvirtualstorage"@ {
        Some(NodeKind::MonthlyVirtualStorage)
    } else if tag == "seasonalvirtualstorage"@ {
        Some(NodeKind::SeasonalVirtualStorage)
    } else if tag == "rollingvirtualstorage"@ {
        Some(NodeKind::RollingVirtualStorage)
    } else {
        None
    }
}

/// Looks a normalized tag up among the node kinds.
pub fn match_node_kind(tag: &str) -> (r: Option<NodeKind>)
    ensures
        r == node_kind_of(tag@),
{
    if str_eq(tag, "input") {
        Some(NodeKind::Input)
    } else if str_eq(tag, "link") {
        Some(NodeKind::Link)
    } else if str_eq(tag, "river") {
        Some(NodeKind::River)
    } else if str_eq(tag, "output") {
        Some(NodeKind::Output)
    } else if str_eq(tag, "storage") {
        Some(NodeKind::Storage)
    } else if str_eq(tag, "catchment") {
        Some(NodeKind::Catchment)
    } else if str_eq(tag, "aggregated") {
        Some(NodeKind::Aggregated)
    } else if str_eq(tag, "reservoir") {
        Some(NodeKind::Reservoir)
    } else if str_eq(tag, "virtualstorage") {
        Some(NodeKind::VirtualStorage)
    } else if str_eq(tag, "annualvirtualstorage") {
        Some(NodeKind::AnnualVirtualStorage)
    } else if str_eq(tag, "monthlyvirtualstorage") {
        Some(NodeKind::MonthlyVirtualStorage)
    } else if str_eq(tag, "seasonalvirtualstorage") {
        Some(NodeKind::SeasonalVirtualStorage)
    } else if str_eq(tag, "rollingvirtualstorage") {
        Some(NodeKind::RollingVirtualStorage)
    } else {
        None
    }
}

/// The node kind that a raw type tag names, if any: a tag already in
/// canonical form names its kind as it is, any other is normalized first.
pub open spec fn node_kind_of_tag(raw: Seq<char>) -> Option<NodeKind> {
    match node_kind_of(raw) {
        Some(k) => Some(k),
        None => node_kind_of(normalized_tag(raw, "node"@)),
    }
}

/// Normalizes a raw node type tag and looks it up among the node kinds.
pub fn node_kind(raw: &str) -> (r: Option<NodeKind>)
    ensures
        r == node_kind_of_tag(raw@),
{
    match match_node_kind(raw) {
        Some(k) => Some(k),
        None => {
            let tag = normalize_tag(raw, "node");
            match_node_kind(tag.as_str())
        },
    }
}

} // verus!
