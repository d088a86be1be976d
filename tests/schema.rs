use pywr_schema::edge::Edge;
use pywr_schema::json::{read_small_number, small_number_text, DecodeError, JsonValue};
use pywr_schema::model::PywrModel;
use pywr_schema::nodes::{
    default_end_day, default_end_month, default_initial_months, default_months, default_reset_day, default_reset_month,
    CoreNode, Node,
};
use pywr_schema::parameter_map::ParameterVec;
use pywr_schema::parameters::{
    CoreParameter, IndexAggFunc, MonthInterpDay, Parameter, ParameterValue, Predicate, TableIndex, TableIndexEntry,
};
use pywr_schema::tables::{Table, TableVec};
use pywr_schema::tags::{node_kind, parameter_kind, remove_suffix, NodeKind, ParameterKind};
use pywr_schema::walk::{ParameterValueType, ParameterValueTypeMut};

fn convert(v: &serde_json::Value) -> JsonValue {
    match v {
        serde_json::Value::Null => JsonValue::Null,
        serde_json::Value::Bool(b) => JsonValue::Bool(*b),
        serde_json::Value::Number(n) => JsonValue::Number(n.to_string()),
        serde_json::Value::String(s) => JsonValue::Str(s.clone()),
        serde_json::Value::Array(a) => JsonValue::Array(a.iter().map(convert).collect()),
        serde_json::Value::Object(m) => {
            JsonValue::Object(m.iter().map(|(k, v)| (k.clone(), convert(v))).collect())
        }
    }
}

fn parse(text: &str) -> JsonValue {
    convert(&serde_json::from_str::<serde_json::Value>(text).expect("test data is valid JSON"))
}

fn keys(j: &JsonValue) -> Vec<String> {
    match j {
        JsonValue::Object(f) => f.iter().map(|(k, _)| k.clone()).collect(),
        _ => panic!("expected an object"),
    }
}

fn mapping(pairs: &[(&str, &str)]) -> Vec<(String, String)> {
    pairs.iter().map(|(a, b)| (a.to_string(), b.to_string())).collect()
}

fn sorted(mut v: Vec<String>) -> Vec<String> {
    v.sort();
    v
}

#[test]
fn it_works() {
    let result = 2 + 2;
    assert_eq!(result, 4);
}

#[test]
fn model_test_simple1() {
    let data = r#"
        {
            "metadata": {
                "title": "Simple 1",
                "description": "A very simple example.",
                "minimum_version": "0.1"
            },
            "timestepper": {
                "start": "2015-01-01",
                "end": "2015-12-31",
                "timestep": 1
            },
            "nodes": [
                {
                    "name": "supply1",
                    "type": "Input",
                    "max_flow": 15
                },
                {
                    "name": "link1",
                    "type": "Link"
                },
                {
                    "name": "demand1",
                    "type": "Output",
                    "max_flow": 10,
                    "cost": -10
                }
            ],
            "edges": [
                ["supply1", "link1"],
                ["link1", "demand1"]
            ]
        }
        "#;

    let model = PywrModel::from_json(&parse(data)).unwrap();

    assert_eq!(model.network.nodes.as_ref().unwrap().len(), 3);
    assert_eq!(model.network.edges.as_ref().unwrap().len(), 2);
}

#[test]
fn test_daily_profile_from_table() {
    let data = r#"
        {
            "type": "dailyprofile",
            "table": "my-table",
            "column": ["A", "B"]
        }
        "#;

    let p = Parameter::from_json(&parse(data)).expect("Failed to create Parameter from expected data!");

    assert_eq!("DailyProfile", p.ty());
}

#[test]
fn test_indexed_array_with_profile_tables() {
    let data = r#"
        {
            "type": "indexedarrayparameter",
            "index_parameter": "Demand Saving - DPs Index",
            "parameters": [
                {"type": "dailyprofile", "table": "my-table", "column": ["A", "B"]},
                {"type": "dailyprofile", "table": "my-table", "column": ["A", "B"]},
                {"type": "dailyprofile", "table": "my-table", "column": ["A", "B"]}
            ]
        }
        "#;

    let p = Parameter::from_json(&parse(data)).expect("Failed to create Parameter from expected data!");

    assert_eq!("IndexedArray", p.ty());

    if let Parameter::Core(p) = &p {
        if let CoreParameter::IndexedArray(p) = p {
            if let ParameterValue::Inline(daily_profile) = &p.parameters[0] {
                assert_eq!("DailyProfile", daily_profile.ty())
            } else {
                panic!("Expected an inline parameter.");
            }
        } else {
            panic!("Expected an IndexedArray parameter.")
        }
    } else {
        panic!("Expected a CoreParameter.")
    }
}

#[test]
fn daily_profile_keeps_multi_column_selector() {
    let p = Parameter::from_json(&parse(r#"{"type": "dailyprofile", "table": "t", "column": ["A", 3]}"#)).unwrap();
    match p {
        Parameter::Core(CoreParameter::DailyProfile(d)) => {
            let t = d.table_ref.expect("a table reference");
            assert_eq!(t.table, "t");
            match t.column {
                Some(TableIndex::Multi(v)) => {
                    assert_eq!(v.len(), 2);
                    assert!(matches!(&v[0], TableIndexEntry::Name(s) if s == "A"));
                    assert!(matches!(&v[1], TableIndexEntry::Index(s) if s == "3"));
                }
                _ => panic!("expected a multi-column selector"),
            }
        }
        _ => panic!("expected a daily profile"),
    }
}

#[test]
fn round_trip_of_a_nested_parameter() {
    let data = r#"
        {
            "type": "aggregated",
            "name": "agg",
            "comment": "two children",
            "agg_func": "min",
            "parameters": [
                {"type": "dataframe", "url": "flows.csv", "column": "A"},
                {"type": "max", "parameter": "other", "threshold": 0.5},
                {"table": "tbl", "index": ["x", "y"]},
                3.5
            ]
        }
        "#;
    let p = Parameter::from_json(&parse(data)).unwrap();
    let again = Parameter::from_json(&p.to_json()).unwrap();
    assert_eq!(again.ty(), "Aggregated");
    assert_eq!(again.name(), Some("agg"));
    assert_eq!(again.resource_paths(), vec!["flows.csv".to_string()]);
    match again {
        Parameter::Core(CoreParameter::Aggregated(a)) => {
            assert_eq!(a.parameters.len(), 4);
            assert!(matches!(&a.parameters[2], ParameterValue::Table(t) if t.table == "tbl"));
            assert!(matches!(&a.parameters[3], ParameterValue::Constant(s) if s == "3.5"));
            assert_eq!(a.meta.comment.as_deref(), Some("two children"));
        }
        _ => panic!("expected an aggregated parameter"),
    }
}

#[test]
fn encoding_writes_the_canonical_tag() {
    let p = Parameter::from_json(&parse(r#"{"type": "DeficitParameter", "node": "n1"}"#)).unwrap();
    match p.to_json() {
        JsonValue::Object(f) => {
            assert_eq!(f[0].0, "type");
            assert!(matches!(&f[0].1, JsonValue::Str(s) if s == "deficit"));
        }
        _ => panic!("expected an object"),
    }
}

#[test]
fn unknown_type_falls_back_to_custom() {
    let data = r#"{"type": "MyOwnParameter", "name": "mine", "comment": "c", "alpha": 1, "beta": [true, null]}"#;
    let p = Parameter::from_json(&parse(data)).unwrap();
    assert!(p.is_custom());
    assert_eq!(p.ty(), "MyOwnParameter");
    assert_eq!(p.name(), Some("mine"));
    match &p {
        Parameter::Custom(c) => {
            let names: Vec<&str> = c.attributes.iter().map(|(k, _)| k.as_str()).collect();
            assert_eq!(names, vec!["alpha", "beta"]);
            assert_eq!(c.meta.comment.as_deref(), Some("c"));
        }
        _ => panic!("expected a custom parameter"),
    }
    assert_eq!(keys(&p.to_json()), vec!["type", "name", "comment", "alpha", "beta"]);
}

#[test]
fn malformed_builtin_falls_back_to_custom() {
    let p = Parameter::from_json(&parse(r#"{"type": "deficit", "node": 3}"#)).unwrap();
    assert!(p.is_custom());
    assert_eq!(p.ty(), "deficit");
}

#[test]
fn parameter_without_type_is_an_error() {
    let r = Parameter::from_json(&parse(r#"{"node": "a"}"#));
    assert!(matches!(r, Err(DecodeError::MissingField("type"))));
    let r = Parameter::from_json(&parse(r#"{"type": 4}"#));
    assert!(matches!(r, Err(DecodeError::InvalidField("type"))));
    let r = Parameter::from_json(&parse(r#"[1, 2]"#));
    assert!(matches!(r, Err(DecodeError::NotAnObject)));
}

#[test]
fn custom_with_bad_name_is_an_error() {
    let r = Parameter::from_json(&parse(r#"{"type": "unknown", "name": 5}"#));
    assert!(matches!(r, Err(DecodeError::InvalidField("name"))));
}

#[test]
fn tag_tolerance_for_nodes() {
    assert_eq!(node_kind("INPUT"), Some(NodeKind::Input));
    assert_eq!(node_kind("Input"), Some(NodeKind::Input));
    assert_eq!(node_kind("input"), Some(NodeKind::Input));
    assert_eq!(node_kind("InputNode"), Some(NodeKind::Input));
    assert_eq!(node_kind("river"), Some(NodeKind::River));
    assert_eq!(node_kind("weir"), None);
    for tag in ["INPUT", "Input", "input"] {
        let text = format!(r#"{{"type": "{}", "name": "n"}}"#, tag);
        let n = Node::from_json(&parse(&text)).unwrap();
        assert!(matches!(n, Node::Core(CoreNode::Input(_))));
    }
}

#[test]
fn tag_tolerance_for_parameters() {
    assert_eq!(parameter_kind("CONSTANT"), Some(ParameterKind::Constant));
    assert_eq!(parameter_kind("ConstantParameter"), Some(ParameterKind::Constant));
    assert_eq!(parameter_kind("constantparameter"), Some(ParameterKind::Constant));
    assert_eq!(parameter_kind("constant"), Some(ParameterKind::Constant));
    assert_eq!(parameter_kind("TablesArray"), Some(ParameterKind::TablesArray));
    assert_eq!(parameter_kind("controlcurve"), None);
}

#[test]
fn suffix_removal() {
    assert_eq!(remove_suffix("maxparameter", "parameter"), "max");
    assert_eq!(remove_suffix("parameter", "parameter"), "");
    assert_eq!(remove_suffix("max", "parameter"), "max");
    assert_eq!(remove_suffix("parametermax", "parameter"), "parametermax");
}

#[test]
fn edge_with_two_entries() {
    let e = Edge::from_json(&parse(r#"["A", "B"]"#)).unwrap();
    assert_eq!(e.from_node, "A");
    assert_eq!(e.to_node, "B");
    assert_eq!(e.from_slot, None);
    assert_eq!(e.to_slot, None);
}

#[test]
fn edge_with_four_entries() {
    let e = Edge::from_json(&parse(r#"["A", "B", null, "x"]"#)).unwrap();
    assert_eq!(e.from_slot, Some(None));
    assert_eq!(e.to_slot, Some(Some("x".to_string())));
}

#[test]
fn edge_ignores_extra_entries() {
    let e = Edge::from_json(&parse(r#"["A", "B", "s", "t", "ignored", 7]"#)).unwrap();
    assert_eq!(e.from_slot, Some(Some("s".to_string())));
    assert_eq!(e.to_slot, Some(Some("t".to_string())));
}

#[test]
fn edge_errors() {
    assert!(matches!(Edge::from_json(&parse(r#"["A"]"#)), Err(DecodeError::EdgeTooShort)));
    assert!(matches!(Edge::from_json(&parse(r#"[]"#)), Err(DecodeError::EdgeTooShort)));
    assert!(matches!(Edge::from_json(&parse(r#"["A", 1]"#)), Err(DecodeError::InvalidField("node"))));
    assert!(matches!(Edge::from_json(&parse(r#"["A", "B", 1]"#)), Err(DecodeError::InvalidField("slot"))));
    assert!(matches!(Edge::from_json(&parse(r#"{"a": 1}"#)), Err(DecodeError::NotAnArray)));
}

#[test]
fn edge_encoding() {
    let e = Edge::from_json(&parse(r#"["A", "B"]"#)).unwrap();
    match e.to_json() {
        JsonValue::Array(a) => assert_eq!(a.len(), 2),
        _ => panic!("expected an array"),
    }
    let e = Edge::from_json(&parse(r#"["A", "B", null, "x", 9]"#)).unwrap();
    let j = e.to_json();
    match &j {
        JsonValue::Array(a) => {
            assert_eq!(a.len(), 4);
            assert!(matches!(&a[2], JsonValue::Null));
            assert!(matches!(&a[3], JsonValue::Str(s) if s == "x"));
        }
        _ => panic!("expected an array"),
    }
    let back = Edge::from_json(&j).unwrap();
    assert_eq!(back.from_slot, Some(None));
    assert_eq!(back.to_slot, Some(Some("x".to_string())));
}

#[test]
fn nested_resource_discovery() {
    let data = r#"
        {
            "type": "aggregated",
            "agg_func": "sum",
            "parameters": [
                "a-reference",
                {"type": "negative", "parameter": {"type": "dataframe", "url": "deep.csv"}},
                {"type": "constant", "url": "const.h5", "column": "c"}
            ]
        }
        "#;
    let p = Parameter::from_json(&parse(data)).unwrap();
    assert_eq!(p.resource_paths(), vec!["deep.csv".to_string(), "const.h5".to_string()]);
}

#[test]
fn table_lookup_contributes_no_path() {
    let p = Parameter::from_json(&parse(r#"{"type": "max", "parameter": {"table": "t", "column": "c"}}"#)).unwrap();
    assert!(p.resource_paths().is_empty());
}

#[test]
fn rewrite_is_idempotent() {
    let data = r#"
        {
            "type": "aggregated",
            "agg_func": "max",
            "parameters": [
                {"type": "dataframe", "url": "a.csv"},
                {"type": "tablesarray", "node": "n", "where": "/w", "url": "b.h5"},
                {"type": "dataframe", "url": "keep.csv"}
            ]
        }
        "#;
    let m = mapping(&[("a.csv", "data/a.csv"), ("b.h5", "data/b.h5")]);
    let mut once = Parameter::from_json(&parse(data)).unwrap();
    once.update_resource_paths(&m);
    assert_eq!(
        once.resource_paths(),
        vec!["data/a.csv".to_string(), "data/b.h5".to_string(), "keep.csv".to_string()]
    );
    let mut twice = Parameter::from_json(&parse(data)).unwrap();
    twice.update_resource_paths(&m);
    twice.update_resource_paths(&m);
    assert_eq!(twice.resource_paths(), once.resource_paths());
}

#[test]
fn set_semantics_across_nodes() {
    let data = r#"
        {
            "nodes": [
                {"type": "input", "name": "a", "max_flow": {"type": "dataframe", "url": "shared.csv"}},
                {"type": "output", "name": "b", "cost": {"type": "dataframe", "url": "shared.csv"}},
                {"type": "link", "name": "c"}
            ],
            "tables": {"t1": {"url": "table.csv"}}
        }
        "#;
    let net = pywr_schema::model::PywrNetwork::from_json(&parse(data)).unwrap();
    assert_eq!(net.node_resource_paths(), vec!["shared.csv".to_string()]);
    assert_eq!(
        sorted(net.resource_paths()),
        vec!["shared.csv".to_string(), "table.csv".to_string()]
    );
}

#[test]
fn order_preserved_through_reencoding() {
    let data = r#"
        {
            "zeta": {"type": "constant", "value": 1},
            "alpha": {"type": "deficit", "node": "n"},
            "mid": {"type": "somethingelse", "x": 1},
            "beta": {"type": "flow", "node": "m"},
            "aardvark": {"type": "storage", "storage_node": "s"}
        }
        "#;
    let ps = ParameterVec::from_json(&parse(data)).unwrap();
    let names: Vec<&str> = ps.0.iter().map(|p| p.name().unwrap()).collect();
    assert_eq!(names, vec!["zeta", "alpha", "mid", "beta", "aardvark"]);
    let j = ps.to_json().unwrap();
    assert_eq!(keys(&j), vec!["zeta", "alpha", "mid", "beta", "aardvark"]);
    let back = ParameterVec::from_json(&j).unwrap();
    let tys: Vec<&str> = back.0.iter().map(|p| p.ty()).collect();
    assert_eq!(tys, vec!["Constant", "Deficit", "somethingelse", "Flow", "Storage"]);
}

#[test]
fn named_map_entry_without_type_fails() {
    let r = ParameterVec::from_json(&parse(r#"{"a": {"type": "constant"}, "b": {"value": 1}}"#));
    assert!(matches!(r, Err(DecodeError::MissingField("type"))));
    let r = ParameterVec::from_json(&parse(r#"{"a": 3}"#));
    assert!(matches!(r, Err(DecodeError::NotAnObject)));
}

#[test]
fn encoding_a_nameless_parameter_fails() {
    let p = Parameter::from_json(&parse(r#"{"type": "constant", "value": 2}"#)).unwrap();
    let ps = ParameterVec(vec![p]);
    assert!(matches!(ps.to_json(), Err(DecodeError::MissingName)));
}

#[test]
fn tables_decode_and_paths() {
    let tv = TableVec::from_json(&parse(r#"{"second": {"url": "b.csv"}, "first": {"url": "a.csv", "index_col": 0}}"#))
        .unwrap();
    assert_eq!(tv.0.len(), 2);
    assert_eq!(tv.0[0].name, "second");
    assert_eq!(tv.0[1].url, "a.csv");
    assert_eq!(keys(&tv.to_json()), vec!["second", "first"]);
    let back = TableVec::from_json(&tv.to_json()).unwrap();
    assert_eq!(back.0[1].name, "first");
    assert_eq!(back.0[1].url, "a.csv");
    assert!(matches!(
        TableVec::from_json(&parse(r#"{"t": {"path": "x"}}"#)),
        Err(DecodeError::MissingField("url"))
    ));
}

#[test]
fn table_resource_paths_and_update() {
    let mut t = Table { name: "t".to_string(), url: "old.csv".to_string() };
    assert_eq!(t.resource_paths(), vec!["old.csv".to_string()]);
    t.update_resource_paths(&mapping(&[("other.csv", "x.csv")]));
    assert_eq!(t.url, "old.csv");
    t.update_resource_paths(&mapping(&[("old.csv", "new.csv")]));
    assert_eq!(t.url, "new.csv");
    assert_eq!(t.name, "t");
    assert_eq!(TableVec::with_capacity(4).0.len(), 0);
    assert_eq!(ParameterVec::with_capacity(4).0.len(), 0);
}

#[test]
fn node_references_of_parameters() {
    let p = Parameter::from_json(&parse(r#"{"type": "storage", "storage_node": "res"}"#)).unwrap();
    assert_eq!(p.node_references(), vec![("storage_node", "res".to_string())]);
    match &p {
        Parameter::Core(CoreParameter::Storage(s)) => {
            assert_eq!(s.node_references(), vec![("storage_node", "res".to_string())]);
        }
        _ => panic!("expected a storage parameter"),
    }
    let p = Parameter::from_json(&parse(r#"{"type": "deficit", "node": "d"}"#)).unwrap();
    assert_eq!(p.node_references(), vec![("node", "d".to_string())]);
    let p = Parameter::from_json(&parse(r#"{"type": "flow", "node": "f"}"#)).unwrap();
    match &p {
        Parameter::Core(CoreParameter::Flow(x)) => assert_eq!(x.node_references(), vec![("node", "f".to_string())]),
        _ => panic!("expected a flow parameter"),
    }
    let p = Parameter::from_json(&parse(r#"{"type": "tablesarray", "node": "n", "where": "w", "url": "u.h5"}"#)).unwrap();
    assert!(p.node_references().is_empty());
    match &p {
        Parameter::Core(CoreParameter::TablesArray(x)) => assert!(x.node_references().is_empty()),
        _ => panic!("expected a tables array parameter"),
    }
    let p = Parameter::from_json(&parse(r#"{"type": "uniformdrawdownprofile", "reset_day": 1}"#)).unwrap();
    match &p {
        Parameter::Core(CoreParameter::UniformDrawdownProfile(x)) => {
            assert!(x.node_references().is_empty());
            assert_eq!(x.reset_day.as_deref(), Some("1"));
        }
        _ => panic!("expected a drawdown profile"),
    }
}

#[test]
fn aggregated_node_references_its_members() {
    let n = Node::from_json(&parse(r#"{"type": "aggregated", "name": "agg", "nodes": ["a", "b"]}"#)).unwrap();
    assert_eq!(n.name(), "agg");
    assert_eq!(n.node_references(), vec![("nodes", vec!["a".to_string(), "b".to_string()])]);
}

#[test]
fn custom_node_keeps_members() {
    let n = Node::from_json(&parse(r#"{"type": "weir", "name": "w", "crest": 2.5, "position": {"schematic": [1, 2]}}"#))
        .unwrap();
    match &n {
        Node::Custom(c) => {
            assert_eq!(c.ty, "weir");
            assert_eq!(c.attributes.len(), 2);
        }
        _ => panic!("expected a custom node"),
    }
    assert!(n.position().is_some());
    assert!(matches!(Node::from_json(&parse(r#"{"type": "weir"}"#)), Err(DecodeError::MissingField("name"))));
}

#[test]
fn model_lookups() {
    let data = r#"
        {
            "metadata": {"title": "t"},
            "timestepper": {"start": "2015-01-01", "end": "2015-12-31", "timestep": "D"},
            "scenarios": [{"name": "s", "size": 10, "ensemble_names": ["a", "b"]}],
            "nodes": [
                {"type": "input", "name": "in"},
                {"type": "output", "name": "out"}
            ],
            "parameters": {
                "inflow": {"type": "constant", "value": 1},
                "demand": {"type": "dataframe", "url": "inflow_data.csv"}
            },
            "recorders": {"r": {"type": "x"}}
        }
        "#;
    let mut model = PywrModel::from_json(&parse(data)).unwrap();
    assert_eq!(model.get_node_index_by_name("out"), Some(1));
    assert_eq!(model.get_node_by_name("in").unwrap().name(), "in");
    assert!(model.get_node_by_name("nowhere").is_none());
    assert_eq!(model.get_node(0).unwrap().name(), "in");
    assert!(model.get_node(2).is_none());
    assert_eq!(model.get_parameter_index_by_name("demand"), Some(1));
    assert_eq!(model.get_parameter_by_name("inflow").unwrap().ty(), "Constant");
    assert!(model.get_parameter(5).is_none());
    assert_eq!(model.parameter_resource_paths(), vec!["inflow_data.csv".to_string()]);
    assert!(model.table_resource_paths().is_empty());
    model.update_resource_paths(&mapping(&[("inflow_data.csv", "moved/inflow_data.csv")]));
    assert_eq!(model.resource_paths(), vec!["moved/inflow_data.csv".to_string()]);
    assert_eq!(model.scenarios.as_ref().unwrap()[0].size, "10");
    assert!(model.network.recorders.is_some());
}

#[test]
fn model_errors() {
    let r = PywrModel::from_json(&parse(r#"{"timestepper": {"start": "a", "end": "b", "timestep": 1}}"#));
    assert!(matches!(r, Err(DecodeError::MissingField("metadata"))));
    let r = PywrModel::from_json(&parse(r#"{"metadata": {}, "timestepper": {"start": "a", "end": "b"}}"#));
    assert!(matches!(r, Err(DecodeError::MissingField("timestep"))));
    let r = PywrModel::from_json(&parse(
        r#"{"metadata": {}, "timestepper": {"start": "a", "end": "b", "timestep": 1}, "edges": [["only"]]}"#,
    ));
    assert!(matches!(r, Err(DecodeError::EdgeTooShort)));
}

#[test]
fn aggregated_test_aggregated() {
    let data = r#"
            {
                "type": "aggregated",
                "agg_func": "min",
                "comment": "Take the minimum of two parameters",
                "parameters": [
                        {
                            "type": "ControlCurvePiecewiseInterpolated",
                            "storage_node": "Reservoir",
                            "control_curves": [
                                "reservoir_cc",
                                {"type": "constant", "value":  0.2}
                            ],
                            "comment": "A witty comment",
                            "values": [
                                [-0.1, -1.0],
                                [-100, -200],
                                [-300, -400]
                            ],
                            "minimum": 0.05
                        },
                        {
                            "type": "ControlCurvePiecewiseInterpolatedParameter",
                            "storage_node": "Reservoir",
                            "control_curves": [
                                "reservoir_cc",
                                {"type": "constant", "value":  0.2}
                            ],
                            "comment": "A witty comment",
                            "values": [
                                [-0.1, -1.0],
                                [-100, -200],
                                [-300, -400]
                            ],
                            "minimum": 0.05
                        }
                ]
            }
            "#;

    let param = match Parameter::from_json(&parse(data)).unwrap() {
        Parameter::Core(CoreParameter::Aggregated(p)) => p,
        _ => panic!("Expected an aggregated parameter."),
    };

    assert_eq!(param.node_references().len(), 0);
    assert_eq!(param.parameters().len(), 1);
    let mut fields = param.parameters();
    let (name, field) = fields.remove(0);
    assert_eq!(name, "parameters");
    match field {
        ParameterValueType::List(children) => {
            assert_eq!(children.len(), 2);
            for p in children {
                match p {
                    ParameterValue::Inline(p) => match p.as_ref() {
                        Parameter::Core(p) => match p {
                            CoreParameter::ControlCurvePiecewiseInterpolated(p) => assert_eq!(
                                p.node_references().into_iter().find(|(k, _)| *k == "storage_node").map(|(_, v)| v),
                                Some("Reservoir".to_string())
                            ),
                            _ => panic!("Incorrect core parameter deserialized."),
                        },
                        _ => panic!("Non-core parameter was deserialized."),
                    },
                    _ => panic!("Wrong variant for child parameter."),
                }
            }
        }
        _ => panic!("Wrong variant for parameters."),
    };
}

#[test]
fn control_curve_values_are_pairs() {
    let ok = r#"{"type": "controlcurvepiecewiseinterpolated", "storage_node": "r", "values": [[1, 2], [3, 4]]}"#;
    match Parameter::from_json(&parse(ok)).unwrap() {
        Parameter::Core(CoreParameter::ControlCurvePiecewiseInterpolated(p)) => {
            assert_eq!(p.values, Some(vec![("1".to_string(), "2".to_string()), ("3".to_string(), "4".to_string())]));
        }
        _ => panic!("expected a control curve parameter"),
    }
    let bad = r#"{"type": "controlcurvepiecewiseinterpolated", "storage_node": "r", "values": [[1, 2, 3]]}"#;
    assert!(Parameter::from_json(&parse(bad)).unwrap().is_custom());
}

#[test]
fn parameter_fields_by_attribute() {
    let p = Parameter::from_json(&parse(
        r#"{"type": "indexedarray", "index_parameter": "idx", "parameters": [1, 2]}"#,
    ))
    .unwrap();
    let fields = p.parameters();
    assert_eq!(fields.len(), 2);
    assert_eq!(fields[0].0, "parameters");
    assert!(matches!(fields[0].1, ParameterValueType::List(v) if v.len() == 2));
    assert_eq!(fields[1].0, "index_parameter");
    assert!(matches!(fields[1].1, ParameterValueType::Single(ParameterValue::Reference(s)) if s == "idx"));
    let custom = Parameter::from_json(&parse(r#"{"type": "mystery", "parameter": "x"}"#)).unwrap();
    assert!(custom.parameters().is_empty());
}

#[test]
fn node_fields_and_type() {
    let n = Node::from_json(&parse(r#"{"type": "storage", "name": "s", "max_volume": 10, "cost": "c"}"#)).unwrap();
    assert_eq!(n.node_type(), "storage");
    let names: Vec<&str> = n.parameters().iter().map(|(k, _)| *k).collect();
    assert_eq!(names, vec!["max_volume", "cost"]);
    let river = Node::from_json(&parse(r#"{"type": "river", "name": "r"}"#)).unwrap();
    assert_eq!(river.node_type(), "river");
}

#[test]
fn node_round_trip() {
    let data = r#"{"type": "Aggregated", "name": "agg", "comment": "c", "position": {"schematic": [1.5, 2]},
        "nodes": ["a", "b"], "max_flow": {"type": "dataframe", "url": "f.csv"}, "factors": [1, "p"]}"#;
    let n = Node::from_json(&parse(data)).unwrap();
    let again = Node::from_json(&n.to_json()).unwrap();
    assert_eq!(again.name(), "agg");
    assert_eq!(again.node_type(), "aggregated");
    assert_eq!(again.resource_paths(), vec!["f.csv".to_string()]);
    assert_eq!(again.node_references(), vec![("nodes", vec!["a".to_string(), "b".to_string()])]);
    assert!(again.position().is_some());
    match again {
        Node::Core(CoreNode::Aggregated(x)) => assert_eq!(x.factors.map(|f| f.len()), Some(2)),
        _ => panic!("expected an aggregated node"),
    }
    let custom = Node::from_json(&parse(r#"{"type": "weir", "name": "w", "crest": 2}"#)).unwrap();
    assert_eq!(keys(&custom.to_json()), vec!["type", "name", "crest"]);
}

#[test]
fn custom_types_are_listed_once() {
    let data = r#"
        {
            "nodes": [
                {"type": "weir", "name": "a"},
                {"type": "input", "name": "b"},
                {"type": "weir", "name": "c"},
                {"type": "gate", "name": "d"}
            ],
            "parameters": {
                "p": {"type": "mystery"},
                "q": {"type": "constant", "value": 1}
            }
        }
        "#;
    let net = pywr_schema::model::PywrNetwork::from_json(&parse(data)).unwrap();
    assert_eq!(sorted(net.custom_node_types()), vec!["gate".to_string(), "weir".to_string()]);
    assert_eq!(net.custom_parameter_types(), vec!["mystery".to_string()]);
}

#[test]
fn scenario_slices() {
    let base = |slice: &str| {
        format!(
            r#"{{"metadata": {{}}, "timestepper": {{"start": "a", "end": "b", "timestep": 1}},
                "scenarios": [{{"name": "s", "size": 4, "slice": {}}}]}}"#,
            slice
        )
    };
    let m = PywrModel::from_json(&parse(&base("[0, null]"))).unwrap();
    assert_eq!(m.scenarios.unwrap()[0].slice, Some(vec![Some("0".to_string()), None]));
    assert!(PywrModel::from_json(&parse(&base("[0, 1, 2]"))).is_ok());
    assert!(matches!(PywrModel::from_json(&parse(&base("[0]"))), Err(DecodeError::InvalidField("slice"))));
    assert!(matches!(PywrModel::from_json(&parse(&base("[0, 1, 2, 3]"))), Err(DecodeError::InvalidField("slice"))));
}

fn numbers(v: &Option<Vec<String>>) -> Option<Vec<f64>> {
    v.as_ref().map(|v| v.iter().map(|s| s.parse::<f64>().expect("a number")).collect())
}

fn constant(v: &ParameterValue) -> f64 {
    match v {
        ParameterValue::Constant(s) => s.parse::<f64>().expect("a number"),
        _ => panic!("Threshold is not a constant"),
    }
}

fn core_parameter(data: &str) -> CoreParameter {
    match Parameter::from_json(&parse(data)).unwrap() {
        Parameter::Core(c) => c,
        Parameter::Custom(c) => panic!("Decoded as a custom parameter of type {}", c.ty),
    }
}

#[test]
fn test_param() {
    let data = r#"
            {
                "type": "parameterthreshold",
                "parameter": "Param1",
                "threshold": 5.0,
                "predicate": ">=",
                "values": [
                    2.0,
                    0
                ]
            }
            "#;
    let param = match core_parameter(data) {
        CoreParameter::ParameterThreshold(p) => p,
        _ => panic!("Expected a parameter threshold."),
    };

    match param.predicate {
        Predicate::GE => {}
        _ => panic!("Predicate is not correct"),
    }

    match &param.parameter {
        ParameterValue::Reference(val) => {
            assert_eq!(val, "Param1");
        }
        _ => panic!("Parameter is not a reference"),
    }

    assert_eq!(constant(&param.threshold), 5.0);
    assert_eq!(numbers(&param.values), Some(vec![2.0, 0.0]));
}

#[test]
fn test_node() {
    let data = r#"
            {
                "type": "nodethreshold",
                "node": "Gauge1",
                "threshold": 5.0,
                "values": [
                    2.0,
                    0
                ]
            }
            "#;
    let param = match core_parameter(data) {
        CoreParameter::NodeThreshold(p) => p,
        _ => panic!("Expected a node threshold."),
    };

    match param.predicate {
        Predicate::LT => {}
        _ => panic!("Predicate is not correct"),
    }

    assert_eq!(param.node, "Gauge1");
    assert_eq!(constant(&param.threshold), 5.0);
    assert_eq!(numbers(&param.values), Some(vec![2.0, 0.0]));
}

#[test]
fn test_storage() {
    let data = r#"
            {
                "type": "storagethreshold",
                "storage_node": "Res1",
                "threshold": 1000.0,
                "predicate": ">",
                "values": [
                    10.0,
                    0
                ]
            }
            "#;
    let param = match core_parameter(data) {
        CoreParameter::StorageThreshold(p) => p,
        _ => panic!("Expected a storage threshold."),
    };

    match param.predicate {
        Predicate::GT => {}
        _ => panic!("Predicate is not correct"),
    }

    assert_eq!(param.storage_node, "Res1");
    assert_eq!(constant(&param.threshold), 1000.0);
    assert_eq!(numbers(&param.values), Some(vec![10.0, 0.0]));
}

#[test]
fn test_multi_thresholds() {
    let data = r#"
            {
                "type": "multiplethresholdindex",
                "node": "Gauge1",
                "thresholds": [2.0, 7.0]
            }
            "#;
    let param = match core_parameter(data) {
        CoreParameter::MultipleThresholdIndex(p) => p,
        _ => panic!("Expected a multiple threshold index."),
    };

    assert_eq!(param.node, "Gauge1");
    assert_eq!(constant(&param.thresholds[0]), 2.0);
    assert_eq!(constant(&param.thresholds[1]), 7.0);
}

#[test]
fn test_multi_thresholds_param() {
    let data = r#"
            {
                "type": "multiplethresholdparameterindex",
                "parameter": "Param1",
                "thresholds": [2.0, 7.0]
            }
            "#;
    let param = match core_parameter(data) {
        CoreParameter::MultipleThresholdParameterIndex(p) => p,
        _ => panic!("Expected a multiple threshold parameter index."),
    };

    match &param.parameter {
        ParameterValue::Reference(val) => {
            assert_eq!(val, "Param1");
        }
        _ => panic!("Parameter is not a reference"),
    }
    assert_eq!(constant(&param.thresholds[0]), 2.0);
    assert_eq!(constant(&param.thresholds[1]), 7.0);
}

#[test]
fn test_current_year() {
    let data = r#"
            {
                "type": "currentyearthreshold",
                "threshold": 5.0,
                "values": [
                    2.0,
                    0
                ]
            }
            "#;
    let param = match core_parameter(data) {
        CoreParameter::CurrentYearThreshold(p) => p,
        _ => panic!("Expected a current year threshold."),
    };

    match param.predicate {
        Predicate::LT => {}
        _ => panic!("Predicate is not correct"),
    }
    assert_eq!(constant(&param.threshold), 5.0);
    assert_eq!(numbers(&param.values), Some(vec![2.0, 0.0]));
}

#[test]
fn test_current_ordinal_day() {
    let data = r#"
            {
                "type": "currentordinaldaythreshold",
                "threshold": 5.0,
                "values": [
                    2.0,
                    0
                ]
            }
            "#;
    let param = match core_parameter(data) {
        CoreParameter::CurrentOrdinalDayThreshold(p) => p,
        _ => panic!("Expected a current ordinal day threshold."),
    };

    match param.predicate {
        Predicate::LT => {}
        _ => panic!("Predicate is not correct"),
    }
    assert_eq!(constant(&param.threshold), 5.0);
    assert_eq!(numbers(&param.values), Some(vec![2.0, 0.0]));
}

#[test]
fn predicates_by_name_and_symbol() {
    for (text, expected) in [("LT", Predicate::LT), ("<=", Predicate::LE), ("EQ", Predicate::EQ), ("==", Predicate::EQ)] {
        let data = format!(r#"{{"type": "currentyearthreshold", "threshold": 1, "predicate": "{}"}}"#, text);
        match core_parameter(&data) {
            CoreParameter::CurrentYearThreshold(p) => assert_eq!(p.predicate, expected),
            _ => panic!("Expected a current year threshold."),
        }
    }
    let bad = r#"{"type": "currentyearthreshold", "threshold": 1, "predicate": "~"}"#;
    assert!(Parameter::from_json(&parse(bad)).unwrap().is_custom());
}

#[test]
fn monthly_profile_needs_twelve_values() {
    let twelve = r#"{"type": "monthlyprofile", "interp_day": "first", "values": [1,2,3,4,5,6,7,8,9,10,11,12]}"#;
    match core_parameter(twelve) {
        CoreParameter::MonthlyProfile(p) => {
            assert_eq!(p.interp_day, Some(MonthInterpDay::First));
            assert_eq!(p.values.map(|v| v.len()), Some(12));
        }
        _ => panic!("Expected a monthly profile."),
    }
    let eleven = r#"{"type": "monthlyprofile", "values": [1,2,3,4,5,6,7,8,9,10,11]}"#;
    assert!(Parameter::from_json(&parse(eleven)).unwrap().is_custom());
}

#[test]
fn aggregated_index_functions() {
    match core_parameter(r#"{"type": "AggregatedIndexParameter", "agg_func": "any", "parameters": ["a", "b"]}"#) {
        CoreParameter::AggregatedIndex(p) => {
            assert_eq!(p.agg_func, IndexAggFunc::Any);
            assert_eq!(p.parameters.len(), 2);
        }
        _ => panic!("Expected an aggregated index parameter."),
    }
    let p = Parameter::from_json(&parse(r#"{"type": "min", "parameter": {"type": "dataframe", "url": "m.csv"}}"#)).unwrap();
    assert_eq!(p.ty(), "Min");
    assert_eq!(p.resource_paths(), vec!["m.csv".to_string()]);
    let again = Parameter::from_json(&p.to_json()).unwrap();
    assert_eq!(again.ty(), "Min");
}

#[test]
fn virtual_storage_test_annual_virtual_storage() {
    let data = r#"
            {
              "type": "annualvirtualstorage",
              "name": "Scales AL",
              "max_volume": 365,
              "nodes": [
                "Scales BHs"
              ],
              "initial_volume": 365
            }
            "#;
    let node = match Node::from_json(&parse(data)).unwrap() {
        Node::Core(CoreNode::AnnualVirtualStorage(n)) => n,
        _ => panic!("Expected an annual virtual storage node."),
    };
    assert_eq!(node.meta.name, "Scales AL");
}

#[test]
fn virtual_storage_defaults() {
    assert_eq!(default_reset_day(), 1);
    assert_eq!(default_reset_month(), 1);
    assert_eq!(default_months(), 1);
    assert_eq!(default_initial_months(), 1);
    assert_eq!(default_end_day(), 31);
    assert_eq!(default_end_month(), 12);
    match Node::from_json(&parse(r#"{"type": "seasonalvirtualstorage", "name": "s", "nodes": []}"#)).unwrap() {
        Node::Core(CoreNode::SeasonalVirtualStorage(n)) => {
            assert_eq!((n.reset_day, n.reset_month, n.end_day, n.end_month), (1, 1, 31, 12));
            assert!(!n.reset_to_initial_volume);
        }
        _ => panic!("Expected a seasonal virtual storage node."),
    }
    match Node::from_json(&parse(r#"{"type": "monthlyvirtualstorage", "name": "m", "nodes": ["a"], "months": 3}"#)).unwrap() {
        Node::Core(CoreNode::MonthlyVirtualStorage(n)) => assert_eq!((n.months, n.initial_months), (3, 1)),
        _ => panic!("Expected a monthly virtual storage node."),
    }
}

#[test]
fn virtual_storage_rejects_bad_months() {
    let n = Node::from_json(&parse(r#"{"type": "annualvirtualstorage", "name": "a", "nodes": [], "reset_month": 13}"#)).unwrap();
    assert!(matches!(n, Node::Custom(_)));
    let n = Node::from_json(&parse(r#"{"type": "annualvirtualstorage", "name": "a", "nodes": [], "reset_day": 1.5}"#)).unwrap();
    assert!(matches!(n, Node::Custom(_)));
}

#[test]
fn virtual_storage_round_trip_and_references() {
    let data = r#"{"type": "AnnualVirtualStorage", "name": "v", "nodes": ["x", "y"], "factors": [1, 0.5],
        "max_volume": {"type": "dataframe", "url": "vol.csv"}, "reset_day": 15, "reset_month": 10,
        "reset_to_initial_volume": true}"#;
    let n = Node::from_json(&parse(data)).unwrap();
    assert_eq!(n.node_references(), vec![("nodes", vec!["x".to_string(), "y".to_string()])]);
    assert_eq!(n.resource_paths(), vec!["vol.csv".to_string()]);
    let again = Node::from_json(&n.to_json()).unwrap();
    match again {
        Node::Core(CoreNode::AnnualVirtualStorage(x)) => {
            assert_eq!((x.reset_day, x.reset_month, x.reset_to_initial_volume), (15, 10, true));
            assert_eq!(x.factors, Some(vec!["1".to_string(), "0.5".to_string()]));
        }
        _ => panic!("Expected an annual virtual storage node."),
    }
}

#[test]
fn small_numbers_read_and_written() {
    assert_eq!(read_small_number("0"), Some(0));
    assert_eq!(read_small_number("255"), Some(255));
    assert_eq!(read_small_number("256"), None);
    assert_eq!(read_small_number("12a"), None);
    assert_eq!(read_small_number(""), None);
    assert_eq!(read_small_number("-1"), None);
    assert_eq!(small_number_text(0), "0");
    assert_eq!(small_number_text(7), "7");
    assert_eq!(small_number_text(31), "31");
    assert_eq!(small_number_text(200), "200");
    assert_eq!(small_number_text(255), "255");
}

#[test]
fn whole_document_round_trip() {
    let data = r#"
        {
            "metadata": {"title": "T", "minimum_version": "0.1"},
            "timestepper": {"start": "2015-01-01", "end": "2015-12-31", "timestep": 7},
            "scenarios": [{"name": "s", "size": 3, "slice": [0, null], "ensemble_names": ["a", "b", "c"]}],
            "nodes": [
                {"type": "input", "name": "in", "max_flow": {"type": "dataframe", "url": "in.csv"}},
                {"type": "output", "name": "out", "cost": -10}
            ],
            "edges": [["in", "out"], ["in", "out", "a", null]],
            "parameters": {
                "later": {"type": "constant", "value": 4},
                "earlier": {"type": "monthlyprofile", "values": [1,2,3,4,5,6,7,8,9,10,11,12]}
            },
            "tables": {"t": {"url": "t.csv"}},
            "recorders": {"r": {"type": "numpyarraynoderecorder", "node": "out"}}
        }
        "#;
    let model = PywrModel::from_json(&parse(data)).unwrap();
    let j = model.to_json().unwrap();
    assert_eq!(
        keys(&j),
        vec!["metadata", "timestepper", "scenarios", "nodes", "edges", "parameters", "tables", "recorders"]
    );
    let back = PywrModel::from_json(&j).unwrap();
    assert_eq!(back.metadata.title.as_deref(), Some("T"));
    assert_eq!(back.scenarios.as_ref().unwrap()[0].slice, Some(vec![Some("0".to_string()), None]));
    assert_eq!(back.network.nodes.as_ref().unwrap().len(), 2);
    let edges = back.network.edges.as_ref().unwrap();
    assert_eq!(edges[1].from_slot, Some(Some("a".to_string())));
    assert_eq!(edges[1].to_slot, Some(None));
    let names: Vec<&str> = back.network.parameters.as_ref().unwrap().0.iter().map(|p| p.name().unwrap()).collect();
    assert_eq!(names, vec!["later", "earlier"]);
    assert_eq!(sorted(back.resource_paths()), vec!["in.csv".to_string(), "t.csv".to_string()]);
}

#[test]
fn network_encoding_needs_parameter_names() {
    let p = Parameter::from_json(&parse(r#"{"type": "constant", "value": 2}"#)).unwrap();
    let net = pywr_schema::model::PywrNetwork {
        nodes: None,
        edges: None,
        parameters: Some(ParameterVec(vec![p])),
        tables: None,
        recorders: None,
    };
    assert!(matches!(net.to_json(), Err(DecodeError::MissingName)));
}

#[test]
fn test_control_curve_piecewise_interpolated() {
    let data = r#"
            {
                "type": "ControlCurvePiecewiseInterpolatedParameter",
                "storage_node": "Reservoir",
                "control_curves": [
                    "reservoir_cc",
                    {"type": "constant", "value":  0.2}
                ],
                "comment": "A witty comment",
                "values": [
                    [-0.1, -1.0],
                    [-100, -200],
                    [-300, -400]
                ],
                "minimum": 0.05
            }
            "#;

    let parsed = match Parameter::from_json(&parse(data)).unwrap() {
        Parameter::Core(c) => c,
        _ => panic!("Expected a core parameter."),
    };
    let param = match &parsed {
        CoreParameter::ControlCurvePiecewiseInterpolated(p) => p,
        _ => panic!("Expected a piecewise interpolated control curve."),
    };

    assert_eq!(param.node_references().len(), 1);
    assert_eq!(
        param.node_references().into_iter().find(|(k, _)| *k == "storage_node").map(|(_, v)| v),
        Some("Reservoir".to_string())
    );

    assert_eq!(parsed.parameters().len(), 1);
    match parsed.parameters().into_iter().find(|(k, _)| *k == "control_curves").map(|(_, v)| v).unwrap() {
        ParameterValueType::List(p) => assert_eq!(p.len(), 2),
        _ => panic!("Wrong variant for control_curves."),
    };
}

#[test]
fn custom_map_entry_keeps_its_name_member() {
    let ps = ParameterVec::from_json(&parse(r#"{"k": {"type": "mystery", "name": "inner", "comment": "c", "x": 1}}"#)).unwrap();
    match &ps.0[0] {
        Parameter::Custom(c) => {
            assert_eq!(c.meta.name.as_deref(), Some("k"));
            assert_eq!(c.meta.comment.as_deref(), Some("c"));
            let names: Vec<&str> = c.attributes.iter().map(|(k, _)| k.as_str()).collect();
            assert_eq!(names, vec!["name", "x"]);
        }
        _ => panic!("expected a custom parameter"),
    }
    let only = ParameterVec::from_json(&parse(r#"{"k": {"type": "mystery", "name": "inner"}}"#)).unwrap();
    match &only.0[0] {
        Parameter::Custom(c) => assert_eq!(c.attributes.len(), 1),
        _ => panic!("expected a custom parameter"),
    }
}

#[test]
fn custom_map_entry_round_trip() {
    let data = r#"{"k": {"type": "mystery", "comment": "c", "x": 1, "y": [true]}}"#;
    let ps = ParameterVec::from_json(&parse(data)).unwrap();
    let j = ps.to_json().unwrap();
    match &j {
        JsonValue::Object(entries) => assert_eq!(keys(&entries[0].1), vec!["type", "comment", "x", "y"]),
        _ => panic!("expected an object"),
    }
    let back = ParameterVec::from_json(&j).unwrap();
    match &back.0[0] {
        Parameter::Custom(c) => {
            assert_eq!(c.ty, "mystery");
            assert_eq!(c.meta.name.as_deref(), Some("k"));
            let names: Vec<&str> = c.attributes.iter().map(|(k, _)| k.as_str()).collect();
            assert_eq!(names, vec!["x", "y"]);
        }
        _ => panic!("expected a custom parameter"),
    }
}

#[test]
fn node_types_are_lower_case() {
    for (tag, expected) in [("INPUT", "input"), ("Input", "input"), ("input", "input"), ("Link", "link"),
        ("river", "river"), ("AnnualVirtualStorage", "annualvirtualstorage")] {
        let text = format!(r#"{{"type": "{}", "name": "a", "nodes": []}}"#, tag);
        let n = Node::from_json(&parse(&text)).unwrap();
        assert_eq!(n.node_type(), expected);
        assert_eq!(n.name(), "a");
    }
    let n = Node::from_json(&parse(r#"{"type": "river", "name": "r"}"#)).unwrap();
    assert!(matches!(n, Node::Core(CoreNode::River(_))));
}

#[test]
fn writable_parameter_handles() {
    let mut p = Parameter::from_json(&parse(r#"{"type": "indexedarray", "index_parameter": "idx", "parameters": [1]}"#)).unwrap();
    {
        let mut handles = p.parameters_mut();
        let keys: Vec<&str> = handles.iter().map(|(k, _)| *k).collect();
        assert_eq!(keys, vec!["parameters", "index_parameter"]);
        if let ParameterValueTypeMut::Single(v) = &mut handles[1].1 {
            **v = ParameterValue::Reference("other".to_string());
        }
    }
    match &p {
        Parameter::Core(CoreParameter::IndexedArray(a)) => {
            assert!(matches!(&a.index_parameter, ParameterValue::Reference(s) if s == "other"))
        }
        _ => panic!("expected an indexed array"),
    }
    let mut n = Node::from_json(&parse(r#"{"type": "output", "name": "o", "cost": 3}"#)).unwrap();
    let keys: Vec<&str> = n.parameters_mut().iter().map(|(k, _)| *k).collect();
    assert_eq!(keys, vec!["cost"]);
}
