use vstd::prelude::*;
use crate::json::{JsonValue, DecodeError, member, member_index, lemma_member_unfold, lemma_member_index_bounds,
    first_error, lemma_first_error_at, lemma_first_error_none};
use crate::parameters::{Parameter, CustomParameter, ParameterMeta, parameter_err, parameter_ok, meta_spec, core_kind,
    core_err, attributes_of, is_identity_key, json_alike};
use crate::tags::parameter_kind_of_tag;
use crate::decode::{decode_parameter_fields, lemma_json_alike_symmetric};
use crate::encode::{lemma_literals, encode_parameter_fields, parameter_encodable, encode_custom_entry, custom_entry_encodes};
use crate::network::parameter_name;

verus! {

/// The parameters of a document, in document order. An entry whose key
/// repeats an earlier one is kept as a parameter of its own; looking a name
/// up finds the first.
pub struct ParameterVec(pub Vec<Parameter>);

impl ParameterVec {
    pub fn with_capacity(capacity: usize) -> (r: ParameterVec)
        ensures
            r.0@.len() == 0,
    {
        ParameterVec(Vec::with_capacity(capacity))
    }
}

/// Why one entry of the parameter map does not decode, if it does not.
pub open spec fn parameter_entry_err(e: (String, JsonValue)) -> Option<DecodeError> {
    match e.1 {
        JsonValue::Object(f) => parameter_err(f@, Some(e.0)),
        _ => Some(DecodeError::NotAnObject),
    }
}

pub open spec fn parameter_check() -> spec_fn((String, JsonValue)) -> Option<DecodeError> {
    |e: (String, JsonValue)| parameter_entry_err(e)
}

/// `p` is what one entry of the parameter map decodes to: its body, with the
/// key standing for its name.
pub open spec fn parameter_entry_ok(e: (String, JsonValue), p: Parameter) -> bool {
    match e.1 {
        JsonValue::Object(f) => parameter_ok(f@, Some(e.0), p),
        _ => false,
    }
}

pub open spec fn parameters_err(s: Seq<(String, JsonValue)>) -> Option<DecodeError> {
    first_error(s, parameter_check())
}

/// `p` is what the entries `s` of the parameter map decode to, one for one and in order.
pub open spec fn parameters_ok(s: Seq<(String, JsonValue)>, p: Seq<Parameter>) -> bool {
    s.len() == p.len() && forall|i: int| 0 <= i < s.len() ==> parameter_entry_ok(#[trigger] s[i], p[i])
}

impl ParameterVec {
    /// Decodes the map of parameters. Each entry becomes a built-in parameter
    /// where its tag names a kind and its members fit it, else a custom one;
    /// the key is its name. Document order is kept.
    pub fn from_json(j: &JsonValue) -> (r: Result<ParameterVec, DecodeError>)
        ensures
            match *j {
                JsonValue::Object(s) => match r {
                    Ok(p) => parameters_err(s@) is None && parameters_ok(s@, p.0@),
                    Err(e) => parameters_err(s@) == Some(e),
                },
                _ => r == Err::<ParameterVec, DecodeError>(DecodeError::NotAnObject),
            },
    {
        let s = match j {
            JsonValue::Object(s) => s,
            _ => return Err(DecodeError::NotAnObject),
        };
        let ghost f = parameter_check();
        let mut out: Vec<Parameter> = Vec::with_capacity(s.len());
        let mut i: usize = 0;
        while i < s.len()
            invariant
                i <= s@.len(),
                out@.len() == i,
                *j == JsonValue::Object(*s),
                f == parameter_check(),
                forall|k: int| 0 <= k < i ==> f(#[trigger] s@[k]) is None,
                forall|k: int| 0 <= k < i ==> parameter_entry_ok(#[trigger] s@[k], out@[k]),
            decreases s.len() - i,
        {
            proof { assert(f(s@[i as int]) == parameter_entry_err(s@[i as int])); }
            match &s[i].1 {
                JsonValue::Object(fields) => {
                    let name = Some(s[i].0.clone());
                    match decode_parameter_fields(fields, &name) {
                        Ok(p) => out.push(p),
                        Err(e) => {
                            proof { lemma_first_error_at(s@, f, i as int); }
                            return Err(e);
                        },
                    }
                },
                _ => {
                    proof { lemma_first_error_at(s@, f, i as int); }
                    return Err(DecodeError::NotAnObject);
                },
            }
            i = i + 1;
        }
        proof { lemma_first_error_none(s@, f); }
        Ok(ParameterVec(out))
    }
}

/// `e` is the encoding of the parameters `ps`: one entry per parameter, in
/// order, keyed by its name, holding its members. The body of a custom
/// parameter is its tag and comment, then its attributes as they were: its
/// name is the key.
pub open spec fn parameters_encode(ps: Seq<Parameter>, e: Seq<(String, JsonValue)>) -> bool {
    ps.len() == e.len() && forall|i: int| 0 <= i < ps.len() ==> {
        &&& parameter_name(#[trigger] ps[i]) == Some(e[i].0)
        &&& e[i].1 is Object
        &&& parameter_encodable(ps[i]) ==> parameter_ok(e[i].1->Object_0@, None, ps[i])
        &&& ps[i] is Custom ==> custom_entry_encodes(ps[i]->Custom_0, e[i].1->Object_0@)
    }
}

fn name_of(p: &Parameter) -> (r: Option<String>)
    ensures
        r == parameter_name(*p),
{
    let meta = match p {
        Parameter::Core(c) => c.meta(),
        Parameter::Custom(c) => &c.meta,
    };
    match &meta.name {
        Some(n) => Some(n.clone()),
        None => None,
    }
}

impl ParameterVec {
    /// Encodes the parameters as a map keyed by name, in order. Every
    /// parameter needs a name for that: the first that has none is an error.
    pub fn to_json(&self) -> (r: Result<JsonValue, DecodeError>)
        ensures
            match r {
                Ok(j) => j is Object && parameters_encode(self.0@, j->Object_0@),
                Err(e) => e == DecodeError::MissingName && exists|i: int|
                    0 <= i < self.0@.len() && parameter_name(#[trigger] self.0@[i]) is None,
            },
            (forall|i: int| 0 <= i < self.0@.len() ==> parameter_name(#[trigger] self.0@[i]) is Some) ==> r is Ok,
    {
        let mut out: Vec<(String, JsonValue)> = Vec::new();
        let mut i: usize = 0;
        while i < self.0.len()
            invariant
                i <= self.0@.len(),
                parameters_encode(self.0@.subrange(0, i as int), out@),
            decreases self.0.len() - i,
        {
            let p = &self.0[i];
            match name_of(p) {
                Some(n) => {
                    let f = match p {
                        Parameter::Custom(c) => encode_custom_entry(c),
                        Parameter::Core(_) => encode_parameter_fields(p),
                    };
                    out.push((n, JsonValue::Object(f)));
                },
                None => return Err(DecodeError::MissingName),
            }
            proof {
                let next = self.0@.subrange(0, i + 1);
                assert forall|k: int| 0 <= k < next.len() implies #[trigger] next[k] == (if k < i {
                    self.0@.subrange(0, i as int)[k]
                } else {
                    *p
                }) by {}
            }
            i = i + 1;
        }
        assert(self.0@.subrange(0, self.0@.len() as int) =~= self.0@);
        Ok(JsonValue::Object(out))
    }
}

/// Decoding gives every entry the name that is its key.
pub proof fn lemma_entry_named(e: (String, JsonValue), p: Parameter)
    requires
        parameter_entry_ok(e, p),
    ensures
        parameter_name(p) == Some(e.0),
{
}

/// Order preservation: decoding a map of parameters and encoding the result
/// writes the document's keys back in their order.
pub proof fn lemma_parameters_order(s: Seq<(String, JsonValue)>, ps: Seq<Parameter>, e: Seq<(String, JsonValue)>)
    requires
        parameters_ok(s, ps),
        parameters_encode(ps, e),
    ensures
        e.len() == s.len(),
        forall|i: int| 0 <= i < s.len() ==> (#[trigger] e[i]).0 == s[i].0,
{
    assert forall|i: int| 0 <= i < s.len() implies (#[trigger] e[i]).0 == s[i].0 by {
        lemma_entry_named(s[i], ps[i]);
    }
}

/// Decoding with the key as the name changes nothing where the members already carry that name.
pub proof fn lemma_named_body(f: Seq<(String, JsonValue)>, k: String, p: Parameter)
    requires
        parameter_ok(f, None, p),
        p is Core,
        parameter_name(p) == Some(k),
    ensures
        parameter_err(f, Some(k)) is None,
        parameter_ok(f, Some(k), p),
{
    assert(meta_spec(f, Some(k)) == meta_spec(f, None));
    match core_kind(f, None) {
        Some(kind) => {
            assert(core_err(kind, f, Some(k)) == core_err(kind, f, None));
            assert(core_kind(f, Some(k)) == Some(kind));
        },
        None => {},
    }
}

/// Round trip of the parameter map: decoding the encoding of named built-in
/// parameters gives the same parameters back, in the same order.
pub proof fn lemma_parameters_round_trip(ps: Seq<Parameter>, e: Seq<(String, JsonValue)>)
    requires
        parameters_encode(ps, e),
        forall|i: int| 0 <= i < ps.len() ==> parameter_encodable(#[trigger] ps[i]),
    ensures
        parameters_err(e) is None,
        parameters_ok(e, ps),
{
    let c = parameter_check();
    assert forall|i: int| 0 <= i < e.len() implies c(#[trigger] e[i]) is None && parameter_entry_ok(e[i], ps[i]) by {
        assert(parameter_encodable(ps[i]));
        lemma_named_body(e[i].1->Object_0@, e[i].0, ps[i]);
    }
    lemma_first_error_none(e, c);
}

/// Looking a key up in `a + b` finds it in `a` first, else in `b`.
proof fn lemma_member_concat(a: Seq<(String, JsonValue)>, b: Seq<(String, JsonValue)>, key: Seq<char>)
    ensures
        member(a + b, key) == (match member(a, key) {
            Some(x) => Some(x),
            None => member(b, key),
        }),
    decreases a.len(),
{
    if a.len() == 0 {
        assert(a + b =~= b);
    } else {
        lemma_member_unfold(a + b, key);
        lemma_member_unfold(a, key);
        assert((a + b)[0] == a[0]);
        assert((a + b).drop_first() =~= a.drop_first() + b);
        lemma_member_concat(a.drop_first(), b, key);
    }
}

proof fn lemma_attributes_concat(a: Seq<(String, JsonValue)>, b: Seq<(String, JsonValue)>, keep_name: bool)
    ensures
        attributes_of(a + b, keep_name) == attributes_of(a, keep_name) + attributes_of(b, keep_name),
    decreases b.len(),
{
    if b.len() == 0 {
        assert(a + b =~= a);
        assert(attributes_of(a, keep_name) + Seq::<(String, JsonValue)>::empty() =~= attributes_of(a, keep_name));
    } else {
        assert((a + b).drop_last() =~= a + b.drop_last());
        assert((a + b).last() == b.last());
        lemma_attributes_concat(a, b.drop_last(), keep_name);
        assert(attributes_of(a, keep_name) + attributes_of(b.drop_last(), keep_name).push(b.last())
            =~= (attributes_of(a, keep_name) + attributes_of(b.drop_last(), keep_name)).push(b.last()));
    }
}

/// Members whose keys are all identity keys leave no attributes; members
/// with none leave all of themselves.
proof fn lemma_attributes_all_or_none(a: Seq<(String, JsonValue)>, keep_name: bool)
    ensures
        (forall|i: int| 0 <= i < a.len() ==> is_identity_key(#[trigger] a[i].0@, keep_name))
            ==> attributes_of(a, keep_name) == Seq::<(String, JsonValue)>::empty(),
        (forall|i: int| 0 <= i < a.len() ==> !is_identity_key(#[trigger] a[i].0@, keep_name))
            ==> attributes_of(a, keep_name) == a,
    decreases a.len(),
{
    if a.len() > 0 {
        let t = a.drop_last();
        lemma_attributes_all_or_none(t, keep_name);
        if forall|i: int| 0 <= i < a.len() ==> is_identity_key(#[trigger] a[i].0@, keep_name) {
            assert forall|i: int| 0 <= i < t.len() implies is_identity_key(#[trigger] t[i].0@, keep_name) by {
                assert(t[i] == a[i]);
            }
        }
        if forall|i: int| 0 <= i < a.len() ==> !is_identity_key(#[trigger] a[i].0@, keep_name) {
            assert forall|i: int| 0 <= i < t.len() implies !is_identity_key(#[trigger] t[i].0@, keep_name) by {
                assert(t[i] == a[i]);
            }
            assert(t.push(a.last()) =~= a);
        }
    }
}

/// Round trip of a custom entry of a named map: decoding the body written for
/// a custom parameter, with its name as the key, gives it back, wherever its
/// tag names no built-in kind and no attribute is named `type` or `comment`.
pub proof fn lemma_custom_entry_round_trip(c: CustomParameter, k: String, f: Seq<(String, JsonValue)>)
    requires
        custom_entry_encodes(c, f),
        c.meta.name == Some(k),
        parameter_kind_of_tag(c.ty@) is None,
        forall|i: int| 0 <= i < c.attributes@.len() ==> !is_identity_key(#[trigger] c.attributes@[i].0@, true),
    ensures
        parameter_err(f, Some(k)) is None,
        parameter_ok(f, Some(k), Parameter::Custom(c)),
{
    lemma_literals();
    let n = f.len() - c.attributes@.len();
    let g = f.subrange(0, n);
    let t = f.subrange(n, f.len() as int);
    assert(f =~= g + t);
    lemma_member_concat(g, t, "type"@);
    lemma_member_concat(g, t, "comment"@);
    lemma_member_index_bounds(t, "comment"@);
    if member_index(t, "comment"@) is Some {
        let j = member_index(t, "comment"@)->Some_0;
        assert(t[j].0 == c.attributes@[j].0);
        assert(!is_identity_key(c.attributes@[j].0@, true));
    }
    assert(member(f, "type"@) == Some(JsonValue::Str(c.ty)));
    assert(meta_spec(f, Some(k)) == Ok::<ParameterMeta, DecodeError>(c.meta));
    assert(core_kind(f, Some(k)) is None);
    assert forall|i: int| 0 <= i < g.len() implies is_identity_key(#[trigger] g[i].0@, true) by {
        let key = g[i].0@;
        lemma_member_index_bounds(g, key);
        assert(member_index(g, key) is Some);
        assert(member(g, key) is Some);
    }
    assert forall|i: int| 0 <= i < t.len() implies !is_identity_key(#[trigger] t[i].0@, true) by {
        assert(t[i].0 == c.attributes@[i].0);
    }
    lemma_attributes_all_or_none(g, true);
    lemma_attributes_all_or_none(t, true);
    lemma_attributes_concat(g, t, true);
    assert(attributes_of(f, true) =~= t);
    assert forall|i: int| 0 <= i < t.len() implies (#[trigger] t[i]).0 == c.attributes@[i].0
        && json_alike(t[i].1, c.attributes@[i].1) by {
        lemma_json_alike_symmetric(c.attributes@[i].1, t[i].1);
    }
}

} // verus!
