use vstd::prelude::*;
use crate::json::{JsonValue, DecodeError, req_str, req_str_spec, member, first_error, lemma_first_error_at,
    lemma_first_error_none, lemma_member_push};
use crate::walk::{mapped, map_path};

verus! {

/// A table of data held in a file outside the document.
pub struct Table {
    pub name: String,
    pub url: String,
}

/// The tables of a document, in document order.
pub struct TableVec(pub Vec<Table>);

impl Table {
    /// The one path a table refers to.
    pub fn resource_paths(&self) -> (r: Vec<String>)
        ensures
            r@ == seq![self.url],
    {
        let mut v: Vec<String> = Vec::new();
        v.push(self.url.clone());
        assert(v@ =~= seq![self.url]);
        v
    }

    /// Sends the table's path through `m`; a path that `m` does not name is kept.
    pub fn update_resource_paths(&mut self, m: &Vec<(String, String)>)
        ensures
            final(self).name == old(self).name,
            final(self).url == mapped(m@, old(self).url),
    {
        self.url = map_path(m, &self.url);
    }
}

impl TableVec {
    pub fn with_capacity(capacity: usize) -> (r: TableVec)
        ensures
            r.0@.len() == 0,
    {
        TableVec(Vec::with_capacity(capacity))
    }
}

/// Why one entry of the table map does not decode, if it does not.
pub open spec fn table_entry_err(e: (String, JsonValue)) -> Option<DecodeError> {
    match e.1 {
        JsonValue::Object(f) => match req_str_spec(f@, "url") {
            Ok(_) => None,
            Err(x) => Some(x),
        },
        _ => Some(DecodeError::NotAnObject),
    }
}

/// `t` is what one entry of the table map decodes to: the key is its name.
pub open spec fn table_entry_ok(e: (String, JsonValue), t: Table) -> bool {
    e.1 is Object && t.name == e.0 && req_str_spec(e.1->Object_0@, "url") == Ok::<String, DecodeError>(t.url)
}

pub open spec fn table_check() -> spec_fn((String, JsonValue)) -> Option<DecodeError> {
    |e: (String, JsonValue)| table_entry_err(e)
}

pub open spec fn tables_err(s: Seq<(String, JsonValue)>) -> Option<DecodeError> {
    first_error(s, table_check())
}

/// `t` is what the entries `s` of the table map decode to, one for one and in order.
pub open spec fn tables_ok(s: Seq<(String, JsonValue)>, t: Seq<Table>) -> bool {
    s.len() == t.len() && forall|i: int| 0 <= i < s.len() ==> table_entry_ok(#[trigger] s[i], t[i])
}

/// `e` is the encoding of the tables `t`: one entry per table, in order, keyed
/// by its name, holding its name and path.
pub open spec fn tables_encode(t: Seq<Table>, e: Seq<(String, JsonValue)>) -> bool {
    t.len() == e.len() && forall|i: int| 0 <= i < t.len() ==> {
        &&& (#[trigger] e[i]).0 == t[i].name
        &&& e[i].1 is Object
        &&& e[i].1->Object_0@.len() == 2
        &&& e[i].1->Object_0@[0].0@ == "name"@
        &&& e[i].1->Object_0@[0].1 == JsonValue::Str(t[i].name)
        &&& e[i].1->Object_0@[1].0@ == "url"@
        &&& e[i].1->Object_0@[1].1 == JsonValue::Str(t[i].url)
    }
}

impl TableVec {
    /// Decodes the map of tables: each key is a table's name, each value an
    /// object with its `url`. Document order is kept.
    pub fn from_json(j: &JsonValue) -> (r: Result<TableVec, DecodeError>)
        ensures
            match *j {
                JsonValue::Object(s) => match r {
                    Ok(t) => tables_err(s@) is None && tables_ok(s@, t.0@),
                    Err(e) => tables_err(s@) == Some(e),
                },
                _ => r == Err::<TableVec, DecodeError>(DecodeError::NotAnObject),
            },
    {
        let s = match j {
            JsonValue::Object(s) => s,
            _ => return Err(DecodeError::NotAnObject),
        };
        let ghost f = table_check();
        let mut out: Vec<Table> = Vec::with_capacity(s.len());
        let mut i: usize = 0;
        while i < s.len()
            invariant
                i <= s@.len(),
                out@.len() == i,
                *j == JsonValue::Object(*s),
                f == table_check(),
                forall|k: int| 0 <= k < i ==> f(#[trigger] s@[k]) is None,
                forall|k: int| 0 <= k < i ==> table_entry_ok(#[trigger] s@[k], out@[k]),
            decreases s.len() - i,
        {
            let body = &s[i].1;
            match body {
                JsonValue::Object(fields) => match req_str(fields, "url") {
                    Ok(url) => {
                        assert(f(s@[i as int]) == table_entry_err(s@[i as int]));
                        out.push(Table { name: s[i].0.clone(), url });
                    },
                    Err(e) => {
                        proof {
                            assert(f(s@[i as int]) == table_entry_err(s@[i as int]));
                            lemma_first_error_at(s@, f, i as int);
                        }
                        return Err(e);
                    },
                },
                _ => {
                    proof {
                        assert(f(s@[i as int]) == table_entry_err(s@[i as int]));
                        lemma_first_error_at(s@, f, i as int);
                    }
                    return Err(DecodeError::NotAnObject);
                },
            }
            i = i + 1;
        }
        proof { lemma_first_error_none(s@, f); }
        Ok(TableVec(out))
    }

    /// Encodes the tables as a map keyed by name, in order.
    pub fn to_json(&self) -> (r: JsonValue)
        ensures
            r is Object && tables_encode(self.0@, r->Object_0@),
    {
        let mut out: Vec<(String, JsonValue)> = Vec::new();
        let mut i: usize = 0;
        while i < self.0.len()
            invariant
                i <= self.0@.len(),
                tables_encode(self.0@.subrange(0, i as int), out@),
            decreases self.0.len() - i,
        {
            let t = &self.0[i];
            let mut body: Vec<(String, JsonValue)> = Vec::new();
            body.push(("name".to_string(), JsonValue::Str(t.name.clone())));
            body.push(("url".to_string(), JsonValue::Str(t.url.clone())));
            out.push((t.name.clone(), JsonValue::Object(body)));
            proof {
                let next = self.0@.subrange(0, i + 1);
                assert forall|k: int| 0 <= k < next.len() implies next[k] == (if k < i { self.0@.subrange(0, i as int)[k] } else { *t }) by {}
            }
            i = i + 1;
        }
        assert(self.0@.subrange(0, self.0@.len() as int) =~= self.0@);
        JsonValue::Object(out)
    }
}

/// Decoding the encoding of a list of tables gives back the same tables, in the same order.
pub proof fn lemma_tables_round_trip(t: Seq<Table>, e: Seq<(String, JsonValue)>)
    requires
        tables_encode(t, e),
    ensures
        tables_err(e) is None,
        tables_ok(e, t),
{
    reveal_strlit("name");
    reveal_strlit("url");
    assert("name"@.len() == 4);
    assert("url"@.len() == 3);
    assert forall|i: int| 0 <= i < e.len() implies table_entry_err(#[trigger] e[i]) is None
        && table_entry_ok(e[i], t[i]) by {
        let f = e[i].1->Object_0@;
        assert(f =~= Seq::<(String, JsonValue)>::empty().push(f[0]).push(f[1]));
        lemma_member_push(Seq::<(String, JsonValue)>::empty(), f[0].0, f[0].1, "url"@);
        lemma_member_push(Seq::<(String, JsonValue)>::empty().push(f[0]), f[1].0, f[1].1, "url"@);
        assert(member(f, "url"@) == Some(JsonValue::Str(t[i].url)));
    }
    let g = table_check();
    assert forall|j: int| 0 <= j < e.len() implies g(#[trigger] e[j]) is None by {
        assert(table_entry_err(e[j]) is None);
    }
    lemma_first_error_none(e, g);
}

/// Decoding a map of tables and encoding the result keeps the document's keys in their order.
pub proof fn lemma_tables_order(s: Seq<(String, JsonValue)>, t: Seq<Table>, e: Seq<(String, JsonValue)>)
    requires
        tables_ok(s, t),
        tables_encode(t, e),
    ensures
        e.len() == s.len(),
        forall|i: int| 0 <= i < s.len() ==> (#[trigger] e[i]).0 == s[i].0,
{
    assert forall|i: int| 0 <= i < s.len() implies (#[trigger] e[i]).0 == s[i].0 by {
        assert(table_entry_ok(s[i], t[i]));
    }
}

} // verus!
