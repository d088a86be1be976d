use vstd::prelude::*;

verus! {

/// A parsed JSON document value.
///
/// Object members keep document order, and numbers keep the decimal text they
/// were written with: the schema carries numbers through, it never computes
/// with them. Where an object repeats a key, reading a member takes the first.
#[derive(Debug)]
pub enum JsonValue {
    Null,
    Bool(bool),
    Number(String),
    Str(String),
    Array(Vec<JsonValue>),
    Object(Vec<(String, JsonValue)>),
}

/// Why a JSON value could not be decoded into a schema type.
#[derive(Debug)]
pub enum DecodeError {
    /// An object was expected.
    NotAnObject,
    /// An array was expected.
    NotAnArray,
    /// A required member is absent.
    MissingField(&'static str),
    /// A member is present with the wrong shape.
    InvalidField(&'static str),
    /// An edge array with fewer than two entries.
    EdgeTooShort,
    /// An entity that needs a name to be encoded has none.
    MissingName,
}

/// Position of the first member of `fields` whose key is `key`.
pub open spec fn member_index(fields: Seq<(String, JsonValue)>, key: Seq<char>) -> Option<int>
    decreases fields.len(),
{
    if fields.len() == 0 {
        None
    } else if fields[0].0@ == key {
        Some(0)
    } else {
        match member_index(fields.drop_first(), key) {
            Some(i) => Some(i + 1),
            None => None,
        }
    }
}

/// The value of the first member of `fields` whose key is `key`.
pub open spec fn member(fields: Seq<(String, JsonValue)>, key: Seq<char>) -> Option<JsonValue> {
    match member_index(fields, key) {
        Some(i) => Some(fields[i].1),
        None => None,
    }
}

pub proof fn lemma_member_index_bounds(fields: Seq<(String, JsonValue)>, key: Seq<char>)
    ensures
        match member_index(fields, key) {
            Some(i) => 0 <= i < fields.len() && fields[i].0@ == key,
            None => forall|j: int| 0 <= j < fields.len() ==> #[trigger] fields[j].0@ != key,
        },
    decreases fields.len(),
{
    if fields.len() > 0 && fields[0].0@ != key {
        lemma_member_index_bounds(fields.drop_first(), key);
        if member_index(fields, key) is None {
            assert forall|j: int| 0 <= j < fields.len() implies #[trigger] fields[j].0@ != key by {
                if j > 0 {
                    assert(fields.drop_first()[j - 1] == fields[j]);
                }
            }
        }
    }
}

pub proof fn lemma_member_unfold(fields: Seq<(String, JsonValue)>, key: Seq<char>)
    requires
        fields.len() > 0,
    ensures
        member(fields, key) == (if fields[0].0@ == key {
            Some(fields[0].1)
        } else {
            member(fields.drop_first(), key)
        }),
{
    if fields[0].0@ != key {
        match member_index(fields.drop_first(), key) {
            Some(i) => {
                lemma_member_index_bounds(fields.drop_first(), key);
                assert(fields.drop_first()[i] == fields[i + 1]);
            },
            None => {},
        }
    }
}

/// Appending a member never changes what an earlier member of the same key gives.
pub proof fn lemma_member_push(fields: Seq<(String, JsonValue)>, k: String, v: JsonValue, key: Seq<char>)
    ensures
        member(fields.push((k, v)), key) == (match member(fields, key) {
            Some(x) => Some(x),
            None => if k@ == key { Some(v) } else { None },
        }),
    decreases fields.len(),
{
    let pushed = fields.push((k, v));
    lemma_member_unfold(pushed, key);
    if fields.len() == 0 {
        assert(pushed.drop_first() =~= Seq::<(String, JsonValue)>::empty());
    } else {
        lemma_member_unfold(fields, key);
        assert(pushed[0] == fields[0]);
        assert(pushed.drop_first() =~= fields.drop_first().push((k, v)));
        lemma_member_push(fields.drop_first(), k, v, key);
    }
}

/// Character-wise equality of two strings.
pub fn str_eq(a: &str, b: &str) -> (r: bool)
    ensures
        r == (a@ == b@),
{
    let n = a.unicode_len();
    if n != b.unicode_len() {
        return false;
    }
    let mut i: usize = 0;
    while i < n
        invariant
            n == a@.len(),
            n == b@.len(),
            i <= n,
            forall|j: int| 0 <= j < i ==> a@[j] == b@[j],
        decreases n - i,
    {
        if a.get_char(i) != b.get_char(i) {
            return false;
        }
        i = i + 1;
    }
    assert(a@ =~= b@);
    true
}

/// Finds the first member of an object with the given key.
pub fn find_member(fields: &Vec<(String, JsonValue)>, key: &str) -> (r: Option<usize>)
    ensures
        match r {
            Some(i) => member_index(fields@, key@) == Some(i as int) && i < fields@.len(),
            None => member_index(fields@, key@) is None,
        },
{
    let mut i: usize = 0;
    assert(fields@.subrange(0, fields@.len() as int) =~= fields@);
    while i < fields.len()
        invariant
            i <= fields@.len(),
            member_index(fields@, key@) == (match member_index(fields@.subrange(i as int, fields@.len() as int), key@) {
                Some(j) => Some(j + i),
                None => None,
            }),
        decreases fields.len() - i,
    {
        let ghost rest = fields@.subrange(i as int, fields@.len() as int);
        if str_eq(fields[i].0.as_str(), key) {
            assert(rest[0] == fields@[i as int]);
            return Some(i);
        }
        assert(rest.drop_first() =~= fields@.subrange(i + 1, fields@.len() as int));
        i = i + 1;
    }
    None
}

/// Result of reading a required string member.
pub open spec fn req_str_spec(fields: Seq<(String, JsonValue)>, key: &'static str) -> Result<String, DecodeError> {
    match member(fields, key@) {
        None => Err(DecodeError::MissingField(key)),
        Some(JsonValue::Str(s)) => Ok(s),
        Some(_) => Err(DecodeError::InvalidField(key)),
    }
}

/// Result of reading an optional string member: absent and null both give `None`.
pub open spec fn opt_str_spec(fields: Seq<(String, JsonValue)>, key: &'static str) -> Result<Option<String>, DecodeError> {
    match member(fields, key@) {
        None => Ok(None),
        Some(JsonValue::Null) => Ok(None),
        Some(JsonValue::Str(s)) => Ok(Some(s)),
        Some(_) => Err(DecodeError::InvalidField(key)),
    }
}

/// Result of reading an optional number member: absent and null both give `None`.
pub open spec fn opt_num_spec(fields: Seq<(String, JsonValue)>, key: &'static str) -> Result<Option<String>, DecodeError> {
    match member(fields, key@) {
        None => Ok(None),
        Some(JsonValue::Null) => Ok(None),
        Some(JsonValue::Number(s)) => Ok(Some(s)),
        Some(_) => Err(DecodeError::InvalidField(key)),
    }
}

pub fn req_str(fields: &Vec<(String, JsonValue)>, key: &'static str) -> (r: Result<String, DecodeError>)
    ensures
        r == req_str_spec(fields@, key),
{
    match find_member(fields, key) {
        None => Err(DecodeError::MissingField(key)),
        Some(i) => match &fields[i].1 {
            JsonValue::Str(s) => Ok(s.clone()),
            _ => Err(DecodeError::InvalidField(key)),
        },
    }
}

pub fn opt_str(fields: &Vec<(String, JsonValue)>, key: &'static str) -> (r: Result<Option<String>, DecodeError>)
    ensures
        r == opt_str_spec(fields@, key),
{
    match find_member(fields, key) {
        None => Ok(None),
        Some(i) => match &fields[i].1 {
            JsonValue::Null => Ok(None),
            JsonValue::Str(s) => Ok(Some(s.clone())),
            _ => Err(DecodeError::InvalidField(key)),
        },
    }
}

pub fn opt_num(fields: &Vec<(String, JsonValue)>, key: &'static str) -> (r: Result<Option<String>, DecodeError>)
    ensures
        r == opt_num_spec(fields@, key),
{
    match find_member(fields, key) {
        None => Ok(None),
        Some(i) => match &fields[i].1 {
            JsonValue::Null => Ok(None),
            JsonValue::Number(s) => Ok(Some(s.clone())),
            _ => Err(DecodeError::InvalidField(key)),
        },
    }
}

/// The first error that `f` finds among the items of `s`.
pub open spec fn first_error<A>(s: Seq<A>, f: spec_fn(A) -> Option<DecodeError>) -> Option<DecodeError>
    decreases s.len(),
{
    if s.len() == 0 {
        None
    } else if f(s[0]) is Some {
        f(s[0])
    } else {
        first_error(s.drop_first(), f)
    }
}

/// With no error before position `i`, the first error of `s` is that of `s[i..]`.
pub proof fn lemma_first_error_skip<A>(s: Seq<A>, f: spec_fn(A) -> Option<DecodeError>, i: int)
    requires
        0 <= i <= s.len(),
        forall|j: int| 0 <= j < i ==> f(#[trigger] s[j]) is None,
    ensures
        first_error(s, f) == first_error(s.subrange(i, s.len() as int), f),
    decreases i,
{
    if i == 0 {
        assert(s.subrange(0, s.len() as int) =~= s);
    } else {
        let t = s.drop_first();
        assert forall|j: int| 0 <= j < i - 1 implies f(#[trigger] t[j]) is None by {
            assert(t[j] == s[j + 1]);
        }
        lemma_first_error_skip(t, f, i - 1);
        assert(t.subrange(i - 1, t.len() as int) =~= s.subrange(i, s.len() as int));
    }
}

/// An error at position `i`, with none before it, is the first error.
pub proof fn lemma_first_error_at<A>(s: Seq<A>, f: spec_fn(A) -> Option<DecodeError>, i: int)
    requires
        0 <= i < s.len(),
        forall|j: int| 0 <= j < i ==> f(#[trigger] s[j]) is None,
        f(s[i]) is Some,
    ensures
        first_error(s, f) == f(s[i]),
{
    lemma_first_error_skip(s, f, i);
    assert(s.subrange(i, s.len() as int)[0] == s[i]);
}

/// With no error anywhere, there is no first error.
pub proof fn lemma_first_error_none<A>(s: Seq<A>, f: spec_fn(A) -> Option<DecodeError>)
    requires
        forall|j: int| 0 <= j < s.len() ==> f(#[trigger] s[j]) is None,
    ensures
        first_error(s, f) is None,
{
    lemma_first_error_skip(s, f, s.len() as int);
}

pub open spec fn is_digit(c: char) -> bool {
    '0' <= c && c <= '9'
}

/// The value of a string of decimal digits.
pub open spec fn decimal_value(s: Seq<char>) -> int
    decreases s.len(),
{
    if s.len() == 0 {
        0
    } else {
        decimal_value(s.drop_last()) * 10 + (s.last() as int - '0' as int)
    }
}

/// The small whole number that `s` writes: digits only, at most 255.
pub open spec fn small_number(s: Seq<char>) -> Option<u8> {
    if s.len() > 0 && (forall|i: int| 0 <= i < s.len() ==> is_digit(#[trigger] s[i])) && decimal_value(s) <= 255 {
        Some(decimal_value(s) as u8)
    } else {
        None
    }
}

proof fn lemma_decimal_grows(s: Seq<char>, i: int)
    requires
        0 <= i <= s.len(),
        forall|k: int| 0 <= k < s.len() ==> is_digit(#[trigger] s[k]),
    ensures
        decimal_value(s.subrange(0, i)) <= decimal_value(s),
        decimal_value(s.subrange(0, i)) >= 0,
    decreases s.len() - i,
{
    if i < s.len() {
        lemma_decimal_grows(s, i + 1);
        let p = s.subrange(0, i + 1);
        assert(p.drop_last() =~= s.subrange(0, i));
        assert(p.last() == s[i]);
        assert(is_digit(s[i]));
        assert(decimal_value(p) >= decimal_value(s.subrange(0, i))) by (nonlinear_arith)
            requires
                decimal_value(p) == decimal_value(s.subrange(0, i)) * 10 + (s[i] as int - '0' as int),
                decimal_value(s.subrange(0, i)) >= 0,
                (s[i] as int - '0' as int) >= 0,
        {}
    } else {
        assert(s.subrange(0, i) =~= s);
        lemma_decimal_nonneg(s);
    }
}

proof fn lemma_decimal_nonneg(s: Seq<char>)
    requires
        forall|k: int| 0 <= k < s.len() ==> is_digit(#[trigger] s[k]),
    ensures
        decimal_value(s) >= 0,
    decreases s.len(),
{
    if s.len() > 0 {
        let t = s.drop_last();
        assert forall|k: int| 0 <= k < t.len() implies is_digit(#[trigger] t[k]) by {
            assert(t[k] == s[k]);
        }
        lemma_decimal_nonneg(t);
        assert(is_digit(s.last()));
    }
}

/// Reads a small whole number written with decimal digits only.
pub fn read_small_number(s: &str) -> (r: Option<u8>)
    ensures
        r == small_number(s@),
{
    let n = s.unicode_len();
    if n == 0 {
        return None;
    }
    let mut acc: u32 = 0;
    let mut i: usize = 0;
    while i < n
        invariant
            n == s@.len(),
            i <= n,
            acc as int == decimal_value(s@.subrange(0, i as int)),
            acc <= 255,
            forall|k: int| 0 <= k < i ==> is_digit(#[trigger] s@[k]),
        decreases n - i,
    {
        let c = s.get_char(i);
        let ghost p = s@.subrange(0, i + 1);
        proof {
            assert(p.drop_last() =~= s@.subrange(0, i as int));
            assert(p.last() == c);
        }
        if !('0' <= c && c <= '9') {
            return None;
        }
        let d = (c as u32) - ('0' as u32);
        let next = acc * 10 + d;
        if next > 255 {
            proof {
                if forall|k: int| 0 <= k < s@.len() ==> is_digit(#[trigger] s@[k]) {
                    lemma_decimal_grows(s@, i + 1);
                }
            }
            return None;
        }
        acc = next;
        i = i + 1;
    }
    assert(s@.subrange(0, n as int) =~= s@);
    Some(acc as u8)
}

fn digit_text(d: u8) -> (r: &'static str)
    requires
        d < 10,
    ensures
        r@ == seq![('0' as u8 + d) as char],
{
    match d {
        0 => {
            proof { reveal_strlit("0"); }
            "0"
        },
        1 => {
            proof { reveal_strlit("1"); }
            "1"
        },
        2 => {
            proof { reveal_strlit("2"); }
            "2"
        },
        3 => {
            proof { reveal_strlit("3"); }
            "3"
        },
        4 => {
            proof { reveal_strlit("4"); }
            "4"
        },
        5 => {
            proof { reveal_strlit("5"); }
            "5"
        },
        6 => {
            proof { reveal_strlit("6"); }
            "6"
        },
        7 => {
            proof { reveal_strlit("7"); }
            "7"
        },
        8 => {
            proof { reveal_strlit("8"); }
            "8"
        },
        _ => {
            proof { reveal_strlit("9"); }
            "9"
        },
    }
}

/// Writes a small whole number in decimal digits, without leading zeros.
pub fn small_number_text(v: u8) -> (r: String)
    ensures
        small_number(r@) == Some(v),
{
    let mut s = String::new();
    let h = v / 100;
    let t = (v / 10) % 10;
    let o = v % 10;
    if v >= 100 {
        s.append(digit_text(h));
    }
    if v >= 10 {
        s.append(digit_text(t));
    }
    s.append(digit_text(o));
    proof {
        let ch = ('0' as u8 + h) as char;
        let ct = ('0' as u8 + t) as char;
        let co = ('0' as u8 + o) as char;
        assert(ch as int - '0' as int == h as int);
        assert(ct as int - '0' as int == t as int);
        assert(co as int - '0' as int == o as int);
        let s1 = seq![co];
        assert(s1.drop_last() =~= Seq::<char>::empty());
        assert(s1.last() == co);
        assert(decimal_value(Seq::<char>::empty()) == 0);
        assert(decimal_value(s1) == o as int);
        if v >= 100 {
            let a = seq![ch];
            let b = seq![ch, ct];
            let c = seq![ch, ct, co];
            assert(a.drop_last() =~= Seq::<char>::empty());
            assert(b.drop_last() =~= a);
            assert(c.drop_last() =~= b);
            assert(decimal_value(a) == h as int);
            assert(decimal_value(b) == h as int * 10 + t as int);
            assert(decimal_value(c) == (h as int * 10 + t as int) * 10 + o as int);
            assert(s@ =~= c);
            assert((h as int * 10 + t as int) * 10 + o as int == v as int) by (nonlinear_arith)
                requires
                    h == v / 100,
                    t == (v / 10) % 10,
                    o == v % 10,
            {}
        } else if v >= 10 {
            let a = seq![ct];
            let b = seq![ct, co];
            assert(a.drop_last() =~= Seq::<char>::empty());
            assert(b.drop_last() =~= a);
            assert(a.last() == ct);
            assert(b.last() == co);
            assert(decimal_value(Seq::<char>::empty()) == 0);
            assert(decimal_value(a) == t as int);
            assert(decimal_value(b) == t as int * 10 + o as int);
            assert(s@ =~= b);
            assert(t as int * 10 + o as int == v as int) by (nonlinear_arith)
                requires
                    v < 100,
                    t == (v / 10) % 10,
                    o == v % 10,
            {}
        } else {
            assert(s@ =~= s1);
        }
    }
    s
}

} // verus!
