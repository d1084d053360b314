//! A JSON document tree: built by the library and printed at the edge, or
//! decoded at the edge and read here.
use crate::text::str_eq;
use vstd::prelude::*;

verus! {

/// A JSON value whose object members keep the order they were given in.
/// Integers that fit in an `i64` are `Int`, larger non-negative ones `UInt`;
/// any other number (with a fraction or an exponent) is kept as its text.
pub enum JsonValue {
    Null,
    Bool(bool),
    Int(i64),
    UInt(u64),
    Number(String),
    Str(String),
    Array(Vec<JsonValue>),
    Object(Vec<(String, JsonValue)>),
}

/// A JSON value by its texts; every integer is an `Int`.
pub enum JsonView {
    Null,
    Bool(bool),
    Int(int),
    Number(Seq<char>),
    Str(Seq<char>),
    Array(Seq<JsonView>),
    Object(Seq<(Seq<char>, JsonView)>),
}

impl JsonValue {
    /// The value by its texts.
    pub open spec fn view_json(&self) -> JsonView
        decreases self,
    {
        match self {
            JsonValue::Null => JsonView::Null,
            JsonValue::Bool(b) => JsonView::Bool(*b),
            JsonValue::Int(i) => JsonView::Int(*i as int),
            JsonValue::UInt(u) => JsonView::Int(*u as int),
            JsonValue::Number(t) => JsonView::Number(t@),
            JsonValue::Str(s) => JsonView::Str(s@),
            JsonValue::Array(v) => JsonView::Array(
                Seq::new(
                    v@.len(),
                    |i: int|
                        if 0 <= i < v@.len() {
                            proof {
                                assert(decreases_to!(v => v@));
                                assert(decreases_to!(v@ => v@[i]));
                            }
                            v@[i].view_json()
                        } else {
                            JsonView::Null
                        },
                ),
            ),
            JsonValue::Object(m) => JsonView::Object(
                Seq::new(
                    m@.len(),
                    |i: int|
                        if 0 <= i < m@.len() {
                            proof {
                                assert(decreases_to!(m => m@));
                                assert(decreases_to!(m@ => m@[i]));
                                assert(decreases_to!(m@[i] => m@[i].1));
                            }
                            (m@[i].0@, m@[i].1.view_json())
                        } else {
                            (Seq::empty(), JsonView::Null)
                        },
                ),
            ),
        }
    }
}


/// The view of an array lists the views of its items.
pub proof fn lemma_array_view(v: Vec<JsonValue>)
    ensures
        JsonValue::Array(v).view_json() == JsonView::Array(
            Seq::new(v@.len(), |i: int| v@[i].view_json()),
        ),
{
    let a = JsonValue::Array(v);
    let s = Seq::new(v@.len(), |i: int| v@[i].view_json());
    match a.view_json() {
        JsonView::Array(t) => {
            assert(t =~= s);
        },
        _ => {},
    }
}

/// The view of an object lists its members' keys and value views.
pub proof fn lemma_object_view(m: Vec<(String, JsonValue)>)
    ensures
        JsonValue::Object(m).view_json() == JsonView::Object(
            Seq::new(m@.len(), |i: int| (m@[i].0@, m@[i].1.view_json())),
        ),
{
    let a = JsonValue::Object(m);
    let s = Seq::new(m@.len(), |i: int| (m@[i].0@, m@[i].1.view_json()));
    match a.view_json() {
        JsonView::Object(t) => {
            assert(t =~= s);
        },
        _ => {},
    }
}

/// The value of the first member named `key` among an object's members.
pub open spec fn member_in(ms: Seq<(Seq<char>, JsonView)>, key: Seq<char>) -> Option<JsonView>
    decreases ms.len(),
{
    if ms.len() == 0 {
        None
    } else if ms[0].0 == key {
        Some(ms[0].1)
    } else {
        member_in(ms.drop_first(), key)
    }
}

/// The member named `key` of a value, if the value is an object that has
/// one (`Value::get`; one step of `Value::pointer`).
pub open spec fn member(v: Option<JsonView>, key: Seq<char>) -> Option<JsonView> {
    match v {
        Some(JsonView::Object(ms)) => member_in(ms, key),
        _ => None,
    }
}

/// The text of a value, if it is a string (`Value::as_str`).
pub open spec fn text_of(v: Option<JsonView>) -> Option<Seq<char>> {
    match v {
        Some(JsonView::Str(t)) => Some(t),
        _ => None,
    }
}

/// The value as a `u64`, if it is an integer in range (`Value::as_u64`).
pub open spec fn u64_of(v: Option<JsonView>) -> Option<u64> {
    match v {
        Some(JsonView::Int(i)) => if 0 <= i <= u64::MAX {
            Some(i as u64)
        } else {
            None
        },
        _ => None,
    }
}

/// The view of an optional value.
pub open spec fn opt_json(v: Option<&JsonValue>) -> Option<JsonView> {
    match v {
        Some(x) => Some(x.view_json()),
        None => None,
    }
}

proof fn lemma_member_skip(ms: Seq<(Seq<char>, JsonView)>, key: Seq<char>, i: int)
    requires
        0 <= i <= ms.len(),
        forall|j: int| 0 <= j < i ==> (#[trigger] ms[j]).0 != key,
    ensures
        member_in(ms, key) == member_in(ms.skip(i), key),
    decreases i,
{
    if i > 0 {
        lemma_member_skip(ms, key, i - 1);
        assert(ms.skip(i - 1).drop_first() =~= ms.skip(i));
        assert(ms.skip(i - 1)[0] == ms[i - 1]);
    } else {
        assert(ms.skip(0) =~= ms);
    }
}

/// The member named `key` of a value (`Value::get` with a key).
pub fn get_member<'a>(v: Option<&'a JsonValue>, key: &str) -> (r: Option<&'a JsonValue>)
    ensures
        opt_json(r) == member(opt_json(v), key@),
{
    let ms = match v {
        Some(JsonValue::Object(ms)) => ms,
        _ => {
            return None;
        },
    };
    let ghost s = Seq::new(ms@.len(), |i: int| (ms@[i].0@, ms@[i].1.view_json()));
    proof {
        lemma_object_view(*ms);
        assert(opt_json(v) == Some(JsonView::Object(s)));
    }
    let mut i: usize = 0;
    while i < ms.len()
        invariant
            i <= ms@.len() == s.len(),
            s == Seq::new(ms@.len(), |i: int| (ms@[i].0@, ms@[i].1.view_json())),
            forall|j: int| 0 <= j < i ==> (#[trigger] s[j]).0 != key@,
            opt_json(v) == Some(JsonView::Object(s)),
        decreases ms.len() - i,
    {
        if str_eq(ms[i].0.as_str(), key) {
            proof {
                lemma_member_skip(s, key@, i as int);
                let t = s.skip(i as int);
                assert(t.len() > 0);
                assert(t[0] == s[i as int]);
                assert(s[i as int] == (ms@[i as int].0@, ms@[i as int].1.view_json()));
                assert(t[0].0 == key@);
                assert(member_in(t, key@) == Some(t[0].1));
            }
            return Some(&ms[i].1);
        }
        i = i + 1;
    }
    proof {
        lemma_member_skip(s, key@, i as int);
        assert(s.skip(i as int).len() == 0);
    }
    None
}

/// The text of a value, if it is a string (`Value::as_str`).
pub fn as_text(v: Option<&JsonValue>) -> (r: Option<&str>)
    ensures
        match r {
            Some(t) => text_of(opt_json(v)) == Some(t@),
            None => text_of(opt_json(v)) is None,
        },
{
    match v {
        Some(JsonValue::Str(t)) => Some(t.as_str()),
        _ => None,
    }
}

/// The value as a `u64`, if it is an integer in range (`Value::as_u64`).
pub fn as_u64(v: Option<&JsonValue>) -> (r: Option<u64>)
    ensures
        r == u64_of(opt_json(v)),
{
    match v {
        Some(JsonValue::Int(i)) => if *i >= 0 {
            Some(*i as u64)
        } else {
            None
        },
        Some(JsonValue::UInt(u)) => Some(*u),
        _ => None,
    }
}

/// A string value.
pub fn jstr(t: &str) -> (r: JsonValue)
    ensures
        r.view_json() == JsonView::Str(t@),
{
    JsonValue::Str(crate::text::owned(t))
}

/// An array of string values.
pub fn jstr_array(items: &Vec<String>) -> (r: JsonValue)
    ensures
        r.view_json() == JsonView::Array(
            Seq::new(items@.len(), |i: int| JsonView::Str(items@[i]@)),
        ),
{
    let mut v: Vec<JsonValue> = Vec::new();
    let mut i: usize = 0;
    while i < items.len()
        invariant
            i <= items@.len(),
            v@.len() == i,
            forall|j: int| 0 <= j < i ==> (#[trigger] v@[j]).view_json() == JsonView::Str(items@[j]@),
        decreases items@.len() - i,
    {
        v.push(JsonValue::Str(items[i].clone()));
        i = i + 1;
    }
    let ghost vv = v;
    let r = JsonValue::Array(v);
    proof {
        lemma_array_view(vv);
        assert(Seq::new(v@.len(), |i: int| v@[i].view_json()) =~= Seq::new(
            items@.len(),
            |i: int| JsonView::Str(items@[i]@),
        ));
    }
    r
}

/// An array of one value.
pub fn jarr1(a: JsonValue) -> (r: JsonValue)
    ensures
        r.view_json() == JsonView::Array(seq![a.view_json()]),
{
    let mut v: Vec<JsonValue> = Vec::new();
    v.push(a);
    let ghost vv = v;
    let r = JsonValue::Array(v);
    proof {
        lemma_array_view(vv);
        assert(Seq::new(v@.len(), |i: int| v@[i].view_json()) =~= seq![a.view_json()]);
    }
    r
}

/// An array of two values.
pub fn jarr2(a: JsonValue, b: JsonValue) -> (r: JsonValue)
    ensures
        r.view_json() == JsonView::Array(seq![a.view_json(), b.view_json()]),
{
    let mut v: Vec<JsonValue> = Vec::new();
    v.push(a);
    v.push(b);
    let ghost vv = v;
    let r = JsonValue::Array(v);
    proof {
        lemma_array_view(vv);
        assert(Seq::new(v@.len(), |i: int| v@[i].view_json()) =~= seq![a.view_json(), b.view_json()]);
    }
    r
}

/// An array of three values.
pub fn jarr3(a: JsonValue, b: JsonValue, c: JsonValue) -> (r: JsonValue)
    ensures
        r.view_json() == JsonView::Array(seq![a.view_json(), b.view_json(), c.view_json()]),
{
    let mut v: Vec<JsonValue> = Vec::new();
    v.push(a);
    v.push(b);
    v.push(c);
    let ghost vv = v;
    let r = JsonValue::Array(v);
    proof {
        lemma_array_view(vv);
        assert(Seq::new(v@.len(), |i: int| v@[i].view_json()) =~= seq![
            a.view_json(),
            b.view_json(),
            c.view_json(),
        ]);
    }
    r
}

/// An object of one member.
pub fn jobj1(k1: &str, v1: JsonValue) -> (r: JsonValue)
    ensures
        r.view_json() == JsonView::Object(seq![(k1@, v1.view_json())]),
{
    let mut m: Vec<(String, JsonValue)> = Vec::new();
    m.push((crate::text::owned(k1), v1));
    let ghost mm = m;
    let r = JsonValue::Object(m);
    proof {
        lemma_object_view(mm);
        assert(Seq::new(m@.len(), |i: int| (m@[i].0@, m@[i].1.view_json())) =~= seq![
            (k1@, v1.view_json()),
        ]);
    }
    r
}

/// An object of two members.
pub fn jobj2(k1: &str, v1: JsonValue, k2: &str, v2: JsonValue) -> (r: JsonValue)
    ensures
        r.view_json() == JsonView::Object(seq![(k1@, v1.view_json()), (k2@, v2.view_json())]),
{
    let mut m: Vec<(String, JsonValue)> = Vec::new();
    m.push((crate::text::owned(k1), v1));
    m.push((crate::text::owned(k2), v2));
    let ghost mm = m;
    let r = JsonValue::Object(m);
    proof {
        lemma_object_view(mm);
        assert(Seq::new(m@.len(), |i: int| (m@[i].0@, m@[i].1.view_json())) =~= seq![
            (k1@, v1.view_json()),
            (k2@, v2.view_json()),
        ]);
    }
    r
}

/// An object of three members.
pub fn jobj3(k1: &str, v1: JsonValue, k2: &str, v2: JsonValue, k3: &str, v3: JsonValue) -> (r:
    JsonValue)
    ensures
        r.view_json() == JsonView::Object(
            seq![(k1@, v1.view_json()), (k2@, v2.view_json()), (k3@, v3.view_json())],
        ),
{
    let mut m: Vec<(String, JsonValue)> = Vec::new();
    m.push((crate::text::owned(k1), v1));
    m.push((crate::text::owned(k2), v2));
    m.push((crate::text::owned(k3), v3));
    let ghost mm = m;
    let r = JsonValue::Object(m);
    proof {
        lemma_object_view(mm);
        assert(Seq::new(m@.len(), |i: int| (m@[i].0@, m@[i].1.view_json())) =~= seq![
            (k1@, v1.view_json()),
            (k2@, v2.view_json()),
            (k3@, v3.view_json()),
        ]);
    }
    r
}

/// An object of four members.
pub fn jobj4(
    k1: &str,
    v1: JsonValue,
    k2: &str,
    v2: JsonValue,
    k3: &str,
    v3: JsonValue,
    k4: &str,
    v4: JsonValue,
) -> (r: JsonValue)
    ensures
        r.view_json() == JsonView::Object(
            seq![
                (k1@, v1.view_json()),
                (k2@, v2.view_json()),
                (k3@, v3.view_json()),
                (k4@, v4.view_json()),
            ],
        ),
{
    let mut m: Vec<(String, JsonValue)> = Vec::new();
    m.push((crate::text::owned(k1), v1));
    m.push((crate::text::owned(k2), v2));
    m.push((crate::text::owned(k3), v3));
    m.push((crate::text::owned(k4), v4));
    let ghost mm = m;
    let r = JsonValue::Object(m);
    proof {
        lemma_object_view(mm);
        assert(Seq::new(m@.len(), |i: int| (m@[i].0@, m@[i].1.view_json())) =~= seq![
            (k1@, v1.view_json()),
            (k2@, v2.view_json()),
            (k3@, v3.view_json()),
            (k4@, v4.view_json()),
        ]);
    }
    r
}

} // verus!
