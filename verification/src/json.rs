//! A JSON document model holding plain values, so that the logic that reads
//! responses and builds envelopes can be verified.

use vstd::prelude::*;

use crate::text::{i64_to_string, str_equal, u64_to_string, dec_i64, dec_u64};

verus! {

/// A JSON number: a non-negative integer, a negative integer, or a
/// floating-point number carried by its printed text.
#[derive(Debug, PartialEq)]
pub enum JsonNumber {
    PosInt(u64),
    NegInt(i64),
    Float(String),
}

/// A JSON value. Objects keep their entries in order.
#[derive(Debug, PartialEq)]
pub enum JsonValue {
    Null,
    Bool(bool),
    Number(JsonNumber),
    Str(String),
    Array(Vec<JsonValue>),
    Object(Vec<(String, JsonValue)>),
}

/// The mathematical model of a JSON number.
pub enum JNum {
    Pos(u64),
    Neg(i64),
    Float(Seq<char>),
}

/// The mathematical model of a JSON value.
#[verifier::ext_equal]
pub enum Json {
    Null,
    Bool(bool),
    Num(JNum),
    Str(Seq<char>),
    Arr(Seq<Json>),
    Obj(Seq<(Seq<char>, Json)>),
}

/// The value stored under `key` in an object's entries: the first entry with that key.
pub open spec fn entries_get(entries: Seq<(Seq<char>, Json)>, key: Seq<char>) -> Option<Json>
    decreases entries.len(),
{
    if entries.len() == 0 {
        None
    } else if entries[0].0 == key {
        Some(entries[0].1)
    } else {
        entries_get(entries.drop_first(), key)
    }
}

impl JNum {
    /// The text that the number prints as.
    pub open spec fn text(self) -> Seq<char> {
        match self {
            JNum::Pos(u) => dec_u64(u),
            JNum::Neg(i) => dec_i64(i),
            JNum::Float(t) => t,
        }
    }
}

impl Json {
    pub open spec fn get(self, key: Seq<char>) -> Option<Json> {
        match self {
            Json::Obj(entries) => entries_get(entries, key),
            _ => None,
        }
    }

    /// Indexing by key: `Null` where the value is no object or lacks the key.
    pub open spec fn at(self, key: Seq<char>) -> Json {
        match self.get(key) {
            Some(v) => v,
            None => Json::Null,
        }
    }

    pub open spec fn as_str(self) -> Option<Seq<char>> {
        match self {
            Json::Str(s) => Some(s),
            _ => None,
        }
    }

    pub open spec fn as_bool(self) -> Option<bool> {
        match self {
            Json::Bool(b) => Some(b),
            _ => None,
        }
    }

    pub open spec fn as_u64(self) -> Option<u64> {
        match self {
            Json::Num(JNum::Pos(u)) => Some(u),
            _ => None,
        }
    }

    pub open spec fn as_i64(self) -> Option<i64> {
        match self {
            Json::Num(JNum::Pos(u)) => if u <= i64::MAX {
                Some(u as i64)
            } else {
                None
            },
            Json::Num(JNum::Neg(i)) => Some(i),
            _ => None,
        }
    }

    pub open spec fn as_array(self) -> Option<Seq<Json>> {
        match self {
            Json::Arr(a) => Some(a),
            _ => None,
        }
    }

    pub open spec fn is_object(self) -> bool {
        self is Obj
    }

    pub open spec fn is_array(self) -> bool {
        self is Arr
    }

    pub open spec fn is_null(self) -> bool {
        self is Null
    }
}

impl JsonNumber {
    pub open spec fn view_num(&self) -> JNum {
        match self {
            JsonNumber::PosInt(u) => JNum::Pos(*u),
            JsonNumber::NegInt(i) => JNum::Neg(*i),
            JsonNumber::Float(t) => JNum::Float(t@),
        }
    }

    /// The text that the number prints as.
    pub fn to_text(&self) -> (res: String)
        ensures
            res@ == self.view_num().text(),
    {
        match self {
            JsonNumber::PosInt(u) => u64_to_string(*u),
            JsonNumber::NegInt(i) => i64_to_string(*i),
            JsonNumber::Float(t) => t.clone(),
        }
    }

    pub fn deep_clone(&self) -> (res: JsonNumber)
        ensures
            res.view_num() == self.view_num(),
    {
        match self {
            JsonNumber::PosInt(u) => JsonNumber::PosInt(*u),
            JsonNumber::NegInt(i) => JsonNumber::NegInt(*i),
            JsonNumber::Float(t) => JsonNumber::Float(t.clone()),
        }
    }
}

/// The model of a sequence of exec entries.
pub open spec fn entries_deep(o: Seq<(String, JsonValue)>) -> Seq<(Seq<char>, Json)> {
    Seq::new(o.len(), |i: int| (o[i].0@, o[i].1.deep()))
}

/// The model of a sequence of exec values.
pub open spec fn values_deep(a: Seq<JsonValue>) -> Seq<Json> {
    Seq::new(a.len(), |i: int| a[i].deep())
}

impl JsonValue {
    pub open spec fn deep(&self) -> Json
        decreases self,
    {
        match self {
            JsonValue::Null => Json::Null,
            JsonValue::Bool(b) => Json::Bool(*b),
            JsonValue::Number(n) => Json::Num(n.view_num()),
            JsonValue::Str(s) => Json::Str(s@),
            JsonValue::Array(a) => Json::Arr(
                Seq::new(
                    a@.len(),
                    |i: int|
                        if 0 <= i < a@.len() {
                            a@[i].deep()
                        } else {
                            Json::Null
                        },
                ),
            ),
            JsonValue::Object(o) => Json::Obj(
                Seq::new(
                    o@.len(),
                    |i: int|
                        if 0 <= i < o@.len() {
                            (o@[i].0@, o@[i].1.deep())
                        } else {
                            (Seq::empty(), Json::Null)
                        },
                ),
            ),
        }
    }

    /// A copy of the value, equal to it in every part.
    #[verifier::loop_isolation(false)]
    pub fn deep_clone(&self) -> (res: JsonValue)
        ensures
            res.deep() == self.deep(),
        decreases self,
    {
        match self {
            JsonValue::Null => JsonValue::Null,
            JsonValue::Bool(b) => JsonValue::Bool(*b),
            JsonValue::Number(n) => JsonValue::Number(n.deep_clone()),
            JsonValue::Str(s) => JsonValue::Str(s.clone()),
            JsonValue::Array(a) => {
                let mut out: Vec<JsonValue> = Vec::new();
                for i in 0..a.len()
                    invariant
                        out@.len() == i,
                        forall|j: int| 0 <= j < i ==> #[trigger] out@[j].deep() == a@[j].deep(),
                {
                    proof {
                        assert(decreases_to!(*self => a@[i as int]));
                    }
                    out.push(a[i].deep_clone());
                }
                let res = JsonValue::Array(out);
                assert(res.deep()->Arr_0 =~= values_deep(out@));
                assert(self.deep()->Arr_0 =~= values_deep(a@));
                assert(values_deep(out@) =~= values_deep(a@));
                res
            },
            JsonValue::Object(o) => {
                let mut out: Vec<(String, JsonValue)> = Vec::new();
                for i in 0..o.len()
                    invariant
                        out@.len() == i,
                        forall|j: int|
                            0 <= j < i ==> #[trigger] out@[j].0@ == o@[j].0@ && out@[j].1.deep()
                                == o@[j].1.deep(),
                {
                    proof {
                        assert(decreases_to!(*self => o@[i as int].1));
                    }
                    let k = o[i].0.clone();
                    let v = o[i].1.deep_clone();
                    out.push((k, v));
                }
                let res = JsonValue::Object(out);
                assert(res.deep()->Obj_0 =~= self.deep()->Obj_0);
                res
            },
        }
    }

    /// The value stored under `key`, where this is an object that holds it.
    pub fn get(&self, key: &str) -> (res: Option<&JsonValue>)
        ensures
            match res {
                Some(v) => self.deep().get(key@) == Some(v.deep()),
                None => self.deep().get(key@) is None,
            },
    {
        match self {
            JsonValue::Object(o) => {
                let ghost entries = entries_deep(o@);
                assert(self.deep() == Json::Obj(entries)) by {
                    assert(self.deep()->Obj_0 =~= entries);
                }
                let k = key.to_owned();
                let mut i: usize = 0;
                assert(entries.skip(0) =~= entries);
                while i < o.len()
                    invariant
                        0 <= i <= o@.len(),
                        k@ == key@,
                        entries == entries_deep(o@),
                        self.deep() == Json::Obj(entries),
                        entries_get(entries, key@) == entries_get(entries.skip(i as int), key@),
                    decreases o@.len() - i,
                {
                    assert(entries.skip(i as int).drop_first() =~= entries.skip(i + 1));
                    if o[i].0 == k {
                        return Some(&o[i].1);
                    }
                    i = i + 1;
                }
                assert(entries.skip(i as int).len() == 0);
                None
            },
            _ => None,
        }
    }

    pub fn as_str(&self) -> (res: Option<&String>)
        ensures
            match res {
                Some(s) => self.deep().as_str() == Some(s@),
                None => self.deep().as_str() is None,
            },
    {
        match self {
            JsonValue::Str(s) => Some(s),
            _ => None,
        }
    }

    pub fn as_bool(&self) -> (res: Option<bool>)
        ensures
            res == self.deep().as_bool(),
    {
        match self {
            JsonValue::Bool(b) => Some(*b),
            _ => None,
        }
    }

    pub fn as_u64(&self) -> (res: Option<u64>)
        ensures
            res == self.deep().as_u64(),
    {
        match self {
            JsonValue::Number(JsonNumber::PosInt(u)) => Some(*u),
            _ => None,
        }
    }

    pub fn as_i64(&self) -> (res: Option<i64>)
        ensures
            res == self.deep().as_i64(),
    {
        match self {
            JsonValue::Number(JsonNumber::PosInt(u)) => if *u <= 9223372036854775807u64 {
                Some(*u as i64)
            } else {
                None
            },
            JsonValue::Number(JsonNumber::NegInt(i)) => Some(*i),
            _ => None,
        }
    }

    pub fn as_array(&self) -> (res: Option<&Vec<JsonValue>>)
        ensures
            match res {
                Some(a) => self.deep().as_array() == Some(values_deep(a@)),
                None => self.deep().as_array() is None,
            },
    {
        match self {
            JsonValue::Array(a) => {
                assert(self.deep()->Arr_0 =~= values_deep(a@));
                Some(a)
            },
            _ => None,
        }
    }

    pub fn is_object(&self) -> (res: bool)
        ensures
            res == self.deep().is_object(),
    {
        match self {
            JsonValue::Object(_) => true,
            _ => false,
        }
    }

    pub fn is_array(&self) -> (res: bool)
        ensures
            res == self.deep().is_array(),
    {
        match self {
            JsonValue::Array(_) => true,
            _ => false,
        }
    }

    pub fn is_null(&self) -> (res: bool)
        ensures
            res == self.deep().is_null(),
    {
        match self {
            JsonValue::Null => true,
            _ => false,
        }
    }

    /// An object with the given entries.
    pub fn object(entries: Vec<(String, JsonValue)>) -> (res: JsonValue)
        ensures
            res.deep() == Json::Obj(entries_deep(entries@)),
    {
        let res = JsonValue::Object(entries);
        assert(res.deep()->Obj_0 =~= entries_deep(entries@));
        res
    }

    /// An array with the given items.
    pub fn array(items: Vec<JsonValue>) -> (res: JsonValue)
        ensures
            res.deep() == Json::Arr(values_deep(items@)),
    {
        let res = JsonValue::Array(items);
        assert(res.deep()->Arr_0 =~= values_deep(items@));
        res
    }

    /// The entries of an object.
    pub fn as_object(&self) -> (res: Option<&Vec<(String, JsonValue)>>)
        ensures
            match res {
                Some(o) => self.deep() == Json::Obj(entries_deep(o@)),
                None => !self.deep().is_object(),
            },
    {
        match self {
            JsonValue::Object(o) => {
                assert(self.deep()->Obj_0 =~= entries_deep(o@));
                Some(o)
            },
            _ => None,
        }
    }

    /// A string value.
    pub fn string(s: &str) -> (res: JsonValue)
        ensures
            res.deep() == Json::Str(s@),
    {
        JsonValue::Str(s.to_owned())
    }
}

} // verus!
