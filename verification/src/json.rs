//! A self-contained JSON value model: the executable `Json` tree and its
//! mathematical counterpart `JsonV`, used by every contract that speaks
//! about wire frames.
use vstd::prelude::*;

verus! {

/// Mathematical model of a JSON document: integers are unbounded, strings
/// are character sequences, objects are ordered key/value pair sequences.
#[verifier::ext_equal]
pub enum JsonV {
    Null,
    Bool(bool),
    Int(int),
    Str(Seq<char>),
    Arr(Seq<JsonV>),
    Obj(Seq<(Seq<char>, JsonV)>),
}

/// Executable JSON tree. Numbers are modelled as signed 64-bit integers:
/// every value this protocol carries (timestamps, exit codes, sequence
/// numbers) fits that range.
#[derive(Debug, PartialEq, Eq)]
pub enum Json {
    Null,
    Bool(bool),
    Int(i64),
    Str(String),
    Arr(Vec<Json>),
    Obj(Vec<(String, Json)>),
}

impl Json {
    pub open spec fn jv(self) -> JsonV
        decreases self,
    {
        match self {
            Json::Null => JsonV::Null,
            Json::Bool(b) => JsonV::Bool(b),
            Json::Int(i) => JsonV::Int(i as int),
            Json::Str(s) => JsonV::Str(s@),
            Json::Arr(items) => JsonV::Arr(
                Seq::new(
                    items@.len(),
                    |i: int|
                        if 0 <= i < items@.len() {
                            items@[i].jv()
                        } else {
                            JsonV::Null
                        },
                ),
            ),
            Json::Obj(pairs) => JsonV::Obj(
                Seq::new(
                    pairs@.len(),
                    |i: int|
                        (
                            pairs@[i].0@,
                            if 0 <= i < pairs@.len() {
                                pairs@[i].1.jv()
                            } else {
                                JsonV::Null
                            },
                        ),
                ),
            ),
        }
    }
}

impl View for Json {
    type V = JsonV;

    open spec fn view(&self) -> JsonV {
        self.jv()
    }
}

impl DeepView for Json {
    type V = JsonV;

    open spec fn deep_view(&self) -> JsonV {
        self.view()
    }
}

/// First value bound to `key` in an ordered pair sequence, if any.
pub open spec fn spec_obj_get(pairs: Seq<(Seq<char>, JsonV)>, key: Seq<char>) -> Option<JsonV>
    decreases pairs.len(),
{
    if pairs.len() == 0 {
        None
    } else if pairs[0].0 == key {
        Some(pairs[0].1)
    } else {
        spec_obj_get(pairs.drop_first(), key)
    }
}

/// Field lookup on a value: `None` unless the value is an object holding `key`.
pub open spec fn jv_get(v: JsonV, key: Seq<char>) -> Option<JsonV> {
    if v is Obj {
        spec_obj_get(v->Obj_0, key)
    } else {
        None
    }
}

/// String equality by contents.
pub fn str_eq(a: &str, b: &str) -> (r: bool)
    ensures
        r == (a@ == b@),
{
    let sa: String = a.to_owned();
    let sb: String = b.to_owned();
    sa == sb
}

proof fn lemma_obj_get_step(pairs: Seq<(Seq<char>, JsonV)>, key: Seq<char>, i: int)
    requires
        0 <= i < pairs.len(),
        pairs[i].0 != key,
    ensures
        spec_obj_get(pairs.skip(i), key) == spec_obj_get(pairs.skip(i + 1), key),
{
    assert(pairs.skip(i)[0] == pairs[i]);
    assert(pairs.skip(i).drop_first() =~= pairs.skip(i + 1));
}

impl Json {
    /// Looks a key up in an object value; `None` on any other variant.
    pub fn get<'a>(&'a self, key: &str) -> (r: Option<&'a Json>)
        ensures
            match r {
                Some(v) => self@ is Obj && spec_obj_get(self@->Obj_0, key@) == Some(v@),
                None => jv_get(self@, key@) is None,
            },
    {
        match self {
            Json::Obj(pairs) => {
                let ghost all = self@->Obj_0;
                proof {
                    assert(all.skip(0) =~= all);
                }
                let n = pairs.len();
                for i in 0..n
                    invariant
                        n == pairs.len(),
                        all == self@->Obj_0,
                        self@ is Obj,
                        all.len() == n,
                        forall|k: int| 0 <= k < n ==> all[k] == (pairs@[k].0@, pairs@[k].1.jv()),
                        spec_obj_get(all, key@) == spec_obj_get(all.skip(i as int), key@),
                {
                    if str_eq(pairs[i].0.as_str(), key) {
                        proof {
                            assert(all.skip(i as int)[0] == all[i as int]);
                        }
                        return Some(&pairs[i].1);
                    }
                    proof {
                        lemma_obj_get_step(all, key@, i as int);
                    }
                }
                proof {
                    assert(all.skip(n as int) =~= Seq::<(Seq<char>, JsonV)>::empty());
                }
                None
            },
            _ => None,
        }
    }

    /// The string contents, when the value is a string.
    pub fn as_str(&self) -> (r: Option<&String>)
        ensures
            match r {
                Some(s) => self@ == JsonV::Str(s@),
                None => !(self@ is Str),
            },
    {
        match self {
            Json::Str(s) => Some(s),
            _ => None,
        }
    }

    /// The integer contents, when the value is a number.
    pub fn as_i64(&self) -> (r: Option<i64>)
        ensures
            match r {
                Some(i) => self@ == JsonV::Int(i as int),
                None => !(self@ is Int),
            },
    {
        match self {
            Json::Int(i) => Some(*i),
            _ => None,
        }
    }

    /// The integer contents, when the value is a non-negative number.
    pub fn as_u64(&self) -> (r: Option<u64>)
        ensures
            match r {
                Some(u) => self@ == JsonV::Int(u as int),
                None => !(self@ matches JsonV::Int(i) && i >= 0),
            },
    {
        match self {
            Json::Int(i) => {
                if *i >= 0 {
                    Some(*i as u64)
                } else {
                    None
                }
            },
            _ => None,
        }
    }

    /// The boolean contents, when the value is a boolean.
    pub fn as_bool(&self) -> (r: Option<bool>)
        ensures
            match r {
                Some(b) => self@ == JsonV::Bool(b),
                None => !(self@ is Bool),
            },
    {
        match self {
            Json::Bool(b) => Some(*b),
            _ => None,
        }
    }

    /// The elements, when the value is an array.
    pub fn as_arr(&self) -> (r: Option<&Vec<Json>>)
        ensures
            match r {
                Some(a) => self@ == JsonV::Arr(a.deep_view()),
                None => !(self@ is Arr),
            },
    {
        match self {
            Json::Arr(items) => {
                proof {
                    assert(self@->Arr_0 =~= items.deep_view());
                    assert(self@ =~~= JsonV::Arr(items.deep_view()));
                }
                Some(items)
            },
            _ => None,
        }
    }

    pub fn is_null(&self) -> (r: bool)
        ensures
            r == (self@ is Null),
    {
        matches!(self, Json::Null)
    }

    pub fn is_empty_object(&self) -> (r: bool)
        ensures
            r == (self@ matches JsonV::Obj(pairs) && pairs.len() == 0),
    {
        match self {
            Json::Obj(pairs) => pairs.len() == 0,
            _ => false,
        }
    }
}

/// A deep copy of a value.
pub fn json_clone(j: &Json) -> (r: Json)
    ensures
        r@ == j@,
    decreases j,
{
    match j {
        Json::Null => Json::Null,
        Json::Bool(b) => Json::Bool(*b),
        Json::Int(i) => Json::Int(*i),
        Json::Str(s) => Json::Str(s.clone()),
        Json::Arr(items) => {
            let mut out: Vec<Json> = Vec::new();
            let n = items.len();
            for idx in 0..n
                invariant
                    *j == Json::Arr(*items),
                    n == items.len(),
                    out.len() == idx,
                    forall|k: int| 0 <= k < idx ==> (#[trigger] out@[k])@ == items@[k]@,
            {
                proof {
                    assert(j->Arr_0 == *items);
                    assert(decreases_to!(*j => j->Arr_0));
                    assert(decreases_to!(j->Arr_0 => j->Arr_0@));
                    assert(decreases_to!(j->Arr_0@ => j->Arr_0@[idx as int]));
                }
                let c = json_clone(&items[idx]);
                out.push(c);
            }
            let r = Json::Arr(out);
            proof {
                assert(r@->Arr_0 =~= j@->Arr_0);
                assert(r@ =~~= j@);
            }
            r
        },
        Json::Obj(pairs) => {
            let mut out: Vec<(String, Json)> = Vec::new();
            let n = pairs.len();
            for idx in 0..n
                invariant
                    *j == Json::Obj(*pairs),
                    n == pairs.len(),
                    out.len() == idx,
                    forall|k: int|
                        0 <= k < idx ==> (#[trigger] out@[k]).0@ == pairs@[k].0@ && out@[k].1@
                            == pairs@[k].1@,
            {
                proof {
                    assert(j->Obj_0 == *pairs);
                    assert(decreases_to!(*j => j->Obj_0));
                    assert(decreases_to!(j->Obj_0 => j->Obj_0@));
                    assert(decreases_to!(j->Obj_0@ => j->Obj_0@[idx as int]));
                    assert(decreases_to!(j->Obj_0@[idx as int] => j->Obj_0@[idx as int].1));
                }
                let key = pairs[idx].0.clone();
                let val = json_clone(&pairs[idx].1);
                out.push((key, val));
            }
            let r = Json::Obj(out);
            proof {
                assert(r@->Obj_0 =~= j@->Obj_0);
                assert(r@ =~~= j@);
            }
            r
        },
    }
}

/// A fresh string value.
pub fn jstr(s: &str) -> (r: Json)
    ensures
        r@ == JsonV::Str(s@),
{
    Json::Str(s.to_owned())
}

/// An empty object, ready for `obj_push`.
pub fn obj_empty() -> (r: Json)
    ensures
        r@ == JsonV::Obj(Seq::<(Seq<char>, JsonV)>::empty()),
{
    let r = Json::Obj(Vec::new());
    proof {
        assert(r@->Obj_0 =~= Seq::<(Seq<char>, JsonV)>::empty());
    }
    r
}

/// Appends one key/value pair to an object value.
pub fn obj_push(o: Json, key: &str, v: Json) -> (r: Json)
    requires
        o@ is Obj,
    ensures
        r@ == JsonV::Obj(o@->Obj_0.push((key@, v@))),
{
    match o {
        Json::Obj(mut pairs) => {
            let ghost old_pairs = pairs@;
            proof {
                assert(o@->Obj_0.len() == old_pairs.len());
            }
            pairs.push((key.to_owned(), v));
            let r = Json::Obj(pairs);
            proof {
                assert forall|k: int| 0 <= k < old_pairs.len() implies o@->Obj_0[k] == (
                old_pairs[k].0@,
                old_pairs[k].1.jv(),
                ) by {}
                assert(r@->Obj_0 =~= o@->Obj_0.push((key@, v@)));
                assert(r@ =~~= JsonV::Obj(o@->Obj_0.push((key@, v@))));
            }
            r
        },
        _ => vstd::pervasive::unreached(),
    }
}

/// An object of one key/value pair.
pub fn obj1(k1: &str, v1: Json) -> (r: Json)
    ensures
        r@ == JsonV::Obj(seq![(k1@, v1@)]),
{
    let r = obj_push(obj_empty(), k1, v1);
    proof {
        assert(r@->Obj_0 =~= seq![(k1@, v1@)]);
        assert(r@ =~~= JsonV::Obj(seq![(k1@, v1@)]));
    }
    r
}

/// An object of two key/value pairs.
pub fn obj2(k1: &str, v1: Json, k2: &str, v2: Json) -> (r: Json)
    ensures
        r@ == JsonV::Obj(seq![(k1@, v1@), (k2@, v2@)]),
{
    let r = obj_push(obj_push(obj_empty(), k1, v1), k2, v2);
    proof {
        assert(r@->Obj_0.len() == 2);
        assert(r@->Obj_0[0] == (k1@, v1@));
        assert(r@->Obj_0[1] == (k2@, v2@));
        assert(r@->Obj_0 =~= seq![(k1@, v1@), (k2@, v2@)]);
        assert(r@ =~~= JsonV::Obj(seq![(k1@, v1@), (k2@, v2@)]));
    }
    r
}

/// An object of three key/value pairs.
pub fn obj3(k1: &str, v1: Json, k2: &str, v2: Json, k3: &str, v3: Json) -> (r: Json)
    ensures
        r@ == JsonV::Obj(seq![(k1@, v1@), (k2@, v2@), (k3@, v3@)]),
{
    let r = obj_push(obj_push(obj_push(obj_empty(), k1, v1), k2, v2), k3, v3);
    proof {
        assert(r@->Obj_0.len() == 3);
        assert(r@->Obj_0[0] == (k1@, v1@));
        assert(r@->Obj_0[1] == (k2@, v2@));
        assert(r@->Obj_0[2] == (k3@, v3@));
        assert(r@->Obj_0 =~= seq![(k1@, v1@), (k2@, v2@), (k3@, v3@)]);
        assert(r@ =~~= JsonV::Obj(seq![(k1@, v1@), (k2@, v2@), (k3@, v3@)]));
    }
    r
}

/// An object of four key/value pairs.
pub fn obj4(k1: &str, v1: Json, k2: &str, v2: Json, k3: &str, v3: Json, k4: &str, v4: Json) -> (r:
    Json)
    ensures
        r@ == JsonV::Obj(seq![(k1@, v1@), (k2@, v2@), (k3@, v3@), (k4@, v4@)]),
{
    let r = obj_push(obj_push(obj_push(obj_push(obj_empty(), k1, v1), k2, v2), k3, v3), k4, v4);
    proof {
        assert(r@->Obj_0.len() == 4);
        assert(r@->Obj_0[0] == (k1@, v1@));
        assert(r@->Obj_0[1] == (k2@, v2@));
        assert(r@->Obj_0[2] == (k3@, v3@));
        assert(r@->Obj_0[3] == (k4@, v4@));
        assert(r@->Obj_0 =~= seq![(k1@, v1@), (k2@, v2@), (k3@, v3@), (k4@, v4@)]);
        assert(r@ =~~= JsonV::Obj(seq![(k1@, v1@), (k2@, v2@), (k3@, v3@), (k4@, v4@)]));
    }
    r
}

/// An object of five key/value pairs.
pub fn obj5(
    k1: &str,
    v1: Json,
    k2: &str,
    v2: Json,
    k3: &str,
    v3: Json,
    k4: &str,
    v4: Json,
    k5: &str,
    v5: Json,
) -> (r: Json)
    ensures
        r@ == JsonV::Obj(seq![(k1@, v1@), (k2@, v2@), (k3@, v3@), (k4@, v4@), (k5@, v5@)]),
{
    let r = obj_push(
        obj_push(obj_push(obj_push(obj_push(obj_empty(), k1, v1), k2, v2), k3, v3), k4, v4),
        k5,
        v5,
    );
    proof {
        assert(r@->Obj_0.len() == 5);
        assert(r@->Obj_0[0] == (k1@, v1@));
        assert(r@->Obj_0[1] == (k2@, v2@));
        assert(r@->Obj_0[2] == (k3@, v3@));
        assert(r@->Obj_0[3] == (k4@, v4@));
        assert(r@->Obj_0[4] == (k5@, v5@));
        assert(r@->Obj_0 =~= seq![(k1@, v1@), (k2@, v2@), (k3@, v3@), (k4@, v4@), (k5@, v5@)]);
        assert(r@ =~~= JsonV::Obj(
            seq![(k1@, v1@), (k2@, v2@), (k3@, v3@), (k4@, v4@), (k5@, v5@)],
        ));
    }
    r
}

/// An object of six key/value pairs.
pub fn obj6(
    k1: &str,
    v1: Json,
    k2: &str,
    v2: Json,
    k3: &str,
    v3: Json,
    k4: &str,
    v4: Json,
    k5: &str,
    v5: Json,
    k6: &str,
    v6: Json,
) -> (r: Json)
    ensures
        r@ == JsonV::Obj(
            seq![(k1@, v1@), (k2@, v2@), (k3@, v3@), (k4@, v4@), (k5@, v5@), (k6@, v6@)],
        ),
{
    let r = obj_push(
        obj_push(
            obj_push(obj_push(obj_push(obj_push(obj_empty(), k1, v1), k2, v2), k3, v3), k4, v4),
            k5,
            v5,
        ),
        k6,
        v6,
    );
    proof {
        assert(r@->Obj_0.len() == 6);
        assert(r@->Obj_0[0] == (k1@, v1@));
        assert(r@->Obj_0[1] == (k2@, v2@));
        assert(r@->Obj_0[2] == (k3@, v3@));
        assert(r@->Obj_0[3] == (k4@, v4@));
        assert(r@->Obj_0[4] == (k5@, v5@));
        assert(r@->Obj_0[5] == (k6@, v6@));
        assert(r@->Obj_0 =~= seq![
            (k1@, v1@),
            (k2@, v2@),
            (k3@, v3@),
            (k4@, v4@),
            (k5@, v5@),
            (k6@, v6@),
        ]);
        assert(r@ =~~= JsonV::Obj(
            seq![(k1@, v1@), (k2@, v2@), (k3@, v3@), (k4@, v4@), (k5@, v5@), (k6@, v6@)],
        ));
    }
    r
}

/// An empty array, ready for `arr_push`.
pub fn arr_empty() -> (r: Json)
    ensures
        r@ == JsonV::Arr(Seq::<JsonV>::empty()),
{
    let r = Json::Arr(Vec::new());
    proof {
        assert(r@->Arr_0 =~= Seq::<JsonV>::empty());
    }
    r
}

/// Appends one element to an array value.
pub fn arr_push(a: Json, v: Json) -> (r: Json)
    requires
        a@ is Arr,
    ensures
        r@ == JsonV::Arr(a@->Arr_0.push(v@)),
{
    match a {
        Json::Arr(mut items) => {
            let ghost old_items = items@;
            proof {
                assert(a@->Arr_0.len() == old_items.len());
            }
            items.push(v);
            let r = Json::Arr(items);
            proof {
                assert forall|k: int| 0 <= k < old_items.len() implies a@->Arr_0[k]
                    == old_items[k].jv() by {}
                assert(r@->Arr_0 =~= a@->Arr_0.push(v@));
                assert(r@ =~~= JsonV::Arr(a@->Arr_0.push(v@)));
            }
            r
        },
        _ => vstd::pervasive::unreached(),
    }
}

} // verus!
