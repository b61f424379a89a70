//! A JSON value as plain data, the accessors the protocol logic reads it with,
//! and its text form, which `serde_json` reads and writes.

use vstd::prelude::*;

verus! {

/// What a JSON number is: a non-negative integer, a negative integer, or a
/// finite binary64 value, told by its bit pattern.
pub enum NumberV {
    PosInt(u64),
    NegInt(i64),
    Float(u64),
}

/// `serde_json::Number`, carried as it is: the library reads integers out
/// of it and hands every other number through untouched.
#[verifier::external_type_specification]
#[verifier::external_body]
pub struct ExNumber(serde_json::Number);

/// What a `serde_json::Number` holds.
pub uninterp spec fn number_model(n: serde_json::Number) -> NumberV;

/// A JSON value. An object keeps its members in the order they were given;
/// where a key occurs more than once, the last member of that key is the one
/// that counts.
#[derive(Debug, PartialEq)]
pub enum Json {
    Null,
    Bool(bool),
    Num(serde_json::Number),
    Str(String),
    Array(Vec<Json>),
    Object(Vec<(String, Json)>),
}

/// The mathematical model of a [`Json`] value: the same tree over sequences.
pub enum JsonV {
    Null,
    Bool(bool),
    Num(NumberV),
    Str(Seq<char>),
    Array(Seq<JsonV>),
    Object(Seq<(Seq<char>, JsonV)>),
}

/// What a JSON value means once member order and overridden members are
/// forgotten: objects are finite maps.
pub enum JsonM {
    Null,
    Bool(bool),
    Num(NumberV),
    Str(Seq<char>),
    Array(Seq<JsonM>),
    Object(Map<Seq<char>, JsonM>),
}

impl View for Json {
    type V = JsonV;

    open spec fn view(&self) -> JsonV
        decreases self,
    {
        match self {
            Json::Null => JsonV::Null,
            Json::Bool(b) => JsonV::Bool(*b),
            Json::Num(n) => JsonV::Num(number_model(*n)),
            Json::Str(s) => JsonV::Str(s@),
            Json::Array(items) => JsonV::Array(
                Seq::new(
                    items@.len(),
                    |i: int|
                        if 0 <= i < items@.len() {
                            items@[i]@
                        } else {
                            JsonV::Null
                        },
                ),
            ),
            Json::Object(members) => JsonV::Object(
                Seq::new(
                    members@.len(),
                    |i: int|
                        if 0 <= i < members@.len() {
                            (members@[i].0@, members@[i].1@)
                        } else {
                            (Seq::empty(), JsonV::Null)
                        },
                ),
            ),
        }
    }
}

/// The index of the last member of `members` whose key is `key`, or -1.
pub open spec fn last_index_of(members: Seq<(Seq<char>, JsonV)>, key: Seq<char>) -> int
    decreases members.len(),
{
    if members.len() == 0 {
        -1
    } else if members.last().0 == key {
        members.len() - 1
    } else {
        last_index_of(members.drop_last(), key)
    }
}

/// The value that `members` gives `key`: that of the last member with that key.
pub open spec fn lookup(members: Seq<(Seq<char>, JsonV)>, key: Seq<char>) -> Option<JsonV> {
    let i = last_index_of(members, key);
    if 0 <= i < members.len() {
        Some(members[i].1)
    } else {
        None
    }
}

pub proof fn lemma_last_index_of(members: Seq<(Seq<char>, JsonV)>, key: Seq<char>)
    ensures
        -1 <= last_index_of(members, key) < members.len(),
        last_index_of(members, key) >= 0 ==> members[last_index_of(members, key)].0 == key,
        forall|j: int| last_index_of(members, key) < j < members.len() ==> members[j].0 != key,
    decreases members.len(),
{
    if members.len() > 0 && members.last().0 != key {
        let front = members.drop_last();
        lemma_last_index_of(front, key);
        assert forall|j: int| last_index_of(members, key) < j < members.len() implies members[j].0
            != key by {
            if j < front.len() {
                assert(front[j] == members[j]);
            }
        }
    }
}

impl JsonV {
    /// The member of an object under `key`; `None` for anything but an object.
    pub open spec fn get(self, key: Seq<char>) -> Option<JsonV> {
        match self {
            JsonV::Object(members) => lookup(members, key),
            _ => None,
        }
    }

    pub open spec fn as_str(self) -> Option<Seq<char>> {
        match self {
            JsonV::Str(s) => Some(s),
            _ => None,
        }
    }

    pub open spec fn as_bool(self) -> Option<bool> {
        match self {
            JsonV::Bool(b) => Some(b),
            _ => None,
        }
    }

    /// A number that is a non-negative integer below 2^64.
    pub open spec fn as_u64(self) -> Option<u64> {
        match self {
            JsonV::Num(NumberV::PosInt(n)) => Some(n),
            _ => None,
        }
    }

    /// A number that is an integer in the range of `i64`.
    pub open spec fn as_i64(self) -> Option<i64> {
        match self {
            JsonV::Num(NumberV::PosInt(n)) => if n <= i64::MAX as u64 {
                Some(n as i64)
            } else {
                None
            },
            JsonV::Num(NumberV::NegInt(n)) => Some(n),
            _ => None,
        }
    }

    pub open spec fn as_number(self) -> Option<NumberV> {
        match self {
            JsonV::Num(n) => Some(n),
            _ => None,
        }
    }

    pub open spec fn as_array(self) -> Option<Seq<JsonV>> {
        match self {
            JsonV::Array(items) => Some(items),
            _ => None,
        }
    }

    /// `self.get(a)`, then `.get(b)` of what was found.
    pub open spec fn get2(self, a: Seq<char>, b: Seq<char>) -> Option<JsonV> {
        match self.get(a) {
            Some(inner) => inner.get(b),
            None => None,
        }
    }

    /// The meaning of the value: objects become maps from key to the meaning
    /// of the last member with that key.
    pub open spec fn meaning(self) -> JsonM
        decreases self,
    {
        match self {
            JsonV::Null => JsonM::Null,
            JsonV::Bool(b) => JsonM::Bool(b),
            JsonV::Num(n) => JsonM::Num(n),
            JsonV::Str(s) => JsonM::Str(s),
            JsonV::Array(items) => JsonM::Array(
                Seq::new(
                    items.len(),
                    |i: int|
                        if 0 <= i < items.len() {
                            items[i].meaning()
                        } else {
                            JsonM::Null
                        },
                ),
            ),
            JsonV::Object(members) => JsonM::Object(
                Map::new(
                    |k: Seq<char>| last_index_of(members, k) >= 0,
                    |k: Seq<char>|
                        {
                            let i = last_index_of(members, k);
                            if 0 <= i < members.len() {
                                members[i].1.meaning()
                            } else {
                                JsonM::Null
                            }
                        },
                ),
            ),
        }
    }
}

/// The view of a list of members, as it stands inside the view of an object.
pub open spec fn members_view(members: Seq<(String, Json)>) -> Seq<(Seq<char>, JsonV)> {
    Seq::new(members.len(), |i: int| (members[i].0@, members[i].1@))
}

/// The view of a list of values, as it stands inside the view of an array.
pub open spec fn items_view(items: Seq<Json>) -> Seq<JsonV> {
    Seq::new(items.len(), |i: int| items[i]@)
}

pub proof fn lemma_object_view(members: Vec<(String, Json)>)
    ensures
        Json::Object(members)@ == JsonV::Object(members_view(members@)),
{
    reveal_with_fuel(<Json as View>::view, 2);
    assert(Json::Object(members)@->Object_0 =~= members_view(members@));
}

pub proof fn lemma_array_view(items: Vec<Json>)
    ensures
        Json::Array(items)@ == JsonV::Array(items_view(items@)),
{
    reveal_with_fuel(<Json as View>::view, 2);
    assert(Json::Array(items)@->Array_0 =~= items_view(items@));
}

impl Json {
    /// The member of an object under `key`: the last one, where the key is repeated.
    pub fn get(&self, key: &str) -> (r: Option<&Json>)
        ensures
            match r {
                Some(found) => self@.get(key@) == Some(found@),
                None => self@.get(key@) is None,
            },
    {
        match self {
            Json::Object(members) => {
                proof {
                    lemma_object_view(*members);
                }
                let wanted = String::from_str(key);
                let ghost all = members_view(members@);
                let mut i: usize = members.len();
                while i > 0
                    invariant
                        i <= members.len(),
                        all == members_view(members@),
                        self@ == JsonV::Object(all),
                        wanted@ == key@,
                        forall|j: int| i <= j < members.len() ==> all[j].0 != key@,
                    decreases i,
                {
                    i = i - 1;
                    if members[i].0 == wanted {
                        proof {
                            lemma_last_index_of(all, key@);
                            assert(all[i as int].0 == key@);
                            assert(last_index_of(all, key@) == i);
                        }
                        return Some(&members[i].1);
                    }
                }
                proof {
                    lemma_last_index_of(all, key@);
                }
                None
            },
            _ => None,
        }
    }

    pub fn as_str(&self) -> (r: Option<&str>)
        ensures
            match r {
                Some(s) => self@.as_str() == Some(s@),
                None => self@.as_str() is None,
            },
    {
        match self {
            Json::Str(s) => Some(s.as_str()),
            _ => None,
        }
    }

    pub fn as_bool(&self) -> (r: Option<bool>)
        ensures
            r == self@.as_bool(),
    {
        match self {
            Json::Bool(b) => Some(*b),
            _ => None,
        }
    }

    pub fn as_u64(&self) -> (r: Option<u64>)
        ensures
            r == self@.as_u64(),
    {
        match self {
            Json::Num(n) => n.as_u64(),
            _ => None,
        }
    }

    pub fn as_i64(&self) -> (r: Option<i64>)
        ensures
            r == self@.as_i64(),
    {
        match self {
            Json::Num(n) => n.as_i64(),
            _ => None,
        }
    }

    pub fn as_number(&self) -> (r: Option<&serde_json::Number>)
        ensures
            match r {
                Some(n) => self@.as_number() == Some(number_model(*n)),
                None => self@.as_number() is None,
            },
    {
        match self {
            Json::Num(n) => Some(n),
            _ => None,
        }
    }

    pub fn as_array(&self) -> (r: Option<&Vec<Json>>)
        ensures
            match r {
                Some(items) => self@.as_array() == Some(items_view(items@)),
                None => self@.as_array() is None,
            },
    {
        match self {
            Json::Array(items) => {
                proof {
                    lemma_array_view(*items);
                }
                Some(items)
            },
            _ => None,
        }
    }

    pub fn is_null(&self) -> (r: bool)
        ensures
            r == (self@ is Null),
    {
        match self {
            Json::Null => true,
            _ => false,
        }
    }
}

impl Clone for Json {
    #[verifier::loop_isolation(false)]
    fn clone(&self) -> (r: Json)
        ensures
            r@ == self@,
        decreases self,
    {
        match self {
            Json::Null => Json::Null,
            Json::Bool(b) => Json::Bool(*b),
            Json::Num(n) => Json::Num(n.clone()),
            Json::Str(s) => Json::Str(s.clone()),
            Json::Array(items) => {
                let mut copy: Vec<Json> = Vec::new();
                let mut i: usize = 0;
                while i < items.len()
                    invariant
                        i <= items.len(),
                        copy.len() == i,
                        forall|j: int| 0 <= j < i ==> copy@[j]@ == items@[j]@,
                    decreases items.len() - i,
                {
                    copy.push(items[i].clone());
                    i = i + 1;
                }
                proof {
                    lemma_array_view(*items);
                    lemma_array_view(copy);
                    assert(items_view(copy@) =~= items_view(items@));
                }
                Json::Array(copy)
            },
            Json::Object(members) => {
                let mut copy: Vec<(String, Json)> = Vec::new();
                let mut i: usize = 0;
                while i < members.len()
                    invariant
                        i <= members.len(),
                        copy.len() == i,
                        forall|j: int|
                            0 <= j < i ==> copy@[j].0@ == members@[j].0@ && copy@[j].1@
                                == members@[j].1@,
                    decreases members.len() - i,
                {
                    copy.push((members[i].0.clone(), members[i].1.clone()));
                    i = i + 1;
                }
                proof {
                    lemma_object_view(*members);
                    lemma_object_view(copy);
                    assert(members_view(copy@) =~= members_view(members@));
                }
                Json::Object(copy)
            },
        }
    }
}

/// `serde_json::Value`, which the text of a value is read into and written from.
#[verifier::external_type_specification]
#[verifier::external_body]
pub struct ExValue(serde_json::Value);

/// What a `serde_json::Value` holds, its object members in the order in
/// which the value hands them out.
pub uninterp spec fn value_model(v: serde_json::Value) -> JsonV;

/// What `serde_json::from_str` makes of a text: the value it reads, or the
/// message of the error it reports.
pub uninterp spec fn json_parse(text: Seq<char>) -> Result<JsonV, Seq<char>>;

/// The compact text that `serde_json` writes for a value. The text is a
/// function of the meaning of the value, where an object is a map, because
/// `serde_json::Map` is a `BTreeMap` and writes its members in key order.
/// That holds while the feature `preserve_order` of `serde_json` is off, as
/// it is in this crate.
pub uninterp spec fn json_text(m: JsonM) -> Seq<char>;

/// The indented text that `serde_json::to_string_pretty` writes for a
/// value. Like `json_text`, it is a function of the meaning of the value
/// only while the feature `preserve_order` of `serde_json` is off.
pub uninterp spec fn json_text_pretty(m: JsonM) -> Seq<char>;

/// `Number::as_u64`: the number, where it is a non-negative integer.
pub assume_specification[ serde_json::Number::as_u64 ](n: &serde_json::Number) -> (r: Option<u64>)
    ensures
        r == JsonV::Num(number_model(*n)).as_u64(),
;

/// `Number::as_i64`: the number, where it is an integer in the range of `i64`.
pub assume_specification[ serde_json::Number::as_i64 ](n: &serde_json::Number) -> (r: Option<i64>)
    ensures
        r == JsonV::Num(number_model(*n)).as_i64(),
;

/// `Number::clone` hands back an equal number.
pub assume_specification[ <serde_json::Number as Clone>::clone ](n: &serde_json::Number) -> (r:
    serde_json::Number)
    ensures
        r == *n,
;

/// `Number::from` of a `u64`.
pub assume_specification[ <serde_json::Number as From<u64>>::from ](n: u64) -> (r:
    serde_json::Number)
    ensures
        number_model(r) == NumberV::PosInt(n),
;

/// `Number::from` of an `i64`, which files a non-negative one with the `u64`s.
pub assume_specification[ <serde_json::Number as From<i64>>::from ](n: i64) -> (r:
    serde_json::Number)
    ensures
        number_model(r) == if n >= 0 {
            NumberV::PosInt(n as u64)
        } else {
            NumberV::NegInt(n)
        },
;

/// `serde_json::Map`, the object of a `Value`.
#[verifier::external_type_specification]
#[verifier::external_body]
#[verifier::reject_recursive_types(K)]
#[verifier::reject_recursive_types(V)]
pub struct ExMap<K, V>(serde_json::Map<K, V>);

/// What a `serde_json::Map` holds: its members, in the order in which it
/// hands them out.
pub uninterp spec fn map_members(m: serde_json::Map<String, serde_json::Value>) -> Seq<
    (Seq<char>, JsonV),
>;

/// What each of a list of values holds.
pub open spec fn values_model(items: Seq<serde_json::Value>) -> Seq<JsonV> {
    Seq::new(items.len(), |i: int| value_model(items[i]))
}

/// `Value::is_null` tells whether the value is null.
pub assume_specification[ serde_json::Value::is_null ](v: &serde_json::Value) -> (r: bool)
    ensures
        r == (value_model(*v) is Null),
;

/// `Value::as_bool` gives the boolean of a boolean value, and `None` of any other.
pub assume_specification[ serde_json::Value::as_bool ](v: &serde_json::Value) -> (r: Option<bool>)
    ensures
        match r {
            Some(b) => value_model(*v) == JsonV::Bool(b),
            None => !(value_model(*v) is Bool),
        },
;

/// `Value::as_number` gives the number of a number value, and `None` of any other.
pub assume_specification<'a>[ serde_json::Value::as_number ](v: &'a serde_json::Value) -> (r:
    Option<&'a serde_json::Number>)
    ensures
        match r {
            Some(n) => value_model(*v) == JsonV::Num(number_model(*n)),
            None => !(value_model(*v) is Num),
        },
;

/// `Value::as_str` gives the text of a string value, and `None` of any other.
pub assume_specification<'a>[ serde_json::Value::as_str ](v: &'a serde_json::Value) -> (r: Option<
    &'a str,
>)
    ensures
        match r {
            Some(s) => value_model(*v) == JsonV::Str(s@),
            None => !(value_model(*v) is Str),
        },
;

/// `Value::as_array` gives the items of an array, and `None` of any other value.
pub assume_specification<'a>[ serde_json::Value::as_array ](v: &'a serde_json::Value) -> (r:
    Option<&'a Vec<serde_json::Value>>)
    ensures
        match r {
            Some(items) => value_model(*v) == JsonV::Array(values_model(items@)),
            None => !(value_model(*v) is Array),
        },
;

/// `Value::as_object` gives the map of an object, and `None` of any other value.
pub assume_specification<'a>[ serde_json::Value::as_object ](v: &'a serde_json::Value) -> (r:
    Option<&'a serde_json::Map<String, serde_json::Value>>)
    ensures
        match r {
            Some(m) => value_model(*v) == JsonV::Object(map_members(*m)),
            None => !(value_model(*v) is Object),
        },
;

/// `Map::new` makes a map without members.
pub assume_specification[ serde_json::Map::<String, serde_json::Value>::new ]() -> (r:
    serde_json::Map<String, serde_json::Value>)
    ensures
        map_members(r) == Seq::<(Seq<char>, JsonV)>::empty(),
;

/// `Map::insert` puts a value under a key, in place of the value that was
/// under that key if there was one; the other keys keep their values.
pub assume_specification[ serde_json::Map::<String, serde_json::Value>::insert ](
    m: &mut serde_json::Map<String, serde_json::Value>,
    k: String,
    v: serde_json::Value,
) -> (r: Option<serde_json::Value>)
    ensures
        forall|key: Seq<char>| #[trigger]
            lookup(map_members(*final(m)), key) == if key == k@ {
                Some(value_model(v))
            } else {
                lookup(map_members(*old(m)), key)
            },
;

/// The members of a map, as `Map::iter` hands them out.
#[verifier::external_body]
fn map_entries<'a>(m: &'a serde_json::Map<String, serde_json::Value>) -> (r: Vec<
    (&'a String, &'a serde_json::Value),
>)
    ensures
        r@.len() == map_members(*m).len(),
        forall|i: int|
            0 <= i < r@.len() ==> (#[trigger] r@[i]).0@ == map_members(*m)[i].0 && value_model(
                *r@[i].1,
            ) == map_members(*m)[i].1,
{
    m.iter().collect()
}

/// The null `Value`.
#[verifier::external_body]
fn value_null() -> (r: serde_json::Value)
    ensures
        value_model(r) == JsonV::Null,
{
    serde_json::Value::Null
}

/// The `Value` of a boolean.
#[verifier::external_body]
fn value_bool(b: bool) -> (r: serde_json::Value)
    ensures
        value_model(r) == JsonV::Bool(b),
{
    serde_json::Value::Bool(b)
}

/// The `Value` of a number.
#[verifier::external_body]
fn value_number(n: serde_json::Number) -> (r: serde_json::Value)
    ensures
        value_model(r) == JsonV::Num(number_model(n)),
{
    serde_json::Value::Number(n)
}

/// The `Value` of a text.
#[verifier::external_body]
fn value_string(s: String) -> (r: serde_json::Value)
    ensures
        value_model(r) == JsonV::Str(s@),
{
    serde_json::Value::String(s)
}

/// The `Value` that is the array of the given items.
#[verifier::external_body]
fn value_array(items: Vec<serde_json::Value>) -> (r: serde_json::Value)
    ensures
        value_model(r) == JsonV::Array(values_model(items@)),
{
    serde_json::Value::Array(items)
}

/// The `Value` that is the object of the given map.
#[verifier::external_body]
fn value_object(m: serde_json::Map<String, serde_json::Value>) -> (r: serde_json::Value)
    ensures
        value_model(r) == JsonV::Object(map_members(m)),
{
    serde_json::Value::Object(m)
}

/// Whether two runs of members give every key values of the same meaning.
pub open spec fn agree(a: Seq<(Seq<char>, JsonV)>, b: Seq<(Seq<char>, JsonV)>) -> bool {
    forall|key: Seq<char>|
        match (#[trigger] lookup(a, key), #[trigger] lookup(b, key)) {
            (Some(x), Some(y)) => x.meaning() == y.meaning(),
            (None, None) => true,
            _ => false,
        }
}

/// Objects whose members agree mean the same.
pub proof fn lemma_agree_same_meaning(a: Seq<(Seq<char>, JsonV)>, b: Seq<(Seq<char>, JsonV)>)
    requires
        agree(a, b),
    ensures
        JsonV::Object(a).meaning() == JsonV::Object(b).meaning(),
{
    reveal_with_fuel(JsonV::meaning, 2);
    let ma = JsonV::Object(a).meaning()->Object_0;
    let mb = JsonV::Object(b).meaning()->Object_0;
    assert forall|k: Seq<char>| ma.contains_key(k) == mb.contains_key(k) by {
        lemma_last_index_of(a, k);
        lemma_last_index_of(b, k);
        assert(lookup(a, k) is Some == lookup(b, k) is Some);
    }
    assert forall|k: Seq<char>| ma.contains_key(k) implies ma[k] == mb[k] by {
        lemma_last_index_of(a, k);
        lemma_last_index_of(b, k);
        assert(lookup(a, k) is Some && lookup(b, k) is Some);
    }
    assert(ma =~= mb);
}

/// Arrays whose items mean the same, one by one, mean the same.
pub proof fn lemma_items_same_meaning(a: Seq<JsonV>, b: Seq<JsonV>)
    requires
        a.len() == b.len(),
        forall|i: int| 0 <= i < a.len() ==> a[i].meaning() == b[i].meaning(),
    ensures
        JsonV::Array(a).meaning() == JsonV::Array(b).meaning(),
{
    reveal_with_fuel(JsonV::meaning, 2);
    assert(JsonV::Array(a).meaning()->Array_0 =~= JsonV::Array(b).meaning()->Array_0);
}

/// Copies a `serde_json::Value` into a [`Json`].
#[verifier::loop_isolation(false)]
fn from_value(v: &serde_json::Value) -> (r: Json)
    ensures
        r@ == value_model(*v),
    decreases value_model(*v),
{
    if v.is_null() {
        return Json::Null;
    }
    match v.as_bool() {
        Some(b) => {
            return Json::Bool(b);
        },
        None => {},
    }
    match v.as_number() {
        Some(n) => {
            return Json::Num(n.clone());
        },
        None => {},
    }
    match v.as_str() {
        Some(s) => {
            return Json::Str(String::from_str(s));
        },
        None => {},
    }
    match v.as_array() {
        Some(items) => {
            let mut out: Vec<Json> = Vec::new();
            let mut i: usize = 0;
            while i < items.len()
                invariant
                    i <= items.len(),
                    out.len() == i,
                    forall|k: int| 0 <= k < i ==> out@[k]@ == value_model(items@[k]),
                decreases items.len() - i,
            {
                proof {
                    let whole = value_model(*v);
                    let inner = values_model(items@);
                    let child = value_model(items@[i as int]);
                    assert(whole == JsonV::Array(inner));
                    assert(inner[i as int] == child);
                    assert(whole->Array_0 == inner);
                    assert(decreases_to!(whole => whole->Array_0));
                    assert(decreases_to!(whole->Array_0 => whole->Array_0[i as int]));
                }
                out.push(from_value(&items[i]));
                i = i + 1;
            }
            assert(items_view(out@) =~= values_model(items@));
            return Json::array(out);
        },
        None => {},
    }
    match v.as_object() {
        Some(m) => {
            let entries = map_entries(m);
            let mut out: Vec<(String, Json)> = Vec::new();
            let mut i: usize = 0;
            while i < entries.len()
                invariant
                    i <= entries.len(),
                    out.len() == i,
                    forall|k: int|
                        0 <= k < i ==> out@[k].0@ == map_members(*m)[k].0 && out@[k].1@
                            == map_members(*m)[k].1,
                decreases entries.len() - i,
            {
                let (key, value) = entries[i];
                proof {
                    let whole = value_model(*v);
                    let inner = map_members(*m);
                    let member = inner[i as int];
                    assert(whole == JsonV::Object(inner));
                    assert(value_model(*value) == member.1);
                    assert(whole->Object_0 == inner);
                    assert(decreases_to!(whole => whole->Object_0));
                    assert(decreases_to!(whole->Object_0 => whole->Object_0[i as int]));
                    assert(decreases_to!(member => member.1));
                }
                out.push((key.clone(), from_value(value)));
                i = i + 1;
            }
            assert(members_view(out@) =~= map_members(*m));
            return Json::object(out);
        },
        None => {},
    }
    Json::Null
}

/// Builds the `serde_json::Value` that means what `j` means: members go into
/// the map in their order, so a later member replaces an earlier one of its key.
#[verifier::loop_isolation(false)]
fn to_value(j: &Json) -> (r: serde_json::Value)
    ensures
        value_model(r).meaning() == j@.meaning(),
    decreases j,
{
    match j {
        Json::Null => value_null(),
        Json::Bool(b) => value_bool(*b),
        Json::Num(n) => value_number(n.clone()),
        Json::Str(s) => value_string(s.clone()),
        Json::Array(items) => {
            let mut out: Vec<serde_json::Value> = Vec::new();
            let mut i: usize = 0;
            while i < items.len()
                invariant
                    i <= items.len(),
                    out.len() == i,
                    forall|k: int|
                        0 <= k < i ==> value_model(out@[k]).meaning() == items@[k]@.meaning(),
                decreases items.len() - i,
            {
                out.push(to_value(&items[i]));
                i = i + 1;
            }
            proof {
                lemma_array_view(*items);
                lemma_items_same_meaning(values_model(out@), items_view(items@));
            }
            value_array(out)
        },
        Json::Object(members) => {
            let ghost all = members_view(members@);
            let mut map = serde_json::Map::new();
            let mut i: usize = 0;
            proof {
                assert(all.take(0) =~= Seq::<(Seq<char>, JsonV)>::empty());
            }
            while i < members.len()
                invariant
                    i <= members.len(),
                    all == members_view(members@),
                    agree(map_members(map), all.take(i as int)),
                decreases members.len() - i,
            {
                let ghost before = map_members(map);
                let value = to_value(&members[i].1);
                map.insert(members[i].0.clone(), value);
                proof {
                    let prefix = all.take(i as int);
                    let next = all.take(i + 1);
                    let key_i = members@[i as int].0@;
                    assert(next =~= prefix + seq![all[i as int]]);
                    assert forall|key: Seq<char>|
                        match (
                            #[trigger] lookup(map_members(map), key),
                            #[trigger] lookup(next, key),
                        ) {
                            (Some(x), Some(y)) => x.meaning() == y.meaning(),
                            (None, None) => true,
                            _ => false,
                        } by {
                        lemma_lookup_concat(prefix, seq![all[i as int]], key);
                        lemma_lookup_one(all[i as int].0, all[i as int].1, key);
                        if key != key_i {
                            assert(lookup(map_members(map), key) == lookup(before, key));
                        }
                    }
                }
                i = i + 1;
            }
            proof {
                assert(all.take(members.len() as int) =~= all);
                lemma_object_view(*members);
                lemma_agree_same_meaning(map_members(map), all);
            }
            value_object(map)
        },
    }
}

/// `serde_json::from_str` to a `Value`; an error is handed on as its message.
#[verifier::external_body]
fn parse_value(text: &str) -> (r: Result<serde_json::Value, String>)
    ensures
        match r {
            Ok(v) => json_parse(text@) == Ok::<JsonV, Seq<char>>(value_model(v)),
            Err(message) => json_parse(text@) == Err::<JsonV, Seq<char>>(message@),
        },
{
    serde_json::from_str::<serde_json::Value>(text).map_err(|e| e.to_string())
}

/// The compact text of a `Value`, as its `Display` writes it.
#[verifier::external_body]
fn value_text(v: &serde_json::Value) -> (r: String)
    ensures
        r@ == json_text(value_model(*v).meaning()),
{
    v.to_string()
}

/// `serde_json::to_string_pretty` of a `Value`, which cannot fail on one.
#[verifier::external_body]
fn value_text_pretty(v: &serde_json::Value) -> (r: String)
    ensures
        r@ == json_text_pretty(value_model(*v).meaning()),
{
    serde_json::to_string_pretty(v).unwrap_or_default()
}

impl Json {
    /// Reads a JSON text.
    pub fn parse(text: &str) -> (r: Result<Json, String>)
        ensures
            match r {
                Ok(j) => json_parse(text@) == Ok::<JsonV, Seq<char>>(j@),
                Err(message) => json_parse(text@) == Err::<JsonV, Seq<char>>(message@),
            },
    {
        match parse_value(text) {
            Ok(v) => Ok(from_value(&v)),
            Err(message) => Err(message),
        }
    }

    /// The compact JSON text of the value.
    pub fn to_text(&self) -> (r: String)
        ensures
            r@ == json_text(self@.meaning()),
    {
        let v = to_value(self);
        value_text(&v)
    }

    /// The indented JSON text of the value.
    pub fn to_text_pretty(&self) -> (r: String)
        ensures
            r@ == json_text_pretty(self@.meaning()),
    {
        let v = to_value(self);
        value_text_pretty(&v)
    }
}

/// The view of a value that may be absent.
pub open spec fn opt_view(o: Option<Json>) -> Option<JsonV> {
    match o {
        Some(j) => Some(j@),
        None => None,
    }
}

/// The view of a text that may be absent.
pub open spec fn opt_str_view(o: Option<String>) -> Option<Seq<char>> {
    match o {
        Some(s) => Some(s@),
        None => None,
    }
}

/// The number that an integer is in JSON.
pub open spec fn int_number(n: int) -> NumberV {
    if n >= 0 {
        NumberV::PosInt(n as u64)
    } else {
        NumberV::NegInt(n as i64)
    }
}

/// Appends a member to the members of an object under construction.
pub fn push_member(members: &mut Vec<(String, Json)>, key: &str, value: Json)
    ensures
        members_view(final(members)@) == members_view(old(members)@).push((key@, value@)),
{
    members.push((String::from_str(key), value));
    assert(members_view(members@) =~= members_view(old(members)@).push((key@, value@)));
}

/// Appends a value to the items of an array under construction.
pub fn push_item(items: &mut Vec<Json>, value: Json)
    ensures
        items_view(final(items)@) == items_view(old(items)@).push(value@),
{
    items.push(value);
    assert(items_view(items@) =~= items_view(old(items)@).push(value@));
}

/// No members yet.
pub fn no_members() -> (r: Vec<(String, Json)>)
    ensures
        members_view(r@) == Seq::<(Seq<char>, JsonV)>::empty(),
{
    let r: Vec<(String, Json)> = Vec::new();
    assert(members_view(r@) =~= Seq::<(Seq<char>, JsonV)>::empty());
    r
}

/// No items yet.
pub fn no_items() -> (r: Vec<Json>)
    ensures
        items_view(r@) == Seq::<JsonV>::empty(),
{
    let r: Vec<Json> = Vec::new();
    assert(items_view(r@) =~= Seq::<JsonV>::empty());
    r
}

impl Json {
    /// The object of the given members.
    pub fn object(members: Vec<(String, Json)>) -> (r: Json)
        ensures
            r@ == JsonV::Object(members_view(members@)),
    {
        proof {
            lemma_object_view(members);
        }
        Json::Object(members)
    }

    /// The array of the given items.
    pub fn array(items: Vec<Json>) -> (r: Json)
        ensures
            r@ == JsonV::Array(items_view(items@)),
    {
        proof {
            lemma_array_view(items);
        }
        Json::Array(items)
    }

    /// A string value.
    pub fn string(s: &str) -> (r: Json)
        ensures
            r@ == JsonV::Str(s@),
    {
        Json::Str(String::from_str(s))
    }

    /// The number `n`.
    pub fn from_u64(n: u64) -> (r: Json)
        ensures
            r@ == JsonV::Num(NumberV::PosInt(n)),
    {
        Json::Num(serde_json::Number::from(n))
    }

    /// The number `n`.
    pub fn from_i64(n: i64) -> (r: Json)
        ensures
            r@ == JsonV::Num(int_number(n as int)),
    {
        Json::Num(serde_json::Number::from(n))
    }
}

/// A lookup in two runs of members joined end to end: the second run
/// decides where it holds the key, the first where the second does not.
pub proof fn lemma_lookup_concat(
    a: Seq<(Seq<char>, JsonV)>,
    b: Seq<(Seq<char>, JsonV)>,
    key: Seq<char>,
)
    ensures
        lookup(a + b, key) == if lookup(b, key) is Some {
            lookup(b, key)
        } else {
            lookup(a, key)
        },
    decreases b.len(),
{
    lemma_last_index_of(a, key);
    lemma_last_index_of(b, key);
    lemma_last_index_of(a + b, key);
    if b.len() == 0 {
        assert(a + b =~= a);
    } else {
        assert((a + b).last() == b.last());
        assert((a + b).drop_last() =~= a + b.drop_last());
        if b.last().0 != key {
            lemma_lookup_concat(a, b.drop_last(), key);
            lemma_last_index_of(b.drop_last(), key);
            lemma_last_index_of(a + b.drop_last(), key);
            let i = last_index_of(b.drop_last(), key);
            if i >= 0 {
                assert(b.drop_last()[i] == b[i]);
                let k = last_index_of(a + b.drop_last(), key);
                assert((a + b.drop_last())[k] == (a + b)[k]);
            } else {
                let k = last_index_of(a, key);
                if k >= 0 {
                    assert((a + b)[k] == a[k]);
                }
            }
        }
    }
}

/// A lookup in a single member.
pub proof fn lemma_lookup_one(k: Seq<char>, v: JsonV, key: Seq<char>)
    ensures
        lookup(seq![(k, v)], key) == if k == key {
            Some(v)
        } else {
            None
        },
{
    let s = seq![(k, v)];
    assert(s.len() == 1);
    assert(s.last() == (k, v));
    assert(s.drop_last().len() == 0);
    assert(last_index_of(s.drop_last(), key) == -1);
}

/// A lookup among no members.
pub proof fn lemma_lookup_none(key: Seq<char>)
    ensures
        lookup(Seq::<(Seq<char>, JsonV)>::empty(), key) is None,
{
}

} // verus!
