//! A JSON value type with a mathematical model.

use vstd::prelude::*;
use crate::text::{concat3, copy_string, split_char, lemma_split_acc_nonempty, split_on, str_eq};

verus! {

/// Mathematical model of a JSON value.
pub enum JsonModel {
    Null,
    Bool(bool),
    UInt(u64),
    NegInt(i64),
    Float(Seq<char>),
    Str(Seq<char>),
    Array(Seq<JsonModel>),
    Object(Seq<(Seq<char>, JsonModel)>),
}

/// A JSON value.
#[derive(Debug)]
pub enum JsonValue {
    Null,
    Bool(bool),
    UInt(u64),
    NegInt(i64),
    Float(String),
    Str(String),
    Array(Vec<JsonValue>),
    Object(Vec<(String, JsonValue)>),
}

pub open spec fn model_of(v: JsonValue) -> JsonModel
    decreases v,
{
    match v {
        JsonValue::Null => JsonModel::Null,
        JsonValue::Bool(b) => JsonModel::Bool(b),
        JsonValue::UInt(n) => JsonModel::UInt(n),
        JsonValue::NegInt(n) => JsonModel::NegInt(n),
        JsonValue::Float(s) => JsonModel::Float(s@),
        JsonValue::Str(s) => JsonModel::Str(s@),
        JsonValue::Array(items) => JsonModel::Array(models_of(items@)),
        JsonValue::Object(entries) => JsonModel::Object(entry_models_of(entries@)),
    }
}

pub open spec fn models_of(s: Seq<JsonValue>) -> Seq<JsonModel>
    decreases s,
{
    if s.len() == 0 {
        Seq::empty()
    } else {
        seq![model_of(s[0])] + models_of(s.drop_first())
    }
}

pub open spec fn entry_models_of(s: Seq<(String, JsonValue)>) -> Seq<(Seq<char>, JsonModel)>
    decreases s,
{
    if s.len() == 0 {
        Seq::empty()
    } else {
        seq![(s[0].0@, model_of(s[0].1))] + entry_models_of(s.drop_first())
    }
}


impl View for JsonValue {
    type V = JsonModel;

    open spec fn view(&self) -> JsonModel {
        model_of(*self)
    }
}

pub proof fn lemma_models_of_len(s: Seq<JsonValue>)
    ensures
        models_of(s).len() == s.len(),
        forall|i: int| 0 <= i < s.len() ==> #[trigger] models_of(s)[i] == model_of(s[i]),
    decreases s.len(),
{
    if s.len() > 0 {
        lemma_models_of_len(s.drop_first());
        assert forall|i: int| 0 <= i < s.len() implies #[trigger] models_of(s)[i] == model_of(
            s[i],
        ) by {
            if i > 0 {
                assert(s.drop_first()[i - 1] == s[i]);
            }
        }
    }
}

pub proof fn lemma_entry_models_of_len(s: Seq<(String, JsonValue)>)
    ensures
        entry_models_of(s).len() == s.len(),
        forall|i: int|
            0 <= i < s.len() ==> #[trigger] entry_models_of(s)[i] == (s[i].0@, model_of(s[i].1)),
    decreases s.len(),
{
    if s.len() > 0 {
        lemma_entry_models_of_len(s.drop_first());
        assert forall|i: int| 0 <= i < s.len() implies #[trigger] entry_models_of(s)[i] == (
            s[i].0@,
            model_of(s[i].1),
        ) by {
            if i > 0 {
                assert(s.drop_first()[i - 1] == s[i]);
            }
        }
    }
}

/// Two value sequences with the same element models have the same model.
pub proof fn lemma_models_of_ext(a: Seq<JsonValue>, b: Seq<JsonValue>)
    requires
        a.len() == b.len(),
        forall|i: int| 0 <= i < a.len() ==> model_of(#[trigger] a[i]) == model_of(b[i]),
    ensures
        models_of(a) == models_of(b),
{
    lemma_models_of_len(a);
    lemma_models_of_len(b);
    assert(models_of(a) =~= models_of(b));
}

/// Two entry sequences with the same entry models have the same model.
pub proof fn lemma_entry_models_of_ext(a: Seq<(String, JsonValue)>, b: Seq<(String, JsonValue)>)
    requires
        a.len() == b.len(),
        forall|i: int|
            0 <= i < a.len() ==> (#[trigger] a[i]).0@ == b[i].0@ && model_of(a[i].1) == model_of(
                b[i].1,
            ),
    ensures
        entry_models_of(a) == entry_models_of(b),
{
    lemma_entry_models_of_len(a);
    lemma_entry_models_of_len(b);
    assert(entry_models_of(a) =~= entry_models_of(b));
}

/// First entry of `entries` whose key is `key`.
pub open spec fn obj_get(entries: Seq<(Seq<char>, JsonModel)>, key: Seq<char>) -> Option<JsonModel>
    decreases entries.len(),
{
    if entries.len() == 0 {
        None
    } else if entries[0].0 == key {
        Some(entries[0].1)
    } else {
        obj_get(entries.drop_first(), key)
    }
}

/// Position of the first entry whose key is `key`, if any.
pub open spec fn obj_find(entries: Seq<(Seq<char>, JsonModel)>, key: Seq<char>) -> Option<int>
    decreases entries.len(),
{
    if entries.len() == 0 {
        None
    } else if entries[0].0 == key {
        Some(0)
    } else {
        match obj_find(entries.drop_first(), key) {
            Some(i) => Some(i + 1),
            None => None,
        }
    }
}

/// Object entries after setting `key` to `val`: the first entry with that
/// key is replaced in place, otherwise a new entry is appended.
pub open spec fn obj_insert(
    entries: Seq<(Seq<char>, JsonModel)>,
    key: Seq<char>,
    val: JsonModel,
) -> Seq<(Seq<char>, JsonModel)> {
    match obj_find(entries, key) {
        Some(i) => entries.update(i, (key, val)),
        None => entries.push((key, val)),
    }
}

pub proof fn lemma_obj_find(entries: Seq<(Seq<char>, JsonModel)>, key: Seq<char>)
    ensures
        match obj_find(entries, key) {
            Some(i) => {
                &&& 0 <= i < entries.len()
                &&& entries[i].0 == key
                &&& forall|j: int| 0 <= j < i ==> (#[trigger] entries[j]).0 != key
                &&& obj_get(entries, key) == Some(entries[i].1)
            },
            None => {
                &&& forall|j: int| 0 <= j < entries.len() ==> (#[trigger] entries[j]).0 != key
                &&& obj_get(entries, key) is None
            },
        },
    decreases entries.len(),
{
    if entries.len() > 0 && entries[0].0 != key {
        let rest = entries.drop_first();
        lemma_obj_find(rest, key);
        match obj_find(rest, key) {
            Some(i) => {
                assert forall|j: int| 0 <= j < i + 1 implies (#[trigger] entries[j]).0 != key by {
                    if j > 0 {
                        assert(entries[j] == rest[j - 1]);
                    }
                }
            },
            None => {
                assert forall|j: int| 0 <= j < entries.len() implies (
                #[trigger] entries[j]).0 != key by {
                    if j > 0 {
                        assert(entries[j] == rest[j - 1]);
                    }
                }
            },
        }
    }
}

/// An object's member is the value of the first entry with its key.
pub proof fn lemma_obj_get_at(entries: Seq<(Seq<char>, JsonModel)>, key: Seq<char>, i: int)
    requires
        0 <= i < entries.len(),
        entries[i].0 == key,
        forall|j: int| 0 <= j < i ==> (#[trigger] entries[j]).0 != key,
    ensures
        obj_get(entries, key) == Some(entries[i].1),
{
    lemma_obj_find(entries, key);
    match obj_find(entries, key) {
        Some(f) => {
            if f < i {
                assert(entries[f].0 == key);
            }
            if f > i {
                assert(entries[i].0 != key);
            }
        },
        None => {
            assert(entries[i].0 != key);
        },
    }
}

/// A key that no entry has is not a member.
pub proof fn lemma_obj_get_absent(entries: Seq<(Seq<char>, JsonModel)>, key: Seq<char>)
    requires
        forall|j: int| 0 <= j < entries.len() ==> (#[trigger] entries[j]).0 != key,
    ensures
        obj_get(entries, key) is None,
{
    lemma_obj_find(entries, key);
    if let Some(f) = obj_find(entries, key) {
        assert(entries[f].0 == key);
    }
}

/// Looking up a key right after setting it gives the value that was set.
pub proof fn lemma_obj_insert_get(
    entries: Seq<(Seq<char>, JsonModel)>,
    key: Seq<char>,
    val: JsonModel,
)
    ensures
        obj_get(obj_insert(entries, key, val), key) == Some(val),
{
    lemma_obj_find(entries, key);
    let ins = obj_insert(entries, key, val);
    lemma_obj_find(ins, key);
    match obj_find(entries, key) {
        Some(i) => {
            match obj_find(ins, key) {
                Some(j) => {
                    assert(ins[i].0 == key);
                    if j < i {
                        assert(ins[j] == entries[j]);
                    }
                    assert(j == i);
                },
                None => {
                    assert(ins[i].0 == key);
                },
            }
        },
        None => {
            match obj_find(ins, key) {
                Some(j) => {
                    if j < entries.len() {
                        assert(ins[j] == entries[j]);
                    }
                    assert(j == entries.len());
                },
                None => {
                    assert(ins[entries.len() as int].0 == key);
                },
            }
        },
    }
}

/// `value.get(key)`: the member `key` of an object, `None` for any other value.
pub open spec fn json_get(v: JsonModel, key: Seq<char>) -> Option<JsonModel> {
    match v {
        JsonModel::Object(entries) => obj_get(entries, key),
        _ => None,
    }
}

/// The string inside a JSON string value.
pub open spec fn json_as_str(v: JsonModel) -> Option<Seq<char>> {
    match v {
        JsonModel::Str(s) => Some(s),
        _ => None,
    }
}

/// `value.get(key).and_then(|v| v.as_str())`.
pub open spec fn json_get_str(v: JsonModel, key: Seq<char>) -> Option<Seq<char>> {
    match json_get(v, key) {
        Some(m) => json_as_str(m),
        None => None,
    }
}

/// The boolean inside a JSON boolean.
pub open spec fn json_as_bool(v: JsonModel) -> Option<bool> {
    match v {
        JsonModel::Bool(b) => Some(b),
        _ => None,
    }
}

/// The non-negative integer inside a JSON number, as `Value::as_u64` gives it.
pub open spec fn json_as_u64(v: JsonModel) -> Option<u64> {
    match v {
        JsonModel::UInt(n) => Some(n),
        _ => None,
    }
}

/// Follow `segs` member by member from `v`.
pub open spec fn get_path(v: JsonModel, segs: Seq<Seq<char>>) -> Option<JsonModel>
    decreases segs.len(),
{
    if segs.len() == 0 {
        Some(v)
    } else {
        match json_get(v, segs[0]) {
            Some(c) => get_path(c, segs.drop_first()),
            None => None,
        }
    }
}

/// The value reached by a dot-separated key path.
pub open spec fn get_dotpath_spec(v: JsonModel, path: Seq<char>) -> Option<JsonModel> {
    get_path(v, split_char(path, '.'))
}

/// Message for a non-terminal segment that does not stand on an object.
pub open spec fn not_object_msg(seg: Seq<char>) -> Seq<char> {
    seq!['\''] + seg + "' is not an object"@
}

/// Message for a terminal segment whose parent is not an object.
pub open spec fn parent_not_object_msg(seg: Seq<char>) -> Seq<char> {
    "parent of '"@ + seg + "' is not an object"@
}

/// Result of setting `val` at the path `segs` (at least one segment) inside
/// `v`: missing intermediate members are created as empty objects; a value
/// that is not an object where a member must be set is an error.
pub open spec fn set_path(v: JsonModel, segs: Seq<Seq<char>>, val: JsonModel) -> Result<
    JsonModel,
    Seq<char>,
>
    decreases segs.len(),
{
    if segs.len() <= 1 {
        match v {
            JsonModel::Object(entries) => Ok(JsonModel::Object(obj_insert(entries, segs[0], val))),
            _ => Err(parent_not_object_msg(segs[0])),
        }
    } else {
        match v {
            JsonModel::Object(entries) => {
                let child = match obj_get(entries, segs[0]) {
                    Some(c) => c,
                    None => JsonModel::Object(Seq::empty()),
                };
                match set_path(child, segs.drop_first(), val) {
                    Ok(c2) => Ok(JsonModel::Object(obj_insert(entries, segs[0], c2))),
                    Err(e) => Err(e),
                }
            },
            _ => Err(not_object_msg(segs[0])),
        }
    }
}

/// `set_dotpath` on the model.
pub open spec fn set_dotpath_spec(v: JsonModel, path: Seq<char>, val: JsonModel) -> Result<
    JsonModel,
    Seq<char>,
> {
    set_path(v, split_char(path, '.'), val)
}

/// Setting a path inside an empty object never fails.
pub proof fn lemma_set_path_empty_ok(segs: Seq<Seq<char>>, val: JsonModel)
    requires
        segs.len() >= 1,
    ensures
        set_path(JsonModel::Object(Seq::empty()), segs, val) is Ok,
    decreases segs.len(),
{
    if segs.len() > 1 {
        lemma_set_path_empty_ok(segs.drop_first(), val);
    }
}

/// Reading back a path that was just set gives the value that was set.
pub proof fn lemma_set_then_get(v: JsonModel, segs: Seq<Seq<char>>, val: JsonModel)
    requires
        segs.len() >= 1,
        set_path(v, segs, val) is Ok,
    ensures
        get_path(set_path(v, segs, val)->Ok_0, segs) == Some(val),
    decreases segs.len(),
{
    if let JsonModel::Object(entries) = v {
        if segs.len() == 1 {
            lemma_obj_insert_get(entries, segs[0], val);
            assert(segs.drop_first().len() == 0);
            assert(get_path(val, segs.drop_first()) == Some(val));
        } else {
            let child = match obj_get(entries, segs[0]) {
                Some(c) => c,
                None => JsonModel::Object(Seq::empty()),
            };
            lemma_set_then_get(child, segs.drop_first(), val);
            let c2 = set_path(child, segs.drop_first(), val)->Ok_0;
            lemma_obj_insert_get(entries, segs[0], c2);
            let ins = obj_insert(entries, segs[0], c2);
            assert(set_path(v, segs, val)->Ok_0 == JsonModel::Object(ins));
            assert(json_get(JsonModel::Object(ins), segs[0]) == Some(c2));
        }
    }
}

impl Clone for JsonValue {
    /// A deep copy with the same model.
    fn clone(&self) -> (r: Self)
        ensures
            r@ == self@,
    {
        self.duplicate()
    }
}

impl PartialEq for JsonValue {
    fn eq(&self, other: &Self) -> (r: bool) {
        json_eq(self, other)
    }
}

impl vstd::std_specs::cmp::PartialEqSpecImpl for JsonValue {
    open spec fn obeys_eq_spec() -> bool {
        true
    }

    open spec fn eq_spec(&self, other: &Self) -> bool {
        self@ == other@
    }
}

/// Structural equality of two values (equal models).
#[verifier::loop_isolation(false)]
pub fn json_eq(a: &JsonValue, b: &JsonValue) -> (r: bool)
    ensures
        r == (a@ == b@),
    decreases a,
{
    match a {
        JsonValue::Null => matches!(b, JsonValue::Null),
        JsonValue::Bool(x) => match b {
            JsonValue::Bool(y) => *x == *y,
            _ => false,
        },
        JsonValue::UInt(x) => match b {
            JsonValue::UInt(y) => *x == *y,
            _ => false,
        },
        JsonValue::NegInt(x) => match b {
            JsonValue::NegInt(y) => *x == *y,
            _ => false,
        },
        JsonValue::Float(x) => match b {
            JsonValue::Float(y) => str_eq(x.as_str(), y.as_str()),
            _ => false,
        },
        JsonValue::Str(x) => match b {
            JsonValue::Str(y) => str_eq(x.as_str(), y.as_str()),
            _ => false,
        },
        JsonValue::Array(xs) => match b {
            JsonValue::Array(ys) => {
                proof {
                    lemma_models_of_len(xs@);
                    lemma_models_of_len(ys@);
                }
                if xs.len() != ys.len() {
                    assert(models_of(xs@).len() != models_of(ys@).len());
                    return false;
                }
                let mut i: usize = 0;
                while i < xs.len()
                    invariant
                        i <= xs@.len(),
                        forall|k: int| 0 <= k < i ==> model_of(#[trigger] xs@[k]) == model_of(ys@[k]),
                    decreases xs@.len() - i,
                {
                    proof {
                        vstd::std_specs::vec::axiom_vec_index_decreases(*xs, i as int);
                    }
                    if !json_eq(&xs[i], &ys[i]) {
                        assert(models_of(xs@)[i as int] != models_of(ys@)[i as int]);
                        return false;
                    }
                    i = i + 1;
                }
                proof {
                    lemma_models_of_ext(xs@, ys@);
                }
                true
            },
            _ => false,
        },
        JsonValue::Object(xs) => match b {
            JsonValue::Object(ys) => {
                proof {
                    lemma_entry_models_of_len(xs@);
                    lemma_entry_models_of_len(ys@);
                }
                if xs.len() != ys.len() {
                    assert(entry_models_of(xs@).len() != entry_models_of(ys@).len());
                    return false;
                }
                let mut i: usize = 0;
                while i < xs.len()
                    invariant
                        i <= xs@.len(),
                        forall|k: int|
                            0 <= k < i ==> (#[trigger] xs@[k]).0@ == ys@[k].0@ && model_of(
                                xs@[k].1,
                            ) == model_of(ys@[k].1),
                    decreases xs@.len() - i,
                {
                    proof {
                        vstd::std_specs::vec::axiom_vec_index_decreases(*xs, i as int);
                    }
                    if !str_eq(xs[i].0.as_str(), ys[i].0.as_str()) {
                        assert(entry_models_of(xs@)[i as int] != entry_models_of(ys@)[i as int]);
                        return false;
                    }
                    if !json_eq(&xs[i].1, &ys[i].1) {
                        assert(entry_models_of(xs@)[i as int] != entry_models_of(ys@)[i as int]);
                        return false;
                    }
                    i = i + 1;
                }
                proof {
                    lemma_entry_models_of_ext(xs@, ys@);
                }
                true
            },
            _ => false,
        },
    }
}

impl JsonValue {
    /// A JSON string holding a copy of `s`.
    pub fn from_str_slice(s: &str) -> (r: JsonValue)
        ensures
            r@ == JsonModel::Str(s@),
    {
        JsonValue::Str(String::from_str(s))
    }

    /// An empty JSON object.
    pub fn empty_object() -> (r: JsonValue)
        ensures
            r@ == JsonModel::Object(Seq::empty()),
    {
        let v: Vec<(String, JsonValue)> = Vec::new();
        proof {
            assert(entry_models_of(v@) =~= Seq::empty());
        }
        JsonValue::Object(v)
    }

    /// A deep copy of this value.
    #[verifier::loop_isolation(false)]
    pub fn duplicate(&self) -> (r: JsonValue)
        ensures
            r@ == self@,
        decreases self,
    {
        match self {
            JsonValue::Null => JsonValue::Null,
            JsonValue::Bool(b) => JsonValue::Bool(*b),
            JsonValue::UInt(n) => JsonValue::UInt(*n),
            JsonValue::NegInt(n) => JsonValue::NegInt(*n),
            JsonValue::Float(s) => JsonValue::Float(copy_string(s)),
            JsonValue::Str(s) => JsonValue::Str(copy_string(s)),
            JsonValue::Array(items) => {
                let mut out: Vec<JsonValue> = Vec::new();
                let mut i: usize = 0;
                while i < items.len()
                    invariant
                        i <= items@.len(),
                        out@.len() == i,
                        forall|k: int| 0 <= k < i ==> model_of(#[trigger] out@[k]) == model_of(items@[k]),
                    decreases items@.len() - i,
                {
                    proof {
                        vstd::std_specs::vec::axiom_vec_index_decreases(*items, i as int);
                    }
                    let d = items[i].duplicate();
                    out.push(d);
                    i = i + 1;
                }
                proof {
                    lemma_models_of_ext(out@, items@);
                }
                JsonValue::Array(out)
            },
            JsonValue::Object(entries) => {
                let mut out: Vec<(String, JsonValue)> = Vec::new();
                let mut i: usize = 0;
                while i < entries.len()
                    invariant
                        i <= entries@.len(),
                        out@.len() == i,
                        forall|k: int|
                            0 <= k < i ==> (#[trigger] out@[k]).0@ == entries@[k].0@ && model_of(
                                out@[k].1,
                            ) == model_of(entries@[k].1),
                    decreases entries@.len() - i,
                {
                    proof {
                        vstd::std_specs::vec::axiom_vec_index_decreases(*entries, i as int);
                    }
                    let k = copy_string(&entries[i].0);
                    let d = entries[i].1.duplicate();
                    out.push((k, d));
                    i = i + 1;
                }
                proof {
                    lemma_entry_models_of_ext(out@, entries@);
                }
                JsonValue::Object(out)
            },
        }
    }

    /// `self.get(key)`: the member `key` of an object.
    pub fn get(&self, key: &str) -> (r: Option<&JsonValue>)
        ensures
            match r {
                Some(m) => json_get(self@, key@) == Some(m@),
                None => json_get(self@, key@) is None,
            },
    {
        match self {
            JsonValue::Object(entries) => {
                proof {
                    lemma_entry_models_of_len(entries@);
                    assert(entry_models_of(entries@).skip(0) =~= entry_models_of(entries@));
                }
                let mut i: usize = 0;
                while i < entries.len()
                    invariant
                        i <= entries@.len(),
                        self@ == JsonModel::Object(entry_models_of(entries@)),
                        entry_models_of(entries@).len() == entries@.len(),
                        forall|k: int|
                            0 <= k < entries@.len() ==> #[trigger] entry_models_of(entries@)[k] == (
                                entries@[k].0@,
                                model_of(entries@[k].1),
                            ),
                        obj_get(entry_models_of(entries@), key@) == obj_get(
                            entry_models_of(entries@).skip(i as int),
                            key@,
                        ),
                    decreases entries@.len() - i,
                {
                    let ghost rest = entry_models_of(entries@).skip(i as int);
                    assert(rest[0] == entry_models_of(entries@)[i as int]);
                    assert(rest.drop_first() =~= entry_models_of(entries@).skip(i + 1));
                    if str_eq(entries[i].0.as_str(), key) {
                        return Some(&entries[i].1);
                    }
                    i = i + 1;
                }
                None
            },
            _ => None,
        }
    }

    /// The string inside a JSON string value.
    pub fn as_str(&self) -> (r: Option<&str>)
        ensures
            match r {
                Some(s) => json_as_str(self@) == Some(s@),
                None => json_as_str(self@) is None,
            },
    {
        match self {
            JsonValue::Str(s) => Some(s.as_str()),
            _ => None,
        }
    }

    /// The non-negative integer inside a JSON number.
    pub fn as_u64(&self) -> (r: Option<u64>)
        ensures
            r == json_as_u64(self@),
    {
        match self {
            JsonValue::UInt(n) => Some(*n),
            _ => None,
        }
    }

    /// The boolean inside a JSON boolean.
    pub fn as_bool(&self) -> (r: Option<bool>)
        ensures
            r == json_as_bool(self@),
    {
        match self {
            JsonValue::Bool(b) => Some(*b),
            _ => None,
        }
    }

    /// `self.get(key).and_then(|v| v.as_str())`.
    pub fn get_str(&self, key: &str) -> (r: Option<&str>)
        ensures
            match r {
                Some(s) => json_get_str(self@, key@) == Some(s@),
                None => json_get_str(self@, key@) is None,
            },
    {
        match self.get(key) {
            Some(v) => v.as_str(),
            None => None,
        }
    }
}

/// An object built from `(key, value)` pairs in order.
pub fn make_object(entries: Vec<(String, JsonValue)>) -> (r: JsonValue)
    ensures
        r@ == JsonModel::Object(entry_models_of(entries@)),
{
    JsonValue::Object(entries)
}

/// Append the member `key: value` to object entries.
pub fn push_entry(entries: &mut Vec<(String, JsonValue)>, key: &str, value: JsonValue)
    ensures
        entry_models_of(final(entries)@) == entry_models_of(old(entries)@).push((key@, value@)),
{
    proof {
        lemma_entry_models_of_len(entries@);
    }
    entries.push((String::from_str(key), value));
    proof {
        lemma_entry_models_of_len(entries@);
        assert(entry_models_of(entries@) =~= entry_models_of(old(entries)@).push((key@, value@)));
    }
}

/// Append an item to array items.
pub fn push_item(items: &mut Vec<JsonValue>, value: JsonValue)
    ensures
        models_of(final(items)@) == models_of(old(items)@).push(value@),
{
    proof {
        lemma_models_of_len(items@);
    }
    items.push(value);
    proof {
        lemma_models_of_len(items@);
        assert(models_of(items@) =~= models_of(old(items)@).push(value@));
    }
}

/// Navigate `value` by a dot-separated key path; `None` when a segment is missing.
pub fn get_dotpath<'a>(value: &'a JsonValue, path: &str) -> (r: Option<&'a JsonValue>)
    ensures
        match r {
            Some(m) => get_dotpath_spec(value@, path@) == Some(m@),
            None => get_dotpath_spec(value@, path@) is None,
        },
{
    let segs = split_on(path, '.');
    let ghost segv = split_char(path@, '.');
    let mut current = value;
    let mut i: usize = 0;
    assert(segv.skip(0) =~= segv);
    while i < segs.len()
        invariant
            i <= segs@.len(),
            segv == split_char(path@, '.'),
            segs@.len() == segv.len(),
            forall|k: int| 0 <= k < segs@.len() ==> #[trigger] segs@[k]@ == segv[k],
            get_path(value@, segv) == get_path(current@, segv.skip(i as int)),
        decreases segs@.len() - i,
    {
        let ghost rest = segv.skip(i as int);
        assert(rest[0] == segv[i as int]);
        assert(rest.drop_first() =~= segv.skip(i + 1));
        match current.get(segs[i].as_str()) {
            Some(c) => {
                current = c;
            },
            None => {
                return None;
            },
        }
        i = i + 1;
    }
    assert(segv.skip(i as int).len() == 0);
    Some(current)
}

/// Index of the first entry with key `key`.
fn find_key(entries: &Vec<(String, JsonValue)>, key: &String) -> (r: Option<usize>)
    ensures
        match r {
            Some(i) => obj_find(entry_models_of(entries@), key@) == Some(i as int),
            None => obj_find(entry_models_of(entries@), key@) is None,
        },
{
    proof {
        lemma_entry_models_of_len(entries@);
    }
    let ghost em = entry_models_of(entries@);
    let mut i: usize = 0;
    assert(em.skip(0) =~= em);
    while i < entries.len()
        invariant
            i <= entries@.len(),
            em == entry_models_of(entries@),
            em.len() == entries@.len(),
            forall|k: int|
                0 <= k < entries@.len() ==> #[trigger] em[k] == (
                    entries@[k].0@,
                    model_of(entries@[k].1),
                ),
            obj_find(em, key@) == match obj_find(em.skip(i as int), key@) {
                Some(j) => Some(j + i),
                None => None,
            },
        decreases entries@.len() - i,
    {
        let ghost rest = em.skip(i as int);
        assert(rest[0] == em[i as int]);
        assert(rest.drop_first() =~= em.skip(i + 1));
        if entries[i].0 == *key {
            return Some(i);
        }
        i = i + 1;
    }
    None
}

/// Set `val` at `segs[i..]` inside `node`.
fn set_at(node: &mut JsonValue, segs: &Vec<String>, i: usize, val: JsonValue) -> (r: Result<
    (),
    String,
>)
    requires
        i < segs@.len(),
    ensures
        match set_path(old(node)@, segs@.skip(i as int).map_values(|s: String| s@), val@) {
            Ok(m) => r is Ok && final(node)@ == m,
            Err(e) => r matches Err(msg) && msg@ == e && final(node)@ == old(node)@,
        },
    decreases segs@.len() - i,
{
    let ghost sv = segs@.skip(i as int).map_values(|s: String| s@);
    assert(sv[0] == segs@[i as int]@);
    assert(sv.drop_first() =~= segs@.skip(i + 1).map_values(|s: String| s@));
    let ghost old_model = node@;
    let n = segs.len();
    match node {
        JsonValue::Object(entries) => {
            let ghost old_entries = entries@;
            proof {
                lemma_entry_models_of_len(entries@);
            }
            if i + 1 == n {
                let idx = find_key(entries, &segs[i]);
                proof {
                    lemma_obj_find(entry_models_of(entries@), segs@[i as int]@);
                }
                match idx {
                    Some(j) => {
                        let k = copy_string(&segs[i]);
                        entries.set(j, (k, val));
                        proof {
                            lemma_entry_models_of_len(entries@);
                            assert(entry_models_of(entries@) =~= entry_models_of(old_entries).update(
                                j as int,
                                (segs@[i as int]@, val@),
                            ));
                        }
                    },
                    None => {
                        let k = copy_string(&segs[i]);
                        entries.push((k, val));
                        proof {
                            lemma_entry_models_of_len(entries@);
                            assert(entry_models_of(entries@) =~= entry_models_of(old_entries).push(
                                (segs@[i as int]@, val@),
                            ));
                        }
                    },
                }
                Ok(())
            } else {
                let idx = find_key(entries, &segs[i]);
                proof {
                    lemma_obj_find(entry_models_of(entries@), segs@[i as int]@);
                }
                let j = match idx {
                    Some(j) => j,
                    None => {
                        let k = copy_string(&segs[i]);
                        entries.push((k, JsonValue::empty_object()));
                        proof {
                            lemma_entry_models_of_len(entries@);
                        }
                        entries.len() - 1
                    },
                };
                proof {
                    lemma_entry_models_of_len(entries@);
                }
                let ghost child_before = entries@[j as int].1;
                let ghost entries_mid = entries@;
                let r = set_at(&mut entries[j].1, segs, i + 1, val);
                proof {
                    lemma_entry_models_of_len(entries@);
                    lemma_set_path_empty_ok(sv.drop_first(), val@);
                    assert(entries@.len() == entries_mid.len());
                    assert forall|k: int| 0 <= k < entries@.len() && k != j implies #[trigger] entries@[k] == entries_mid[k] by {}
                }
                match r {
                    Ok(()) => {
                        proof {
                            let em_old = entry_models_of(old_entries);
                            match idx {
                                Some(_) => {
                                    assert(entry_models_of(entries@) =~= em_old.update(
                                        j as int,
                                        (segs@[i as int]@, model_of(entries@[j as int].1)),
                                    ));
                                },
                                None => {
                                    assert(entry_models_of(entries@) =~= em_old.push(
                                        (segs@[i as int]@, model_of(entries@[j as int].1)),
                                    ));
                                },
                            }
                        }
                        Ok(())
                    },
                    Err(e) => {
                        proof {
                            assert(idx is Some);
                            assert(entries_mid == old_entries);
                            assert forall|k: int| 0 <= k < entries@.len() implies (
                            #[trigger] entries@[k]).0@ == old_entries[k].0@ && model_of(
                                entries@[k].1,
                            ) == model_of(old_entries[k].1) by {
                                if k != j {
                                    assert(entries@[k] == entries_mid[k]);
                                }
                            }
                            lemma_entry_models_of_ext(entries@, old_entries);
                        }
                        Err(e)
                    },
                }
            }
        },
        _ => {
            if i + 1 == n {
                let msg = concat3("parent of '", segs[i].as_str(), "' is not an object");
                proof {
                    reveal_strlit("parent of '");
                    reveal_strlit("' is not an object");
                }
                Err(msg)
            } else {
                let msg = concat3("'", segs[i].as_str(), "' is not an object");
                proof {
                    reveal_strlit("'");
                    reveal_strlit("' is not an object");
                }
                Err(msg)
            }
        },
    }
}

/// Set `value` at a dot-separated key path inside `root`, creating missing
/// intermediate objects; a segment that meets a non-object is an error and
/// leaves `root` unchanged.
pub fn set_dotpath(root: &mut JsonValue, path: &str, value: JsonValue) -> (r: Result<(), String>)
    ensures
        match set_dotpath_spec(old(root)@, path@, value@) {
            Ok(m) => r is Ok && final(root)@ == m,
            Err(e) => r matches Err(msg) && msg@ == e && final(root)@ == old(root)@,
        },
{
    let segs = split_on(path, '.');
    proof {
        lemma_split_acc_nonempty(path@, '.', Seq::empty());
        assert(segs@.skip(0).map_values(|s: String| s@) =~= split_char(path@, '.'));
    }
    set_at(root, &segs, 0, value)
}

/// A value read back from a dot path right after it was set is the value set.
pub proof fn law_set_then_get_dotpath(root: JsonModel, path: Seq<char>, val: JsonModel)
    requires
        set_dotpath_spec(root, path, val) is Ok,
    ensures
        get_dotpath_spec(set_dotpath_spec(root, path, val)->Ok_0, path) == Some(val),
{
    lemma_split_acc_nonempty(path, '.', Seq::empty());
    lemma_set_then_get(root, split_char(path, '.'), val);
}

/// Setting a key leaves every other key's value as it was.
pub proof fn lemma_obj_insert_get_other(
    entries: Seq<(Seq<char>, JsonModel)>,
    key: Seq<char>,
    val: JsonModel,
    other: Seq<char>,
)
    requires
        other != key,
    ensures
        obj_get(obj_insert(entries, key, val), other) == obj_get(entries, other),
{
    let ins = obj_insert(entries, key, val);
    lemma_obj_find(entries, key);
    lemma_obj_find(entries, other);
    lemma_obj_find(ins, other);
    assert forall|j: int| 0 <= j < ins.len() && j < entries.len() && (#[trigger] ins[j]).0 == other
        implies ins[j] == entries[j] by {
        if let Some(i) = obj_find(entries, key) {
            if j == i {
                assert(ins[j].0 == key);
            }
        }
    }
    assert forall|j: int| 0 <= j < ins.len() && (#[trigger] ins[j]).0 == other implies j
        < entries.len() by {
        if obj_find(entries, key) is None && j == entries.len() {
            assert(ins[j].0 == key);
        }
    }
    assert forall|j: int| 0 <= j < entries.len() && (#[trigger] entries[j]).0 == other implies ins[j]
        == entries[j] by {
        if let Some(i) = obj_find(entries, key) {
            if j == i {
                assert(entries[j].0 == key);
            }
        }
    }
    match obj_find(entries, other) {
        Some(a) => {
            assert(ins[a] == entries[a]);
            match obj_find(ins, other) {
                Some(b) => {
                    if b < a {
                        assert(ins[b] == entries[b]);
                    }
                    if a < b {
                        assert(ins[a].0 == other);
                    }
                },
                None => {
                    assert(ins[a].0 == other);
                },
            }
        },
        None => {
            if let Some(b) = obj_find(ins, other) {
                assert(ins[b] == entries[b]);
            }
        },
    }
}

/// Whether two key paths part ways: at some position both have a segment,
/// and the segments differ (so neither path lies along the other).
pub open spec fn paths_diverge(p: Seq<Seq<char>>, q: Seq<Seq<char>>) -> bool {
    exists|k: int| 0 <= k < p.len() && k < q.len() && p[k] != q[k]
}

/// Setting a path changes nothing read along a path that parts ways with
/// it.
pub proof fn lemma_set_keeps_other_paths(
    v: JsonModel,
    segs: Seq<Seq<char>>,
    val: JsonModel,
    q: Seq<Seq<char>>,
)
    requires
        segs.len() >= 1,
        set_path(v, segs, val) is Ok,
        paths_diverge(segs, q),
    ensures
        get_path(set_path(v, segs, val)->Ok_0, q) == get_path(v, q),
    decreases segs.len(),
{
    let k = choose|k: int| 0 <= k < segs.len() && k < q.len() && segs[k] != q[k];
    if let JsonModel::Object(entries) = v {
        let new = set_path(v, segs, val)->Ok_0;
        if q[0] != segs[0] {
            if segs.len() == 1 {
                lemma_obj_insert_get_other(entries, segs[0], val, q[0]);
            } else {
                let child = match obj_get(entries, segs[0]) {
                    Some(c) => c,
                    None => JsonModel::Object(Seq::empty()),
                };
                let c2 = set_path(child, segs.drop_first(), val)->Ok_0;
                lemma_obj_insert_get_other(entries, segs[0], c2, q[0]);
            }
            assert(json_get(new, q[0]) == json_get(v, q[0]));
        } else {
            assert(k >= 1);
            let child = match obj_get(entries, segs[0]) {
                Some(c) => c,
                None => JsonModel::Object(Seq::empty()),
            };
            let c2 = set_path(child, segs.drop_first(), val)->Ok_0;
            lemma_obj_insert_get(entries, segs[0], c2);
            assert(json_get(new, q[0]) == Some(c2));
            assert(segs.drop_first()[k - 1] == segs[k] && q.drop_first()[k - 1] == q[k]);
            lemma_set_keeps_other_paths(child, segs.drop_first(), val, q.drop_first());
            if obj_get(entries, segs[0]) is None {
                let r = q.drop_first();
                assert(r.len() >= 1);
                assert(json_get(JsonModel::Object(Seq::<(Seq<char>, JsonModel)>::empty()), r[0]) is None);
            }
        }
    }
}

/// Setting a dot path leaves every value read along a dot path that parts
/// ways with it as it was: only the set path and what lies along it change.
pub proof fn law_set_dotpath_keeps_other_paths(
    root: JsonModel,
    path: Seq<char>,
    val: JsonModel,
    other: Seq<char>,
)
    requires
        set_dotpath_spec(root, path, val) is Ok,
        paths_diverge(split_char(path, '.'), split_char(other, '.')),
    ensures
        get_dotpath_spec(set_dotpath_spec(root, path, val)->Ok_0, other) == get_dotpath_spec(root, other),
{
    lemma_split_acc_nonempty(path, '.', Seq::empty());
    lemma_set_keeps_other_paths(root, split_char(path, '.'), val, split_char(other, '.'));
}

/// Object members with nothing in them yet.
pub fn new_entries() -> (r: Vec<(String, JsonValue)>)
    ensures
        entry_models_of(r@) == Seq::<(Seq<char>, JsonModel)>::empty(),
{
    let r: Vec<(String, JsonValue)> = Vec::new();
    assert(entry_models_of(r@) =~= Seq::empty());
    r
}

/// Array items with nothing in them yet.
pub fn new_items() -> (r: Vec<JsonValue>)
    ensures
        models_of(r@) == Seq::<JsonModel>::empty(),
{
    let r: Vec<JsonValue> = Vec::new();
    assert(models_of(r@) =~= Seq::empty());
    r
}

/// The JSON number for a signed integer.
pub open spec fn int_model(n: i64) -> JsonModel {
    if n >= 0 {
        JsonModel::UInt(n as u64)
    } else {
        JsonModel::NegInt(n)
    }
}

/// The JSON number for a signed integer.
pub fn int_value(n: i64) -> (r: JsonValue)
    ensures
        r@ == int_model(n),
{
    if n >= 0 {
        JsonValue::UInt(n as u64)
    } else {
        JsonValue::NegInt(n)
    }
}

/// The signed integer a JSON number holds, when it fits in an `i64`.
pub open spec fn json_as_i64(v: JsonModel) -> Option<i64> {
    match v {
        JsonModel::UInt(n) => if n <= i64::MAX as u64 {
            Some(n as i64)
        } else {
            None
        },
        JsonModel::NegInt(n) => Some(n),
        _ => None,
    }
}

/// The unsigned integer under `key`.
pub open spec fn json_get_u64(v: JsonModel, key: Seq<char>) -> Option<u64> {
    match json_get(v, key) {
        Some(m) => json_as_u64(m),
        None => None,
    }
}

/// The signed integer under `key`.
pub open spec fn json_get_i64(v: JsonModel, key: Seq<char>) -> Option<i64> {
    match json_get(v, key) {
        Some(m) => json_as_i64(m),
        None => None,
    }
}

impl JsonValue {
    /// The signed integer this number holds, when it fits in an `i64`.
    pub fn as_i64(&self) -> (r: Option<i64>)
        ensures
            r == json_as_i64(self@),
    {
        match self {
            JsonValue::UInt(n) => if *n <= 9223372036854775807u64 {
                Some(*n as i64)
            } else {
                None
            },
            JsonValue::NegInt(n) => Some(*n),
            _ => None,
        }
    }

    /// The unsigned integer under `key`.
    pub fn get_u64(&self, key: &str) -> (r: Option<u64>)
        ensures
            r == json_get_u64(self@, key@),
    {
        match self.get(key) {
            Some(v) => v.as_u64(),
            None => None,
        }
    }

    /// The signed integer under `key`.
    pub fn get_i64(&self, key: &str) -> (r: Option<i64>)
        ensures
            r == json_get_i64(self@, key@),
    {
        match self.get(key) {
            Some(v) => v.as_i64(),
            None => None,
        }
    }
}

} // verus!
