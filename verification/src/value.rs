use vstd::prelude::*;
use cpython::{GILGuard, PyObject};
use crate::real_bits::real_object;
use crate::runtime::{bool_object, dict_object, dict_set, int_object, list_object, new_dict, tuple_object};

verus! {

/// What a runtime value holds, as mathematics.
pub enum ValueModel {
    Int(int),
    Real(u64),
    Bool(bool),
    List(Seq<ValueModel>),
    Tuple(Seq<ValueModel>),
    Dict(Seq<Seq<char>>, Seq<ValueModel>),
    Opaque,
}

/// A dynamically typed runtime value, as far as this library looks into one.
///
/// A real number is held as the bit pattern of its IEEE-754 double. A
/// sequence is a `Tuple` where it is the runtime's tuple and a `List` where it
/// is any other sequence. A dictionary is held as its keys and, position by position, their values.
/// Whatever is none of these is `Opaque`.
#[derive(Debug)]
pub enum Value {
    Int(i64),
    Real(u64),
    Bool(bool),
    List(Vec<Value>),
    Tuple(Vec<Value>),
    Dict(Vec<String>, Vec<Value>),
    Opaque,
}

/// The views of a vector of strings, in order.
pub open spec fn key_views(keys: Vec<String>) -> Seq<Seq<char>> {
    Seq::new(keys.len() as nat, |i: int| keys[i]@)
}

/// The views of a vector of values, in order.
pub open spec fn value_views(items: Vec<Value>) -> Seq<ValueModel>
    decreases items,
{
    Seq::new(
        items.len() as nat,
        |i: int|
            if 0 <= i < items.len() {
                items[i].view()
            } else {
                ValueModel::Opaque
            },
    )
}

impl Value {
    pub open spec fn view(&self) -> ValueModel
        decreases self,
    {
        match self {
            Value::Int(n) => ValueModel::Int(*n as int),
            Value::Real(bits) => ValueModel::Real(*bits),
            Value::Bool(b) => ValueModel::Bool(*b),
            Value::List(items) => ValueModel::List(value_views(*items)),
            Value::Tuple(items) => ValueModel::Tuple(value_views(*items)),
            Value::Dict(keys, values) => ValueModel::Dict(key_views(*keys), value_views(*values)),
            Value::Opaque => ValueModel::Opaque,
        }
    }
}

/// A value as a sequence is read: a tuple counts as the list of its items.
pub open spec fn as_list(v: ValueModel) -> ValueModel {
    match v {
        ValueModel::Tuple(items) => ValueModel::List(items),
        _ => v,
    }
}

/// The first position at or after `from` at which `keys` holds `key`, or the
/// length of `keys` where there is none.
pub open spec fn find_from(keys: Seq<Seq<char>>, key: Seq<char>, from: int) -> int
    decreases keys.len() - from,
{
    if from < 0 || from >= keys.len() {
        keys.len() as int
    } else if keys[from] == key {
        from
    } else {
        find_from(keys, key, from + 1)
    }
}

/// The first position at which `keys` holds `key`, or `keys.len()`.
pub fn find_key(keys: &Vec<String>, key: &String) -> (at: usize)
    ensures
        at == find_from(key_views(*keys), key@, 0),
{
    let mut i: usize = 0;
    while i < keys.len()
        invariant
            i <= keys.len(),
            find_from(key_views(*keys), key@, 0) == find_from(key_views(*keys), key@, i as int),
        decreases keys.len() - i,
    {
        if keys[i] == *key {
            return i;
        }
        i += 1;
    }
    i
}

/// No key occurs twice.
pub open spec fn distinct(keys: Seq<Seq<char>>) -> bool {
    forall|i: int, j: int| 0 <= i < j < keys.len() ==> keys[i] != keys[j]
}

/// A key is found no later than any position that holds it.
pub proof fn lemma_find_first(keys: Seq<Seq<char>>, at: int, from: int)
    requires
        0 <= from <= at < keys.len(),
    ensures
        from <= find_from(keys, keys[at], from) <= at,
    decreases at - from,
{
    if from < at && keys[from] != keys[at] {
        lemma_find_first(keys, at, from + 1);
    }
}

/// Whether no key occurs twice.
pub fn all_distinct(keys: &Vec<String>) -> (r: bool)
    ensures
        r == distinct(key_views(*keys)),
{
    let ghost views = key_views(*keys);
    let mut i: usize = 0;
    while i < keys.len()
        invariant
            i <= keys.len(),
            views == key_views(*keys),
            forall|a: int, b: int| 0 <= a < b < i ==> views[a] != views[b],
        decreases keys.len() - i,
    {
        let at = find_key(keys, &keys[i]);
        proof {
            lemma_find_first(views, i as int, 0);
        }
        if at != i {
            assert(views[at as int] == views[i as int]) by {
                lemma_find_holds(views, views[i as int], 0);
            }
            return false;
        }
        assert forall|a: int| 0 <= a < i implies views[a] != views[i as int] by {
            if views[a] == views[i as int] {
                lemma_find_first(views, a, 0);
            }
        }
        i += 1;
    }
    true
}

/// Where a key is found, it stands.
pub proof fn lemma_find_holds(keys: Seq<Seq<char>>, key: Seq<char>, from: int)
    requires
        0 <= from,
    ensures
        find_from(keys, key, from) < keys.len() ==> keys[find_from(keys, key, from)] == key,
    decreases keys.len() - from,
{
    if from < keys.len() && keys[from] != key {
        lemma_find_holds(keys, key, from + 1);
    }
}

/// In a sequence of distinct keys each key is found where it stands.
pub proof fn lemma_find_distinct(keys: Seq<Seq<char>>, i: int, from: int)
    requires
        distinct(keys),
        0 <= from <= i < keys.len(),
    ensures
        find_from(keys, keys[i], from) == i,
    decreases i - from,
{
    if from < i {
        lemma_find_distinct(keys, i, from + 1);
    }
}

/// The items of a list or a tuple, none for any other value.
pub open spec fn items_of(v: ValueModel) -> Seq<ValueModel> {
    match v {
        ValueModel::List(items) => items,
        ValueModel::Tuple(items) => items,
        _ => Seq::empty(),
    }
}

/// The value can be built in the runtime as far as the library can tell:
/// nothing in it is opaque, and every dictionary in it has one value for each
/// key.
pub open spec fn buildable(v: ValueModel) -> bool
    decreases v,
{
    match v {
        ValueModel::Opaque => false,
        ValueModel::List(items) => forall|i: int|
            0 <= i < items.len() ==> buildable(#[trigger] items[i]),
        ValueModel::Tuple(items) => forall|i: int|
            0 <= i < items.len() ==> buildable(#[trigger] items[i]),
        ValueModel::Dict(keys, values) => keys.len() == values.len() && forall|i: int|
            0 <= i < values.len() ==> buildable(#[trigger] values[i]),
        _ => true,
    }
}

/// The value holds nothing that the runtime can refuse to build: no real
/// number, no dictionary entry and nothing opaque, only integers, truth
/// values, and lists and tuples of such values.
pub open spec fn asks_nothing(v: ValueModel) -> bool
    decreases v,
{
    match v {
        ValueModel::Int(_) => true,
        ValueModel::Bool(_) => true,
        ValueModel::Real(_) => false,
        ValueModel::Opaque => false,
        ValueModel::List(items) => forall|i: int|
            0 <= i < items.len() ==> asks_nothing(#[trigger] items[i]),
        ValueModel::Tuple(items) => forall|i: int|
            0 <= i < items.len() ==> asks_nothing(#[trigger] items[i]),
        ValueModel::Dict(keys, values) => keys.len() == 0 && values.len() == 0,
    }
}

/// Where a list or a tuple asks nothing, none of its items does.
pub proof fn lemma_items_ask_nothing(v: ValueModel)
    requires
        asks_nothing(v),
        v is List || v is Tuple,
    ensures
        forall|i: int| 0 <= i < items_of(v).len() ==> asks_nothing(#[trigger] items_of(v)[i]),
{
    let items = items_of(v);
    if v is List {
        assert(v->List_0 == items);
    } else {
        assert(v->Tuple_0 == items);
    }
    assert forall|i: int| 0 <= i < items.len() implies asks_nothing(#[trigger] items[i]) by {
        if v is List {
            assert(asks_nothing(v->List_0[i]));
        } else {
            assert(asks_nothing(v->Tuple_0[i]));
        }
    }
}

/// A list or a tuple of buildable items is buildable, and so is a
/// dictionary of buildable values with one key for each.
pub proof fn lemma_buildable(v: ValueModel, items: Seq<ValueModel>)
    requires
        v is List && v->List_0 == items || v is Tuple && v->Tuple_0 == items || v is Dict
            && v->Dict_1 == items && v->Dict_0.len() == items.len(),
        forall|i: int| 0 <= i < items.len() ==> buildable(#[trigger] items[i]),
    ensures
        buildable(v),
{
    if v is List {
        assert forall|i: int| 0 <= i < v->List_0.len() implies buildable(
            #[trigger] v->List_0[i],
        ) by {
            assert(buildable(items[i]));
        }
    } else if v is Tuple {
        assert forall|i: int| 0 <= i < v->Tuple_0.len() implies buildable(
            #[trigger] v->Tuple_0[i],
        ) by {
            assert(buildable(items[i]));
        }
    } else {
        assert forall|i: int| 0 <= i < v->Dict_1.len() implies buildable(
            #[trigger] v->Dict_1[i],
        ) by {
            assert(buildable(items[i]));
        }
    }
}

impl Value {
    /// Builds the value in the runtime: an integer, a floating-point number, a
    /// truth value, a list, a tuple or a dictionary of what its items build.
    /// A value that asks nothing the runtime can refuse is always built; one
    /// that is not buildable never is.
    #[verifier::loop_isolation(false)]
    pub fn into_pyo(&self, gil: &GILGuard) -> (r: Option<PyObject>)
        ensures
            asks_nothing(self@) ==> r is Some,
            r is Some ==> buildable(self@),
        decreases self,
    {
        match self {
            Value::Int(n) => Some(int_object(gil, *n)),
            Value::Real(bits) => real_object(gil, *bits),
            Value::Bool(b) => Some(bool_object(gil, *b)),
            Value::Opaque => None,
            Value::List(items) => {
                proof {
                    if asks_nothing(self@) {
                        lemma_items_ask_nothing(self@);
                        assert(items_of(self@) == value_views(*items));
                    }
                }
                match build_all(gil, items) {
                    Some(built) => {
                        proof {
                            lemma_buildable(self@, value_views(*items));
                        }
                        Some(list_object(gil, &built))
                    },
                    None => None,
                }
            },
            Value::Tuple(items) => {
                proof {
                    if asks_nothing(self@) {
                        lemma_items_ask_nothing(self@);
                        assert(items_of(self@) == value_views(*items));
                    }
                }
                match build_all(gil, items) {
                    Some(built) => {
                        proof {
                            lemma_buildable(self@, value_views(*items));
                        }
                        Some(tuple_object(gil, &built))
                    },
                    None => None,
                }
            },
            Value::Dict(keys, values) => {
                if keys.len() != values.len() {
                    return None;
                }
                let built = match build_all(gil, values) {
                    Some(built) => built,
                    None => {
                        return None;
                    },
                };
                proof {
                    lemma_buildable(self@, value_views(*values));
                }
                let dict = new_dict(gil);
                let mut i: usize = 0;
                while i < keys.len()
                    invariant
                        i <= keys.len(),
                        built.len() == keys.len(),
                    decreases keys.len() - i,
                {
                    if !dict_set(gil, &dict, keys[i].as_str(), &built[i]) {
                        return None;
                    }
                    i += 1;
                }
                Some(dict_object(dict))
            },
        }
    }
}

/// What the items build in the runtime, in order, or nothing where one of
/// them was not built.
#[verifier::loop_isolation(false)]
pub fn build_all(gil: &GILGuard, items: &Vec<Value>) -> (r: Option<Vec<PyObject>>)
    ensures
        r matches Some(built) ==> built.len() == items.len() && forall|i: int|
            0 <= i < items.len() ==> buildable(#[trigger] value_views(*items)[i]),
        (forall|i: int| 0 <= i < items.len() ==> asks_nothing(#[trigger] value_views(*items)[i]))
            ==> r is Some,
    decreases items,
{
    let mut built: Vec<PyObject> = Vec::new();
    let mut i: usize = 0;
    while i < items.len()
        invariant
            i <= items.len(),
            built.len() == i,
            forall|j: int| 0 <= j < i ==> buildable(#[trigger] value_views(*items)[j]),
        decreases items.len() - i,
    {
        match items[i].into_pyo(gil) {
            Some(item) => built.push(item),
            None => {
                assert(!asks_nothing(value_views(*items)[i as int]));
                return None;
            },
        }
        assert(buildable(value_views(*items)[i as int]));
        i += 1;
    }
    Some(built)
}

} // verus!
