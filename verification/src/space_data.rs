use vstd::prelude::*;
use cpython::{GILGuard, PyObject};
use crate::value::{Value, ValueModel, asks_nothing, buildable, key_views, value_views};

verus! {

/// What a piece of space data holds, as mathematics.
pub enum DataModel {
    Discrete(int),
    Box(Seq<u64>),
    Tuple(Seq<DataModel>),
    Dict(Seq<Seq<char>>, Seq<DataModel>),
}

/// Actual values of an observation or an action.
///
/// The numbers of a `Box` are the bit patterns of IEEE-754 doubles, in flat
/// order. A `Dict` holds its names and, position by position, their parts.
#[derive(Debug)]
pub enum SpaceData {
    Discrete(i64),
    Box(Vec<u64>),
    Tuple(Vec<SpaceData>),
    Dict(Vec<String>, Vec<SpaceData>),
}

/// The views of a vector of data, in order.
pub open spec fn data_views(parts: Vec<SpaceData>) -> Seq<DataModel>
    decreases parts,
{
    Seq::new(
        parts.len() as nat,
        |i: int|
            if 0 <= i < parts.len() {
                parts[i].view()
            } else {
                DataModel::Discrete(0)
            },
    )
}

/// The runtime value that stands for a piece of data: an integer for
/// `Discrete`, a flat list of reals for `Box`, a tuple of the parts' values for
/// `Tuple`, a dictionary under the same names for `Dict`.
pub open spec fn encode_model(d: DataModel) -> ValueModel
    decreases d,
{
    match d {
        DataModel::Discrete(n) => ValueModel::Int(n),
        DataModel::Box(bits) => ValueModel::List(
            Seq::new(bits.len(), |i: int| ValueModel::Real(bits[i])),
        ),
        DataModel::Tuple(parts) => ValueModel::Tuple(
            Seq::new(
                parts.len(),
                |i: int|
                    if 0 <= i < parts.len() {
                        encode_model(parts[i])
                    } else {
                        ValueModel::Opaque
                    },
            ),
        ),
        DataModel::Dict(keys, parts) => ValueModel::Dict(
            keys,
            Seq::new(
                parts.len(),
                |i: int|
                    if 0 <= i < parts.len() {
                        encode_model(parts[i])
                    } else {
                        ValueModel::Opaque
                    },
            ),
        ),
    }
}

impl SpaceData {
    pub open spec fn view(&self) -> DataModel
        decreases self,
    {
        match self {
            SpaceData::Discrete(n) => DataModel::Discrete(*n as int),
            SpaceData::Box(bits) => DataModel::Box(bits@),
            SpaceData::Tuple(parts) => DataModel::Tuple(data_views(*parts)),
            SpaceData::Dict(keys, parts) => DataModel::Dict(key_views(*keys), data_views(*parts)),
        }
    }

    /// Encodes the data as a runtime value. Nothing is checked against any
    /// bounds: an index or a number out of range is encoded as it is.
    pub fn into_value(&self) -> (v: Value)
        ensures
            v@ == encode_model(self@),
        decreases self,
    {
        match self {
            SpaceData::Discrete(n) => Value::Int(*n),
            SpaceData::Box(bits) => Value::List(encode_reals(bits)),
            SpaceData::Tuple(parts) => Value::Tuple(encode_all(parts)),
            SpaceData::Dict(keys, parts) => {
                let names = clone_keys(keys);
                Value::Dict(names, encode_all(parts))
            },
        }
    }
}

impl SpaceData {
    /// Builds in the runtime the value that `into_value` gives, and from that
    /// value alone: an integer, a list of floating-point numbers, a tuple or a
    /// dictionary. Data whose value asks nothing that the runtime can refuse
    /// is always built; data that holds, at any depth, a `Dict` without one
    /// part for each name never is.
    pub fn into_pyo(&self, gil: &GILGuard) -> (r: Option<PyObject>)
        ensures
            asks_nothing(encode_model(self@)) ==> r is Some,
            r is Some ==> buildable(encode_model(self@)),
    {
        let value = self.into_value();
        value.into_pyo(gil)
    }
}

/// The reals with the given bit patterns as values, in order.
pub fn encode_reals(bits: &Vec<u64>) -> (items: Vec<Value>)
    ensures
        value_views(items) == Seq::new(bits@.len(), |i: int| ValueModel::Real(bits@[i])),
{
    let mut items: Vec<Value> = Vec::new();
    let mut i: usize = 0;
    while i < bits.len()
        invariant
            i <= bits.len(),
            items.len() == i,
            forall|j: int| 0 <= j < i ==> items[j]@ == ValueModel::Real(bits[j]),
        decreases bits.len() - i,
    {
        items.push(Value::Real(bits[i]));
        i += 1;
    }
    proof {
        assert(value_views(items) =~= Seq::new(bits@.len(), |i: int| ValueModel::Real(bits@[i])));
    }
    items
}

/// Encodes each part, in order.
pub fn encode_all(parts: &Vec<SpaceData>) -> (items: Vec<Value>)
    ensures
        items.len() == parts.len(),
        value_views(items) == encode_model(DataModel::Tuple(data_views(*parts)))->Tuple_0,
    decreases parts,
{
    let mut items: Vec<Value> = Vec::new();
    let mut i: usize = 0;
    while i < parts.len()
        invariant
            i <= parts.len(),
            items.len() == i,
            forall|j: int| 0 <= j < i ==> items[j]@ == encode_model(parts[j]@),
        decreases parts.len() - i,
    {
        let item = parts[i].into_value();
        items.push(item);
        i += 1;
    }
    proof {
        assert(value_views(items) =~= encode_model(DataModel::Tuple(data_views(*parts)))->Tuple_0);
    }
    items
}

/// A copy of a vector of names.
pub fn clone_keys(keys: &Vec<String>) -> (names: Vec<String>)
    ensures
        key_views(names) == key_views(*keys),
{
    let mut names: Vec<String> = Vec::new();
    let mut i: usize = 0;
    while i < keys.len()
        invariant
            i <= keys.len(),
            names.len() == i,
            forall|j: int| 0 <= j < i ==> names[j]@ == keys[j]@,
        decreases keys.len() - i,
    {
        names.push(keys[i].clone());
        i += 1;
    }
    proof {
        assert(key_views(names) =~= key_views(*keys));
    }
    names
}

} // verus!
