use vstd::prelude::*;
use cpython::{GILGuard, PyObject};
use crate::real_bits::as_real_bits;
use crate::runtime::{as_int, get_item, sequence_items, text_object};
use crate::space_data::{DataModel, SpaceData, clone_keys, data_views, encode_model};
use crate::space_template::{SpaceTemplate, TemplateModel, template_views, well_formed};
use crate::value::{Value, ValueModel, as_list, find_from, find_key, key_views, lemma_find_distinct, value_views};

verus! {

/// Every item is a real number.
pub open spec fn all_real(items: Seq<ValueModel>) -> bool {
    forall|i: int| 0 <= i < items.len() ==> #[trigger] items[i] is Real
}

/// What a runtime value decodes to against a template, if it fits.
///
/// `Discrete` takes any integer, in range or not. `Box` takes a list or a
/// tuple of as many reals as the template has lower bounds. `Tuple` takes a
/// list or a tuple as long as the template whose items decode position by
/// position. `Dict` takes a
/// dictionary that holds at least the template's names, and decodes the first
/// value under each; the result lists them in the template's order. No data
/// stands for a `MultiDiscrete` or a `MultiBinary` space, so nothing fits them.
pub open spec fn decode_model(t: TemplateModel, v: ValueModel) -> Option<DataModel>
    decreases t,
{
    match (t, as_list(v)) {
        (TemplateModel::Discrete(_), ValueModel::Int(k)) => Some(DataModel::Discrete(k)),
        (TemplateModel::Box(low, _, _), ValueModel::List(items)) => {
            if items.len() == low.len() && all_real(items) {
                Some(DataModel::Box(Seq::new(items.len(), |i: int| items[i]->Real_0)))
            } else {
                None
            }
        },
        (TemplateModel::Tuple(parts), ValueModel::List(items)) => {
            if items.len() == parts.len() && forall|i: int|
                0 <= i < parts.len() ==> decode_model(#[trigger] parts[i], items[i]) is Some {
                Some(
                    DataModel::Tuple(
                        Seq::new(
                            parts.len(),
                            |i: int|
                                if 0 <= i < parts.len() {
                                    decode_model(parts[i], items[i])->Some_0
                                } else {
                                    DataModel::Discrete(0)
                                },
                        ),
                    ),
                )
            } else {
                None
            }
        },
        (TemplateModel::Dict(keys, parts), ValueModel::Dict(names, values)) => {
            if keys.len() == parts.len() && forall|i: int|
                0 <= i < parts.len() ==> {
                    let at = #[trigger] find_from(names, keys[i], 0);
                    0 <= at < names.len() && at < values.len() && decode_model(
                        parts[i],
                        values[at],
                    ) is Some
                } {
                Some(
                    DataModel::Dict(
                        keys,
                        Seq::new(
                            parts.len(),
                            |i: int|
                                if 0 <= i < parts.len() {
                                    decode_model(
                                        parts[i],
                                        values[find_from(names, keys[i], 0)],
                                    )->Some_0
                                } else {
                                    DataModel::Discrete(0)
                                },
                        ),
                    ),
                )
            } else {
                None
            }
        },
        _ => None,
    }
}

impl SpaceTemplate {
    /// Decodes a runtime value against this template: the data if the value
    /// fits, nothing if it does not.
    #[verifier::loop_isolation(false)]
    pub fn decode(&self, value: &Value) -> (r: Option<SpaceData>)
        ensures
            match r {
                Some(d) => decode_model(self@, value@) == Some(d@),
                None => decode_model(self@, value@) is None,
            },
        decreases self,
    {
        match self {
            SpaceTemplate::Discrete { n: _ } => match value {
                Value::Int(k) => Some(SpaceData::Discrete(*k)),
                _ => None,
            },
            SpaceTemplate::Box { low, high: _, shape: _ } => {
                let items = match value {
                    Value::List(items) => items,
                    Value::Tuple(items) => items,
                    _ => { return None; },
                };
                if items.len() != low.len() {
                    return None;
                }
                let mut bits: Vec<u64> = Vec::new();
                let mut i: usize = 0;
                while i < items.len()
                    invariant
                        i <= items.len(),
                        bits.len() == i,
                        forall|j: int| 0 <= j < i ==> items[j]@ == ValueModel::Real(bits[j]),
                    decreases items.len() - i,
                {
                    match &items[i] {
                        Value::Real(b) => bits.push(*b),
                        _ => {
                            proof {
                                assert(!(value_views(*items)[i as int] is Real));
                            }
                            return None;
                        },
                    }
                    i += 1;
                }
                proof {
                    let ms = value_views(*items);
                    assert(all_real(ms));
                    assert(bits@ =~= Seq::new(ms.len(), |i: int| ms[i]->Real_0));
                }
                Some(SpaceData::Box(bits))
            },
            SpaceTemplate::Tuple { parts } => {
                let items = match value {
                    Value::List(items) => items,
                    Value::Tuple(items) => items,
                    _ => { return None; },
                };
                if items.len() != parts.len() {
                    return None;
                }
                let ghost pm = template_views(*parts);
                let ghost im = value_views(*items);
                let mut out: Vec<SpaceData> = Vec::new();
                let mut i: usize = 0;
                while i < parts.len()
                    invariant
                        i <= parts.len(),
                        items.len() == parts.len(),
                        out.len() == i,
                        pm == template_views(*parts),
                        im == value_views(*items),
                        forall|j: int|
                            0 <= j < i ==> decode_model(#[trigger] pm[j], im[j]) == Some(out[j]@),
                    decreases parts.len() - i,
                {
                    match parts[i].decode(&items[i]) {
                        Some(d) => out.push(d),
                        None => {
                            proof {
                                assert(decode_model(pm[i as int], im[i as int]) is None);
                            }
                            return None;
                        },
                    }
                    i += 1;
                }
                proof {
                    assert(data_views(out) =~= decode_model(self@, value@)->Some_0->Tuple_0);
                }
                Some(SpaceData::Tuple(out))
            },
            SpaceTemplate::Dict { keys, parts } => {
                let (names, values) = match value {
                    Value::Dict(names, values) => (names, values),
                    _ => { return None; },
                };
                if keys.len() != parts.len() {
                    return None;
                }
                let ghost km = key_views(*keys);
                let ghost pm = template_views(*parts);
                let ghost nm = key_views(*names);
                let ghost vm = value_views(*values);
                let mut out: Vec<SpaceData> = Vec::new();
                let mut i: usize = 0;
                while i < parts.len()
                    invariant
                        i <= parts.len(),
                        keys.len() == parts.len(),
                        out.len() == i,
                        km == key_views(*keys),
                        pm == template_views(*parts),
                        nm == key_views(*names),
                        vm == value_views(*values),
                        forall|j: int|
                            0 <= j < i ==> {
                                let at = #[trigger] find_from(nm, km[j], 0);
                                0 <= at < nm.len() && at < vm.len() && decode_model(
                                    pm[j],
                                    vm[at],
                                ) == Some(out[j]@)
                            },
                    decreases parts.len() - i,
                {
                    let at = find_key(names, &keys[i]);
                    if at >= names.len() || at >= values.len() {
                        proof {
                            assert(find_from(nm, km[i as int], 0) == at);
                        }
                        return None;
                    }
                    match parts[i].decode(&values[at]) {
                        Some(d) => out.push(d),
                        None => {
                            proof {
                                assert(find_from(nm, km[i as int], 0) == at);
                                assert(decode_model(pm[i as int], vm[at as int]) is None);
                            }
                            return None;
                        },
                    }
                    i += 1;
                }
                proof {
                    assert(data_views(out) =~= decode_model(self@, value@)->Some_0->Dict_1);
                }
                Some(SpaceData::Dict(clone_keys(keys), out))
            },
            _ => None,
        }
    }
}

impl SpaceTemplate {
    /// Reads a runtime object as far as this template looks into it: the
    /// integer for `Discrete`, the reals of a sequence for `Box`, the items of
    /// a sequence for `Tuple`, each read against the part at its position, and
    /// for `Dict` the items that the object holds under the template's names.
    /// Whatever the runtime does not hand out in that form is `Opaque`.
    #[verifier::loop_isolation(false)]
    pub fn read_as(&self, gil: &GILGuard, obj: &PyObject) -> (v: Value)
        ensures
            match self {
                SpaceTemplate::Discrete { .. } => v is Int || v is Opaque,
                SpaceTemplate::Box { .. } => v is List || v is Opaque,
                SpaceTemplate::Tuple { .. } => v is List || v is Opaque,
                SpaceTemplate::Dict { .. } => v matches Value::Dict(names, values)
                    && names.len() == values.len(),
                _ => v is Opaque,
            },
        decreases self,
    {
        match self {
            SpaceTemplate::Discrete { n: _ } => match as_int(gil, obj) {
                Some(k) => Value::Int(k),
                None => Value::Opaque,
            },
            SpaceTemplate::Box { low: _, high: _, shape: _ } => match sequence_items(gil, obj) {
                Some(items) => {
                    let mut out: Vec<Value> = Vec::new();
                    let mut i: usize = 0;
                    while i < items.len()
                        invariant
                            i <= items.len(),
                        decreases items.len() - i,
                    {
                        match as_real_bits(gil, &items[i]) {
                            Some(bits) => out.push(Value::Real(bits)),
                            None => out.push(Value::Opaque),
                        }
                        i += 1;
                    }
                    Value::List(out)
                },
                None => Value::Opaque,
            },
            SpaceTemplate::Tuple { parts } => match sequence_items(gil, obj) {
                Some(items) => {
                    let mut out: Vec<Value> = Vec::new();
                    let mut i: usize = 0;
                    while i < items.len()
                        invariant
                            i <= items.len(),
                        decreases items.len() - i,
                    {
                        if i < parts.len() {
                            let item = parts[i].read_as(gil, &items[i]);
                            out.push(item);
                        } else {
                            out.push(Value::Opaque);
                        }
                        i += 1;
                    }
                    Value::List(out)
                },
                None => Value::Opaque,
            },
            SpaceTemplate::Dict { keys, parts } => {
                let mut names: Vec<String> = Vec::new();
                let mut values: Vec<Value> = Vec::new();
                let mut i: usize = 0;
                while i < keys.len() && i < parts.len()
                    invariant
                        names.len() == values.len(),
                    decreases keys.len() - i,
                {
                    let name = text_object(gil, keys[i].as_str());
                    match get_item(gil, obj, &name) {
                        Some(item) => {
                            let value = parts[i].read_as(gil, &item);
                            names.push(keys[i].clone());
                            values.push(value);
                        },
                        None => {},
                    }
                    i += 1;
                }
                Value::Dict(names, values)
            },
            _ => Value::Opaque,
        }
    }

    /// Decodes a runtime object against this template. Whatever the runtime
    /// handed out, data that comes back is the decoding of a value against
    /// this template, and so has the template's shape.
    pub fn extract_data(&self, gil: &GILGuard, obj: &PyObject) -> (r: Option<SpaceData>)
        ensures
            r matches Some(d) ==> fits(d@, self@) && exists|v: ValueModel|
                decode_model(self@, v) == Some(d@),
            self is MultiDiscrete || self is MultiBinary ==> r is None,
    {
        let value = self.read_as(gil, obj);
        let r = self.decode(&value);
        proof {
            if r is Some {
                decoded_fits(self@, value@);
            }
        }
        r
    }
}

/// Data has the shape of a template: an index for `Discrete`, as many
/// numbers as a `Box` has lower bounds, for a `Tuple` one fitting part at each
/// position, for a `Dict` the template's names in its order with one fitting
/// part under each. Nothing has the shape of a `MultiDiscrete` or a
/// `MultiBinary` space.
pub open spec fn fits(d: DataModel, t: TemplateModel) -> bool
    decreases t,
{
    match (t, d) {
        (TemplateModel::Discrete(_), DataModel::Discrete(_)) => true,
        (TemplateModel::Box(low, _, _), DataModel::Box(bits)) => bits.len() == low.len(),
        (TemplateModel::Tuple(parts), DataModel::Tuple(ds)) => ds.len() == parts.len()
            && forall|i: int| 0 <= i < parts.len() ==> fits(ds[i], #[trigger] parts[i]),
        (TemplateModel::Dict(keys, parts), DataModel::Dict(names, ds)) => names == keys
            && keys.len() == parts.len() && ds.len() == parts.len() && forall|i: int|
            0 <= i < parts.len() ==> fits(ds[i], #[trigger] parts[i]),
        _ => false,
    }
}

/// Whatever decodes against a template has the template's shape.
pub proof fn decoded_fits(t: TemplateModel, v: ValueModel)
    requires
        decode_model(t, v) is Some,
    ensures
        fits(decode_model(t, v)->Some_0, t),
    decreases t,
{
    let d = decode_model(t, v)->Some_0;
    match (t, as_list(v)) {
        (TemplateModel::Tuple(parts), ValueModel::List(items)) => {
            assert forall|i: int| 0 <= i < parts.len() implies fits(
                d->Tuple_0[i],
                #[trigger] parts[i],
            ) by {
                decoded_fits(parts[i], items[i]);
            }
        },
        (TemplateModel::Dict(keys, parts), ValueModel::Dict(names, values)) => {
            assert forall|i: int| 0 <= i < parts.len() implies fits(
                d->Dict_1[i],
                #[trigger] parts[i],
            ) by {
                let at = find_from(names, keys[i], 0);
                assert(0 <= at < values.len());
                decoded_fits(parts[i], values[at]);
            }
        },
        _ => {},
    }
}

/// Data that has the shape of a well-formed template, encoded as a runtime
/// value, decodes against the template to the same data.
pub proof fn encoded_decodes(t: TemplateModel, d: DataModel)
    requires
        well_formed(t),
        fits(d, t),
    ensures
        decode_model(t, encode_model(d)) == Some(d),
    decreases t,
{
    let e = encode_model(d);
    match (t, d) {
        (TemplateModel::Box(low, _, _), DataModel::Box(bits)) => {
            let items = e->List_0;
            assert(all_real(items));
            assert(bits =~= Seq::new(items.len(), |i: int| items[i]->Real_0));
        },
        (TemplateModel::Tuple(parts), DataModel::Tuple(ds)) => {
            let items = e->Tuple_0;
            assert(as_list(e) == ValueModel::List(items));
            assert forall|i: int| 0 <= i < parts.len() implies decode_model(
                #[trigger] parts[i],
                items[i],
            ) == Some(ds[i]) by {
                encoded_decodes(parts[i], ds[i]);
            }
            assert(decode_model(t, e)->Some_0->Tuple_0 =~= ds);
        },
        (TemplateModel::Dict(keys, parts), DataModel::Dict(names, ds)) => {
            let items = e->Dict_1;
            assert(e->Dict_0 == keys);
            assert forall|i: int| 0 <= i < parts.len() implies {
                let at = #[trigger] find_from(keys, keys[i], 0);
                at == i && decode_model(parts[i], items[i]) == Some(ds[i])
            } by {
                lemma_find_distinct(keys, i, 0);
                assert(well_formed(parts[i]));
                encoded_decodes(parts[i], ds[i]);
            }
            assert(decode_model(t, e)->Some_0->Dict_1 =~= ds);
        },
        _ => {},
    }
}

/// A `Discrete` space takes every integer as it is, whether or not it lies
/// below the space's size: the range is the caller's to keep.
pub proof fn discrete_takes_any_integer(n: int, k: int)
    ensures
        decode_model(TemplateModel::Discrete(n), ValueModel::Int(k)) == Some(
            DataModel::Discrete(k),
        ),
{
}

/// Round trip: data that was decoded against a well-formed template, encoded
/// as a runtime value and decoded again against the same template, is the same
/// data.
pub proof fn round_trip(t: TemplateModel, v: ValueModel)
    requires
        well_formed(t),
        decode_model(t, v) is Some,
    ensures
        decode_model(t, encode_model(decode_model(t, v)->Some_0)) == decode_model(t, v),
{
    decoded_fits(t, v);
    encoded_decodes(t, decode_model(t, v)->Some_0);
}

} // verus!
