use vstd::prelude::*;
use cpython::{GILGuard, PyObject};
use crate::error::GymError;
use crate::real_bits::as_real_bits;
use crate::runtime::{as_int, as_text, call_method, class_name, dict_items, get_attr, sequence_items};
use crate::space_template::{SpaceTemplate, lemma_nested_within, nested_within, parts_of, template_views, well_formed};

verus! {

/// The classes of space that have a template.
#[derive(Debug, PartialEq, Eq, Clone, Copy)]
pub enum SpaceKind {
    Discrete,
    Box,
    Tuple,
    Dict,
    MultiDiscrete,
    MultiBinary,
}

/// The kind that a class name stands for, if any.
pub open spec fn kind_named(name: Seq<char>) -> Option<SpaceKind> {
    if name == "Discrete"@ {
        Some(SpaceKind::Discrete)
    } else if name == "Box"@ {
        Some(SpaceKind::Box)
    } else if name == "Tuple"@ {
        Some(SpaceKind::Tuple)
    } else if name == "Dict"@ {
        Some(SpaceKind::Dict)
    } else if name == "MultiDiscrete"@ {
        Some(SpaceKind::MultiDiscrete)
    } else if name == "MultiBinary"@ {
        Some(SpaceKind::MultiBinary)
    } else {
        None
    }
}

/// Tells the kind of space from the name of the descriptor's class.
pub fn kind_of(name: &String) -> (r: Option<SpaceKind>)
    ensures
        r == kind_named(name@),
{
    if *name == "Discrete".to_owned() {
        Some(SpaceKind::Discrete)
    } else if *name == "Box".to_owned() {
        Some(SpaceKind::Box)
    } else if *name == "Tuple".to_owned() {
        Some(SpaceKind::Tuple)
    } else if *name == "Dict".to_owned() {
        Some(SpaceKind::Dict)
    } else if *name == "MultiDiscrete".to_owned() {
        Some(SpaceKind::MultiDiscrete)
    } else if *name == "MultiBinary".to_owned() {
        Some(SpaceKind::MultiBinary)
    } else {
        None
    }
}

/// How deep spaces may be nested in one another and still get a template.
pub const NESTING_LIMIT: usize = 64;

/// The values that were read, in order, where every one of them was read.
pub fn gather<T: Copy>(probes: &Vec<Option<T>>) -> (r: Option<Vec<T>>)
    ensures
        r is Some <==> forall|i: int| 0 <= i < probes.len() ==> (#[trigger] probes[i]) is Some,
        r matches Some(values) ==> values.len() == probes.len() && forall|i: int|
            0 <= i < probes.len() ==> probes[i] == Some(#[trigger] values[i]),
{
    let mut values: Vec<T> = Vec::new();
    let mut i: usize = 0;
    while i < probes.len()
        invariant
            i <= probes.len(),
            values.len() == i,
            forall|j: int| 0 <= j < i ==> (#[trigger] probes[j]) is Some,
            forall|j: int| 0 <= j < i ==> probes[j] == Some(#[trigger] values[j]),
        decreases probes.len() - i,
    {
        match probes[i] {
            Some(value) => values.push(value),
            None => {
                return None;
            },
        }
        i += 1;
    }
    Some(values)
}

/// The integers that the items of a sequence are, in order, where each is one.
pub fn read_ints(gil: &GILGuard, obj: &PyObject) -> (r: Option<Vec<i64>>) {
    let items = sequence_items(gil, obj)?;
    let mut probes: Vec<Option<i64>> = Vec::new();
    let mut i: usize = 0;
    while i < items.len()
        invariant
            i <= items.len(),
        decreases items.len() - i,
    {
        probes.push(as_int(gil, &items[i]));
        i += 1;
    }
    gather(&probes)
}

/// The bit patterns of the reals that the items of a flattened array are, in
/// order, where each is a number.
pub fn read_flat_reals(gil: &GILGuard, obj: &PyObject) -> (r: Option<Vec<u64>>) {
    let args: Vec<PyObject> = Vec::new();
    let flat = call_method(gil, obj, "flatten", &args, None)?;
    let items = sequence_items(gil, &flat)?;
    let mut probes: Vec<Option<u64>> = Vec::new();
    let mut i: usize = 0;
    while i < items.len()
        invariant
            i <= items.len(),
        decreases items.len() - i,
    {
        probes.push(as_real_bits(gil, &items[i]));
        i += 1;
    }
    gather(&probes)
}

/// The extents of a shape, where none of them is negative.
pub fn shape_of(extents: &Vec<i64>) -> (r: Option<Vec<usize>>)
    ensures
        r is Some <==> forall|i: int|
            0 <= i < extents.len() ==> 0 <= (#[trigger] extents[i]) <= usize::MAX,
        r matches Some(shape) ==> shape.len() == extents.len() && forall|i: int|
            0 <= i < shape.len() ==> (#[trigger] shape[i]) == extents[i],
{
    let mut shape: Vec<usize> = Vec::new();
    let mut i: usize = 0;
    while i < extents.len()
        invariant
            i <= extents.len(),
            shape.len() == i,
            forall|j: int| 0 <= j < i ==> 0 <= (#[trigger] extents[j]) <= usize::MAX,
            forall|j: int| 0 <= j < i ==> (#[trigger] shape[j]) == extents[j],
        decreases extents.len() - i,
    {
        let extent: i64 = extents[i];
        if extent < 0 || extent as u64 > usize::MAX as u64 {
            return None;
        }
        shape.push(extent as usize);
        i += 1;
    }
    Some(shape)
}

/// The `Box` template of what was read of a descriptor's bounds and shape:
/// there is one exactly where all three were read and no extent is negative,
/// and it holds the bounds as they were read and the extents as its shape.
pub fn box_of(low: Option<Vec<u64>>, high: Option<Vec<u64>>, extents: Option<Vec<i64>>) -> (r:
    Option<SpaceTemplate>)
    ensures
        r is Some <==> low is Some && high is Some && extents is Some && forall|i: int|
            0 <= i < extents->Some_0.len() ==> 0 <= (#[trigger] extents->Some_0[i])
                <= usize::MAX,
        r matches Some(t) ==> t matches SpaceTemplate::Box { low: l, high: h, shape: s }
            && low == Some(l) && high == Some(h) && s.len() == extents->Some_0.len()
            && forall|i: int| 0 <= i < s.len() ==> (#[trigger] s[i]) == extents->Some_0[i],
{
    match (low, high, extents) {
        (Some(low), Some(high), Some(extents)) => match shape_of(&extents) {
            Some(shape) => Some(SpaceTemplate::Box { low, high, shape }),
            None => None,
        },
        _ => None,
    }
}

/// The integer under an attribute of that name, where there is one.
pub fn read_int_attr(gil: &GILGuard, obj: &PyObject, name: &str) -> (r: Option<i64>) {
    match get_attr(gil, obj, name) {
        Some(attr) => as_int(gil, &attr),
        None => None,
    }
}

/// The template of a descriptor of the given kind, from what was read of
/// it: `Discrete` and `MultiBinary` hold the integer read, `MultiDiscrete` the
/// integers, `Box` the bounds and shape read as a `Box` template, `Tuple` the
/// parts in order, `Dict` the names and the parts in order. There is none where
/// the kind is none or what the kind needs was not read.
pub open spec fn template_for(
    kind: Option<SpaceKind>,
    n: Option<i64>,
    dims: Option<Vec<i64>>,
    bounds: Option<SpaceTemplate>,
    keys: Option<Vec<String>>,
    parts: Option<Vec<SpaceTemplate>>,
) -> Option<SpaceTemplate> {
    match kind {
        Some(SpaceKind::Discrete) => match n {
            Some(n) => Some(SpaceTemplate::Discrete { n }),
            None => None,
        },
        Some(SpaceKind::MultiBinary) => match n {
            Some(n) => Some(SpaceTemplate::MultiBinary { n }),
            None => None,
        },
        Some(SpaceKind::MultiDiscrete) => match dims {
            Some(dims) => Some(SpaceTemplate::MultiDiscrete { dims }),
            None => None,
        },
        Some(SpaceKind::Box) => match bounds {
            Some(t) => if t is Box {
                Some(t)
            } else {
                None
            },
            None => None,
        },
        Some(SpaceKind::Tuple) => match parts {
            Some(parts) => Some(SpaceTemplate::Tuple { parts }),
            None => None,
        },
        Some(SpaceKind::Dict) => match (keys, parts) {
            (Some(keys), Some(parts)) => Some(SpaceTemplate::Dict { keys, parts }),
            _ => None,
        },
        None => None,
    }
}

/// The template of a descriptor of the given kind, from what was read of it.
pub fn template_of(
    kind: Option<SpaceKind>,
    n: Option<i64>,
    dims: Option<Vec<i64>>,
    bounds: Option<SpaceTemplate>,
    keys: Option<Vec<String>>,
    parts: Option<Vec<SpaceTemplate>>,
) -> (r: Option<SpaceTemplate>)
    ensures
        r == template_for(kind, n, dims, bounds, keys, parts),
{
    match kind {
        Some(SpaceKind::Discrete) => match n {
            Some(n) => Some(SpaceTemplate::Discrete { n }),
            None => None,
        },
        Some(SpaceKind::MultiBinary) => match n {
            Some(n) => Some(SpaceTemplate::MultiBinary { n }),
            None => None,
        },
        Some(SpaceKind::MultiDiscrete) => match dims {
            Some(dims) => Some(SpaceTemplate::MultiDiscrete { dims }),
            None => None,
        },
        Some(SpaceKind::Box) => match bounds {
            Some(t) => match t {
                SpaceTemplate::Box { low, high, shape } => Some(
                    SpaceTemplate::Box { low, high, shape },
                ),
                _ => None,
            },
            None => None,
        },
        Some(SpaceKind::Tuple) => match parts {
            Some(parts) => Some(SpaceTemplate::Tuple { parts }),
            None => None,
        },
        Some(SpaceKind::Dict) => match (keys, parts) {
            (Some(keys), Some(parts)) => Some(SpaceTemplate::Dict { keys, parts }),
            _ => None,
        },
        None => None,
    }
}

impl SpaceTemplate {
    /// Reads the template of a space from its descriptor in the runtime,
    /// going by the name of the descriptor's class. A class that has no
    /// template, a descriptor that lacks what its class should hold, one
    /// whose template would not be well formed, and spaces nested deeper than
    /// `NESTING_LIMIT` are refused, under the name of the class.
    pub fn extract_template(gil: &GILGuard, obj: &PyObject) -> (r: Result<SpaceTemplate, GymError>)
        ensures
            r matches Ok(t) ==> well_formed(t@) && nested_within(t@, NESTING_LIMIT as nat),
            r matches Err(e) ==> e is UnsupportedSpaceKind,
    {
        let template = SpaceTemplate::extract_nested(gil, obj, NESTING_LIMIT)?;
        if template.is_well_formed() {
            Ok(template)
        } else {
            Err(GymError::UnsupportedSpaceKind(class_name(gil, obj)))
        }
    }

    /// As `extract_template`, for spaces nested at most `depth` deep, and
    /// without the test that the template is well formed. What is read of the
    /// descriptor goes by its kind, and the template is what `template_of`
    /// gives for the kind and what was read.
    #[verifier::loop_isolation(false)]
    pub fn extract_nested(gil: &GILGuard, obj: &PyObject, depth: usize) -> (r: Result<
        SpaceTemplate,
        GymError,
    >)
        ensures
            r matches Ok(t) ==> nested_within(t@, depth as nat),
            r matches Err(e) ==> e is UnsupportedSpaceKind,
        decreases depth,
    {
        let name = class_name(gil, obj);
        let kind = kind_of(&name);
        let n = match kind {
            Some(SpaceKind::Discrete) => read_int_attr(gil, obj, "n"),
            Some(SpaceKind::MultiBinary) => read_int_attr(gil, obj, "n"),
            _ => None,
        };
        let dims = match kind {
            Some(SpaceKind::MultiDiscrete) => match get_attr(gil, obj, "nvec") {
                Some(attr) => read_ints(gil, &attr),
                None => None,
            },
            _ => None,
        };
        let bounds = match kind {
            Some(SpaceKind::Box) => SpaceTemplate::extract_box(gil, obj),
            _ => None,
        };
        let mut keys: Option<Vec<String>> = None;
        let mut parts: Option<Vec<SpaceTemplate>> = None;
        match kind {
            Some(SpaceKind::Tuple) => {
                if depth > 0 {
                    match get_attr(gil, obj, "spaces") {
                        Some(spaces) => match sequence_items(gil, &spaces) {
                            Some(items) => {
                                let mut read: Vec<SpaceTemplate> = Vec::new();
                                let mut i: usize = 0;
                                while i < items.len()
                                    invariant
                                        i <= items.len(),
                                        forall|j: int|
                                            0 <= j < read.len() ==> nested_within(
                                                (#[trigger] read[j])@,
                                                (depth - 1) as nat,
                                            ),
                                    decreases items.len() - i,
                                {
                                    let part = SpaceTemplate::extract_nested(
                                        gil,
                                        &items[i],
                                        depth - 1,
                                    )?;
                                    read.push(part);
                                    i += 1;
                                }
                                parts = Some(read);
                            },
                            None => {},
                        },
                        None => {},
                    }
                }
            },
            Some(SpaceKind::Dict) => {
                if depth > 0 {
                    match get_attr(gil, obj, "spaces") {
                        Some(spaces) => match dict_items(gil, &spaces) {
                            Some(items) => {
                                let mut names: Vec<String> = Vec::new();
                                let mut read: Vec<SpaceTemplate> = Vec::new();
                                let mut i: usize = 0;
                                while i < items.len()
                                    invariant
                                        i <= items.len(),
                                        forall|j: int|
                                            0 <= j < read.len() ==> nested_within(
                                                (#[trigger] read[j])@,
                                                (depth - 1) as nat,
                                            ),
                                    decreases items.len() - i,
                                {
                                    let key = match as_text(gil, &items[i].0) {
                                        Some(key) => key,
                                        None => {
                                            return Err(GymError::UnsupportedSpaceKind(name));
                                        },
                                    };
                                    let part = SpaceTemplate::extract_nested(
                                        gil,
                                        &items[i].1,
                                        depth - 1,
                                    )?;
                                    names.push(key);
                                    read.push(part);
                                    i += 1;
                                }
                                keys = Some(names);
                                parts = Some(read);
                            },
                            None => {},
                        },
                        None => {},
                    }
                }
            },
            _ => {},
        }
        let ghost held = parts;
        assert(held matches Some(read) ==> depth > 0 && forall|j: int|
            0 <= j < read.len() ==> nested_within((#[trigger] read[j])@, (depth - 1) as nat));
        match template_of(kind, n, dims, bounds, keys, parts) {
            Some(template) => {
                proof {
                    if template is Tuple || template is Dict {
                        assert(parts_of(template@) == template_views(held->Some_0));
                    }
                    lemma_nested_within(template@, depth as nat);
                }
                Ok(template)
            },
            None => Err(GymError::UnsupportedSpaceKind(name)),
        }
    }

    /// Reads the bounds and the shape of a `Box` descriptor.
    pub fn extract_box(gil: &GILGuard, obj: &PyObject) -> (r: Option<SpaceTemplate>)
        ensures
            r matches Some(t) ==> t is Box,
    {
        let low = match get_attr(gil, obj, "low") {
            Some(attr) => read_flat_reals(gil, &attr),
            None => None,
        };
        let high = match get_attr(gil, obj, "high") {
            Some(attr) => read_flat_reals(gil, &attr),
            None => None,
        };
        let extents = match get_attr(gil, obj, "shape") {
            Some(attr) => read_ints(gil, &attr),
            None => None,
        };
        box_of(low, high, extents)
    }
}

} // verus!
