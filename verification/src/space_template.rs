use vstd::prelude::*;
use crate::value::{all_distinct, distinct, key_views};

verus! {

/// What a template holds, as mathematics.
pub enum TemplateModel {
    Discrete(int),
    Box(Seq<u64>, Seq<u64>, Seq<nat>),
    Tuple(Seq<TemplateModel>),
    Dict(Seq<Seq<char>>, Seq<TemplateModel>),
    MultiDiscrete(Seq<int>),
    MultiBinary(int),
}

/// The shape of an observation space or an action space.
///
/// The bounds of a `Box` are the bit patterns of IEEE-754 doubles, in flat
/// order. A `Dict` holds its names in the order in which the space listed them
/// and, position by position, their templates.
#[derive(Debug)]
pub enum SpaceTemplate {
    Discrete { n: i64 },
    Box { low: Vec<u64>, high: Vec<u64>, shape: Vec<usize> },
    Tuple { parts: Vec<SpaceTemplate> },
    Dict { keys: Vec<String>, parts: Vec<SpaceTemplate> },
    MultiDiscrete { dims: Vec<i64> },
    MultiBinary { n: i64 },
}

/// The views of a vector of templates, in order.
pub open spec fn template_views(parts: Vec<SpaceTemplate>) -> Seq<TemplateModel>
    decreases parts,
{
    Seq::new(
        parts.len() as nat,
        |i: int|
            if 0 <= i < parts.len() {
                parts[i].view()
            } else {
                TemplateModel::Discrete(0)
            },
    )
}

/// The product of the extents of a shape from position `from` on.
pub open spec fn count_from(shape: Seq<nat>, from: int) -> nat
    decreases shape.len() - from,
{
    if from < 0 || from >= shape.len() {
        1
    } else {
        shape[from] * count_from(shape, from + 1)
    }
}

/// The number of elements of an array of the given shape.
pub open spec fn element_count(shape: Seq<nat>) -> nat {
    count_from(shape, 0)
}

/// The extents of a shape as natural numbers.
pub open spec fn shape_view(shape: Vec<usize>) -> Seq<nat> {
    Seq::new(shape.len() as nat, |i: int| shape[i] as nat)
}

/// A shape with an extent of zero has no elements.
pub proof fn lemma_count_zero(shape: Seq<nat>, from: int, at: int)
    requires
        0 <= from <= at < shape.len(),
        shape[at] == 0,
    ensures
        count_from(shape, from) == 0,
    decreases at - from,
{
    let x = shape[from];
    let y = count_from(shape, from + 1);
    if from < at {
        lemma_count_zero(shape, from + 1, at);
    }
    assert(x * y == 0) by (nonlinear_arith)
        requires
            x == 0 || y == 0,
    ;
}

/// Without an extent of zero, a shape has at least as many elements as any
/// of its tails.
pub proof fn lemma_count_grows(shape: Seq<nat>, from: int, to: int)
    requires
        0 <= from <= to <= shape.len(),
        forall|k: int| 0 <= k < shape.len() ==> shape[k] >= 1,
    ensures
        count_from(shape, from) >= count_from(shape, to),
    decreases to - from,
{
    if from < to {
        lemma_count_grows(shape, from + 1, to);
        let x = shape[from];
        let y = count_from(shape, from + 1);
        assert(x * y >= y) by (nonlinear_arith)
            requires
                x >= 1,
        ;
    }
}

/// Whether an array of the given shape has exactly `len` elements.
pub fn has_count(shape: &Vec<usize>, len: usize) -> (r: bool)
    ensures
        r == (len == element_count(shape_view(*shape))),
{
    let ghost view = shape_view(*shape);
    let mut z: usize = 0;
    while z < shape.len()
        invariant
            z <= shape.len(),
            view == shape_view(*shape),
            forall|k: int| 0 <= k < z ==> view[k] >= 1,
        decreases shape.len() - z,
    {
        if shape[z] == 0 {
            proof {
                lemma_count_zero(view, 0, z as int);
            }
            return len == 0;
        }
        z += 1;
    }
    let mut acc: usize = 1;
    let mut i: usize = shape.len();
    while i > 0
        invariant
            i <= shape.len(),
            view == shape_view(*shape),
            forall|k: int| 0 <= k < shape.len() ==> view[k] >= 1,
            acc == count_from(view, i as int),
        decreases i,
    {
        i -= 1;
        let a: u128 = acc as u128;
        let b: u128 = shape[i] as u128;
        assert(a * b <= 0xffff_ffff_ffff_ffff * 0xffff_ffff_ffff_ffff) by (nonlinear_arith)
            requires
                a <= 0xffff_ffff_ffff_ffff,
                b <= 0xffff_ffff_ffff_ffff,
        ;
        let product: u128 = a * b;
        assert(product == count_from(view, i as int)) by {
            let x = view[i as int];
            let y = count_from(view, i as int + 1);
            assert(x * y == a * b) by (nonlinear_arith)
                requires
                    x == b,
                    y == a,
            ;
        }
        if product > len as u128 {
            proof {
                lemma_count_grows(view, 0, i as int);
            }
            return false;
        }
        acc = product as usize;
    }
    acc == len
}

/// A template is well formed when a `Box` has as many lower as upper bounds
/// and as many as its shape has elements, a `Tuple` is not empty, a `Dict`
/// names each of its parts once, and the parts are well formed themselves.
/// That each lower bound is at most its upper bound is no part of it: the
/// bounds are held as bit patterns, which this library does not order.
pub open spec fn well_formed(t: TemplateModel) -> bool
    decreases t,
{
    match t {
        TemplateModel::Box(low, high, shape) => low.len() == high.len() && low.len()
            == element_count(shape),
        TemplateModel::Tuple(parts) => parts.len() > 0 && forall|i: int|
            0 <= i < parts.len() ==> well_formed(#[trigger] parts[i]),
        TemplateModel::Dict(keys, parts) => keys.len() == parts.len() && distinct(keys)
            && forall|i: int| 0 <= i < parts.len() ==> well_formed(#[trigger] parts[i]),
        _ => true,
    }
}

/// The templates that a template holds as its parts: those of a `Tuple` or a
/// `Dict`, none for the others.
pub open spec fn parts_of(t: TemplateModel) -> Seq<TemplateModel> {
    match t {
        TemplateModel::Tuple(parts) => parts,
        TemplateModel::Dict(_, parts) => parts,
        _ => Seq::empty(),
    }
}

/// Spaces are nested in the template at most `depth` deep: a template
/// without parts at any depth, a `Tuple` or a `Dict` where `depth` is not zero
/// and its parts are nested at most one less deep.
pub open spec fn nested_within(t: TemplateModel, depth: nat) -> bool
    decreases t,
{
    match t {
        TemplateModel::Tuple(parts) => depth > 0 && forall|i: int|
            0 <= i < parts.len() ==> nested_within(#[trigger] parts[i], (depth - 1) as nat),
        TemplateModel::Dict(_, parts) => depth > 0 && forall|i: int|
            0 <= i < parts.len() ==> nested_within(#[trigger] parts[i], (depth - 1) as nat),
        _ => true,
    }
}

/// A template is nested within a depth where it has no parts, or the depth
/// is not zero and each part is nested within one less.
pub proof fn lemma_nested_within(t: TemplateModel, depth: nat)
    requires
        t is Tuple || t is Dict ==> depth > 0 && forall|i: int|
            0 <= i < parts_of(t).len() ==> nested_within(
                #[trigger] parts_of(t)[i],
                (depth - 1) as nat,
            ),
    ensures
        nested_within(t, depth),
{
    let parts = parts_of(t);
    if t is Tuple {
        assert(t->Tuple_0 == parts);
    }
    if t is Dict {
        assert(t->Dict_1 == parts);
    }
    if t is Tuple || t is Dict {
        assert forall|i: int| 0 <= i < parts.len() implies nested_within(
            #[trigger] parts[i],
            (depth - 1) as nat,
        ) by {
            assert(nested_within(parts_of(t)[i], (depth - 1) as nat));
        }
    }
}

impl SpaceTemplate {
    pub open spec fn view(&self) -> TemplateModel
        decreases self,
    {
        match self {
            SpaceTemplate::Discrete { n } => TemplateModel::Discrete(*n as int),
            SpaceTemplate::Box { low, high, shape } => TemplateModel::Box(
                low@,
                high@,
                shape_view(*shape),
            ),
            SpaceTemplate::Tuple { parts } => TemplateModel::Tuple(template_views(*parts)),
            SpaceTemplate::Dict { keys, parts } => TemplateModel::Dict(
                key_views(*keys),
                template_views(*parts),
            ),
            SpaceTemplate::MultiDiscrete { dims } => TemplateModel::MultiDiscrete(
                Seq::new(dims.len() as nat, |i: int| dims[i] as int),
            ),
            SpaceTemplate::MultiBinary { n } => TemplateModel::MultiBinary(*n as int),
        }
    }

}

impl SpaceTemplate {
    /// Whether the template is well formed.
    #[verifier::loop_isolation(false)]
    pub fn is_well_formed(&self) -> (r: bool)
        ensures
            r == well_formed(self@),
        decreases self,
    {
        match self {
            SpaceTemplate::Box { low, high, shape } => {
                assert(shape_view(*shape) =~= self@->Box_2);
                low.len() == high.len() && has_count(shape, low.len())
            },
            SpaceTemplate::Tuple { parts } => {
                if parts.len() == 0 {
                    return false;
                }
                let mut i: usize = 0;
                while i < parts.len()
                    invariant
                        i <= parts.len(),
                        forall|j: int| 0 <= j < i ==> well_formed(#[trigger] template_views(*parts)[j]),
                    decreases parts.len() - i,
                {
                    if !parts[i].is_well_formed() {
                        assert(!well_formed(template_views(*parts)[i as int]));
                        return false;
                    }
                    i += 1;
                }
                true
            },
            SpaceTemplate::Dict { keys, parts } => {
                if keys.len() != parts.len() || !all_distinct(keys) {
                    return false;
                }
                let mut i: usize = 0;
                while i < parts.len()
                    invariant
                        i <= parts.len(),
                        forall|j: int| 0 <= j < i ==> well_formed(#[trigger] template_views(*parts)[j]),
                    decreases parts.len() - i,
                {
                    if !parts[i].is_well_formed() {
                        assert(!well_formed(template_views(*parts)[i as int]));
                        return false;
                    }
                    i += 1;
                }
                true
            },
            _ => true,
        }
    }
}

} // verus!
