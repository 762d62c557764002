use vstd::prelude::*;
use cpython::{GILGuard, PyObject};
use crate::real_bits::{as_real_bits};
use crate::runtime::{as_int, get_attr};

verus! {

/// What an environment says of itself.
#[derive(Debug)]
pub struct Spec {
    /// The reward at which the task counts as solved, as the bit pattern of
    /// an IEEE-754 double.
    pub reward_threshold: u64,
    /// The number of steps after which an episode is cut off.
    pub max_episode_steps: i32,
}

/// The record of what was read of its two attributes: there is one exactly
/// where both were read and the step count fits in 32 bits, and it holds both
/// as they were read.
pub open spec fn spec_of(threshold: Option<u64>, steps: Option<i64>) -> Option<Spec> {
    match (threshold, steps) {
        (Some(t), Some(n)) => if i32::MIN <= n <= i32::MAX {
            Some(Spec { reward_threshold: t, max_episode_steps: n as i32 })
        } else {
            None
        },
        _ => None,
    }
}

impl Spec {
    /// Puts the record together from what was read of its two attributes:
    /// there is a record exactly when both were read and the step count fits
    /// in 32 bits, and it then holds both as they were read.
    pub fn from_parts(threshold: Option<u64>, steps: Option<i64>) -> (r: Option<Spec>)
        ensures
            r is Some <==> threshold is Some && steps is Some && i32::MIN <= steps->Some_0
                <= i32::MAX,
            r matches Some(s) ==> threshold == Some(s.reward_threshold) && steps == Some(
                s.max_episode_steps as i64,
            ),
            r == spec_of(threshold, steps),
    {
        match (threshold, steps) {
            (Some(t), Some(n)) => {
                if n < -2147483648 || n > 2147483647 {
                    None
                } else {
                    Some(Spec { reward_threshold: t, max_episode_steps: n as i32 })
                }
            },
            _ => None,
        }
    }

    /// Reads the attributes `reward_threshold` and `max_episode_steps` of an
    /// environment's metadata object. Nothing comes back where one of them is
    /// missing or is not a number of its kind.
    pub fn extract_data(gil: &GILGuard, pyo: &PyObject) -> (r: Option<Spec>)
        ensures
            exists|threshold: Option<u64>, steps: Option<i64>| r == spec_of(threshold, steps),
    {
        let threshold = match get_attr(gil, pyo, "reward_threshold") {
            Some(attr) => as_real_bits(gil, &attr),
            None => None,
        };
        let steps = match get_attr(gil, pyo, "max_episode_steps") {
            Some(attr) => as_int(gil, &attr),
            None => None,
        };
        let r = Spec::from_parts(threshold, steps);
        assert(r == spec_of(threshold, steps));
        r
    }
}

} // verus!
