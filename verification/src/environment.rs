use vstd::prelude::*;
use cpython::{GILGuard, PyObject};
use crate::error::GymError;
use crate::real_bits::{as_real_bits};
use crate::runtime::{as_bool, call_method, dict_set, get_attr, new_dict, sequence_items, uint_object};
use crate::space_data::{DataModel, SpaceData, data_views, encode_all, encode_model, encode_reals};
use crate::value::{Value, ValueModel, as_list, asks_nothing, buildable, value_views};
use crate::decode::{decode_model, decoded_fits, encoded_decodes, fits};
use crate::space_template::{SpaceTemplate, TemplateModel, well_formed};
use crate::spec::{Spec, spec_of};

verus! {

/// What a caller can submit to a step.
#[derive(Debug)]
pub enum Action {
    Discrete(i64),
    /// The numbers as bit patterns of IEEE-754 doubles, in flat order.
    Box(Vec<u64>),
    Tuple(Vec<SpaceData>),
}

/// What a step gives back.
#[derive(Debug)]
pub struct State {
    pub observation: SpaceData,
    /// The reward, as the bit pattern of an IEEE-754 double.
    pub reward: u64,
    pub is_done: bool,
    pub is_truncated: bool,
}

impl Action {
    /// The data that the action submits.
    pub open spec fn view(&self) -> DataModel {
        match self {
            Action::Discrete(n) => DataModel::Discrete(*n as int),
            Action::Box(bits) => DataModel::Box(bits@),
            Action::Tuple(parts) => DataModel::Tuple(data_views(*parts)),
        }
    }

    /// The runtime value that is submitted: the integer as it is, in range or
    /// not, one flat list of the numbers, or a tuple of the parts' values.
    /// Nothing is checked against the action space.
    pub fn into_value(&self) -> (v: Value)
        ensures
            v@ == encode_model(self@),
    {
        match self {
            Action::Discrete(n) => Value::Int(*n),
            Action::Box(bits) => Value::List(encode_reals(bits)),
            Action::Tuple(parts) => Value::Tuple(encode_all(parts)),
        }
    }

    /// Builds in the runtime the value that `into_value` gives, and from that
    /// value alone. An action whose value asks nothing that the runtime can
    /// refuse is always built; one that holds a `Dict` without one part for
    /// each name never is.
    pub fn into_pyo(&self, gil: &GILGuard) -> (r: Option<PyObject>)
        ensures
            asks_nothing(encode_model(self@)) ==> r is Some,
            r is Some ==> buildable(encode_model(self@)),
    {
        let value = self.into_value();
        value.into_pyo(gil)
    }
}

impl State {
    /// Puts a state together from what was decoded at the four positions of
    /// a step result: there is a state exactly when all four were decoded, and
    /// it then holds them as they are; else the result was wrong.
    pub fn from_parts(
        observation: Option<SpaceData>,
        reward: Option<u64>,
        is_done: Option<bool>,
        is_truncated: Option<bool>,
    ) -> (r: Result<State, GymError>)
        ensures
            r is Ok <==> observation is Some && reward is Some && is_done is Some
                && is_truncated is Some,
            r matches Ok(s) ==> observation == Some(s.observation) && reward == Some(s.reward)
                && is_done == Some(s.is_done) && is_truncated == Some(s.is_truncated),
            r matches Err(e) ==> e == GymError::WrongStepResult,
    {
        match (observation, reward, is_done, is_truncated) {
            (Some(observation), Some(reward), Some(is_done), Some(is_truncated)) => Ok(
                State { observation, reward, is_done, is_truncated },
            ),
            _ => Err(GymError::WrongStepResult),
        }
    }
}

/// Settles a call that is made for its effect alone: done where the runtime
/// returned from it, the given failure where it raised.
pub fn settle_call(outcome: Option<PyObject>, failure: GymError) -> (r: Result<(), GymError>)
    ensures
        outcome is Some ==> r is Ok,
        outcome is None ==> r == Err::<(), GymError>(failure),
{
    match outcome {
        Some(_) => Ok(()),
        None => Err(failure),
    }
}

/// Settles a reset from what was decoded of its result: the observation and
/// the untouched info where the result had two items and the first decoded,
/// else the result was wrong.
pub fn settle_reset(observation: Option<SpaceData>, info: Option<PyObject>) -> (r: Result<
    (SpaceData, PyObject),
    GymError,
>)
    ensures
        r is Ok <==> observation is Some && info is Some,
        r matches Ok(pair) ==> observation == Some(pair.0) && info == Some(pair.1),
        r matches Err(e) ==> e == GymError::WrongResetResult,
{
    match (observation, info) {
        (Some(observation), Some(info)) => Ok((observation, info)),
        _ => Err(GymError::WrongResetResult),
    }
}

/// The keyword arguments of a reset call: the seed under the name `seed`
/// where one is given, none where none is.
pub fn reset_keywords(seed: Option<u64>) -> (k: Vec<(String, u64)>)
    ensures
        seed is None ==> k.len() == 0,
        seed matches Some(s) ==> k.len() == 1 && k[0].0@ == "seed"@ && k[0].1 == s,
{
    let mut k: Vec<(String, u64)> = Vec::new();
    match seed {
        Some(s) => k.push(("seed".to_owned(), s)),
        None => {},
    }
    k
}

/// The reply to a reset is taken: a list or a tuple of exactly two items
/// whose first decodes against the space.
pub open spec fn reset_accepted(space: TemplateModel, reply: ValueModel) -> bool {
    as_list(reply) matches ValueModel::List(items) && items.len() == 2 && decode_model(
        space,
        items[0],
    ) is Some
}

/// The data is the observation of the reply to a reset: what the first of
/// its two items decodes to against the space.
pub open spec fn is_reset_observation(space: TemplateModel, reply: ValueModel, d: DataModel) -> bool {
    as_list(reply) matches ValueModel::List(items) && items.len() == 2 && decode_model(
        space,
        items[0],
    ) == Some(d)
}

/// The observation of the reply to a reset, where the reply is taken.
pub fn reset_observation(space: &SpaceTemplate, reply: &Value) -> (r: Option<SpaceData>)
    ensures
        r is Some <==> reset_accepted(space@, reply@),
        r matches Some(d) ==> is_reset_observation(space@, reply@, d@),
{
    let items = match reply {
        Value::List(items) => items,
        Value::Tuple(items) => items,
        _ => {
            return None;
        },
    };
    if items.len() != 2 {
        return None;
    }
    assert(value_views(*items)[0] == items[0]@);
    space.decode(&items[0])
}

/// The second of exactly two items, untouched; nothing where there are more
/// or fewer.
pub fn second_of(items: Vec<PyObject>) -> (r: Option<PyObject>)
    ensures
        r == if items.len() == 2 {
            Some(items[1])
        } else {
            None::<PyObject>
        },
{
    let mut items = items;
    if items.len() != 2 {
        None
    } else {
        items.pop()
    }
}

/// The reply to a step is taken: a list or a tuple of exactly four items,
/// the first of which decodes against the space, the second a real number,
/// the third and the fourth truth values.
pub open spec fn step_accepted(space: TemplateModel, reply: ValueModel) -> bool {
    as_list(reply) matches ValueModel::List(items) && items.len() == 4 && decode_model(
        space,
        items[0],
    ) is Some && items[1] is Real && items[2] is Bool && items[3] is Bool
}

/// The state is that of the reply to a step: the observation is what the
/// first item decodes to, the reward is the second item, the third says
/// whether the episode is done and the fourth whether it was cut off.
pub open spec fn is_step_state(space: TemplateModel, reply: ValueModel, s: State) -> bool {
    as_list(reply) matches ValueModel::List(items) && items.len() == 4 && decode_model(
        space,
        items[0],
    ) == Some(s.observation@) && items[1] == ValueModel::Real(s.reward) && items[2]
        == ValueModel::Bool(s.is_done) && items[3] == ValueModel::Bool(s.is_truncated)
}

/// The state of the reply to a step, where the reply is taken; else the
/// reply is a wrong step result.
pub fn step_state(space: &SpaceTemplate, reply: &Value) -> (r: Result<State, GymError>)
    ensures
        r is Ok <==> step_accepted(space@, reply@),
        r matches Ok(s) ==> is_step_state(space@, reply@, s),
        r matches Err(e) ==> e == GymError::WrongStepResult,
{
    let items = match reply {
        Value::List(items) => items,
        Value::Tuple(items) => items,
        _ => {
            return Err(GymError::WrongStepResult);
        },
    };
    if items.len() != 4 {
        return Err(GymError::WrongStepResult);
    }
    proof {
        let views = value_views(*items);
        assert(views[0] == items[0]@ && views[1] == items[1]@ && views[2] == items[2]@
            && views[3] == items[3]@);
    }
    let observation = space.decode(&items[0]);
    let reward = match &items[1] {
        Value::Real(bits) => Some(*bits),
        _ => None,
    };
    let is_done = match &items[2] {
        Value::Bool(b) => Some(*b),
        _ => None,
    };
    let is_truncated = match &items[3] {
        Value::Bool(b) => Some(*b),
        _ => None,
    };
    State::from_parts(observation, reward, is_done, is_truncated)
}

/// Echo: where the first item of the reply to a step is the value of data
/// that has the shape of the well-formed space, the observation of the state
/// is that data.
pub proof fn echoed_observation(space: TemplateModel, d: DataModel, reply: ValueModel, s: State)
    requires
        well_formed(space),
        fits(d, space),
        is_step_state(space, reply, s),
        as_list(reply)->List_0[0] == encode_model(d),
    ensures
        s.observation@ == d,
{
    encoded_decodes(space, d);
}

/// Where the first item of the reply to a reset is the value of data that
/// has the shape of the well-formed space, the observation is that data.
pub proof fn reset_observation_round_trip(
    space: TemplateModel,
    d: DataModel,
    reply: ValueModel,
    observed: DataModel,
)
    requires
        well_formed(space),
        fits(d, space),
        is_reset_observation(space, reply, observed),
        as_list(reply)->List_0[0] == encode_model(d),
    ensures
        observed == d,
{
    encoded_decodes(space, d);
}

/// What a step returns for what its call came to: an invalid action where
/// the runtime raised, else the state of the reply, or a wrong step result
/// where the reply is not taken.
pub open spec fn step_result(
    space: TemplateModel,
    outcome: Option<ValueModel>,
    r: Result<State, GymError>,
) -> bool {
    match outcome {
        None => r == Err::<State, GymError>(GymError::InvalidAction),
        Some(reply) => match r {
            Ok(s) => is_step_state(space, reply, s),
            Err(e) => e == GymError::WrongStepResult && !step_accepted(space, reply),
        },
    }
}

/// What a reset returns for what its call came to: a wrong reset result
/// where the runtime raised or the reply is not taken, else the observation of
/// the reply.
pub open spec fn reset_result(
    space: TemplateModel,
    outcome: Option<ValueModel>,
    r: Result<(SpaceData, PyObject), GymError>,
) -> bool {
    match r {
        Ok(pair) => outcome matches Some(reply) && is_reset_observation(space, reply, pair.0@),
        Err(e) => e == GymError::WrongResetResult && !(outcome matches Some(reply)
            && reset_accepted(space, reply)),
    }
}

/// One environment of the runtime, with the templates of its two spaces.
pub struct Environment<'a> {
    pub gil: &'a GILGuard,
    pub env: PyObject,
    pub observation_space: SpaceTemplate,
    pub action_space: SpaceTemplate,
}

impl<'a> Environment<'a> {
    /// The environment of a runtime object and the templates that were read
    /// of its two spaces: there is one exactly where both were read, and it
    /// holds each in its own place; else the first error, the observation
    /// space's before the action space's.
    pub fn with_spaces(
        gil: &'a GILGuard,
        env: PyObject,
        observation_space: Result<SpaceTemplate, GymError>,
        action_space: Result<SpaceTemplate, GymError>,
    ) -> (r: Result<Environment<'a>, GymError>)
        ensures
            r is Ok <==> observation_space is Ok && action_space is Ok,
            r matches Ok(e) ==> e.gil == gil && e.env == env && observation_space == Ok::<
                SpaceTemplate,
                GymError,
            >(e.observation_space) && action_space == Ok::<SpaceTemplate, GymError>(
                e.action_space,
            ),
            r matches Err(e) ==> if observation_space is Err {
                observation_space == Err::<SpaceTemplate, GymError>(e)
            } else {
                action_space == Err::<SpaceTemplate, GymError>(e)
            },
    {
        match observation_space {
            Ok(observation_space) => match action_space {
                Ok(action_space) => Ok(Environment { gil, env, observation_space, action_space }),
                Err(e) => Err(e),
            },
            Err(e) => Err(e),
        }
    }

    /// Starts a new episode, with the seed if one is given, and decodes the
    /// first observation; the info that came with it is handed on untouched.
    /// A seed that the runtime does not take as an option is an invalid seed;
    /// a call that fails, or returns anything but an observation of the
    /// space's shape and an info, is a wrong reset result.
    pub fn reset(&self, seed: Option<u64>) -> (r: Result<(SpaceData, PyObject), GymError>)
        ensures
            r matches Ok(pair) ==> fits(pair.0@, self.observation_space@),
            r == Err::<(SpaceData, PyObject), GymError>(GymError::InvalidSeed) && seed is Some
                || exists|outcome: Option<ValueModel>|
                reset_result(self.observation_space@, outcome, r),
    {
        let keywords = reset_keywords(seed);
        let dict = new_dict(self.gil);
        let mut i: usize = 0;
        while i < keywords.len()
            invariant
                i <= keywords.len(),
                keywords.len() > 0 ==> seed is Some,
            decreases keywords.len() - i,
        {
            let value = uint_object(self.gil, keywords[i].1);
            if !dict_set(self.gil, &dict, keywords[i].0.as_str(), &value) {
                return Err(GymError::InvalidSeed);
            }
            i += 1;
        }
        let args: Vec<PyObject> = Vec::new();
        let outcome = call_method(self.gil, &self.env, "reset", &args, Some(&dict));
        self.reset_outcome(outcome)
    }

    /// What a reset returns for the outcome of its call: a wrong reset result
    /// where the runtime raised, else what `decode_reset` makes of the reply.
    pub fn reset_outcome(&self, outcome: Option<PyObject>) -> (r: Result<
        (SpaceData, PyObject),
        GymError,
    >)
        ensures
            outcome is None ==> r == Err::<(SpaceData, PyObject), GymError>(
                GymError::WrongResetResult,
            ),
            r matches Ok(pair) ==> fits(pair.0@, self.observation_space@),
            exists|read: Option<ValueModel>| reset_result(self.observation_space@, read, r),
    {
        match outcome {
            Some(result) => {
                let r = self.decode_reset(&result);
                proof {
                    let reply = choose|reply: ValueModel|
                        reset_result(self.observation_space@, Some(reply), r);
                    assert(reset_result(self.observation_space@, Some(reply), r));
                }
                r
            },
            None => {
                let r = Err(GymError::WrongResetResult);
                assert(reset_result(self.observation_space@, None, r));
                r
            },
        }
    }

    /// Reads a reply to a reset as far as the library looks into it: the
    /// first item against the observation space, every other item opaque.
    pub fn read_reset_reply(&self, items: &Vec<PyObject>) -> (v: Value)
        ensures
            v matches Value::List(read) && read.len() == items.len(),
    {
        let mut read: Vec<Value> = Vec::new();
        let mut i: usize = 0;
        while i < items.len()
            invariant
                i <= items.len(),
                read.len() == i,
            decreases items.len() - i,
        {
            if i == 0 {
                read.push(self.observation_space.read_as(self.gil, &items[i]));
            } else {
                read.push(Value::Opaque);
            }
            i += 1;
        }
        Value::List(read)
    }

    /// Decodes what a reset call returned: a sequence of exactly two items,
    /// the observation and the info. The info is the second item itself.
    pub fn decode_reset(&self, result: &PyObject) -> (r: Result<(SpaceData, PyObject), GymError>)
        ensures
            r matches Ok(pair) ==> fits(pair.0@, self.observation_space@),
            exists|reply: ValueModel| reset_result(self.observation_space@, Some(reply), r),
    {
        let items = match sequence_items(self.gil, result) {
            Some(items) => items,
            None => {
                let r = Err(GymError::WrongResetResult);
                assert(reset_result(self.observation_space@, Some(ValueModel::Opaque), r));
                return r;
            },
        };
        let reply = self.read_reset_reply(&items);
        let observation = reset_observation(&self.observation_space, &reply);
        let info = second_of(items);
        let r = settle_reset(observation, info);
        proof {
            if observation is Some {
                decoded_fits(self.observation_space@, as_list(reply@)->List_0[0]);
            }
            assert(reset_result(self.observation_space@, Some(reply@), r));
        }
        r
    }

    /// Asks the environment to draw itself.
    pub fn render(&self) -> (r: Result<(), GymError>)
        ensures
            r matches Err(e) ==> e == GymError::RenderFailed,
    {
        let args: Vec<PyObject> = Vec::new();
        settle_call(call_method(self.gil, &self.env, "render", &args, None), GymError::RenderFailed)
    }

    /// Submits an action and decodes what came of it. What is submitted is
    /// the value that `Action::into_value` gives, built in the runtime. An
    /// action that cannot be built, or that the environment refuses, is an
    /// invalid action; a reply that is no observation of the space's shape,
    /// reward and two flags is a wrong step result. The action is not held
    /// against the action space here: that is the environment's part.
    pub fn step(&self, action: &Action) -> (r: Result<State, GymError>)
        ensures
            r matches Ok(s) ==> fits(s.observation@, self.observation_space@),
            !buildable(encode_model(action@)) ==> r == Err::<State, GymError>(
                GymError::InvalidAction,
            ),
            exists|outcome: Option<ValueModel>| step_result(self.observation_space@, outcome, r),
    {
        let value = action.into_value();
        let encoded = match value.into_pyo(self.gil) {
            Some(encoded) => encoded,
            None => {
                let r = Err(GymError::InvalidAction);
                assert(step_result(self.observation_space@, None, r));
                return r;
            },
        };
        let mut args: Vec<PyObject> = Vec::new();
        args.push(encoded);
        let outcome = call_method(self.gil, &self.env, "step", &args, None);
        self.step_outcome(outcome)
    }

    /// What a step returns for the outcome of its call: an invalid action
    /// where the runtime raised, else what `decode_step` makes of the reply.
    pub fn step_outcome(&self, outcome: Option<PyObject>) -> (r: Result<State, GymError>)
        ensures
            outcome is None ==> r == Err::<State, GymError>(GymError::InvalidAction),
            outcome is Some ==> exists|reply: ValueModel|
                step_result(self.observation_space@, Some(reply), r),
            r matches Ok(s) ==> fits(s.observation@, self.observation_space@),
            exists|read: Option<ValueModel>| step_result(self.observation_space@, read, r),
    {
        match outcome {
            Some(result) => {
                let r = self.decode_step(&result);
                proof {
                    let reply = choose|reply: ValueModel|
                        step_result(self.observation_space@, Some(reply), r);
                    assert(step_result(self.observation_space@, Some(reply), r));
                }
                r
            },
            None => {
                let r = Err(GymError::InvalidAction);
                assert(step_result(self.observation_space@, None, r));
                r
            },
        }
    }

    /// Reads a reply to a step as far as the library looks into it: the
    /// first item against the observation space, the second as a real number,
    /// the third and the fourth as truth values, every further item opaque;
    /// what is no sequence is opaque as a whole.
    pub fn read_step_reply(&self, result: &PyObject) -> (v: Value)
        ensures
            v is List || v is Opaque,
    {
        let items = match sequence_items(self.gil, result) {
            Some(items) => items,
            None => {
                return Value::Opaque;
            },
        };
        let mut read: Vec<Value> = Vec::new();
        let mut i: usize = 0;
        while i < items.len()
            invariant
                i <= items.len(),
                read.len() == i,
            decreases items.len() - i,
        {
            if i == 0 {
                read.push(self.observation_space.read_as(self.gil, &items[i]));
            } else if i == 1 {
                match as_real_bits(self.gil, &items[i]) {
                    Some(bits) => read.push(Value::Real(bits)),
                    None => read.push(Value::Opaque),
                }
            } else if i <= 3 {
                match as_bool(self.gil, &items[i]) {
                    Some(b) => read.push(Value::Bool(b)),
                    None => read.push(Value::Opaque),
                }
            } else {
                read.push(Value::Opaque);
            }
            i += 1;
        }
        Value::List(read)
    }

    /// Decodes what a step call returned: a sequence of exactly four items,
    /// the observation, the reward, and the two flags, in that order.
    pub fn decode_step(&self, result: &PyObject) -> (r: Result<State, GymError>)
        ensures
            r matches Ok(s) ==> fits(s.observation@, self.observation_space@),
            exists|reply: ValueModel| step_result(self.observation_space@, Some(reply), r),
    {
        let reply = self.read_step_reply(result);
        let r = step_state(&self.observation_space, &reply);
        proof {
            if r is Ok {
                decoded_fits(self.observation_space@, as_list(reply@)->List_0[0]);
            }
            assert(step_result(self.observation_space@, Some(reply@), r));
        }
        r
    }

    /// Releases the environment in the runtime.
    pub fn close(&self) -> (r: Result<(), GymError>)
        ensures
            r matches Err(e) ==> e == GymError::CloseFailed,
    {
        let args: Vec<PyObject> = Vec::new();
        settle_call(call_method(self.gil, &self.env, "close", &args, None), GymError::CloseFailed)
    }

    /// The template of the actions that the environment takes.
    pub fn action_space(&self) -> (t: &SpaceTemplate)
        ensures
            *t == self.action_space,
    {
        &self.action_space
    }

    /// The template of the observations that the environment gives.
    pub fn observation_space(&self) -> (t: &SpaceTemplate)
        ensures
            *t == self.observation_space,
    {
        &self.observation_space
    }

    /// What the environment says of itself, where it says both things.
    pub fn spec(&self) -> (r: Option<Spec>)
        ensures
            exists|threshold: Option<u64>, steps: Option<i64>| r == spec_of(threshold, steps),
    {
        match get_attr(self.gil, &self.env, "spec") {
            Some(pyo) => Spec::extract_data(self.gil, &pyo),
            None => {
                assert(spec_of(None, None) is None);
                None
            },
        }
    }
}

} // verus!
