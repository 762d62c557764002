use cpython::{GILGuard, ObjectProtocol, PyDict, PyModule, PyObject, Python};
use gym_client::client::{made_or_invalid, space_of, GymClient, MakeOptions, RenderMode};
use gym_client::value::{build_all, Value};
use gym_client::environment::{second_of, settle_call, settle_reset, Environment};
use gym_client::error::GymError;
use gym_client::space_data::SpaceData;
use gym_client::descriptor::{read_flat_reals, read_ints, NESTING_LIMIT};
use gym_client::real_bits::{as_real_bits, real_object, repack};
use gym_client::space_template::SpaceTemplate;
use gym_client::spec::Spec;
use gym_client::{Action, State};
use std::collections::BTreeSet;

const WORLD: &str = "
import types

class Arr(list):
    def flatten(self):
        return Arr(self)

class Discrete:
    def __init__(self, n):
        self.n = n

class Box:
    def __init__(self, low, high, shape):
        self.low = Arr(low)
        self.high = Arr(high)
        self.shape = shape

class Tuple:
    def __init__(self, spaces):
        self.spaces = spaces

class Dict:
    def __init__(self, spaces):
        self.spaces = spaces

class MultiDiscrete:
    def __init__(self, nvec):
        self.nvec = nvec

class MultiBinary:
    def __init__(self, n):
        self.n = n

class Graph:
    pass

class Env:
    def __init__(self, render_mode=None):
        self.observation_space = Box([-1.0] * 4, [1.0] * 4, (4,))
        self.action_space = Discrete(2)
        self.render_mode = render_mode
        self.spec = types.SimpleNamespace(reward_threshold=195.0, max_episode_steps=200)
        self.seen = []
        self.closed = False

    def reset(self, seed=None):
        self.seen.append(('reset', seed))
        return ([0.1, 0.2, 0.3, 0.4], {'seed': seed})

    def step(self, action):
        if action not in (0, 1):
            raise ValueError('out of range')
        self.seen.append(('step', action))
        return ([0.5, 0.25, -0.5, 1.0], 1.5, action == 1, False)

    def render(self):
        return None

    def close(self):
        self.closed = True

class ShortEnv(Env):
    def reset(self, seed=None):
        return ([0.1, 0.2, 0.3, 0.4],)

    def step(self, action):
        return ([0.5, 0.25, -0.5, 1.0], 1.5, True)

class EchoEnv(Env):
    def reset(self, seed=None):
        return ((2, [0.5, 1.5]), {'kept': object})

    def step(self, action):
        self.seen.append(action)
        return (action, 0.0, False, False)

class BrokenEnv(Env):
    def render(self):
        raise RuntimeError('no display')

    def close(self):
        raise RuntimeError('gone')

def make(env_id, **kwargs):
    if env_id == 'Fake-v0':
        return Env(**kwargs)
    if env_id == 'Odd-v0':
        e = Env(**kwargs)
        e.action_space = Graph()
        return e
    raise KeyError(env_id)

envs = types.SimpleNamespace(registry={'Fake-v0': 1, 'Odd-v0': 2, 'Other-v3': 3})
";

fn world(py: Python) -> PyDict {
    let g = PyDict::new(py);
    py.run(WORLD, Some(&g), None).unwrap();
    g
}

fn eval(py: Python, g: &PyDict, code: &str) -> PyObject {
    py.eval(code, Some(g), None).unwrap()
}

fn bits(xs: &[f64]) -> Vec<u64> {
    xs.iter().map(|x| x.to_bits()).collect()
}

fn box4() -> SpaceTemplate {
    SpaceTemplate::Box { low: bits(&[-1.0; 4]), high: bits(&[1.0; 4]), shape: vec![4] }
}

fn environment<'a>(gil: &'a GILGuard, g: &PyDict, code: &str) -> Environment<'a> {
    Environment {
        gil,
        env: eval(gil.python(), g, code),
        observation_space: box4(),
        action_space: SpaceTemplate::Discrete { n: 2 },
    }
}

fn client(g: &PyDict) -> GymClient {
    let gil = Python::acquire_gil();
    let gym = {
        let py = gil.python();
        let gym = PyModule::new(py, "fakegym").unwrap();
        gym.add(py, "make", g.get_item(py, "make").unwrap()).unwrap();
        gym.add(py, "envs", g.get_item(py, "envs").unwrap()).unwrap();
        gym
    };
    GymClient { gil, gym, version: "1.0.0".to_string() }
}

#[test]
fn reset_with_observation_and_info_succeeds() {
    let gil = Python::acquire_gil();
    let py = gil.python();
    let g = world(py);
    let env = environment(&gil, &g, "Env()");
    let (observation, info) = env.reset(None).unwrap();
    match observation {
        SpaceData::Box(b) => assert_eq!(b, bits(&[0.1, 0.2, 0.3, 0.4])),
        other => panic!("unexpected: {:?}", other),
    }
    assert!(info.get_item(py, "seed").unwrap().is_none(py));
}

#[test]
fn reset_hands_the_seed_on() {
    let gil = Python::acquire_gil();
    let py = gil.python();
    let g = world(py);
    let env = environment(&gil, &g, "Env()");
    let (_, info) = env.reset(Some(18446744073709551615)).unwrap();
    assert_eq!(info.get_item(py, "seed").unwrap().extract::<u64>(py).unwrap(), u64::MAX);
}

#[test]
fn reset_with_observation_alone_is_wrong() {
    let gil = Python::acquire_gil();
    let py = gil.python();
    let g = world(py);
    let env = environment(&gil, &g, "ShortEnv()");
    assert!(matches!(env.reset(None), Err(GymError::WrongResetResult)));
}

#[test]
fn decode_reset_wants_two_items_and_a_fitting_observation() {
    let gil = Python::acquire_gil();
    let py = gil.python();
    let g = world(py);
    let env = environment(&gil, &g, "None");
    assert!(env.decode_reset(&eval(py, &g, "([1.0, 2.0, 3.0, 4.0], 'info')")).is_ok());
    assert!(matches!(env.decode_reset(&eval(py, &g, "([1.0, 2.0, 3.0], {})")), Err(GymError::WrongResetResult)));
    assert!(matches!(env.decode_reset(&eval(py, &g, "([1.0, 2.0, 3.0, 'x'], {})")), Err(GymError::WrongResetResult)));
    assert!(matches!(env.decode_reset(&eval(py, &g, "([1.0, 2.0, 3.0, 4.0], {}, 0)")), Err(GymError::WrongResetResult)));
    assert!(matches!(env.decode_reset(&eval(py, &g, "7")), Err(GymError::WrongResetResult)));
}

#[test]
fn settle_reset_keeps_both_parts() {
    let gil = Python::acquire_gil();
    let py = gil.python();
    let g = world(py);
    let (d, info) = settle_reset(Some(SpaceData::Discrete(3)), Some(eval(py, &g, "41"))).unwrap();
    assert!(matches!(d, SpaceData::Discrete(3)));
    assert_eq!(info.extract::<i64>(py).unwrap(), 41);
    assert!(matches!(settle_reset(None, Some(eval(py, &g, "41"))), Err(GymError::WrongResetResult)));
    assert!(matches!(settle_reset(Some(SpaceData::Discrete(3)), None), Err(GymError::WrongResetResult)));
}

#[test]
fn step_decodes_all_four_positions() {
    let gil = Python::acquire_gil();
    let py = gil.python();
    let g = world(py);
    let env = environment(&gil, &g, "Env()");
    let s: State = env.step(&Action::Discrete(1)).unwrap();
    match s.observation {
        SpaceData::Box(b) => assert_eq!(b, bits(&[0.5, 0.25, -0.5, 1.0])),
        other => panic!("unexpected: {:?}", other),
    }
    assert_eq!(f64::from_bits(s.reward), 1.5);
    assert!(s.is_done);
    assert!(!s.is_truncated);
    let s = env.step(&Action::Discrete(0)).unwrap();
    assert!(!s.is_done);
    let seen = env.env.getattr(py, "seen").unwrap();
    assert_eq!(seen.len(py).unwrap(), 2);
    assert_eq!(seen.get_item(py, 0).unwrap().get_item(py, 1).unwrap().extract::<i64>(py).unwrap(), 1);
}

#[test]
fn step_that_the_runtime_rejects_is_an_invalid_action() {
    let gil = Python::acquire_gil();
    let py = gil.python();
    let g = world(py);
    let env = environment(&gil, &g, "Env()");
    assert!(env.step(&Action::Discrete(1)).is_ok());
    assert!(matches!(env.step(&Action::Discrete(2)), Err(GymError::InvalidAction)));
    assert!(matches!(env.step(&Action::Box(bits(&[0.5]))), Err(GymError::InvalidAction)));
}

#[test]
fn step_with_three_items_is_wrong() {
    let gil = Python::acquire_gil();
    let py = gil.python();
    let g = world(py);
    let env = environment(&gil, &g, "ShortEnv()");
    assert!(matches!(env.step(&Action::Discrete(1)), Err(GymError::WrongStepResult)));
}

#[test]
fn decode_step_checks_each_position() {
    let gil = Python::acquire_gil();
    let py = gil.python();
    let g = world(py);
    let env = environment(&gil, &g, "None");
    let ok = env.decode_step(&eval(py, &g, "([1.0, 2.0, 3.0, 4.0], 2, False, True)")).unwrap();
    assert_eq!(f64::from_bits(ok.reward), 2.0);
    assert!(!ok.is_done);
    assert!(ok.is_truncated);
    for bad in [
        "([1.0, 2.0, 3.0], 2.0, False, True)",
        "([1.0, 2.0, 3.0, 4.0], 'r', False, True)",
        "([1.0, 2.0, 3.0, 4.0], 2.0, 0, True)",
        "([1.0, 2.0, 3.0, 4.0], 2.0, False, None)",
        "([1.0, 2.0, 3.0, 4.0], 2.0, False)",
        "([1.0, 2.0, 3.0, 4.0], 2.0, False, True, {})",
        "None",
    ] {
        assert!(matches!(env.decode_step(&eval(py, &g, bad)), Err(GymError::WrongStepResult)), "{}", bad);
    }
}

#[test]
fn actions_arrive_in_the_runtime_as_they_are() {
    let gil = Python::acquire_gil();
    let py = gil.python();
    let g = world(py);
    let _ = g;
    let a = Action::Discrete(-3).into_pyo(&gil).unwrap();
    assert_eq!(a.extract::<i64>(py).unwrap(), -3);
    let a = Action::Box(bits(&[0.1, -0.2, 0.9])).into_pyo(&gil).unwrap();
    assert_eq!(a.get_type(py).name(py), "list");
    assert_eq!(a.extract::<Vec<f64>>(py).unwrap(), vec![0.1, -0.2, 0.9]);
    let a = Action::Tuple(vec![SpaceData::Discrete(1), SpaceData::Box(bits(&[2.5]))]).into_pyo(&gil).unwrap();
    assert_eq!(a.get_type(py).name(py), "tuple");
    assert_eq!(a.get_item(py, 0).unwrap().extract::<i64>(py).unwrap(), 1);
    assert_eq!(a.get_item(py, 1).unwrap().extract::<Vec<f64>>(py).unwrap(), vec![2.5]);
}

#[test]
fn data_round_trips_through_the_runtime() {
    let gil = Python::acquire_gil();
    let py = gil.python();
    let t = SpaceTemplate::Dict {
        keys: vec!["pos".to_string(), "pair".to_string()],
        parts: vec![
            SpaceTemplate::Box { low: bits(&[0.0; 3]), high: bits(&[1.0; 3]), shape: vec![3] },
            SpaceTemplate::Tuple { parts: vec![SpaceTemplate::Discrete { n: 5 }, SpaceTemplate::Discrete { n: 5 }] },
        ],
    };
    let d = SpaceData::Dict(
        vec!["pos".to_string(), "pair".to_string()],
        vec![
            SpaceData::Box(bits(&[0.1, -0.2, 0.9])),
            SpaceData::Tuple(vec![SpaceData::Discrete(4), SpaceData::Discrete(0)]),
        ],
    );
    let obj = d.into_pyo(&gil).unwrap();
    assert_eq!(obj.get_type(py).name(py), "dict");
    match t.extract_data(&gil, &obj) {
        Some(SpaceData::Dict(keys, parts)) => {
            assert_eq!(keys, vec!["pos".to_string(), "pair".to_string()]);
            match &parts[0] {
                SpaceData::Box(b) => assert_eq!(*b, bits(&[0.1, -0.2, 0.9])),
                other => panic!("unexpected: {:?}", other),
            }
            match &parts[1] {
                SpaceData::Tuple(items) => {
                    assert!(matches!(items[0], SpaceData::Discrete(4)));
                    assert!(matches!(items[1], SpaceData::Discrete(0)));
                },
                other => panic!("unexpected: {:?}", other),
            }
        },
        other => panic!("unexpected: {:?}", other),
    }
}

#[test]
fn extract_data_takes_integers_as_reals_and_refuses_texts() {
    let gil = Python::acquire_gil();
    let py = gil.python();
    let g = world(py);
    match box4().extract_data(&gil, &eval(py, &g, "[1, 2.5, -3, 0]")) {
        Some(SpaceData::Box(b)) => assert_eq!(b, bits(&[1.0, 2.5, -3.0, 0.0])),
        other => panic!("unexpected: {:?}", other),
    }
    assert!(box4().extract_data(&gil, &eval(py, &g, "[1.0, 'a', 2.0, 3.0]")).is_none());
    assert!(box4().extract_data(&gil, &eval(py, &g, "[1.0, 2.0, 3.0]")).is_none());
    let t = SpaceTemplate::Discrete { n: 5 };
    assert!(matches!(t.extract_data(&gil, &eval(py, &g, "5")), Some(SpaceData::Discrete(5))));
    assert!(matches!(t.extract_data(&gil, &eval(py, &g, "-1")), Some(SpaceData::Discrete(-1))));
    assert!(t.extract_data(&gil, &eval(py, &g, "2.5")).is_none());
}

#[test]
fn templates_are_read_by_class_name() {
    let gil = Python::acquire_gil();
    let py = gil.python();
    let g = world(py);
    let t = SpaceTemplate::extract_template(&gil, &eval(py, &g, "Discrete(5)")).unwrap();
    assert!(matches!(t, SpaceTemplate::Discrete { n: 5 }));
    for k in 0..5 {
        assert!(t.extract_data(&gil, &eval(py, &g, &format!("{}", k))).is_some());
    }
    match SpaceTemplate::extract_template(&gil, &eval(py, &g, "Box([0.0, -1.5], [1.0, 1.5], (2,))")).unwrap() {
        SpaceTemplate::Box { low, high, shape } => {
            assert_eq!(low, bits(&[0.0, -1.5]));
            assert_eq!(high, bits(&[1.0, 1.5]));
            assert_eq!(shape, vec![2usize]);
        },
        other => panic!("unexpected: {:?}", other),
    }
    match SpaceTemplate::extract_template(&gil, &eval(py, &g, "Tuple((Discrete(2), MultiBinary(3)))")).unwrap() {
        SpaceTemplate::Tuple { parts } => {
            assert!(matches!(parts[0], SpaceTemplate::Discrete { n: 2 }));
            assert!(matches!(parts[1], SpaceTemplate::MultiBinary { n: 3 }));
        },
        other => panic!("unexpected: {:?}", other),
    }
    match SpaceTemplate::extract_template(&gil, &eval(py, &g, "Dict({'b': Discrete(2), 'a': MultiDiscrete([3, 4])})")).unwrap() {
        SpaceTemplate::Dict { keys, parts } => {
            assert_eq!(keys, vec!["b".to_string(), "a".to_string()]);
            assert!(matches!(parts[0], SpaceTemplate::Discrete { n: 2 }));
            match &parts[1] {
                SpaceTemplate::MultiDiscrete { dims } => assert_eq!(*dims, vec![3i64, 4]),
                other => panic!("unexpected: {:?}", other),
            }
        },
        other => panic!("unexpected: {:?}", other),
    }
}

#[test]
fn unknown_or_broken_descriptors_are_unsupported() {
    let gil = Python::acquire_gil();
    let py = gil.python();
    let g = world(py);
    match SpaceTemplate::extract_template(&gil, &eval(py, &g, "Graph()")) {
        Err(GymError::UnsupportedSpaceKind(name)) => assert_eq!(name, "Graph"),
        other => panic!("unexpected: {:?}", other),
    }
    match SpaceTemplate::extract_template(&gil, &eval(py, &g, "Discrete('five')")) {
        Err(GymError::UnsupportedSpaceKind(name)) => assert_eq!(name, "Discrete"),
        other => panic!("unexpected: {:?}", other),
    }
    match SpaceTemplate::extract_template(&gil, &eval(py, &g, "Tuple((Discrete(2), Graph()))")) {
        Err(GymError::UnsupportedSpaceKind(name)) => assert_eq!(name, "Graph"),
        other => panic!("unexpected: {:?}", other),
    }
    match SpaceTemplate::extract_template(&gil, &eval(py, &g, "Box([0.0, 0.0], [1.0, 1.0], (3,))")) {
        Err(GymError::UnsupportedSpaceKind(name)) => assert_eq!(name, "Box"),
        other => panic!("unexpected: {:?}", other),
    }
    match SpaceTemplate::extract_template(&gil, &eval(py, &g, "Tuple(())")) {
        Err(GymError::UnsupportedSpaceKind(name)) => assert_eq!(name, "Tuple"),
        other => panic!("unexpected: {:?}", other),
    }
    assert!(SpaceTemplate::extract_nested(&gil, &eval(py, &g, "Tuple((Discrete(2),))"), 0).is_err());
    assert!(SpaceTemplate::extract_nested(&gil, &eval(py, &g, "Tuple((Discrete(2),))"), 1).is_ok());
    assert_eq!(NESTING_LIMIT, 64);
}

#[test]
fn render_and_close_report_failure() {
    let gil = Python::acquire_gil();
    let py = gil.python();
    let g = world(py);
    let env = environment(&gil, &g, "Env()");
    assert!(env.render().is_ok());
    assert!(env.close().is_ok());
    assert!(env.env.getattr(py, "closed").unwrap().extract::<bool>(py).unwrap());
    let env = environment(&gil, &g, "BrokenEnv()");
    assert!(matches!(env.render(), Err(GymError::RenderFailed)));
    assert!(matches!(env.close(), Err(GymError::CloseFailed)));
}

#[test]
fn spec_is_read_from_the_environment() {
    let gil = Python::acquire_gil();
    let py = gil.python();
    let g = world(py);
    let env = environment(&gil, &g, "Env()");
    let s = env.spec().unwrap();
    assert_eq!(f64::from_bits(s.reward_threshold), 195.0);
    assert_eq!(s.max_episode_steps, 200);
    assert!(Spec::extract_data(&gil, &eval(py, &g, "types.SimpleNamespace(reward_threshold=None, max_episode_steps=200)")).is_none());
    assert!(Spec::extract_data(&gil, &eval(py, &g, "types.SimpleNamespace(reward_threshold=1.0)")).is_none());
    assert!(matches!(env.action_space(), SpaceTemplate::Discrete { n: 2 }));
    assert!(matches!(env.observation_space(), SpaceTemplate::Box { .. }));
}

#[test]
fn list_all_twice_gives_the_same_set() {
    let g = {
        let gil = Python::acquire_gil();
        world(gil.python())
    };
    let c = client(&g);
    let first: BTreeSet<String> = c.list_all().unwrap().into_iter().collect();
    let second: BTreeSet<String> = c.list_all().unwrap().into_iter().collect();
    assert_eq!(first, second);
    let expected: BTreeSet<String> = ["Fake-v0", "Odd-v0", "Other-v3"].iter().map(|s| s.to_string()).collect();
    assert_eq!(first, expected);
    assert_eq!(c.version(), "1.0.0");
}

#[test]
fn make_builds_an_environment_with_its_templates() {
    let g = {
        let gil = Python::acquire_gil();
        world(gil.python())
    };
    let c = client(&g);
    let py = c.gil.python();
    let env = c.make("Fake-v0", Some(MakeOptions { render_mode: Some(RenderMode::Custom("Ansi ".to_string())) })).unwrap();
    assert_eq!(env.env.getattr(py, "render_mode").unwrap().extract::<String>(py).unwrap(), "Ansi ");
    assert!(matches!(env.action_space(), SpaceTemplate::Discrete { n: 2 }));
    match env.observation_space() {
        SpaceTemplate::Box { low, high, shape } => {
            assert_eq!(*low, bits(&[-1.0; 4]));
            assert_eq!(*high, bits(&[1.0; 4]));
            assert_eq!(*shape, vec![4usize]);
        },
        other => panic!("unexpected: {:?}", other),
    }
    let (observation, _) = env.reset(Some(7)).unwrap();
    assert!(matches!(observation, SpaceData::Box(_)));
    let env = c.make("Fake-v0", None).unwrap();
    assert!(env.env.getattr(py, "render_mode").unwrap().is_none(py));
    let env = c.make("Fake-v0", Some(MakeOptions { render_mode: Some(RenderMode::RgbArray) })).unwrap();
    assert_eq!(env.env.getattr(py, "render_mode").unwrap().extract::<String>(py).unwrap(), "rgb_array");
}

#[test]
fn make_reports_the_identifier_and_the_options() {
    let g = {
        let gil = Python::acquire_gil();
        world(gil.python())
    };
    let c = client(&g);
    match c.make("Missing-v0", Some(MakeOptions { render_mode: Some(RenderMode::Human) })) {
        Err(GymError::InvalidMake(id, options, _)) => {
            assert_eq!(id, "Missing-v0");
            assert_eq!(options, vec![("render_mode".to_string(), "human".to_string())]);
        },
        Err(other) => panic!("unexpected: {:?}", other),
        Ok(_) => panic!("made an environment"),
    }
    match c.make("Odd-v0", None) {
        Err(GymError::UnsupportedSpaceKind(name)) => assert_eq!(name, "Graph"),
        Err(other) => panic!("unexpected: {:?}", other),
        Ok(_) => panic!("made an environment"),
    }
}

#[test]
fn a_session_without_the_package_fails_cleanly() {
    match GymClient::new(Some("/nonexistent/site-packages")) {
        Ok(c) => assert!(!c.version().is_empty()),
        Err(e) => assert!(matches!(e, GymError::SessionBootstrapFailed)),
    }
}

#[test]
fn reals_cross_as_their_bit_patterns() {
    let gil = Python::acquire_gil();
    let py = gil.python();
    let g = world(py);
    for x in [0.0f64, -0.0, 1.5, -0.2, f64::MAX, f64::MIN_POSITIVE, f64::INFINITY, f64::NEG_INFINITY] {
        let obj = real_object(&gil, x.to_bits()).unwrap();
        assert_eq!(obj.get_type(py).name(py), "float");
        assert_eq!(obj.extract::<f64>(py).unwrap().to_bits(), x.to_bits());
        assert_eq!(as_real_bits(&gil, &obj), Some(x.to_bits()));
    }
    assert_eq!(as_real_bits(&gil, &eval(py, &g, "2.5")), Some(2.5f64.to_bits()));
    assert_eq!(as_real_bits(&gil, &eval(py, &g, "3")), Some(3.0f64.to_bits()));
    assert_eq!(as_real_bits(&gil, &eval(py, &g, "'x'")), None);
    assert_eq!(as_real_bits(&gil, &eval(py, &g, "None")), None);
    assert!(f64::from_bits(as_real_bits(&gil, &eval(py, &g, "float('nan')")).unwrap()).is_nan());
    let one = repack(&gil, ">q", eval(py, &g, "-1"), ">Q").unwrap();
    assert_eq!(one.extract::<u64>(py).unwrap(), u64::MAX);
    assert!(repack(&gil, ">q", eval(py, &g, "'x'"), ">Q").is_none());
}

#[test]
fn descriptor_parts_are_read_in_order() {
    let gil = Python::acquire_gil();
    let py = gil.python();
    let g = world(py);
    assert_eq!(read_ints(&gil, &eval(py, &g, "(3, -4, 5)")), Some(vec![3i64, -4, 5]));
    assert_eq!(read_ints(&gil, &eval(py, &g, "(3, 'x')")), None);
    assert_eq!(read_ints(&gil, &eval(py, &g, "7")), None);
    assert_eq!(read_flat_reals(&gil, &eval(py, &g, "Arr([0.5, 2])")), Some(vec![0.5f64.to_bits(), 2.0f64.to_bits()]));
    assert_eq!(read_flat_reals(&gil, &eval(py, &g, "[0.5, 2]")), None);
    assert!(SpaceTemplate::extract_box(&gil, &eval(py, &g, "Box([0.0], [1.0], (1,))")).is_some());
    assert!(SpaceTemplate::extract_box(&gil, &eval(py, &g, "Box([0.0], [1.0], (-1,))")).is_none());
    assert!(SpaceTemplate::extract_box(&gil, &eval(py, &g, "Discrete(2)")).is_none());
}

#[test]
fn effect_calls_settle_by_their_outcome() {
    let gil = Python::acquire_gil();
    let py = gil.python();
    let g = world(py);
    assert!(settle_call(Some(eval(py, &g, "None")), GymError::RenderFailed).is_ok());
    assert!(matches!(settle_call(None, GymError::RenderFailed), Err(GymError::RenderFailed)));
    assert!(matches!(settle_call(None, GymError::CloseFailed), Err(GymError::CloseFailed)));
}

#[test]
fn a_session_needs_the_package_and_its_version() {
    let module = || {
        let gil = Python::acquire_gil();
        PyModule::new(gil.python(), "fakegym").unwrap()
    };
    let c = GymClient::open_with(Python::acquire_gil(), Some(module()), Some("0.29.1".to_string())).unwrap();
    assert_eq!(c.version(), "0.29.1");
    assert_eq!(c.gym.name(c.gil.python()).unwrap(), "fakegym");
    assert!(matches!(
        GymClient::open_with(Python::acquire_gil(), None, Some("0.29.1".to_string())),
        Err(GymError::SessionBootstrapFailed)
    ));
    assert!(matches!(
        GymClient::open_with(Python::acquire_gil(), Some(module()), None),
        Err(GymError::SessionBootstrapFailed)
    ));
}

#[test]
fn data_without_numbers_is_always_built() {
    let gil = Python::acquire_gil();
    let py = gil.python();
    let d = SpaceData::Tuple(vec![
        SpaceData::Discrete(3),
        SpaceData::Box(Vec::new()),
        SpaceData::Tuple(vec![SpaceData::Discrete(-1)]),
        SpaceData::Dict(Vec::new(), Vec::new()),
    ]);
    let obj = d.into_pyo(&gil).unwrap();
    assert_eq!(obj.len(py).unwrap(), 4);
    assert_eq!(obj.get_item(py, 0).unwrap().extract::<i64>(py).unwrap(), 3);
    assert_eq!(obj.get_item(py, 1).unwrap().len(py).unwrap(), 0);
    assert_eq!(obj.get_item(py, 2).unwrap().get_item(py, 0).unwrap().extract::<i64>(py).unwrap(), -1);
    assert_eq!(obj.get_item(py, 3).unwrap().get_type(py).name(py), "dict");
    assert!(Action::Box(Vec::new()).into_pyo(&gil).is_some());
    assert!(Action::Tuple(vec![SpaceData::Discrete(2)]).into_pyo(&gil).is_some());
    assert!(SpaceData::Dict(vec!["a".to_string()], Vec::new()).into_pyo(&gil).is_none());
}

#[test]
fn deep_nesting_is_refused_at_the_limit() {
    let gil = Python::acquire_gil();
    let py = gil.python();
    let g = world(py);
    py.run("def nest(k):\n    s = Discrete(2)\n    for _ in range(k):\n        s = Tuple((s,))\n    return s\n", Some(&g), None).unwrap();
    assert!(SpaceTemplate::extract_template(&gil, &eval(py, &g, "nest(64)")).is_ok());
    match SpaceTemplate::extract_template(&gil, &eval(py, &g, "nest(65)")) {
        Err(GymError::UnsupportedSpaceKind(name)) => assert_eq!(name, "Tuple"),
        other => panic!("unexpected: {:?}", other),
    }
    assert!(SpaceTemplate::extract_nested(&gil, &eval(py, &g, "nest(2)"), 2).is_ok());
    assert!(SpaceTemplate::extract_nested(&gil, &eval(py, &g, "nest(2)"), 1).is_err());
    assert!(SpaceTemplate::extract_nested(&gil, &eval(py, &g, "Discrete(2)"), 0).is_ok());
}

#[test]
fn an_echoed_box_action_comes_back_as_it_went() {
    let gil = Python::acquire_gil();
    let py = gil.python();
    let g = world(py);
    let space = || SpaceTemplate::Box { low: bits(&[-1.0; 3]), high: bits(&[1.0; 3]), shape: vec![3] };
    let env = Environment { gil: &gil, env: eval(py, &g, "EchoEnv()"), observation_space: space(), action_space: space() };
    let s = env.step(&Action::Box(bits(&[0.1, -0.2, 0.9]))).unwrap();
    match s.observation {
        SpaceData::Box(b) => assert_eq!(b, bits(&[0.1, -0.2, 0.9])),
        other => panic!("unexpected: {:?}", other),
    }
    assert_eq!(f64::from_bits(s.reward), 0.0);
    assert!(!s.is_done && !s.is_truncated);
    let sent = env.env.getattr(py, "seen").unwrap().get_item(py, 0).unwrap();
    assert_eq!(sent.get_type(py).name(py), "list");
    assert_eq!(sent.extract::<Vec<f64>>(py).unwrap(), vec![0.1, -0.2, 0.9]);
}

#[test]
fn a_tuple_observation_is_decoded_part_by_part() {
    let gil = Python::acquire_gil();
    let py = gil.python();
    let g = world(py);
    let space = SpaceTemplate::Tuple { parts: vec![
        SpaceTemplate::Discrete { n: 3 },
        SpaceTemplate::Box { low: bits(&[0.0, 0.0]), high: bits(&[2.0, 2.0]), shape: vec![2] },
    ] };
    let env = Environment { gil: &gil, env: eval(py, &g, "EchoEnv()"), observation_space: space, action_space: SpaceTemplate::Discrete { n: 2 } };
    let (observation, info) = env.reset(None).unwrap();
    match observation {
        SpaceData::Tuple(parts) => {
            assert_eq!(parts.len(), 2);
            assert!(matches!(parts[0], SpaceData::Discrete(2)));
            match &parts[1] {
                SpaceData::Box(b) => assert_eq!(*b, bits(&[0.5, 1.5])),
                other => panic!("unexpected: {:?}", other),
            }
        },
        other => panic!("unexpected: {:?}", other),
    }
    assert_eq!(info.get_item(py, "kept").unwrap().get_type(py).name(py), "type");
}

#[test]
fn outcomes_of_calls_that_raised_are_errors() {
    let gil = Python::acquire_gil();
    let py = gil.python();
    let g = world(py);
    let env = environment(&gil, &g, "None");
    assert!(matches!(env.step_outcome(None), Err(GymError::InvalidAction)));
    assert!(matches!(env.reset_outcome(None), Err(GymError::WrongResetResult)));
    assert!(env.step_outcome(Some(eval(py, &g, "([1.0, 2.0, 3.0, 4.0], 2.0, False, True)"))).is_ok());
    assert!(matches!(env.step_outcome(Some(eval(py, &g, "([1.0, 2.0, 3.0, 4.0], 2.0, False)"))), Err(GymError::WrongStepResult)));
    assert!(env.reset_outcome(Some(eval(py, &g, "([1.0, 2.0, 3.0, 4.0], None)"))).is_ok());
    assert!(matches!(env.reset_outcome(Some(eval(py, &g, "([1.0, 2.0, 3.0, 4.0],)"))), Err(GymError::WrongResetResult)));
}

#[test]
fn the_second_of_two_items_is_the_info() {
    let gil = Python::acquire_gil();
    let py = gil.python();
    let g = world(py);
    let items = |code: &str| eval(py, &g, code).extract::<Vec<PyObject>>(py).unwrap();
    assert_eq!(second_of(items("(1, 2)")).unwrap().extract::<i64>(py).unwrap(), 2);
    assert!(second_of(items("(1,)")).is_none());
    assert!(second_of(items("(1, 2, 3)")).is_none());
    assert!(second_of(items("()")).is_none());
}

#[test]
fn values_are_built_as_their_kind() {
    let gil = Python::acquire_gil();
    let py = gil.python();
    let t = Value::Tuple(vec![Value::Int(3), Value::Bool(true), Value::List(vec![Value::Real(2.5f64.to_bits())])]).into_pyo(&gil).unwrap();
    assert_eq!(t.get_type(py).name(py), "tuple");
    assert_eq!(t.get_item(py, 0).unwrap().extract::<i64>(py).unwrap(), 3);
    assert_eq!(t.get_item(py, 1).unwrap().get_type(py).name(py), "bool");
    assert!(t.get_item(py, 1).unwrap().extract::<bool>(py).unwrap());
    assert_eq!(t.get_item(py, 2).unwrap().get_type(py).name(py), "list");
    assert_eq!(t.get_item(py, 2).unwrap().extract::<Vec<f64>>(py).unwrap(), vec![2.5]);
    let d = Value::Dict(vec!["a".to_string()], vec![Value::Int(1)]).into_pyo(&gil).unwrap();
    assert_eq!(d.get_item(py, "a").unwrap().extract::<i64>(py).unwrap(), 1);
    assert!(Value::Opaque.into_pyo(&gil).is_none());
    assert!(Value::List(vec![Value::Int(1), Value::Opaque]).into_pyo(&gil).is_none());
    assert!(Value::Tuple(vec![Value::Dict(vec!["a".to_string()], Vec::new())]).into_pyo(&gil).is_none());
    assert!(SpaceData::Tuple(vec![SpaceData::Dict(vec!["a".to_string()], Vec::new())]).into_pyo(&gil).is_none());
    assert!(Action::Tuple(vec![SpaceData::Dict(Vec::new(), vec![SpaceData::Discrete(1)])]).into_pyo(&gil).is_none());
    assert_eq!(build_all(&gil, &vec![Value::Int(1), Value::Int(2)]).unwrap().len(), 2);
    assert!(build_all(&gil, &vec![Value::Int(1), Value::Opaque]).is_none());
}

#[test]
fn the_factory_outcome_decides_between_object_and_invalid_make() {
    let gil = Python::acquire_gil();
    let py = gil.python();
    let g = world(py);
    let given = || vec![("render_mode".to_string(), "human".to_string())];
    let made = made_or_invalid(Ok(eval(py, &g, "41")), "Fake-v0", given()).unwrap();
    assert_eq!(made.extract::<i64>(py).unwrap(), 41);
    let cause = py.eval("missing_name", Some(&g), None).unwrap_err();
    match made_or_invalid(Err(cause), "Fake-v0", given()) {
        Err(GymError::InvalidMake(id, options, why)) => {
            assert_eq!(id, "Fake-v0");
            assert_eq!(options, given());
            assert_eq!(why.ptype.getattr(py, "__name__").unwrap().extract::<String>(py).unwrap(), "NameError");
        },
        _ => panic!("no invalid make"),
    }
}

#[test]
fn spaces_keep_their_places() {
    let gil = Python::acquire_gil();
    let py = gil.python();
    let g = world(py);
    let observation = space_of(&gil, Some(eval(py, &g, "Discrete(5)")), "observation_space");
    let action = space_of(&gil, Some(eval(py, &g, "MultiBinary(3)")), "action_space");
    let env = Environment::with_spaces(&gil, eval(py, &g, "7"), observation, action).ok().unwrap();
    assert!(matches!(env.observation_space(), SpaceTemplate::Discrete { n: 5 }));
    assert!(matches!(env.action_space(), SpaceTemplate::MultiBinary { n: 3 }));
    assert_eq!(env.env.extract::<i64>(py).unwrap(), 7);
    match space_of(&gil, None, "action_space") {
        Err(GymError::UnsupportedSpaceKind(name)) => assert_eq!(name, "action_space"),
        other => panic!("unexpected: {:?}", other),
    }
    let broken = Environment::with_spaces(
        &gil,
        eval(py, &g, "7"),
        space_of(&gil, None, "observation_space"),
        space_of(&gil, Some(eval(py, &g, "Graph()")), "action_space"),
    );
    match broken {
        Err(GymError::UnsupportedSpaceKind(name)) => assert_eq!(name, "observation_space"),
        _ => panic!("unexpected"),
    }
    let broken = Environment::with_spaces(
        &gil,
        eval(py, &g, "7"),
        space_of(&gil, Some(eval(py, &g, "Discrete(5)")), "observation_space"),
        space_of(&gil, Some(eval(py, &g, "Graph()")), "action_space"),
    );
    match broken {
        Err(GymError::UnsupportedSpaceKind(name)) => assert_eq!(name, "Graph"),
        _ => panic!("unexpected"),
    }
}
