use vstd::prelude::*;
use cpython::{GILGuard, PyErr, PyModule, PyObject};
use crate::environment::Environment;
use crate::error::GymError;
use crate::runtime::{acquire_gil, as_text, call_method, dict_items, dict_set, get_attr, import_module, module_call, module_get, new_dict, text_object};
use crate::descriptor::NESTING_LIMIT;
use crate::space_template::{SpaceTemplate, nested_within, well_formed};

verus! {

/// How an environment should present its frames.
#[derive(Debug)]
pub enum RenderMode {
    Human,
    RgbArray,
    Custom(String),
}

impl RenderMode {
    /// The keyword value that stands for the mode: `human`, `rgb_array`, or
    /// the custom name as it is.
    pub open spec fn keyword(&self) -> Seq<char> {
        match self {
            RenderMode::Human => "human"@,
            RenderMode::RgbArray => "rgb_array"@,
            RenderMode::Custom(name) => name@,
        }
    }

    /// The mode as the text that is handed to the runtime.
    pub fn to_string(&self) -> (text: String)
        ensures
            text@ == self.keyword(),
    {
        match self {
            RenderMode::Human => "human".to_owned(),
            RenderMode::RgbArray => "rgb_array".to_owned(),
            RenderMode::Custom(name) => name.clone(),
        }
    }
}

/// Two custom modes with different names are handed to the runtime as
/// different texts, each the name itself with nothing changed.
pub proof fn custom_modes_verbatim(a: RenderMode, b: RenderMode)
    requires
        a is Custom,
        b is Custom,
        a->Custom_0@ != b->Custom_0@,
    ensures
        a.keyword() == a->Custom_0@,
        b.keyword() == b->Custom_0@,
        a.keyword() != b.keyword(),
{
}

/// What can be chosen when an environment is made.
#[derive(Debug)]
pub struct MakeOptions {
    pub render_mode: Option<RenderMode>,
}

impl Default for MakeOptions {
    fn default() -> (r: MakeOptions)
        ensures
            r.render_mode is None,
    {
        MakeOptions { render_mode: None }
    }
}

impl MakeOptions {
    /// The keyword arguments that the options stand for, as names and
    /// values: `render_mode` with the mode's keyword where a mode is set, and
    /// nothing else.
    pub open spec fn keywords(&self) -> Seq<(Seq<char>, Seq<char>)> {
        match self.render_mode {
            Some(mode) => seq![("render_mode"@, mode.keyword())],
            None => Seq::empty(),
        }
    }

    /// The keyword arguments to hand to the factory.
    pub fn keyword_args(&self) -> (args: Vec<(String, String)>)
        ensures
            args.len() == self.keywords().len(),
            forall|i: int|
                0 <= i < args.len() ==> args[i].0@ == self.keywords()[i].0 && args[i].1@
                    == self.keywords()[i].1,
    {
        let mut args: Vec<(String, String)> = Vec::new();
        match &self.render_mode {
            Some(mode) => {
                args.push(("render_mode".to_owned(), mode.to_string()));
            },
            None => {},
        }
        args
    }
}

/// The pairs are the keyword arguments that the options stand for: those of
/// `keywords` where there are options, none where there are none.
pub open spec fn options_given(options: Option<MakeOptions>, given: Seq<(String, String)>) -> bool {
    let wanted = match options {
        Some(options) => options.keywords(),
        None => Seq::empty(),
    };
    given.len() == wanted.len() && forall|i: int|
        0 <= i < given.len() ==> given[i].0@ == wanted[i].0 && given[i].1@ == wanted[i].1
}

/// The names are what was collected of the keys: there are names exactly
/// where every key was read as a text, and they are those texts, in order.
pub open spec fn names_collected(keys: Seq<Option<String>>, r: Option<Vec<String>>) -> bool {
    &&& r is Some <==> forall|i: int| 0 <= i < keys.len() ==> (#[trigger] keys[i]) is Some
    &&& r matches Some(names) ==> names.len() == keys.len() && forall|i: int|
        0 <= i < keys.len() ==> (#[trigger] names[i])@ == keys[i]->Some_0@
}

/// The text of each key that was read, in order, where every key is a text.
pub fn collect_names(keys: &Vec<Option<String>>) -> (r: Option<Vec<String>>)
    ensures
        names_collected(keys@, r),
{
    let mut names: Vec<String> = Vec::new();
    let mut i: usize = 0;
    while i < keys.len()
        invariant
            i <= keys.len(),
            names.len() == i,
            forall|j: int| 0 <= j < i ==> (#[trigger] keys[j]) is Some,
            forall|j: int| 0 <= j < i ==> (#[trigger] names[j])@ == keys[j]->Some_0@,
        decreases keys.len() - i,
    {
        match &keys[i] {
            Some(name) => names.push(name.clone()),
            None => {
                return None;
            },
        }
        i += 1;
    }
    Some(names)
}

/// What the factory call came to: the object it made, or an invalid make
/// with the identifier, the options as they were handed over, and the
/// runtime's error, exactly where the call failed.
pub fn made_or_invalid(
    outcome: Result<PyObject, PyErr>,
    env_id: &str,
    given: Vec<(String, String)>,
) -> (r: Result<PyObject, GymError>)
    ensures
        match outcome {
            Ok(made) => r == Ok::<PyObject, GymError>(made),
            Err(cause) => (r matches Err(GymError::InvalidMake(id, options, why)) && id@
                == env_id@ && options == given && why == cause),
        },
{
    match outcome {
        Ok(made) => Ok(made),
        Err(cause) => Err(GymError::InvalidMake(env_id.to_owned(), given, cause)),
    }
}

/// The template of a space attribute: that of the descriptor where the
/// attribute was read, unsupported under the attribute's name where it was
/// not.
pub fn space_of(gil: &GILGuard, attr: Option<PyObject>, name: &str) -> (r: Result<
    SpaceTemplate,
    GymError,
>)
    ensures
        r matches Ok(t) ==> attr is Some && well_formed(t@) && nested_within(
            t@,
            NESTING_LIMIT as nat,
        ),
        r matches Err(e) ==> e is UnsupportedSpaceKind,
        attr is None ==> (r matches Err(GymError::UnsupportedSpaceKind(text)) && text@ == name@),
{
    match attr {
        Some(space) => SpaceTemplate::extract_template(gil, &space),
        None => Err(GymError::UnsupportedSpaceKind(name.to_owned())),
    }
}

/// One session with the runtime and its environment package.
pub struct GymClient {
    pub gil: GILGuard,
    pub gym: PyModule,
    pub version: String,
}

impl GymClient {
    /// Opens the session: takes the runtime's lock, appends `venv` to the
    /// module search path where one is given, imports the environment package
    /// and reads its version.
    pub fn new(venv: Option<&str>) -> (r: Result<GymClient, GymError>)
        ensures
            r matches Err(e) ==> e == GymError::SessionBootstrapFailed,
    {
        proof {
            reveal_strlit("sys");
            reveal_strlit("gymnasium");
        }
        let gil = acquire_gil();
        let sys = match import_module(&gil, "sys") {
            Ok(sys) => sys,
            Err(_) => {
                return Err(GymError::SessionBootstrapFailed);
            },
        };
        if let Some(venv) = venv {
            let path = match module_get(&gil, &sys, "path") {
                Some(path) => path,
                None => {
                    return Err(GymError::SessionBootstrapFailed);
                },
            };
            let mut args: Vec<PyObject> = Vec::new();
            args.push(text_object(&gil, venv));
            if call_method(&gil, &path, "append", &args, None).is_none() {
                return Err(GymError::SessionBootstrapFailed);
            }
        }
        let gym = match import_module(&gil, "gymnasium") {
            Ok(gym) => Some(gym),
            Err(_) => None,
        };
        let version = match &gym {
            Some(gym) => match module_get(&gil, gym, "__version__") {
                Some(attr) => as_text(&gil, &attr),
                None => None,
            },
            None => None,
        };
        GymClient::open_with(gil, gym, version)
    }

    /// The session of what was read while it was opened: there is one
    /// exactly where the package was imported and its version read as a text,
    /// and it holds the lock, the package and the version as they are.
    pub fn open_with(gil: GILGuard, gym: Option<PyModule>, version: Option<String>) -> (r: Result<
        GymClient,
        GymError,
    >)
        ensures
            r is Ok <==> gym is Some && version is Some,
            r matches Ok(client) ==> client.gil == gil && gym == Some(client.gym) && version
                == Some(client.version),
            r matches Err(e) ==> e == GymError::SessionBootstrapFailed,
    {
        match (gym, version) {
            (Some(gym), Some(version)) => Ok(GymClient { gil, gym, version }),
            _ => Err(GymError::SessionBootstrapFailed),
        }
    }

    /// Makes the environment of the given identifier with the given options
    /// and reads the templates of its two spaces. Where the factory refuses,
    /// the error holds the identifier, the options as they were handed over,
    /// and the runtime's error. A space without a template is unsupported
    /// under the name of its class; an environment that lacks one of the two
    /// space attributes, under the name of the attribute.
    pub fn make<'a>(&'a self, env_id: &str, options: Option<MakeOptions>) -> (r: Result<
        Environment<'a>,
        GymError,
    >)
        ensures
            r matches Ok(env) ==> well_formed(env.observation_space@) && well_formed(
                env.action_space@,
            ) && nested_within(env.observation_space@, NESTING_LIMIT as nat) && nested_within(
                env.action_space@,
                NESTING_LIMIT as nat,
            ),
            r matches Err(e) ==> match e {
                GymError::InvalidRenderMode => options is Some && options->Some_0.render_mode
                    is Some,
                GymError::InvalidMake(id, given, _) => id@ == env_id@ && options_given(
                    options,
                    given@,
                ),
                GymError::UnsupportedSpaceKind(_) => true,
                _ => false,
            },
    {
        let dict = new_dict(&self.gil);
        let args = match &options {
            Some(options) => options.keyword_args(),
            None => Vec::new(),
        };
        let mut i: usize = 0;
        while i < args.len()
            invariant
                i <= args.len(),
                args.len() > 0 ==> options is Some && options->Some_0.render_mode is Some,
                options_given(options, args@),
            decreases args.len() - i,
        {
            let value = text_object(&self.gil, args[i].1.as_str());
            if !dict_set(&self.gil, &dict, args[i].0.as_str(), &value) {
                return Err(GymError::InvalidRenderMode);
            }
            i += 1;
        }
        let mut positional: Vec<PyObject> = Vec::new();
        positional.push(text_object(&self.gil, env_id));
        let outcome = module_call(&self.gil, &self.gym, "make", &positional, Some(&dict));
        let env = made_or_invalid(outcome, env_id, args)?;
        let observation_space = space_of(
            &self.gil,
            get_attr(&self.gil, &env, "observation_space"),
            "observation_space",
        );
        let action_space = space_of(
            &self.gil,
            get_attr(&self.gil, &env, "action_space"),
            "action_space",
        );
        Environment::with_spaces(&self.gil, env, observation_space, action_space)
    }

    /// The identifiers that the runtime's registry holds now, or nothing
    /// where the registry cannot be read as a dictionary keyed by texts.
    pub fn list_all(&self) -> (r: Option<Vec<String>>)
        ensures
            r is Some ==> exists|keys: Seq<Option<String>>| names_collected(keys, r),
    {
        let envs = module_get(&self.gil, &self.gym, "envs")?;
        let registry = get_attr(&self.gil, &envs, "registry")?;
        let items = dict_items(&self.gil, &registry)?;
        let mut keys: Vec<Option<String>> = Vec::new();
        let mut i: usize = 0;
        while i < items.len()
            invariant
                i <= items.len(),
            decreases items.len() - i,
        {
            keys.push(as_text(&self.gil, &items[i].0));
            i += 1;
        }
        let r = collect_names(&keys);
        assert(names_collected(keys@, r));
        r
    }

    /// The version of the environment package, as read when the session was
    /// opened.
    pub fn version(&self) -> (v: &str)
        ensures
            v@ == self.version@,
    {
        self.version.as_str()
    }
}

} // verus!
