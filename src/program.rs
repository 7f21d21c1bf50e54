use vstd::prelude::*;

verus! {

/// How the launched process's standard streams are configured.
#[derive(Clone, Copy, Debug, PartialEq, Eq, Structural)]
pub enum Stdio {
    /// Inherit the parent's handles.
    Inherit,
    /// Redirect to the platform's null device.
    Null,
    /// Create pipes; only meaningful when resuming without injection, since
    /// the injection path does not expose the pipe endpoints.
    Pipe,
}

/// One environment override: a value to set, or `None` to remove the variable.
pub type EnvView = (Seq<char>, Option<Seq<char>>);

/// What a launch specification holds.
pub struct ProgramView {
    pub program: Seq<char>,
    pub args: Seq<Seq<char>>,
    pub envs: Seq<EnvView>,
    pub cwd: Option<Seq<char>>,
    pub stdio: Stdio,
}

pub open spec fn env_view(e: (String, Option<String>)) -> EnvView {
    (
        e.0@,
        match e.1 {
            Some(v) => Some(v@),
            None => None,
        },
    )
}

/// The overrides after setting `key` to `value`: the first entry with that key
/// is replaced in place, or the entry is appended when the key is new.
pub open spec fn env_set(envs: Seq<EnvView>, key: Seq<char>, value: Option<Seq<char>>) -> Seq<
    EnvView,
> {
    if exists|i: int| 0 <= i < envs.len() && envs[i].0 == key {
        let i = choose|i: int|
            0 <= i < envs.len() && envs[i].0 == key && forall|j: int|
                0 <= j < i ==> envs[j].0 != key;
        envs.update(i, (key, value))
    } else {
        envs.push((key, value))
    }
}

/// Description of a program to launch: executable, arguments, environment
/// overrides, working directory and standard-stream policy.
///
/// Only these settings are honoured by the injection path.
#[derive(Debug)]
pub struct Program {
    program: String,
    args: Vec<String>,
    envs: Vec<(String, Option<String>)>,
    cwd: Option<String>,
    stdio: Stdio,
}

impl View for Program {
    type V = ProgramView;

    closed spec fn view(&self) -> ProgramView {
        ProgramView {
            program: self.program@,
            args: self.args@.map_values(|a: String| a@),
            envs: self.envs@.map_values(|e: (String, Option<String>)| env_view(e)),
            cwd: match self.cwd {
                Some(c) => Some(c@),
                None => None,
            },
            stdio: self.stdio,
        }
    }
}

/// Index of the first override for `key`, if any.
fn find_env(envs: &Vec<(String, Option<String>)>, key: &String) -> (r: Option<usize>)
    ensures
        r matches Some(i) ==> i < envs@.len() && envs@[i as int].0@ == key@ && forall|j: int|
            0 <= j < i ==> envs@[j].0@ != key@,
        r is None ==> forall|j: int| 0 <= j < envs@.len() ==> envs@[j].0@ != key@,
{
    let mut i: usize = 0;
    while i < envs.len()
        invariant
            i <= envs@.len(),
            forall|j: int| 0 <= j < i ==> envs@[j].0@ != key@,
        decreases envs@.len() - i,
    {
        if envs[i].0 == *key {
            return Some(i);
        }
        i = i + 1;
    }
    None
}

impl Program {
    /// A launch specification for `program`, with no arguments, no
    /// environment overrides, no working directory and inherited streams.
    pub fn new(program: &str) -> (p: Program)
        ensures
            p@.program == program@,
            p@.args == Seq::<Seq<char>>::empty(),
            p@.envs == Seq::<EnvView>::empty(),
            p@.cwd is None,
            p@.stdio == Stdio::Inherit,
    {
        let p = Program {
            program: String::from_str(program),
            args: Vec::new(),
            envs: Vec::new(),
            cwd: None,
            stdio: Stdio::Inherit,
        };
        assert(p@.args =~= Seq::<Seq<char>>::empty());
        assert(p@.envs =~= Seq::<EnvView>::empty());
        p
    }

    /// Append one argument.
    pub fn arg(&mut self, arg: &str)
        ensures
            final(self)@ == (ProgramView { args: old(self)@.args.push(arg@), ..old(self)@ }),
    {
        self.args.push(String::from_str(arg));
        assert(self@.args =~= old(self)@.args.push(arg@));
    }

    fn set_env(&mut self, key: String, value: Option<String>)
        ensures
            final(self)@ == (ProgramView {
                envs: env_set(
                    old(self)@.envs,
                    key@,
                    match value {
                        Some(v) => Some(v@),
                        None => None,
                    },
                ),
                ..old(self)@
            }),
    {
        let ghost envs = old(self)@.envs;
        let ghost entry = env_view((key, value));
        let found = find_env(&self.envs, &key);
        match found {
            Some(i) => {
                proof {
                    assert(envs[i as int].0 == key@);
                    assert forall|j: int| 0 <= j < i implies envs[j].0 != key@ by {
                        assert(envs[j] == env_view(self.envs@[j]));
                    }
                }
                self.envs.set(i, (key, value));
                proof {
                    let k = choose|k: int|
                        0 <= k < envs.len() && envs[k].0 == entry.0 && forall|j: int|
                            0 <= j < k ==> envs[j].0 != entry.0;
                    assert(k == i as int) by {
                        if k < i {
                            assert(envs[k] == env_view(old(self).envs@[k]));
                        } else if k > i {
                            assert(envs[i as int].0 == entry.0);
                        }
                    }
                    assert(self@.envs =~= envs.update(i as int, entry));
                }
            },
            None => {
                self.envs.push((key, value));
                proof {
                    assert forall|j: int| 0 <= j < envs.len() implies envs[j].0 != entry.0 by {
                        assert(envs[j] == env_view(old(self).envs@[j]));
                    }
                    assert(self@.envs =~= envs.push(entry));
                }
            },
        }
    }

    /// Set an environment variable for the launched process.
    pub fn env(&mut self, key: &str, value: &str)
        ensures
            final(self)@ == (ProgramView {
                envs: env_set(old(self)@.envs, key@, Some(value@)),
                ..old(self)@
            }),
    {
        self.set_env(String::from_str(key), Some(String::from_str(value)));
    }

    /// Record that an environment variable is to be removed; such an entry
    /// is not passed to the launched process.
    pub fn env_remove(&mut self, key: &str)
        ensures
            final(self)@ == (ProgramView {
                envs: env_set(old(self)@.envs, key@, None),
                ..old(self)@
            }),
    {
        self.set_env(String::from_str(key), None);
    }

    /// Set the working directory of the launched process.
    pub fn current_dir(&mut self, dir: &str)
        ensures
            final(self)@ == (ProgramView { cwd: Some(dir@), ..old(self)@ }),
    {
        self.cwd = Some(String::from_str(dir));
    }

    /// Set the standard-stream policy.
    pub fn stdio(self, stdio: Stdio) -> (p: Program)
        ensures
            p@ == (ProgramView { stdio, ..self@ }),
    {
        Program { stdio, ..self }
    }

    /// The standard-stream policy.
    pub fn stdio_value(&self) -> (s: Stdio)
        ensures
            s == self@.stdio,
    {
        self.stdio
    }

    /// The executable.
    pub fn get_program(&self) -> (r: &str)
        ensures
            r@ == self@.program,
    {
        self.program.as_str()
    }

    /// The arguments, in order.
    pub fn get_args(&self) -> (r: &Vec<String>)
        ensures
            r@.map_values(|a: String| a@) == self@.args,
    {
        &self.args
    }

    /// The environment overrides, in the order their keys were first set.
    pub fn get_envs(&self) -> (r: &Vec<(String, Option<String>)>)
        ensures
            r@.map_values(|e: (String, Option<String>)| env_view(e)) == self@.envs,
    {
        &self.envs
    }

    /// The working directory, if one was set.
    pub fn get_current_dir(&self) -> (r: Option<&str>)
        ensures
            match r {
                Some(c) => self@.cwd == Some(c@),
                None => self@.cwd is None,
            },
    {
        match &self.cwd {
            Some(c) => Some(c.as_str()),
            None => None,
        }
    }
}

} // verus!
