use vstd::prelude::*;

use crate::error::{invalid, Error, ErrorKind, ErrorView};
use crate::program::{env_view, EnvView, Program, ProgramView, Stdio};
use crate::text::{contains_nul, no_nul};

verus! {

/// The numeric code of a stream policy at the native boundary.
pub open spec fn stdio_code_of(s: Stdio) -> i32 {
    match s {
        Stdio::Inherit => 0,
        Stdio::Null => 1,
        Stdio::Pipe => 2,
    }
}

/// Map a stream policy to its numeric code at the native boundary.
pub fn stdio_code(s: Stdio) -> (c: i32)
    ensures
        c == stdio_code_of(s),
{
    match s {
        Stdio::Inherit => 0,
        Stdio::Null => 1,
        Stdio::Pipe => 2,
    }
}

/// The `KEY=VALUE` entries passed to the launched process: one per override
/// that sets a value, in order; removals are left out.
pub open spec fn env_entries(envs: Seq<EnvView>) -> Seq<Seq<char>>
    decreases envs.len(),
{
    if envs.len() == 0 {
        Seq::empty()
    } else {
        let rest = env_entries(envs.drop_last());
        match envs.last().1 {
            Some(v) => rest.push(envs.last().0 + seq!['='] + v),
            None => rest,
        }
    }
}

/// Launch parameters in the form the native engine takes them. Every string
/// is free of NUL characters; `argv` starts with the program itself.
#[derive(Debug)]
pub struct LaunchParams {
    pub program: String,
    pub argv: Vec<String>,
    pub envp: Vec<String>,
    pub cwd: Option<String>,
    pub stdio: i32,
}

pub struct LaunchView {
    pub program: Seq<char>,
    pub argv: Seq<Seq<char>>,
    pub envp: Seq<Seq<char>>,
    pub cwd: Option<Seq<char>>,
    pub stdio: i32,
}

impl View for LaunchParams {
    type V = LaunchView;

    open spec fn view(&self) -> LaunchView {
        LaunchView {
            program: self.program@,
            argv: self.argv@.map_values(|a: String| a@),
            envp: self.envp@.map_values(|a: String| a@),
            cwd: match self.cwd {
                Some(c) => Some(c@),
                None => None,
            },
            stdio: self.stdio,
        }
    }
}

pub open spec fn all_no_nul(ss: Seq<Seq<char>>) -> bool {
    forall|i: int| 0 <= i < ss.len() ==> no_nul(#[trigger] ss[i])
}

/// The launch parameters for a program, or the first field, in the order
/// program, arguments, environment, working directory, that cannot be
/// represented across the boundary because it holds a NUL.
pub open spec fn launch_of(p: ProgramView) -> Result<LaunchView, ErrorView> {
    if !no_nul(p.program) {
        Err(invalid("program contains NUL"@))
    } else if !all_no_nul(p.args) {
        Err(invalid("arg contains NUL"@))
    } else if !all_no_nul(env_entries(p.envs)) {
        Err(invalid("env contains NUL"@))
    } else if p.cwd matches Some(c) && !no_nul(c) {
        Err(invalid("cwd contains NUL"@))
    } else {
        Ok(
            LaunchView {
                program: p.program,
                argv: seq![p.program] + p.args,
                envp: env_entries(p.envs),
                cwd: p.cwd,
                stdio: stdio_code_of(p.stdio),
            },
        )
    }
}

fn build_argv(program: &str, args: &Vec<String>) -> (r: Option<Vec<String>>)
    ensures
        match r {
            Some(v) => all_no_nul(args@.map_values(|a: String| a@)) && v@.map_values(
                |a: String| a@,
            ) == seq![program@] + args@.map_values(|a: String| a@),
            None => !all_no_nul(args@.map_values(|a: String| a@)),
        },
{
    let ghost views = args@.map_values(|a: String| a@);
    let mut argv: Vec<String> = Vec::new();
    argv.push(String::from_str(program));
    let mut i: usize = 0;
    while i < args.len()
        invariant
            i <= args@.len(),
            views == args@.map_values(|a: String| a@),
            argv@.map_values(|a: String| a@) == seq![program@] + views.subrange(0, i as int),
            forall|j: int| 0 <= j < i ==> no_nul(#[trigger] views[j]),
        decreases args@.len() - i,
    {
        if contains_nul(args[i].as_str()) {
            assert(!no_nul(views[i as int]));
            return None;
        }
        let ghost prev = argv@;
        argv.push(args[i].clone());
        proof {
            assert(views[i as int] == args@[i as int]@);
            assert(argv@ == prev.push(args@[i as int]));
            assert(argv@.map_values(|a: String| a@) =~= prev.map_values(|a: String| a@).push(
                views[i as int],
            ));
            assert(views.subrange(0, i + 1) =~= views.subrange(0, i as int).push(
                views[i as int],
            ));
        }
        i = i + 1;
    }
    assert(views.subrange(0, args@.len() as int) =~= views);
    Some(argv)
}

proof fn lemma_env_entries_step(envs: Seq<EnvView>, i: int)
    requires
        0 <= i < envs.len(),
    ensures
        env_entries(envs.subrange(0, i + 1)) == match envs[i].1 {
            Some(v) => env_entries(envs.subrange(0, i)).push(envs[i].0 + seq!['='] + v),
            None => env_entries(envs.subrange(0, i)),
        },
{
    assert(envs.subrange(0, i + 1).drop_last() =~= envs.subrange(0, i));
}

fn build_envp(envs: &Vec<(String, Option<String>)>) -> (r: Option<Vec<String>>)
    ensures
        match r {
            Some(v) => all_no_nul(
                env_entries(envs@.map_values(|e: (String, Option<String>)| env_view(e))),
            ) && v@.map_values(|a: String| a@) == env_entries(
                envs@.map_values(|e: (String, Option<String>)| env_view(e)),
            ),
            None => !all_no_nul(
                env_entries(envs@.map_values(|e: (String, Option<String>)| env_view(e))),
            ),
        },
{
    let ghost views = envs@.map_values(|e: (String, Option<String>)| env_view(e));
    let mut envp: Vec<String> = Vec::new();
    let mut i: usize = 0;
    proof {
        assert(views.subrange(0, 0) =~= Seq::<EnvView>::empty());
        assert(envp@.map_values(|a: String| a@) =~= Seq::<Seq<char>>::empty());
    }
    while i < envs.len()
        invariant
            i <= envs@.len(),
            views == envs@.map_values(|e: (String, Option<String>)| env_view(e)),
            envp@.map_values(|a: String| a@) == env_entries(views.subrange(0, i as int)),
            all_no_nul(envp@.map_values(|a: String| a@)),
        decreases envs@.len() - i,
    {
        proof {
            lemma_env_entries_step(views, i as int);
        }
        match &envs[i].1 {
            Some(v) => {
                let mut entry = envs[i].0.clone();
                entry.append("=");
                entry.append(v.as_str());
                proof {
                    assert(views[i as int] == env_view(envs@[i as int]));
                    reveal_strlit("=");
                    assert("="@ =~= seq!['=']);
                }
                assert(entry@ == views[i as int].0 + seq!['='] + v@);
                if contains_nul(entry.as_str()) {
                    proof {
                        let full = env_entries(views);
                        let k = env_entries(views.subrange(0, i + 1)).len() - 1;
                        lemma_env_entries_prefix(views, i + 1);
                        assert(full[k] == entry@);
                    }
                    return None;
                }
                let ghost prev = envp@;
                envp.push(entry);
                assert(envp@.map_values(|a: String| a@) =~= prev.map_values(|a: String| a@).push(
                    entry@,
                ));
                assert(envp@.map_values(|a: String| a@) =~= env_entries(
                    views.subrange(0, i + 1),
                ));
            },
            None => {},
        }
        i = i + 1;
    }
    assert(views.subrange(0, envs@.len() as int) =~= views);
    Some(envp)
}

proof fn lemma_env_entries_prefix(envs: Seq<EnvView>, n: int)
    requires
        0 <= n <= envs.len(),
    ensures
        env_entries(envs.subrange(0, n)).len() <= env_entries(envs).len(),
        forall|k: int|
            0 <= k < env_entries(envs.subrange(0, n)).len() ==> env_entries(envs)[k]
                == env_entries(envs.subrange(0, n))[k],
    decreases envs.len() - n,
{
    if n < envs.len() {
        lemma_env_entries_step(envs, n);
        lemma_env_entries_prefix(envs, n + 1);
    } else {
        assert(envs.subrange(0, n) =~= envs);
    }
}

impl LaunchParams {
    /// The launch parameters for `program`; fails with `InvalidInput` when a
    /// string cannot be represented across the native boundary.
    pub fn from_program(program: &Program) -> (r: Result<LaunchParams, Error>)
        ensures
            match r {
                Ok(l) => launch_of(program@) == Ok::<LaunchView, ErrorView>(l@),
                Err(e) => launch_of(program@) == Err::<LaunchView, ErrorView>(e@),
            },
    {
        let name = program.get_program();
        if contains_nul(name) {
            return Err(Error::with_text(ErrorKind::InvalidInput, "program contains NUL"));
        }
        let argv = match build_argv(name, program.get_args()) {
            Some(v) => v,
            None => {
                return Err(Error::with_text(ErrorKind::InvalidInput, "arg contains NUL"));
            },
        };
        let envp = match build_envp(program.get_envs()) {
            Some(v) => v,
            None => {
                return Err(Error::with_text(ErrorKind::InvalidInput, "env contains NUL"));
            },
        };
        let cwd = match program.get_current_dir() {
            Some(c) => {
                if contains_nul(c) {
                    return Err(Error::with_text(ErrorKind::InvalidInput, "cwd contains NUL"));
                }
                Some(String::from_str(c))
            },
            None => None,
        };
        let stdio = stdio_code(program.stdio_value());
        let l = LaunchParams { program: String::from_str(name), argv, envp, cwd, stdio };
        assert(l@ == launch_of(program@)->Ok_0);
        Ok(l)
    }
}

} // verus!
