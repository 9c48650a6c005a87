//! The command line and environment with which the server is started.
use vstd::prelude::*;

use crate::error::{PathSource, StartupError};
use crate::paths::{dir_of, dir_of_file, join_path, joined, resolve_server_path, resolved_path, storage_dir, storage_path, ServerLocation, SERVER_PREFIX};
use crate::text::same_text;
use crate::triple::{target_triple, triple_for};

verus! {

/// The runtime that runs the server's script bundle.
pub const SERVER_RUNTIME: &'static str = "bun";

/// The variable that tells the server where to keep its data.
pub const STORAGE_DIR_KEY: &'static str = "STORAGE_DIR";

/// The variable that tells the server in which mode it runs.
pub const RUNTIME_MODE_KEY: &'static str = "RUNTIME_MODE";

/// The mode of a server that runs under the desktop shell.
pub const RUNTIME_MODE_DESKTOP: &'static str = "DESKTOP";

/// The variable that selects the server's logging backend.
pub const LOG_BACKEND_KEY: &'static str = "LOG_BACKEND";

/// The logging backend the server uses.
pub const LOG_BACKEND_NAME: &'static str = "pino";

/// The variables added to the inherited environment, in order, for the
/// home directory `home`.
pub open spec fn required_env(home: Seq<char>) -> Seq<(Seq<char>, Seq<char>)> {
    seq![
        (STORAGE_DIR_KEY@, storage_path(home)),
        (RUNTIME_MODE_KEY@, RUNTIME_MODE_DESKTOP@),
        (LOG_BACKEND_KEY@, LOG_BACKEND_NAME@),
    ]
}

/// The characters of an optional string.
pub open spec fn text_option(o: Option<&str>) -> Option<Seq<char>> {
    match o {
        Some(t) => Some(t@),
        None => None,
    }
}

/// Whether `env` sets `key`.
pub open spec fn env_has(env: Seq<(Seq<char>, Seq<char>)>, key: Seq<char>) -> bool {
    exists|i: int| 0 <= i < env.len() && #[trigger] env[i].0 == key
}

/// The value of the first entry of `env` that sets `key`.
pub open spec fn env_lookup(env: Seq<(Seq<char>, Seq<char>)>, key: Seq<char>) -> Option<Seq<char>>
    decreases env.len(),
{
    if env.len() == 0 {
        None
    } else if env[0].0 == key {
        Some(env[0].1)
    } else {
        env_lookup(env.drop_first(), key)
    }
}

/// A program to start, its arguments, and the variables added to the
/// environment it inherits.
pub struct LaunchConfig {
    pub program: String,
    pub args: Vec<String>,
    pub env: Vec<(String, String)>,
}

impl LaunchConfig {
    pub open spec fn args_view(&self) -> Seq<Seq<char>> {
        self.args@.map_values(|a: String| a@)
    }

    pub open spec fn env_view(&self) -> Seq<(Seq<char>, Seq<char>)> {
        self.env@.map_values(|p: (String, String)| (p.0@, p.1@))
    }

    /// No variable is set twice.
    pub open spec fn wf(&self) -> bool {
        forall|i: int, j: int|
            0 <= i < j < self.env_view().len() ==> #[trigger] self.env_view()[i].0 != #[trigger] self.env_view()[j].0
    }

    /// Whether this starts `server` for the home directory `home`: through
    /// `runtime`, which then gets the server's path as its one argument,
    /// or, without one, as the program itself.
    pub open spec fn describes(&self, runtime: Option<Seq<char>>, server: Seq<char>, home: Seq<char>) -> bool {
        &&& match runtime {
            Some(rt) => self.program@ == rt && self.args_view() == seq![server],
            None => self.program@ == server && self.args_view() == Seq::<Seq<char>>::empty(),
        }
        &&& self.env_view() == required_env(home)
    }

    /// The full command line: the program followed by its arguments.
    pub fn argv(&self) -> (r: Vec<String>)
        ensures
            r@.map_values(|a: String| a@) == seq![self.program@] + self.args_view(),
    {
        let mut r: Vec<String> = Vec::new();
        r.push(self.program.clone());
        let mut i: usize = 0;
        while i < self.args.len()
            invariant
                i <= self.args@.len(),
                r@.map_values(|a: String| a@) == seq![self.program@] + self.args_view().subrange(0, i as int),
            decreases self.args@.len() - i,
        {
            let a = self.args[i].clone();
            let ghost before = r@;
            r.push(a);
            assert(r@ =~= before.push(a));
            assert(r@.map_values(|a: String| a@) =~= before.map_values(|a: String| a@).push(a@));
            assert(self.args_view().subrange(0, i + 1) =~= self.args_view().subrange(0, i as int).push(self.args@[i as int]@));
            assert(r@.map_values(|a: String| a@) =~= seq![self.program@] + self.args_view().subrange(0, i + 1));
            i = i + 1;
        }
        assert(self.args_view().subrange(0, i as int) =~= self.args_view());
        r
    }

    /// The value this sets for the variable `key`, if any.
    pub fn env_value(&self, key: &str) -> (r: Option<String>)
        ensures
            match env_lookup(self.env_view(), key@) {
                Some(v) => r matches Some(s) && s@ == v,
                None => r is None,
            },
            r is None <==> !env_has(self.env_view(), key@),
    {
        let mut i: usize = 0;
        assert(self.env_view().subrange(0, self.env_view().len() as int) =~= self.env_view());
        while i < self.env.len()
            invariant
                i <= self.env@.len(),
                env_lookup(self.env_view(), key@) == env_lookup(self.env_view().subrange(i as int, self.env_view().len() as int), key@),
                forall|j: int| 0 <= j < i ==> self.env_view()[j].0 != key@,
            decreases self.env@.len() - i,
        {
            let ghost rest = self.env_view().subrange(i as int, self.env_view().len() as int);
            if same_text(self.env[i].0.as_str(), key) {
                assert(rest[0] == self.env_view()[i as int]);
                return Some(self.env[i].1.clone());
            }
            assert(rest.drop_first() =~= self.env_view().subrange(i + 1, self.env_view().len() as int));
            i = i + 1;
        }
        let ghost rest = self.env_view().subrange(i as int, self.env_view().len() as int);
        assert(rest.len() == 0);
        None
    }
}

proof fn lemma_required_env_keys()
    ensures
        STORAGE_DIR_KEY@ != RUNTIME_MODE_KEY@,
        STORAGE_DIR_KEY@ != LOG_BACKEND_KEY@,
        RUNTIME_MODE_KEY@ != LOG_BACKEND_KEY@,
{
    reveal_strlit("STORAGE_DIR");
    reveal_strlit("RUNTIME_MODE");
    reveal_strlit("LOG_BACKEND");
    assert(STORAGE_DIR_KEY@[0] != RUNTIME_MODE_KEY@[0]);
    assert(STORAGE_DIR_KEY@[0] != LOG_BACKEND_KEY@[0]);
    assert(RUNTIME_MODE_KEY@[0] != LOG_BACKEND_KEY@[0]);
}

/// The command that starts the server at `server_path` for the home
/// directory `home`, through `runtime` where one is given. The
/// environment it adds always sets the storage directory, the runtime mode
/// and the logging backend.
pub fn launch_config(runtime: Option<&str>, server_path: &str, home: &str) -> (r: LaunchConfig)
    ensures
        r.describes(text_option(runtime), server_path@, home@),
        r.wf(),
        env_has(r.env_view(), STORAGE_DIR_KEY@),
        env_has(r.env_view(), RUNTIME_MODE_KEY@),
        env_has(r.env_view(), LOG_BACKEND_KEY@),
{
    let mut args: Vec<String> = Vec::new();
    let program = match runtime {
        Some(rt) => {
            args.push(String::from_str(server_path));
            String::from_str(rt)
        },
        None => String::from_str(server_path),
    };
    let mut env: Vec<(String, String)> = Vec::new();
    env.push((String::from_str(STORAGE_DIR_KEY), storage_dir(home)));
    env.push((String::from_str(RUNTIME_MODE_KEY), String::from_str(RUNTIME_MODE_DESKTOP)));
    env.push((String::from_str(LOG_BACKEND_KEY), String::from_str(LOG_BACKEND_NAME)));
    let r = LaunchConfig { program, args, env };
    proof {
        lemma_required_env_keys();
        assert(r.env_view() =~= required_env(home@));
        assert(r.args_view() =~= match runtime {
            Some(rt) => seq![server_path@],
            None => Seq::<Seq<char>>::empty(),
        });
        assert(r.env_view()[0].0 == STORAGE_DIR_KEY@);
        assert(r.env_view()[1].0 == RUNTIME_MODE_KEY@);
        assert(r.env_view()[2].0 == LOG_BACKEND_KEY@);
    }
    r
}

/// The path of the runtime binary `runtime`, which is bundled beside the
/// running executable at `current_exe`.
pub fn runtime_path(current_exe: &str, runtime: &str) -> (r: Result<String, StartupError>)
    ensures
        match dir_of(current_exe@) {
            Some(d) => r matches Ok(p) && p@ == joined(d, runtime@),
            None => r == Err::<String, StartupError>(StartupError::PathResolution(PathSource::ExecutableDir)),
        },
{
    match dir_of_file(current_exe) {
        Some(d) => Ok(join_path(d.as_str(), runtime)),
        None => Err(StartupError::PathResolution(PathSource::ExecutableDir)),
    }
}

/// The command that starts the server on the host named by `os` and
/// `arch`: the binary for its triple, located as `loc` says, with the
/// storage directory under `home`, run through `runtime` where one is
/// given. Fails where the binary's location or the home directory (`None`)
/// cannot be resolved, in that order.
pub fn plan_launch(
    loc: &ServerLocation,
    os: &str,
    arch: &str,
    home: Option<&str>,
    runtime: Option<&str>,
) -> (r: Result<LaunchConfig, StartupError>)
    ensures
        match resolved_path(*loc, SERVER_PREFIX@, triple_for(os@, arch@)) {
            Err(e) => r == Err::<LaunchConfig, StartupError>(e),
            Ok(p) => match home {
                None => r == Err::<LaunchConfig, StartupError>(StartupError::PathResolution(PathSource::Home)),
                Some(h) => r matches Ok(c) && c.describes(text_option(runtime), p, h@) && c.wf()
                    && env_has(c.env_view(), STORAGE_DIR_KEY@) && env_has(c.env_view(), RUNTIME_MODE_KEY@)
                    && env_has(c.env_view(), LOG_BACKEND_KEY@),
            },
        },
{
    let triple = target_triple(os, arch);
    let server = match resolve_server_path(loc, SERVER_PREFIX, triple) {
        Ok(p) => p,
        Err(e) => return Err(e),
    };
    match home {
        Some(h) => Ok(launch_config(runtime, server.as_str(), h)),
        None => Err(StartupError::PathResolution(PathSource::Home)),
    }
}

} // verus!
