//! How the worker and its auxiliary script are invoked, and how the
//! script's output becomes a result.

use vstd::prelude::*;
use crate::errors::SupervisorError;
use crate::paths::{join_path, path_joined};
use crate::text::{lines, lines_of, starts_with_char, trim, trimmed, views};

verus! {

/// Name of the worker's directory inside each place that may hold it.
pub const WORKER_DIR: &'static str = "bot";
/// The worker's main module: its presence marks a worker directory.
pub const ENTRY_SCRIPT: &'static str = "index.mjs";
/// The directory of installed dependencies.
pub const DEPS_DIR: &'static str = "node_modules";
/// The command-line entry the supervisor runs.
pub const LAUNCHER_SCRIPT: &'static str = "cli.mjs";
/// The one-shot script that checks or closes a position.
pub const CLOSE_SCRIPT: &'static str = "close.mjs";
/// The configuration file that must exist before a start.
pub const CONFIG_FILE: &'static str = "config.json";
/// The optional environment file.
pub const ENV_FILE: &'static str = ".env";

/// A process to run: program, arguments, added environment and directory.
#[derive(Debug)]
pub struct Invocation {
    pub program: String,
    pub args: Vec<String>,
    pub env: Vec<(String, String)>,
    pub cwd: String,
}

/// The views of environment pairs.
pub open spec fn env_views(v: Seq<(String, String)>) -> Seq<(Seq<char>, Seq<char>)> {
    v.map_values(|p: (String, String)| (p.0@, p.1@))
}

/// Path of the worker's command-line entry in `code_dir`.
pub fn launcher_path(code_dir: &str) -> (r: String)
    ensures
        r@ == path_joined(code_dir@, LAUNCHER_SCRIPT@),
{
    join_path(code_dir, LAUNCHER_SCRIPT)
}

/// Path of the auxiliary script in `code_dir`.
pub fn close_script_path(code_dir: &str) -> (r: String)
    ensures
        r@ == path_joined(code_dir@, CLOSE_SCRIPT@),
{
    join_path(code_dir, CLOSE_SCRIPT)
}

/// Path of the configuration file in `data_dir`.
pub fn config_path(data_dir: &str) -> (r: String)
    ensures
        r@ == path_joined(data_dir@, CONFIG_FILE@),
{
    join_path(data_dir, CONFIG_FILE)
}

/// Path of the environment file in `data_dir`.
pub fn env_file_path(data_dir: &str) -> (r: String)
    ensures
        r@ == path_joined(data_dir@, ENV_FILE@),
{
    join_path(data_dir, ENV_FILE)
}

fn owned(s: &str) -> (r: String)
    ensures
        r@ == s@,
{
    String::from_str(s)
}

/// The environment file of `data_dir` where it exists.
pub open spec fn env_file_if(exists: bool, data_dir: Seq<char>) -> Option<Seq<char>> {
    if exists {
        Some(path_joined(data_dir, ENV_FILE@))
    } else {
        None
    }
}

/// The worker's arguments: its entry, then the configuration flag and path.
pub open spec fn worker_args(code_dir: Seq<char>, data_dir: Seq<char>) -> Seq<Seq<char>> {
    seq![path_joined(code_dir, LAUNCHER_SCRIPT@), "--config"@, path_joined(data_dir, CONFIG_FILE@)]
}

/// The auxiliary script's arguments: the script, the configuration path, and
/// the check-only flag when asked.
pub open spec fn script_args(code_dir: Seq<char>, data_dir: Seq<char>, check_only: bool) -> Seq<Seq<char>> {
    seq![path_joined(code_dir, CLOSE_SCRIPT@), path_joined(data_dir, CONFIG_FILE@)] + if check_only {
        seq!["--check-only"@]
    } else {
        Seq::empty()
    }
}

/// The environment a worker process gets: the host marker, the environment
/// file where there is one, and the data directory.
pub open spec fn worker_env(env_file: Option<Seq<char>>, data_dir: Seq<char>) -> Seq<(Seq<char>, Seq<char>)> {
    seq![("TAURI"@, "1"@)] + (match env_file {
        Some(f) => seq![("DOTENV_CONFIG_PATH"@, f)],
        None => Seq::empty(),
    }) + seq![("DATA_DIR"@, data_dir)]
}

/// The environment the auxiliary script gets.
pub open spec fn script_env(env_file: Option<Seq<char>>, data_dir: Seq<char>) -> Seq<(Seq<char>, Seq<char>)> {
    (match env_file {
        Some(f) => seq![("DOTENV_CONFIG_PATH"@, f)],
        None => Seq::empty(),
    }) + seq![("DOTENV_CONFIG_QUIET"@, "true"@), ("DATA_DIR"@, data_dir)]
}

/// The worker's invocation, or why there is none: the launcher must exist
/// in `code_dir` and the configuration in `data_dir`. The existence flags
/// are those of `launcher_path(code_dir)`, `config_path(data_dir)` and
/// `env_file_path(data_dir)`.
pub fn worker_launch(
    runtime: &str,
    code_dir: &str,
    data_dir: &str,
    launcher_exists: bool,
    config_exists: bool,
    env_file_exists: bool,
) -> (r: Result<Invocation, SupervisorError>)
    ensures
        !launcher_exists ==> (r matches Err(SupervisorError::LauncherMissing { path })
            && path@ == path_joined(code_dir@, LAUNCHER_SCRIPT@)),
        launcher_exists && !config_exists ==> r == Err::<Invocation, SupervisorError>(
            SupervisorError::ConfigMissing,
        ),
        launcher_exists && config_exists ==> (r matches Ok(inv) && inv.program@ == runtime@
            && inv.cwd@ == code_dir@ && views(inv.args@) == worker_args(code_dir@, data_dir@)
            && env_views(inv.env@) == worker_env(env_file_if(env_file_exists, data_dir@), data_dir@)),
{
    let launcher = launcher_path(code_dir);
    if !launcher_exists {
        return Err(SupervisorError::LauncherMissing { path: launcher });
    }
    if !config_exists {
        return Err(SupervisorError::ConfigMissing);
    }
    let cfg = config_path(data_dir);
    let mut args: Vec<String> = Vec::new();
    args.push(launcher);
    args.push(owned("--config"));
    args.push(cfg);
    let mut env: Vec<(String, String)> = Vec::new();
    env.push((owned("TAURI"), owned("1")));
    if env_file_exists {
        env.push((owned("DOTENV_CONFIG_PATH"), env_file_path(data_dir)));
    }
    env.push((owned("DATA_DIR"), owned(data_dir)));
    let inv = Invocation { program: owned(runtime), args, env, cwd: owned(code_dir) };
    proof {
        assert(views(inv.args@) =~= worker_args(code_dir@, data_dir@));
        assert(env_views(inv.env@) =~= worker_env(env_file_if(env_file_exists, data_dir@), data_dir@));
    }
    Ok(inv)
}

/// The failure of a spawn: a missing runtime executable is told apart from
/// other refusals.
pub fn spawn_error(runtime: &str, runtime_missing: bool, detail: &str) -> (r: SupervisorError)
    ensures
        runtime_missing ==> (r matches SupervisorError::RuntimeMissingAtSpawn { runtime: n }
            && n@ == runtime@),
        !runtime_missing ==> (r matches SupervisorError::SpawnFailed { detail: d } && d@ == detail@),
{
    if runtime_missing {
        SupervisorError::RuntimeMissingAtSpawn { runtime: owned(runtime) }
    } else {
        SupervisorError::SpawnFailed { detail: owned(detail) }
    }
}

/// The auxiliary script's invocation, or why there is none: the script must
/// exist in `code_dir`. With `check_only` it only reports the position.
pub fn script_launch(
    runtime: &str,
    code_dir: &str,
    data_dir: &str,
    script_exists: bool,
    env_file_exists: bool,
    check_only: bool,
) -> (r: Result<Invocation, SupervisorError>)
    ensures
        !script_exists ==> r == Err::<Invocation, SupervisorError>(SupervisorError::ScriptMissing),
        script_exists ==> (r matches Ok(inv) && inv.program@ == runtime@ && inv.cwd@ == code_dir@
            && views(inv.args@) == script_args(code_dir@, data_dir@, check_only)
            && env_views(inv.env@) == script_env(env_file_if(env_file_exists, data_dir@), data_dir@)),
{
    if !script_exists {
        return Err(SupervisorError::ScriptMissing);
    }
    let mut args: Vec<String> = Vec::new();
    args.push(close_script_path(code_dir));
    args.push(config_path(data_dir));
    if check_only {
        args.push(owned("--check-only"));
    }
    let mut env: Vec<(String, String)> = Vec::new();
    if env_file_exists {
        env.push((owned("DOTENV_CONFIG_PATH"), env_file_path(data_dir)));
    }
    env.push((owned("DOTENV_CONFIG_QUIET"), owned("true")));
    env.push((owned("DATA_DIR"), owned(data_dir)));
    let inv = Invocation { program: owned(runtime), args, env, cwd: owned(code_dir) };
    proof {
        assert(views(inv.args@) =~= script_args(code_dir@, data_dir@, check_only));
        assert(env_views(inv.env@) =~= script_env(env_file_if(env_file_exists, data_dir@), data_dir@));
    }
    Ok(inv)
}

/// The last of `ls` that begins with `{`.
pub open spec fn last_brace_line(ls: Seq<Seq<char>>) -> Option<Seq<char>>
    decreases ls.len(),
{
    if ls.len() == 0 {
        None
    } else if ls.last().len() > 0 && ls.last()[0] == '{' {
        Some(ls.last())
    } else {
        last_brace_line(ls.drop_last())
    }
}

/// The result line of a script's standard output: of the lines of the
/// trimmed output, the last that begins with `{`.
pub open spec fn result_line(stdout: Seq<char>) -> Option<Seq<char>> {
    last_brace_line(lines(trimmed(stdout)))
}

/// The result line of `stdout`, if any line begins with `{`.
pub fn extract_result_line(stdout: &str) -> (r: Option<String>)
    ensures
        match r {
            Some(l) => result_line(stdout@) == Some(l@),
            None => result_line(stdout@) is None,
        },
{
    let t = trim(stdout);
    let ls = lines_of(t.as_str());
    let ghost all = views(ls@);
    let mut i = ls.len();
    proof {
        assert(all.take(i as int) =~= all);
        assert(all == lines(trimmed(stdout@)));
    }
    while i > 0
        invariant
            i <= ls.len(),
            all == views(ls@),
            all == lines(trimmed(stdout@)),
            last_brace_line(all) == last_brace_line(all.take(i as int)),
        decreases i,
    {
        let ghost front = all.take(i as int);
        proof {
            assert(front.last() == ls@[i - 1]@);
            assert(front.drop_last() =~= all.take(i - 1));
        }
        if starts_with_char(ls[i - 1].as_str(), '{') {
            let found = ls[i - 1].clone();
            proof {
                assert(last_brace_line(front) == Some(front.last()));
                assert(found@ == front.last());
            }
            return Some(found);
        }
        i = i - 1;
    }
    proof {
        assert(all.take(0) =~= Seq::<Seq<char>>::empty());
    }
    None
}

/// A script's result: its result line, else a failure carrying its trimmed
/// standard error.
pub fn script_outcome(stdout: &str, stderr: &str) -> (r: Result<String, SupervisorError>)
    ensures
        match result_line(stdout@) {
            Some(l) => r matches Ok(s) && s@ == l,
            None => r matches Err(SupervisorError::ScriptFailed { stderr: e })
                && e@ == trimmed(stderr@),
        },
{
    match extract_result_line(stdout) {
        Some(l) => Ok(l),
        None => Err(SupervisorError::ScriptFailed { stderr: trim(stderr) }),
    }
}

} // verus!
