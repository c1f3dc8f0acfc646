//! Where the worker's code and the user's data live, and how a bundled copy
//! of the worker is provisioned into a writable place.

use vstd::prelude::*;
use crate::errors::SupervisorError;
use crate::launch::{Invocation, DEPS_DIR, ENTRY_SCRIPT, WORKER_DIR};
use crate::paths::{join_path, parent_dir, path_joined, path_parent};
use crate::text::{contains, contains_str, ends_with, ends_with_str, views};

verus! {

/// Name of the per-user data directory inside the platform's configuration
/// directory.
pub const DATA_DIR_NAME: &'static str = "hl-signalbot";
/// Where an application bundle keeps its resources, from its executable.
pub const BUNDLE_RESOURCES: &'static str = "../Resources";

/// Relies on `dirs::config_dir`: the platform's per-user configuration
/// directory as the environment gives it; nothing is promised of it.
#[verifier::external_body]
fn platform_config_dir() -> (r: Option<String>) {
    match dirs::config_dir() {
        Some(p) => Some(p.to_string_lossy().into_owned()),
        None => None,
    }
}

/// The data directory under the configuration directory `base`, if known.
pub fn data_dir_under(base: Option<String>) -> (r: Result<String, SupervisorError>)
    ensures
        match base {
            Some(b) => r matches Ok(d) && d@ == path_joined(b@, DATA_DIR_NAME@),
            None => r == Err::<String, SupervisorError>(SupervisorError::DataDirUnknown),
        },
{
    match base {
        Some(b) => Ok(join_path(b.as_str(), DATA_DIR_NAME)),
        None => Err(SupervisorError::DataDirUnknown),
    }
}

/// The user's data directory: the same for every installation of the host
/// program. The caller creates it where it is missing.
pub fn user_data_dir() -> (r: Result<String, SupervisorError>)
    ensures
        match r {
            Ok(d) => exists|b: Seq<char>| d@ == #[trigger] path_joined(b, DATA_DIR_NAME@),
            Err(e) => e == SupervisorError::DataDirUnknown,
        },
{
    data_dir_under(platform_config_dir())
}

/// The worker directory inside `base`.
pub fn worker_dir_in(base: &str) -> (r: String)
    ensures
        r@ == path_joined(base@, WORKER_DIR@),
{
    join_path(base, WORKER_DIR)
}

/// Path of the entry script in the worker directory `dir`.
pub fn entry_path(dir: &str) -> (r: String)
    ensures
        r@ == path_joined(dir@, ENTRY_SCRIPT@),
{
    join_path(dir, ENTRY_SCRIPT)
}

/// Path of the dependency directory in the worker directory `dir`.
pub fn deps_path(dir: &str) -> (r: String)
    ensures
        r@ == path_joined(dir@, DEPS_DIR@),
{
    join_path(dir, DEPS_DIR)
}

/// The development layouts, in order: the worker directory in the current
/// directory, then in its parent.
pub fn dev_candidates(cwd: &str, cwd_parent: &str) -> (r: Vec<String>)
    ensures
        views(r@) == seq![path_joined(cwd@, WORKER_DIR@), path_joined(cwd_parent@, WORKER_DIR@)],
{
    let mut r: Vec<String> = Vec::new();
    r.push(worker_dir_in(cwd));
    r.push(worker_dir_in(cwd_parent));
    proof {
        assert(views(r@) =~= seq![path_joined(cwd@, WORKER_DIR@), path_joined(cwd_parent@, WORKER_DIR@)]);
    }
    r
}

/// The places of a bundled copy, in order: beside the executable, in the
/// bundle's resources next to it, then in the framework's resource directory.
pub open spec fn bundle_places(exe_dir: Option<Seq<char>>, resource_dir: Option<Seq<char>>) -> Seq<Seq<char>> {
    (match exe_dir {
        Some(e) => seq![
            path_joined(e, WORKER_DIR@),
            path_joined(path_joined(e, BUNDLE_RESOURCES@), WORKER_DIR@),
        ],
        None => Seq::empty(),
    }) + (match resource_dir {
        Some(d) => seq![path_joined(d, WORKER_DIR@)],
        None => Seq::empty(),
    })
}

/// The view of an optional string.
pub open spec fn opt_view(o: Option<String>) -> Option<Seq<char>> {
    match o {
        Some(s) => Some(s@),
        None => None,
    }
}

/// The places where a bundled copy of the worker may be.
pub fn bundle_candidates(exe_dir: Option<String>, resource_dir: Option<String>) -> (r: Vec<String>)
    ensures
        views(r@) == bundle_places(opt_view(exe_dir), opt_view(resource_dir)),
{
    let mut r: Vec<String> = Vec::new();
    match &exe_dir {
        Some(e) => {
            r.push(worker_dir_in(e.as_str()));
            let res = join_path(e.as_str(), BUNDLE_RESOURCES);
            r.push(worker_dir_in(res.as_str()));
        },
        None => {},
    }
    match &resource_dir {
        Some(d) => {
            r.push(worker_dir_in(d.as_str()));
        },
        None => {},
    }
    proof {
        assert(views(r@) =~= bundle_places(opt_view(exe_dir), opt_view(resource_dir)));
    }
    r
}

/// What was found at a candidate worker directory.
#[derive(Debug)]
pub struct DirProbe {
    pub path: String,
    /// Whether its entry script exists.
    pub has_entry: bool,
    /// Whether its dependency directory exists.
    pub has_deps: bool,
}

/// A directory that can run the worker as it is.
pub open spec fn ready(p: DirProbe) -> bool {
    p.has_entry && p.has_deps
}

/// The path of the first ready directory of `ps`.
pub open spec fn first_ready(ps: Seq<DirProbe>) -> Option<Seq<char>>
    decreases ps.len(),
{
    if ps.len() == 0 {
        None
    } else if ready(ps[0]) {
        Some(ps[0].path@)
    } else {
        first_ready(ps.drop_first())
    }
}

/// The path of the first directory of `ps` that holds the entry script.
pub open spec fn first_bundle(ps: Seq<DirProbe>) -> Option<Seq<char>>
    decreases ps.len(),
{
    if ps.len() == 0 {
        None
    } else if ps[0].has_entry {
        Some(ps[0].path@)
    } else {
        first_bundle(ps.drop_first())
    }
}

fn find_ready(ps: &Vec<DirProbe>, need_deps: bool) -> (r: Option<String>)
    ensures
        opt_view(r) == if need_deps {
            first_ready(ps@)
        } else {
            first_bundle(ps@)
        },
{
    let mut i: usize = 0;
    proof {
        assert(ps@.skip(0) =~= ps@);
    }
    while i < ps.len()
        invariant
            i <= ps.len(),
            need_deps ==> first_ready(ps@) == first_ready(ps@.skip(i as int)),
            !need_deps ==> first_bundle(ps@) == first_bundle(ps@.skip(i as int)),
        decreases ps.len() - i,
    {
        proof {
            assert(ps@.skip(i as int)[0] == ps@[i as int]);
            assert(ps@.skip(i as int).drop_first() =~= ps@.skip(i + 1));
        }
        if ps[i].has_entry && (!need_deps || ps[i].has_deps) {
            return Some(ps[i].path.clone());
        }
        i = i + 1;
    }
    proof {
        assert(ps@.skip(i as int).len() == 0);
    }
    None
}

/// Where the worker's code is to come from.
#[derive(Debug)]
pub enum CodeDirPlan {
    /// Run the worker from this directory.
    Ready { dir: String },
    /// Copy the bundle at `source` into `target`, install its dependencies,
    /// then run from `target`.
    Provision { source: String, target: String },
}

/// The choice of the code directory: the first ready development layout,
/// else the writable copy if it is ready, else a provisioning of the
/// writable copy from the first bundled copy found.
pub open spec fn code_dir_choice(dev: Seq<DirProbe>, writable: DirProbe, bundles: Seq<DirProbe>) -> Option<(Seq<char>, Option<Seq<char>>)> {
    match first_ready(dev) {
        Some(d) => Some((d, None)),
        None => if ready(writable) {
            Some((writable.path@, None))
        } else {
            match first_bundle(bundles) {
                Some(b) => Some((writable.path@, Some(b))),
                None => None,
            }
        },
    }
}

/// Decides where the worker's code comes from; `Ready` and `Provision`
/// follow `code_dir_choice`, whose second part is the bundle to copy.
pub fn plan_code_dir(dev: &Vec<DirProbe>, writable: &DirProbe, bundles: &Vec<DirProbe>) -> (r: Result<CodeDirPlan, SupervisorError>)
    ensures
        match code_dir_choice(dev@, *writable, bundles@) {
            Some((d, None)) => r matches Ok(CodeDirPlan::Ready { dir }) && dir@ == d,
            Some((t, Some(b))) => r matches Ok(CodeDirPlan::Provision { source, target })
                && source@ == b && target@ == t,
            None => r == Err::<CodeDirPlan, SupervisorError>(SupervisorError::BundleNotFound),
        },
{
    match find_ready(dev, true) {
        Some(d) => Ok(CodeDirPlan::Ready { dir: d }),
        None => if writable.has_entry && writable.has_deps {
            Ok(CodeDirPlan::Ready { dir: writable.path.clone() })
        } else {
            match find_ready(bundles, false) {
                Some(b) => Ok(CodeDirPlan::Provision { source: b, target: writable.path.clone() }),
                None => Err(SupervisorError::BundleNotFound),
            }
        },
    }
}

/// The package manager's places beside the runtime at `node_path`: the
/// POSIX launcher, then the Windows one.
pub open spec fn npm_places(node_path: Seq<char>) -> Seq<Seq<char>> {
    match path_parent(node_path) {
        Some(d) => seq![path_joined(d, "npm"@), path_joined(d, "npm.cmd"@)],
        None => Seq::empty(),
    }
}

/// The package manager's places beside the runtime at `node_path`.
pub fn npm_candidates(node_path: &str) -> (r: Vec<String>)
    ensures
        views(r@) == npm_places(node_path@),
{
    let mut r: Vec<String> = Vec::new();
    match parent_dir(node_path) {
        Some(d) => {
            r.push(join_path(d.as_str(), "npm"));
            r.push(join_path(d.as_str(), "npm.cmd"));
        },
        None => {},
    }
    proof {
        assert(views(r@) =~= npm_places(node_path@));
    }
    r
}

/// The first of `places` whose flag in `present` is set, else the bare
/// command name, left to the search path.
pub open spec fn npm_choice(places: Seq<Seq<char>>, present: Seq<bool>) -> Seq<char>
    decreases places.len(),
{
    if places.len() == 0 {
        "npm"@
    } else if present.len() > 0 && present[0] {
        places[0]
    } else {
        npm_choice(places.drop_first(), if present.len() > 0 { present.drop_first() } else { present })
    }
}

/// The package manager to run: the first of `npm_candidates(node_path)`
/// that exists (`present` holds the existence of each, in order; a missing
/// flag counts as absent), else `npm` from the search path.
pub fn find_npm(node_path: &str, present: &Vec<bool>) -> (r: Result<String, String>)
    ensures
        r matches Ok(p) && p@ == npm_choice(npm_places(node_path@), present@),
{
    let places = npm_candidates(node_path);
    let ghost ps = views(places@);
    let mut i: usize = 0;
    proof {
        assert(ps.skip(0) =~= ps);
        assert(present@.skip(0) =~= present@);
    }
    while i < places.len()
        invariant
            i <= places.len(),
            ps == views(places@),
            ps == npm_places(node_path@),
            npm_choice(ps, present@) == npm_choice(ps.skip(i as int), if i <= present.len() {
                present@.skip(i as int)
            } else {
                Seq::empty()
            }),
        decreases places.len() - i,
    {
        proof {
            assert(ps.skip(i as int).drop_first() =~= ps.skip(i + 1));
            if i < present.len() {
                assert(present@.skip(i as int).drop_first() =~= present@.skip(i + 1));
                assert(present@.skip(i as int)[0] == present@[i as int]);
            }
            if i == present.len() {
                assert(present@.skip(i as int) =~= Seq::<bool>::empty());
            }
        }
        if i < present.len() && present[i] {
            return Ok(places[i].clone());
        }
        i = i + 1;
    }
    Ok(String::from_str("npm"))
}

/// The extensions of the files a provisioning copies: worker modules, JSON
/// data, example templates.
pub open spec fn copied_name(name: Seq<char>) -> bool {
    ends_with(name, ".mjs"@) || ends_with(name, ".json"@) || ends_with(name, ".example"@)
}

/// Whether a provisioning copies the file `name`.
pub fn should_copy(name: &str) -> (r: bool)
    ensures
        r == copied_name(name@),
{
    ends_with_str(name, ".mjs") || ends_with_str(name, ".json") || ends_with_str(name, ".example")
}

/// The names of `names` that a provisioning copies, in order.
pub open spec fn copy_list(names: Seq<Seq<char>>) -> Seq<Seq<char>>
    decreases names.len(),
{
    if names.len() == 0 {
        Seq::empty()
    } else {
        copy_list(names.drop_last()) + if copied_name(names.last()) {
            seq![names.last()]
        } else {
            Seq::empty()
        }
    }
}

/// The files of a bundle listing that a provisioning copies, in order.
pub fn files_to_copy(names: &Vec<String>) -> (r: Vec<String>)
    ensures
        views(r@) == copy_list(views(names@)),
{
    let mut out: Vec<String> = Vec::new();
    let mut i: usize = 0;
    while i < names.len()
        invariant
            i <= names.len(),
            views(out@) == copy_list(views(names@).take(i as int)),
        decreases names.len() - i,
    {
        let ghost before = out@;
        proof {
            let t = views(names@).take(i + 1);
            assert(t.drop_last() =~= views(names@).take(i as int));
            assert(t.last() == names@[i as int]@);
        }
        if should_copy(names[i].as_str()) {
            out.push(names[i].clone());
            proof {
                assert(views(out@) =~= views(before) + seq![names@[i as int]@]);
            }
        } else {
            proof {
                assert(views(out@) =~= views(before) + Seq::<Seq<char>>::empty());
            }
        }
        i = i + 1;
    }
    proof {
        assert(views(names@).take(i as int) =~= views(names@));
    }
    out
}

/// The dependency installation in `target` with the package manager `npm`:
/// production dependencies only.
pub fn install_invocation(npm: &str, target: &str) -> (r: Invocation)
    ensures
        r.program@ == npm@,
        views(r.args@) == seq!["install"@, "--production"@],
        r.env@.len() == 0,
        r.cwd@ == target@,
{
    let mut args: Vec<String> = Vec::new();
    args.push(String::from_str("install"));
    args.push(String::from_str("--production"));
    proof {
        assert(views(args@) =~= seq!["install"@, "--production"@]);
    }
    Invocation { program: String::from_str(npm), args, env: Vec::new(), cwd: String::from_str(target) }
}

/// How the dependency installation went.
pub enum InstallRun {
    /// The package manager could not be started.
    NotRun { detail: String },
    /// It ran to its end; `stderr` is what it wrote there.
    Finished { success: bool, stderr: String },
}

/// The result of a provisioning from its installation: success only when the
/// package manager ran and succeeded.
pub fn install_outcome(run: &InstallRun) -> (r: Result<(), SupervisorError>)
    ensures
        match run {
            InstallRun::NotRun { detail } => r matches Err(SupervisorError::InstallNotRun { detail: d })
                && d@ == detail@,
            InstallRun::Finished { success, stderr } => if *success {
                r is Ok
            } else {
                r matches Err(SupervisorError::InstallFailed { output }) && output@ == stderr@
            },
        },
{
    match run {
        InstallRun::NotRun { detail } => Err(SupervisorError::InstallNotRun { detail: detail.clone() }),
        InstallRun::Finished { success, stderr } => if *success {
            Ok(())
        } else {
            Err(SupervisorError::InstallFailed { output: stderr.clone() })
        },
    }
}

/// A directory's files: name to content.
pub type FileTree = Map<Seq<char>, Seq<u8>>;

/// `target` after the copy of the selected files of `source` into it.
pub open spec fn copied_into(target: FileTree, source: FileTree) -> FileTree {
    target.union_prefer_right(source.restrict(source.dom().filter(|n: Seq<char>| copied_name(n))))
}

/// Copying a bundle into a target a second time changes nothing more: the
/// files copied are the same, with the same contents.
pub proof fn lemma_copy_idempotent(target: FileTree, source: FileTree)
    ensures
        copied_into(copied_into(target, source), source) == copied_into(target, source),
{
    assert(copied_into(copied_into(target, source), source) =~= copied_into(target, source));
}

/// Files of the data directory readable by their owner alone: those whose
/// name holds `private`, and the environment file.
pub open spec fn owner_only(name: Seq<char>) -> bool {
    contains(name, "private"@) || name == ".env"@
}

/// Whether the data file `name` is written with owner-only permissions.
pub fn is_owner_only(name: &str) -> (r: bool)
    ensures
        r == owner_only(name@),
{
    let env = String::from_str(".env");
    let same = String::from_str(name) == env;
    contains_str(name, "private") || same
}

} // verus!
