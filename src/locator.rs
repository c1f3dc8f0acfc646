//! Discovery of the runtime interpreter: the candidate paths, the ordered
//! probes that test them, and the reading of what the probes print.

use vstd::prelude::*;
use crate::launch::Invocation;
use crate::paths::{join_path, path_joined};
use crate::text::{lines, lines_of, starts_with_prefix, trim, trimmed, views};

verus! {

/// The fixed install places, under the home directory `home` where relative
/// to it: system, Homebrew, pnpm, Volta, user-local, and `n`.
pub open spec fn fixed_places(home: Seq<char>) -> Seq<Seq<char>> {
    seq![
        "/usr/local/bin/node"@,
        "/opt/homebrew/bin/node"@,
        home + "/Library/pnpm/node"@,
        home + "/.local/share/pnpm/node"@,
        home + "/.volta/bin/node"@,
        home + "/.local/bin/node"@,
        home + "/n/bin/node"@,
    ]
}

/// An entry of a version manager's directory: its name and its full path.
#[derive(Debug)]
pub struct DirEntry {
    pub name: String,
    pub path: String,
}

/// The interpreters of the installed versions in `entries` whose name
/// begins with `v` and the default version `ver`.
pub open spec fn nvm_picks(ver: Seq<char>, entries: Seq<DirEntry>) -> Seq<Seq<char>>
    decreases entries.len(),
{
    if entries.len() == 0 {
        Seq::empty()
    } else {
        nvm_picks(ver, entries.drop_last()) + if prefix_of(seq!['v'] + ver, entries.last().name@) {
            seq![entries.last().path@ + "/bin/node"@]
        } else {
            Seq::empty()
        }
    }
}

/// Whether `p` begins `s`.
pub open spec fn prefix_of(p: Seq<char>, s: Seq<char>) -> bool {
    p.len() <= s.len() && s.take(p.len() as int) == p
}

/// The interpreters of every version the second manager installed.
pub open spec fn fnm_picks(entries: Seq<Seq<char>>) -> Seq<Seq<char>> {
    entries.map_values(|e: Seq<char>| e + "/installation/bin/node"@)
}

/// Every candidate interpreter, in the order they are tried: the fixed
/// places, the default version of the first manager (when its marker could
/// be read; the marker's text is trimmed), then the second manager's
/// versions.
pub open spec fn node_places(
    home: Seq<char>,
    nvm_default: Option<Seq<char>>,
    nvm_entries: Seq<DirEntry>,
    fnm_entries: Seq<Seq<char>>,
) -> Seq<Seq<char>> {
    fixed_places(home) + (match nvm_default {
        Some(raw) => nvm_picks(trimmed(raw), nvm_entries),
        None => Seq::empty(),
    }) + fnm_picks(fnm_entries)
}

fn concat(a: &str, b: &str) -> (r: String)
    ensures
        r@ == a@ + b@,
{
    let mut s = String::from_str(a);
    s.append(b);
    s
}

/// The first manager's directory: its variable where set, else `.nvm` in
/// the home directory.
pub fn nvm_dir(home: &str, nvm_env: Option<String>) -> (r: String)
    ensures
        r@ == match nvm_env {
            Some(d) => d@,
            None => home@ + "/.nvm"@,
        },
{
    match nvm_env {
        Some(d) => d,
        None => concat(home, "/.nvm"),
    }
}

/// The file naming the first manager's default version.
pub fn nvm_default_file(nvm_dir: &str) -> (r: String)
    ensures
        r@ == path_joined(nvm_dir@, "alias/default"@),
{
    join_path(nvm_dir, "alias/default")
}

/// The directory of the first manager's installed versions.
pub fn nvm_versions_dir(nvm_dir: &str) -> (r: String)
    ensures
        r@ == path_joined(nvm_dir@, "versions/node"@),
{
    join_path(nvm_dir, "versions/node")
}

/// The directory of the second manager's installed versions.
pub fn fnm_versions_dir(home: &str) -> (r: String)
    ensures
        r@ == home@ + "/.local/share/fnm/node-versions"@,
{
    concat(home, "/.local/share/fnm/node-versions")
}

/// Every candidate interpreter, in the order they are tried.
pub fn node_candidates(
    home: &str,
    nvm_default: Option<String>,
    nvm_entries: &Vec<DirEntry>,
    fnm_entries: &Vec<String>,
) -> (r: Vec<String>)
    ensures
        views(r@) == node_places(home@, opt_str(nvm_default), nvm_entries@, views(fnm_entries@)),
{
    let mut r: Vec<String> = Vec::new();
    r.push(String::from_str("/usr/local/bin/node"));
    r.push(String::from_str("/opt/homebrew/bin/node"));
    r.push(concat(home, "/Library/pnpm/node"));
    r.push(concat(home, "/.local/share/pnpm/node"));
    r.push(concat(home, "/.volta/bin/node"));
    r.push(concat(home, "/.local/bin/node"));
    r.push(concat(home, "/n/bin/node"));
    proof {
        assert(views(r@) =~= fixed_places(home@));
    }
    let ghost fixed = views(r@);
    match &nvm_default {
        Some(raw) => {
            let ver = trim(raw.as_str());
            let want = concat("v", ver.as_str());
            proof {
                reveal_strlit("v");
                assert(want@ =~= seq!['v'] + trimmed(raw@));
            }
            let mut i: usize = 0;
            while i < nvm_entries.len()
                invariant
                    i <= nvm_entries.len(),
                    want@ == seq!['v'] + trimmed(raw@),
                    views(r@) == fixed + nvm_picks(trimmed(raw@), nvm_entries@.take(i as int)),
                decreases nvm_entries.len() - i,
            {
                let ghost before = views(r@);
                proof {
                    let t = nvm_entries@.take(i + 1);
                    assert(t.drop_last() =~= nvm_entries@.take(i as int));
                    assert(t.last() == nvm_entries@[i as int]);
                }
                if starts_with_prefix(nvm_entries[i].name.as_str(), want.as_str()) {
                    r.push(concat(nvm_entries[i].path.as_str(), "/bin/node"));
                    proof {
                        assert(views(r@) =~= before + seq![nvm_entries@[i as int].path@ + "/bin/node"@]);
                    }
                } else {
                    proof {
                        assert(views(r@) =~= before + Seq::<Seq<char>>::empty());
                    }
                }
                i = i + 1;
            }
            proof {
                assert(nvm_entries@.take(i as int) =~= nvm_entries@);
            }
        },
        None => {
            proof {
                assert(views(r@) =~= fixed + Seq::<Seq<char>>::empty());
            }
        },
    }
    let ghost mid = views(r@);
    let mut j: usize = 0;
    while j < fnm_entries.len()
        invariant
            j <= fnm_entries.len(),
            views(r@) == mid + fnm_picks(views(fnm_entries@).take(j as int)),
        decreases fnm_entries.len() - j,
    {
        let ghost before = views(r@);
        r.push(concat(fnm_entries[j].as_str(), "/installation/bin/node"));
        proof {
            assert(fnm_picks(views(fnm_entries@).take(j + 1)) =~= fnm_picks(
                views(fnm_entries@).take(j as int),
            ).push(fnm_entries@[j as int]@ + "/installation/bin/node"@));
            assert(views(r@) =~= before.push(fnm_entries@[j as int]@ + "/installation/bin/node"@));
        }
        j = j + 1;
    }
    proof {
        assert(views(fnm_entries@).take(j as int) =~= views(fnm_entries@));
    }
    r
}

/// The view of an optional string.
pub open spec fn opt_str(o: Option<String>) -> Option<Seq<char>> {
    match o {
        Some(s) => Some(s@),
        None => None,
    }
}

/// One probe of the search, tried in order until one finds the runtime.
#[derive(Debug)]
pub enum RuntimeProbe {
    /// Accept `path` if it exists and answers the version query successfully.
    Binary { path: String },
    /// Run the login shell; read its answer with `shell_answer`, and accept
    /// it if that path exists.
    Shell { command: Invocation },
    /// Accept `path` if it exists.
    Installed { path: String },
    /// Run the system's path lookup; read its answer with `lookup_answer`.
    Lookup { command: Invocation },
}

/// The arguments of the version query.
pub fn version_query_args() -> (r: Vec<String>)
    ensures
        views(r@) == seq!["--version"@],
{
    let mut r: Vec<String> = Vec::new();
    r.push(String::from_str("--version"));
    proof {
        assert(views(r@) =~= seq!["--version"@]);
    }
    r
}

fn shell_probe(shell: &str) -> (r: RuntimeProbe)
    ensures
        r matches RuntimeProbe::Shell { command } && command.program@ == shell@
            && views(command.args@) == seq!["-lc"@, "which node"@] && command.env@.len() == 0,
{
    let mut args: Vec<String> = Vec::new();
    args.push(String::from_str("-lc"));
    args.push(String::from_str("which node"));
    proof {
        assert(views(args@) =~= seq!["-lc"@, "which node"@]);
    }
    RuntimeProbe::Shell {
        command: Invocation { program: String::from_str(shell), args, env: Vec::new(), cwd: String::new() },
    }
}

/// What a probe tries, as values.
pub enum ProbeKind {
    Binary(Seq<char>),
    Shell(Seq<char>, Seq<Seq<char>>),
    Installed(Seq<char>),
    Lookup(Seq<char>, Seq<Seq<char>>),
}

/// The view of a probe.
pub open spec fn probe_kind(p: RuntimeProbe) -> ProbeKind {
    match p {
        RuntimeProbe::Binary { path } => ProbeKind::Binary(path@),
        RuntimeProbe::Shell { command } => ProbeKind::Shell(command.program@, views(command.args@)),
        RuntimeProbe::Installed { path } => ProbeKind::Installed(path@),
        RuntimeProbe::Lookup { command } => ProbeKind::Lookup(command.program@, views(command.args@)),
    }
}

/// The probes, in order: each candidate; then, on a POSIX host, the two
/// login shells; else the two standard install places and the lookup tool.
pub open spec fn probe_plan(candidates: Seq<Seq<char>>, posix: bool) -> Seq<ProbeKind> {
    candidates.map_values(|c: Seq<char>| ProbeKind::Binary(c)) + if posix {
        seq![
            ProbeKind::Shell("/bin/bash"@, seq!["-lc"@, "which node"@]),
            ProbeKind::Shell("/bin/zsh"@, seq!["-lc"@, "which node"@]),
        ]
    } else {
        seq![
            ProbeKind::Installed("C:\\Program Files\\nodejs\\node.exe"@),
            ProbeKind::Installed("C:\\Program Files (x86)\\nodejs\\node.exe"@),
            ProbeKind::Lookup("where"@, seq!["node"@]),
        ]
    }
}

/// The probes of the search, in the order they are tried.
pub fn runtime_probes(candidates: &Vec<String>, posix: bool) -> (r: Vec<RuntimeProbe>)
    ensures
        r@.map_values(|p: RuntimeProbe| probe_kind(p)) == probe_plan(views(candidates@), posix),
{
    let mut r: Vec<RuntimeProbe> = Vec::new();
    let mut i: usize = 0;
    while i < candidates.len()
        invariant
            i <= candidates.len(),
            r@.map_values(|p: RuntimeProbe| probe_kind(p)) == views(candidates@).take(i as int).map_values(
                |c: Seq<char>| ProbeKind::Binary(c),
            ),
        decreases candidates.len() - i,
    {
        let ghost before = r@;
        let path = candidates[i].clone();
        r.push(RuntimeProbe::Binary { path });
        proof {
            let k = ProbeKind::Binary(candidates@[i as int]@);
            assert(r@ == before.push(RuntimeProbe::Binary { path }));
            assert(r@.map_values(|p: RuntimeProbe| probe_kind(p)) =~= before.map_values(
                |p: RuntimeProbe| probe_kind(p),
            ).push(k));
            assert(views(candidates@).take(i + 1).map_values(|c: Seq<char>| ProbeKind::Binary(c))
                =~= views(candidates@).take(i as int).map_values(|c: Seq<char>| ProbeKind::Binary(c)).push(k));
        }
        i = i + 1;
    }
    let ghost front = r@.map_values(|p: RuntimeProbe| probe_kind(p));
    if posix {
        r.push(shell_probe("/bin/bash"));
        r.push(shell_probe("/bin/zsh"));
    } else {
        r.push(RuntimeProbe::Installed { path: String::from_str("C:\\Program Files\\nodejs\\node.exe") });
        r.push(RuntimeProbe::Installed { path: String::from_str("C:\\Program Files (x86)\\nodejs\\node.exe") });
        let mut args: Vec<String> = Vec::new();
        args.push(String::from_str("node"));
        proof {
            assert(views(args@) =~= seq!["node"@]);
        }
        r.push(RuntimeProbe::Lookup {
            command: Invocation { program: String::from_str("where"), args, env: Vec::new(), cwd: String::new() },
        });
    }
    proof {
        assert(views(candidates@).take(i as int) =~= views(candidates@));
        assert(r@.map_values(|p: RuntimeProbe| probe_kind(p)) =~= probe_plan(views(candidates@), posix));
    }
    r
}

/// A login shell's answer: its trimmed output, when it succeeded and printed
/// something.
pub open spec fn shell_path(success: bool, stdout: Seq<char>) -> Option<Seq<char>> {
    if success && trimmed(stdout).len() > 0 {
        Some(trimmed(stdout))
    } else {
        None
    }
}

/// Reads a login shell's answer.
pub fn shell_answer(success: bool, stdout: &str) -> (r: Option<String>)
    ensures
        opt_str(r) == shell_path(success, stdout@),
{
    if !success {
        return None;
    }
    let t = trim(stdout);
    if t.unicode_len() > 0 {
        Some(t)
    } else {
        None
    }
}

/// The lookup tool's answer: the first line of its output, trimmed, when it
/// succeeded and that is not empty.
pub open spec fn lookup_path(success: bool, stdout: Seq<char>) -> Option<Seq<char>> {
    let first = if lines(stdout).len() > 0 {
        trimmed(lines(stdout)[0])
    } else {
        Seq::empty()
    };
    if success && first.len() > 0 {
        Some(first)
    } else {
        None
    }
}

/// Reads the lookup tool's answer.
pub fn lookup_answer(success: bool, stdout: &str) -> (r: Option<String>)
    ensures
        opt_str(r) == lookup_path(success, stdout@),
{
    if !success {
        return None;
    }
    let ls = lines_of(stdout);
    if ls.len() == 0 {
        return None;
    }
    let t = trim(ls[0].as_str());
    if t.unicode_len() > 0 {
        Some(t)
    } else {
        None
    }
}

} // verus!
