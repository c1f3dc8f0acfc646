use signalbot::locator::{
    fnm_versions_dir, lookup_answer, node_candidates, nvm_default_file, nvm_dir, nvm_versions_dir,
    runtime_probes, shell_answer, version_query_args, DirEntry, RuntimeProbe,
};

fn strs(v: &[&str]) -> Vec<String> {
    v.iter().map(|s| s.to_string()).collect()
}

#[test]
fn manager_directories() {
    assert_eq!(nvm_dir("/home/u", None), "/home/u/.nvm");
    assert_eq!(nvm_dir("/home/u", Some("/opt/nvm".to_string())), "/opt/nvm");
    assert_eq!(nvm_default_file("/home/u/.nvm"), "/home/u/.nvm/alias/default");
    assert_eq!(nvm_versions_dir("/home/u/.nvm"), "/home/u/.nvm/versions/node");
    assert_eq!(fnm_versions_dir("/home/u"), "/home/u/.local/share/fnm/node-versions");
}

#[test]
fn candidates_in_order() {
    let nvm = vec![
        DirEntry { name: "v18.19.0".to_string(), path: "/n/v18.19.0".to_string() },
        DirEntry { name: "v20.1.0".to_string(), path: "/n/v20.1.0".to_string() },
        DirEntry { name: "v18.2.1".to_string(), path: "/n/v18.2.1".to_string() },
    ];
    let fnm = strs(&["/f/v21"]);
    let c = node_candidates("/home/u", Some(" 18\n".to_string()), &nvm, &fnm);
    assert_eq!(
        c,
        strs(&[
            "/usr/local/bin/node",
            "/opt/homebrew/bin/node",
            "/home/u/Library/pnpm/node",
            "/home/u/.local/share/pnpm/node",
            "/home/u/.volta/bin/node",
            "/home/u/.local/bin/node",
            "/home/u/n/bin/node",
            "/n/v18.19.0/bin/node",
            "/n/v18.2.1/bin/node",
            "/f/v21/installation/bin/node",
        ])
    );
    let c = node_candidates("", None, &nvm, &vec![]);
    assert_eq!(c.len(), 7);
    assert_eq!(c[2], "/Library/pnpm/node");
}

#[test]
fn probes_in_order() {
    let p = runtime_probes(&strs(&["/a/node"]), true);
    assert_eq!(p.len(), 3);
    match &p[0] {
        RuntimeProbe::Binary { path } => assert_eq!(path, "/a/node"),
        other => panic!("unexpected {:?}", other),
    }
    match &p[2] {
        RuntimeProbe::Shell { command } => {
            assert_eq!(command.program, "/bin/zsh");
            assert_eq!(command.args, strs(&["-lc", "which node"]));
        }
        other => panic!("unexpected {:?}", other),
    }
    let p = runtime_probes(&vec![], false);
    assert_eq!(p.len(), 3);
    match &p[1] {
        RuntimeProbe::Installed { path } => assert_eq!(path, "C:\\Program Files (x86)\\nodejs\\node.exe"),
        other => panic!("unexpected {:?}", other),
    }
    match &p[2] {
        RuntimeProbe::Lookup { command } => {
            assert_eq!(command.program, "where");
            assert_eq!(command.args, strs(&["node"]));
        }
        other => panic!("unexpected {:?}", other),
    }
    assert_eq!(version_query_args(), strs(&["--version"]));
}

#[test]
fn shell_and_lookup_answers() {
    assert_eq!(shell_answer(true, "  /usr/bin/node\n"), Some("/usr/bin/node".to_string()));
    assert_eq!(shell_answer(false, "/usr/bin/node"), None);
    assert_eq!(shell_answer(true, " \n"), None);
    assert_eq!(lookup_answer(true, "C:\\n\\node.exe\r\nD:\\node.exe\r\n"), Some("C:\\n\\node.exe".to_string()));
    assert_eq!(lookup_answer(true, ""), None);
    assert_eq!(lookup_answer(false, "C:\\node.exe"), None);
}
