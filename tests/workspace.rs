use signalbot::errors::SupervisorError;
use signalbot::workspace::{
    bundle_candidates, data_dir_under, deps_path, dev_candidates, entry_path, files_to_copy, find_npm,
    install_invocation, install_outcome, is_owner_only, npm_candidates, plan_code_dir, should_copy,
    user_data_dir, CodeDirPlan, DirProbe, InstallRun,
};

fn probe(path: &str, has_entry: bool, has_deps: bool) -> DirProbe {
    DirProbe { path: path.to_string(), has_entry, has_deps }
}

fn strs(v: &[&str]) -> Vec<String> {
    v.iter().map(|s| s.to_string()).collect()
}

#[test]
fn data_dir_is_under_the_config_dir() {
    assert_eq!(data_dir_under(Some("/home/u/.config".to_string())), Ok("/home/u/.config/hl-signalbot".to_string()));
    assert_eq!(data_dir_under(None), Err(SupervisorError::DataDirUnknown));
    if let Ok(d) = user_data_dir() {
        assert!(d.ends_with("hl-signalbot"));
    }
}

#[test]
fn candidate_directories() {
    assert_eq!(dev_candidates("/work/app", "/work"), strs(&["/work/app/bot", "/work/bot"]));
    assert_eq!(
        bundle_candidates(Some("/opt/App/MacOS".to_string()), Some("/opt/res".to_string())),
        strs(&["/opt/App/MacOS/bot", "/opt/App/MacOS/../Resources/bot", "/opt/res/bot"])
    );
    assert_eq!(bundle_candidates(None, None), Vec::<String>::new());
    assert_eq!(entry_path("/x/bot"), "/x/bot/index.mjs");
    assert_eq!(deps_path("/x/bot"), "/x/bot/node_modules");
}

#[test]
fn dev_layout_wins_when_ready() {
    let dev = vec![probe("/w/bot", true, false), probe("/bot", true, true)];
    let r = plan_code_dir(&dev, &probe("/d/bot", true, true), &vec![]);
    match r {
        Ok(CodeDirPlan::Ready { dir }) => assert_eq!(dir, "/bot"),
        other => panic!("unexpected {:?}", other),
    }
}

#[test]
fn writable_copy_is_used_when_ready() {
    let dev = vec![probe("/w/bot", true, false)];
    let r = plan_code_dir(&dev, &probe("/d/bot", true, true), &vec![probe("/b/bot", true, false)]);
    match r {
        Ok(CodeDirPlan::Ready { dir }) => assert_eq!(dir, "/d/bot"),
        other => panic!("unexpected {:?}", other),
    }
}

#[test]
fn unprovisioned_source_leads_to_provisioning() {
    let dev = vec![probe("/w/bot", true, false), probe("/bot", false, false)];
    let bundles = vec![probe("/e/bot", false, false), probe("/e/../Resources/bot", true, false)];
    let r = plan_code_dir(&dev, &probe("/d/bot", true, false), &bundles);
    match r {
        Ok(CodeDirPlan::Provision { source, target }) => {
            assert_eq!(source, "/e/../Resources/bot");
            assert_eq!(target, "/d/bot");
        }
        other => panic!("unexpected {:?}", other),
    }
}

#[test]
fn no_bundle_is_an_error() {
    let r = plan_code_dir(&vec![], &probe("/d/bot", false, false), &vec![probe("/e/bot", false, true)]);
    let e = r.unwrap_err();
    assert_eq!(e, SupervisorError::BundleNotFound);
    assert_eq!(e.message(), "Cannot locate bundled bot files. Reinstall the app.");
}

#[test]
fn npm_next_to_node() {
    assert_eq!(npm_candidates("/usr/local/bin/node"), strs(&["/usr/local/bin/npm", "/usr/local/bin/npm.cmd"]));
    assert_eq!(find_npm("/usr/local/bin/node", &vec![true, true]), Ok("/usr/local/bin/npm".to_string()));
    assert_eq!(find_npm("/usr/local/bin/node", &vec![false, true]), Ok("/usr/local/bin/npm.cmd".to_string()));
    assert_eq!(find_npm("/usr/local/bin/node", &vec![false, false]), Ok("npm".to_string()));
    assert_eq!(find_npm("/usr/local/bin/node", &vec![]), Ok("npm".to_string()));
    assert_eq!(find_npm("/", &vec![true, true]), Ok("npm".to_string()));
}

#[test]
fn provisioning_copies_modules_data_and_examples() {
    assert!(should_copy("index.mjs"));
    assert!(should_copy("package.json"));
    assert!(should_copy("config.json.example"));
    assert!(!should_copy("README.md"));
    assert!(!should_copy("mjs"));
    let listing = strs(&["index.mjs", "README.md", "package.json", "node_modules", ".env.example"]);
    let once = files_to_copy(&listing);
    assert_eq!(once, strs(&["index.mjs", "package.json", ".env.example"]));
    assert_eq!(files_to_copy(&listing), once);
    assert_eq!(files_to_copy(&once), once);
}

#[test]
fn install_step() {
    let inv = install_invocation("/usr/bin/npm", "/d/bot");
    assert_eq!(inv.program, "/usr/bin/npm");
    assert_eq!(inv.args, strs(&["install", "--production"]));
    assert!(inv.env.is_empty());
    assert_eq!(inv.cwd, "/d/bot");
    assert_eq!(install_outcome(&InstallRun::Finished { success: true, stderr: "warn".to_string() }), Ok(()));
    assert_eq!(install_outcome(&InstallRun::Finished { success: true, stderr: String::new() }), Ok(()));
    let e = install_outcome(&InstallRun::Finished { success: false, stderr: "E404".to_string() }).unwrap_err();
    assert_eq!(e.message(), "npm install failed: E404");
    let e = install_outcome(&InstallRun::NotRun { detail: "not found".to_string() }).unwrap_err();
    assert_eq!(e.message(), "Failed to run npm install: not found");
}

#[test]
fn sensitive_files() {
    assert!(is_owner_only(".env"));
    assert!(is_owner_only("private_key.pem"));
    assert!(is_owner_only("my-private"));
    assert!(!is_owner_only("config.json"));
    assert!(!is_owner_only(".env.example"));
    assert!(!is_owner_only("priv"));
}
