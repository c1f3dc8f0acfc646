use signalbot::errors::SupervisorError;
use signalbot::launch::{
    config_path, env_file_path, extract_result_line, launcher_path, script_launch, script_outcome,
    spawn_error, worker_launch,
};

fn strs(v: &[&str]) -> Vec<String> {
    v.iter().map(|s| s.to_string()).collect()
}

fn pairs(v: &[(&str, &str)]) -> Vec<(String, String)> {
    v.iter().map(|(a, b)| (a.to_string(), b.to_string())).collect()
}

#[test]
fn json_line_is_extracted_from_noise() {
    assert_eq!(
        extract_result_line("noise\n{\"ok\":true}\nmore noise"),
        Some("{\"ok\":true}".to_string())
    );
    assert_eq!(
        script_outcome("noise\n{\"ok\":true}\nmore noise", "ignored"),
        Ok("{\"ok\":true}".to_string())
    );
}

#[test]
fn no_json_line_fails_with_stderr() {
    let r = script_outcome("just noise\nno payload\n", "  boom: bad key \n");
    assert_eq!(r, Err(SupervisorError::ScriptFailed { stderr: "boom: bad key".to_string() }));
    assert_eq!(r.unwrap_err().message(), "Script failed: boom: bad key");
    assert_eq!(extract_result_line(""), None);
}

#[test]
fn last_json_line_wins() {
    assert_eq!(
        extract_result_line("{\"a\":1}\r\nlog\r\n{\"b\":2}\r\n  "),
        Some("{\"b\":2}".to_string())
    );
    assert_eq!(extract_result_line(" {\"x\":0}"), Some("{\"x\":0}".to_string()));
    assert_eq!(extract_result_line("a\n {\"x\":0}"), None);
}

#[test]
fn worker_invocation() {
    let code = "/opt/app/bot";
    let data = "/home/u/.config/hl-signalbot";
    assert_eq!(launcher_path(code), "/opt/app/bot/cli.mjs");
    assert_eq!(config_path(data), "/home/u/.config/hl-signalbot/config.json");
    assert_eq!(env_file_path(data), "/home/u/.config/hl-signalbot/.env");
    let inv = worker_launch("/usr/bin/node", code, data, true, true, false).unwrap();
    assert_eq!(inv.program, "/usr/bin/node");
    assert_eq!(inv.cwd, code);
    assert_eq!(
        inv.args,
        strs(&["/opt/app/bot/cli.mjs", "--config", "/home/u/.config/hl-signalbot/config.json"])
    );
    assert_eq!(inv.env, pairs(&[("TAURI", "1"), ("DATA_DIR", data)]));
    let inv = worker_launch("/usr/bin/node", code, data, true, true, true).unwrap();
    assert_eq!(
        inv.env,
        pairs(&[
            ("TAURI", "1"),
            ("DOTENV_CONFIG_PATH", "/home/u/.config/hl-signalbot/.env"),
            ("DATA_DIR", data)
        ])
    );
}

#[test]
fn worker_invocation_failures() {
    let r = worker_launch("node", "/b", "/d", false, true, true);
    assert_eq!(r.unwrap_err(), SupervisorError::LauncherMissing { path: "/b/cli.mjs".to_string() });
    let r = worker_launch("node", "/b", "/d", true, false, true);
    assert_eq!(r.as_ref().unwrap_err(), &SupervisorError::ConfigMissing);
    assert_eq!(r.unwrap_err().message(), "config.json not found. Complete setup first.");
}

#[test]
fn spawn_errors_are_told_apart() {
    let e = spawn_error("/usr/bin/node", true, "No such file");
    assert_eq!(e.message(), "Node.js not found at '/usr/bin/node'. Install from https://nodejs.org");
    let e = spawn_error("/usr/bin/node", false, "Permission denied");
    assert_eq!(e.message(), "Failed to start bot: Permission denied");
}

#[test]
fn script_invocation() {
    let inv = script_launch("node", "/b", "/d", true, false, true).unwrap();
    assert_eq!(inv.args, strs(&["/b/close.mjs", "/d/config.json", "--check-only"]));
    assert_eq!(inv.env, pairs(&[("DOTENV_CONFIG_QUIET", "true"), ("DATA_DIR", "/d")]));
    assert_eq!(inv.cwd, "/b");
    let inv = script_launch("node", "/b", "/d", true, true, false).unwrap();
    assert_eq!(inv.args, strs(&["/b/close.mjs", "/d/config.json"]));
    assert_eq!(
        inv.env,
        pairs(&[("DOTENV_CONFIG_PATH", "/d/.env"), ("DOTENV_CONFIG_QUIET", "true"), ("DATA_DIR", "/d")])
    );
    let r = script_launch("node", "/b", "/d", false, true, false);
    assert_eq!(r.unwrap_err().message(), "close.mjs not found in bot directory");
}
