//! The failures that the supervisor reports to the command that asked.

use vstd::prelude::*;

verus! {

/// Every failure a command can meet, with what the operator is told.
#[derive(Debug, PartialEq, Eq)]
pub enum SupervisorError {
    /// A start was asked while a worker runs.
    AlreadyRunning,
    /// No usable runtime interpreter was found on the host.
    RuntimeNotFound,
    /// The per-user configuration directory cannot be determined.
    DataDirUnknown,
    /// No bundled copy of the worker could be found to provision from.
    BundleNotFound,
    /// The worker's entry script is missing from the code directory.
    LauncherMissing { path: String },
    /// The worker's configuration file has not been written yet.
    ConfigMissing,
    /// The runtime executable vanished between discovery and spawn.
    RuntimeMissingAtSpawn { runtime: String },
    /// The operating system refused to start the worker.
    SpawnFailed { detail: String },
    /// The package manager could not be run.
    InstallNotRun { detail: String },
    /// The package manager ran and reported failure.
    InstallFailed { output: String },
    /// The auxiliary script is missing from the code directory.
    ScriptMissing,
    /// The auxiliary script could not be run.
    ScriptNotRun { detail: String },
    /// The auxiliary script printed no result line.
    ScriptFailed { stderr: String },
}

/// The text shown for each failure.
pub open spec fn error_text(e: SupervisorError) -> Seq<char> {
    match e {
        SupervisorError::AlreadyRunning => "Bot is already running"@,
        SupervisorError::RuntimeNotFound =>
            "Node.js is not installed. Download it from https://nodejs.org (LTS version)."@,
        SupervisorError::DataDirUnknown => "Cannot determine config directory"@,
        SupervisorError::BundleNotFound => "Cannot locate bundled bot files. Reinstall the app."@,
        SupervisorError::LauncherMissing { path } => "Bot CLI not found at: "@ + path@,
        SupervisorError::ConfigMissing => "config.json not found. Complete setup first."@,
        SupervisorError::RuntimeMissingAtSpawn { runtime } =>
            "Node.js not found at '"@ + runtime@ + "'. Install from https://nodejs.org"@,
        SupervisorError::SpawnFailed { detail } => "Failed to start bot: "@ + detail@,
        SupervisorError::InstallNotRun { detail } => "Failed to run npm install: "@ + detail@,
        SupervisorError::InstallFailed { output } => "npm install failed: "@ + output@,
        SupervisorError::ScriptMissing => "close.mjs not found in bot directory"@,
        SupervisorError::ScriptNotRun { detail } => "Failed to run script: "@ + detail@,
        SupervisorError::ScriptFailed { stderr } => "Script failed: "@ + stderr@,
    }
}

fn prefixed(head: &str, tail: &String) -> (r: String)
    ensures
        r@ == head@ + tail@,
{
    let mut s = String::from_str(head);
    s.append(tail.as_str());
    s
}

impl SupervisorError {
    /// The text shown to the operator.
    pub fn message(&self) -> (r: String)
        ensures
            r@ == error_text(*self),
    {
        match self {
            SupervisorError::AlreadyRunning => String::from_str("Bot is already running"),
            SupervisorError::RuntimeNotFound => String::from_str(
                "Node.js is not installed. Download it from https://nodejs.org (LTS version).",
            ),
            SupervisorError::DataDirUnknown => String::from_str("Cannot determine config directory"),
            SupervisorError::BundleNotFound => String::from_str(
                "Cannot locate bundled bot files. Reinstall the app.",
            ),
            SupervisorError::LauncherMissing { path } => prefixed("Bot CLI not found at: ", path),
            SupervisorError::ConfigMissing => String::from_str(
                "config.json not found. Complete setup first.",
            ),
            SupervisorError::RuntimeMissingAtSpawn { runtime } => {
                let mut s = prefixed("Node.js not found at '", runtime);
                s.append("'. Install from https://nodejs.org");
                s
            },
            SupervisorError::SpawnFailed { detail } => prefixed("Failed to start bot: ", detail),
            SupervisorError::InstallNotRun { detail } => prefixed("Failed to run npm install: ", detail),
            SupervisorError::InstallFailed { output } => prefixed("npm install failed: ", output),
            SupervisorError::ScriptMissing => String::from_str("close.mjs not found in bot directory"),
            SupervisorError::ScriptNotRun { detail } => prefixed("Failed to run script: ", detail),
            SupervisorError::ScriptFailed { stderr } => prefixed("Script failed: ", stderr),
        }
    }
}

} // verus!
