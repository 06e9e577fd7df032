//! The driver: how it is set up, and how the agent is found.

use vstd::prelude::*;
use vstd::utf8::*;

use crate::text;

verus! {

/// A driver that delegates to the `copilot` agent.
#[derive(Debug, PartialEq, Eq)]
pub struct CopilotCliDriver {
    pub cli_path: String,
    /// Whether the agent may use all tools, paths and URLs, and not only all tools.
    pub skip_permissions: bool,
    /// A GitHub token for the agent to authenticate with.
    pub api_key: Option<String>,
}

/// A driver over plain text.
#[verifier::ext_equal]
pub struct DriverView {
    pub cli_path: Seq<char>,
    pub skip_permissions: bool,
    pub api_key: Option<Seq<char>>,
}

impl View for CopilotCliDriver {
    type V = DriverView;

    open spec fn view(&self) -> DriverView {
        DriverView {
            cli_path: self.cli_path@,
            skip_permissions: self.skip_permissions,
            api_key: text::opt_text(self.api_key),
        }
    }
}

/// The path of the agent: the given one, unless it is missing or empty.
pub open spec fn path_or_default(cli_path: Option<Seq<char>>) -> Seq<char> {
    match cli_path {
        Some(path) => if path.len() > 0 {
            path
        } else {
            "copilot"@
        },
        None => "copilot"@,
    }
}

/// The model that the agent is asked for: the model ID without its provider.
pub open spec fn cli_model(model: Seq<char>) -> Seq<char> {
    text::without_prefix(model, "copilot-cli/"@)
}

/// What came of running the agent to ask for its version.
#[derive(Debug, PartialEq, Eq)]
pub enum VersionProbe {
    /// It could not be run.
    NotRun,
    /// It ran and ended.
    Exited { success: bool, stdout: Vec<u8> },
}

/// The version that the agent gives: what it printed, without the white space
/// around it, if it ran and ended well.
pub open spec fn detected(probe: VersionProbe) -> Option<Seq<char>> {
    match probe {
        VersionProbe::Exited { success: true, stdout } => Some(
            text::trimmed(text::lossy_utf8(stdout@)),
        ),
        _ => None,
    }
}

impl CopilotCliDriver {
    /// Creates a driver.
    ///
    /// - `cli_path` overrides the path of the agent, which otherwise is `copilot`.
    /// - `skip_permissions` lets the agent use all tools, paths and URLs.
    /// - `api_key` is the token that the agent authenticates with.
    pub fn new(cli_path: Option<String>, skip_permissions: bool, api_key: Option<String>) -> (driver:
        CopilotCliDriver)
        ensures
            driver@ == (DriverView {
                cli_path: path_or_default(text::opt_text(cli_path)),
                skip_permissions,
                api_key: text::opt_text(api_key),
            }),
            driver@.cli_path.len() > 0,
    {
        proof {
            reveal_strlit("copilot");
        }
        let cli_path: String = match cli_path {
            Some(path) => if !path.as_str().is_empty() {
                path
            } else {
                "copilot".to_string()
            },
            None => "copilot".to_string(),
        };
        CopilotCliDriver { cli_path, skip_permissions, api_key }
    }

    /// The version that the agent gives, if it is available.
    pub fn detect(probe: &VersionProbe) -> (version: Option<String>)
        ensures
            text::opt_text(version) == detected(*probe),
            match *probe {
                VersionProbe::Exited { success: true, stdout } => valid_utf8(stdout@)
                    ==> text::opt_text(version) == Some(text::trimmed(decode_utf8(stdout@))),
                _ => true,
            },
    {
        match probe {
            VersionProbe::NotRun => None,
            VersionProbe::Exited { success, stdout } => {
                let output: String = text::from_utf8_lossy(stdout.as_slice());
                CopilotCliDriver::version_from(*success, output.as_str())
            },
        }
    }

    /// The version in what the agent printed: all of it but the white space around
    /// it, if the agent ended well.
    pub fn version_from(success: bool, output: &str) -> (version: Option<String>)
        ensures
            text::opt_text(version) == (if success {
                Some(text::trimmed(output@))
            } else {
                None
            }),
    {
        if success {
            Some(text::trim(output).to_string())
        } else {
            None
        }
    }

    /// Maps a model ID like `copilot-cli/gpt-5.4` to the model that the agent knows.
    pub fn model_flag(model: &str) -> (flag: Option<String>)
        ensures
            text::opt_text(flag) == Some(cli_model(model@)),
    {
        Some(text::strip_prefix(model, "copilot-cli/"))
    }
}

/// Whether the agent is available.
pub fn copilot_cli_available(probe: &VersionProbe) -> (b: bool)
    ensures
        b == (detected(*probe) is Some),
        b == (*probe matches VersionProbe::Exited { success, .. } && success),
{
    CopilotCliDriver::detect(probe).is_some()
}

} // verus!
