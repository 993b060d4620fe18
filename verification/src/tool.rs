//! Configuration and state for an external command-line tool that the
//! scaffolder can check for and offer to install. Probing and installation
//! are the caller's work; this module holds the tool's identity and the
//! install command it advertises.

use vstd::prelude::*;
use vstd::string::*;

verus! {

/// Identity of a command-line tool.
pub struct ToolConfig {
    /// Name of the tool binary.
    pub name: &'static str,
    /// Display name for user-facing messages.
    pub display_name: &'static str,
    /// URL of the install script.
    pub install_script_url: &'static str,
    /// URL of the documentation.
    pub docs_url: &'static str,
}

/// Manager for checking and installing a command-line tool.
pub struct ToolManager {
    /// The managed tool's identity.
    pub config: ToolConfig,
}

/// The shell command that installs a tool from its script URL.
pub open spec fn install_command_spec(install_script_url: Seq<char>) -> Seq<char> {
    "curl -fsSL "@ + install_script_url + " | sh"@
}

impl ToolManager {
    /// A manager for the given tool.
    pub fn new(config: ToolConfig) -> (r: ToolManager)
        ensures
            r.config == config,
    {
        ToolManager { config }
    }

    /// The tool's identity.
    pub fn config(&self) -> (r: &ToolConfig)
        ensures
            r == &self.config,
    {
        &self.config
    }

    /// The shell command that installs the tool from its official script.
    pub fn install_command(&self) -> (r: String)
        ensures
            r@ == install_command_spec(self.config.install_script_url@),
    {
        "curl -fsSL ".to_owned().concat(self.config.install_script_url).concat(" | sh")
    }
}

/// The pre-configured manager for the `iii` tool.
pub fn iii_tool() -> (r: ToolManager)
    ensures
        r.config.name@ == "iii"@,
        r.config.display_name@ == "iii"@,
        r.config.install_script_url@ == "https://install.iii.dev/latest.sh"@,
        r.config.docs_url@ == "https://iii.dev/docs"@,
{
    ToolManager::new(
        ToolConfig {
            name: "iii",
            display_name: "iii",
            install_script_url: "https://install.iii.dev/latest.sh",
            docs_url: "https://iii.dev/docs",
        },
    )
}

} // verus!
