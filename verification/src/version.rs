//! Version compatibility: comparing the tool's semantic version against the
//! version a template was designed for, and wording the advisory warning.

use vstd::prelude::*;
use vstd::string::*;

verus! {

/// Whether `a` and `b` both parse as semantic versions and `a` orders
/// strictly below `b`: `Some(true)` or `Some(false)` when both parse,
/// `None` when either does not.
pub uninterp spec fn semver_lt(a: Seq<char>, b: Seq<char>) -> Option<bool>;

/// Relies on `semver::Version::parse` and `Version`'s `Ord`: compares two
/// version texts, `None` when either fails to parse.
#[verifier::external_body]
fn version_lt(a: &str, b: &str) -> (r: Option<bool>)
    ensures
        r == semver_lt(a@, b@),
{
    match (semver::Version::parse(a), semver::Version::parse(b)) {
        (Ok(va), Ok(vb)) => Some(va < vb),
        _ => None,
    }
}

/// The advisory warning text: it names the template's version, the running
/// version, and the upgrade command.
pub open spec fn compatibility_warning(
    cli_version: Seq<char>,
    template_version: Seq<char>,
    upgrade_command: Seq<char>,
) -> Seq<char> {
    "Warning: This template was designed for CLI version "@ + template_version
        + " or newer.\nYou are running version "@ + cli_version + ".\nConsider updating: "@
        + upgrade_command
}

/// Compare the running tool's version against a template's version. Returns
/// an advisory warning exactly when both versions parse as semantic versions
/// and the tool's is older; an unparsable version on either side yields no
/// warning.
pub fn check_compatibility(cli_version: &str, template_version: &str, upgrade_command: &str) -> (r:
    Option<String>)
    ensures
        r is Some <==> semver_lt(cli_version@, template_version@) == Some(true),
        match r {
            Some(w) => w@ == compatibility_warning(
                cli_version@,
                template_version@,
                upgrade_command@,
            ),
            None => true,
        },
{
    match version_lt(cli_version, template_version) {
        Some(true) => {
            let w = "Warning: This template was designed for CLI version ".to_owned().concat(
                template_version,
            ).concat(" or newer.\nYou are running version ").concat(cli_version).concat(
                ".\nConsider updating: ",
            ).concat(upgrade_command);
            Some(w)
        },
        _ => None,
    }
}

} // verus!
