//! Activation directives: what the shell integration sources after this
//! process exits, since a process cannot change its parent shell's environment.
use crate::version::{to_semver, ConcreteVersion, VersionView};
use vstd::prelude::*;
use vstd::string::*;

verus! {

/// The text that `semver` displays for a version.
pub uninterp spec fn version_text(v: VersionView) -> Seq<char>;

/// Relies on `Display for semver::Version` (semver 0.9), through `to_string`:
/// the text depends on the version's fields alone.
#[verifier::external_body]
fn render_version(v: &ConcreteVersion) -> (r: String)
    ensures
        r@ == version_text(v@),
{
    to_semver(v).to_string()
}

/// The directive that assigns `NOTION_NODE_VERSION`, the variable naming the
/// active runtime version, to `v`: one line.
pub open spec fn directive_text(v: VersionView) -> Seq<char> {
    "export NOTION_NODE_VERSION="@ + version_text(v) + "\n"@
}

/// Why activation could not happen.
#[derive(Debug, Clone, PartialEq, Eq)]
pub enum ActivationError {
    /// No side-channel path was supplied: the shell integration is missing.
    NoActivationChannel,
    /// Writing the side-channel file failed; the message is kept as it was.
    WriteFailed(String),
}

/// A write to perform: replace the whole file at `path` by `contents`.
#[derive(Debug, Clone, PartialEq, Eq)]
pub struct ActivationPlan {
    pub path: String,
    pub contents: String,
}

/// The activation directive for `v`, a single assignment line.
pub fn directive(v: &ConcreteVersion) -> (r: String)
    ensures
        r@ == directive_text(v@),
{
    let text = render_version(v);
    let mut line = String::from_str("export NOTION_NODE_VERSION=");
    line.append(text.as_str());
    line.append("\n");
    line
}

/// Plans the activation of `v` through the side-channel file at `target`.
/// Without a target there is no channel and nothing is to be written. The
/// plan replaces the file's contents (truncate, then write) by the directive.
pub fn activate(v: &ConcreteVersion, target: Option<String>) -> (r: Result<ActivationPlan, ActivationError>)
    ensures
        target is None <==> r is Err,
        r matches Err(e) ==> e == ActivationError::NoActivationChannel,
        r matches Ok(p) ==> target == Some(p.path) && p.contents@ == directive_text(v@),
{
    match target {
        None => Err(ActivationError::NoActivationChannel),
        Some(path) => Ok(ActivationPlan { path, contents: directive(v) }),
    }
}

/// The outcome of performing an activation plan: a write failure keeps its
/// message.
pub fn write_outcome(written: Result<(), String>) -> (r: Result<(), ActivationError>)
    ensures
        written is Ok <==> r is Ok,
        written matches Err(m) ==> r == Err::<(), ActivationError>(ActivationError::WriteFailed(m)),
{
    match written {
        Ok(()) => Ok(()),
        Err(m) => Err(ActivationError::WriteFailed(m)),
    }
}

} // verus!
