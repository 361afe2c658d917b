//! The messages reported when setting the service up fails.

use vstd::prelude::*;
use vstd::string::StringExecFns;

verus! {

/// The two setup steps that can fail before the service runs.
pub enum StartupStage {
    Logger,
    Server,
}

/// The fixed prefix of the message reported for a failing setup stage.
pub open spec fn startup_error_prefix(stage: StartupStage) -> Seq<char> {
    match stage {
        StartupStage::Logger => "failed to create logger: "@,
        StartupStage::Server => "failed to create server: "@,
    }
}

/// The message returned from the entry point when a setup stage fails:
/// the stage's fixed prefix followed by the underlying error's text.
pub fn startup_error_message(stage: &StartupStage, detail: &str) -> (m: String)
    ensures
        m@ == startup_error_prefix(*stage) + detail@,
{
    let prefix: &str = match stage {
        StartupStage::Logger => "failed to create logger: ",
        StartupStage::Server => "failed to create server: ",
    };
    let mut m = prefix.to_owned();
    m.append(detail);
    m
}

} // verus!
