//! The one-shot launch command: starts the broker bundled for 64-bit Linux and
//! reports the outcome as text.

use vstd::prelude::*;
use vstd::string::*;

verus! {

/// The path, relative to the working directory, of the bundled broker executable.
pub open spec fn spec_bundled_binary() -> Seq<char> {
    "binaries/mosquitto-x86_64-unknown-linux-gnu"@
}

/// The reply to the launch command when the spawn ended as `spawned`: a fixed
/// confirmation, or a complaint that carries the error's description.
pub open spec fn spec_reply<H>(spawned: Result<H, String>) -> Result<Seq<char>, Seq<char>> {
    match spawned {
        Ok(_) => Ok("Child process spawned successfully"@),
        Err(description) => Err("Failed to spawn child process: "@ + description@),
    }
}

/// The text of a reply, on either side.
pub open spec fn spec_reply_text(reply: Result<String, String>) -> Result<Seq<char>, Seq<char>> {
    match reply {
        Ok(text) => Ok(text@),
        Err(text) => Err(text@),
    }
}

/// Returns the path of the bundled broker executable, which the launch command runs
/// with its standard output piped.
pub fn bundled_binary() -> (path: String)
    ensures
        path@ == spec_bundled_binary(),
{
    String::from_str("binaries/mosquitto-x86_64-unknown-linux-gnu")
}

/// Turns the outcome of spawning the bundled broker into the command's reply. The
/// process handle is let go; the process itself keeps running.
pub fn mosquitto<H>(spawned: Result<H, String>) -> (reply: Result<String, String>)
    ensures
        spec_reply_text(reply) == spec_reply(spawned),
{
    match spawned {
        Ok(_child) => Ok(String::from_str("Child process spawned successfully")),
        Err(description) => {
            let mut text = String::from_str("Failed to spawn child process: ");
            text.append(description.as_str());
            Err(text)
        },
    }
}

} // verus!
