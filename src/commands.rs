//! Plain text produced by the commands offered to the front-end.
use vstd::prelude::*;

verus! {

/// The confirmation sent back when the front-end picks a save path.
pub open spec fn confirmation_text(save_path: Seq<char>) -> Seq<char> {
    "Okay, the file path is: "@ + save_path
}

/// The greeting sent back to the front-end.
pub open spec fn greeting_text(name: Seq<char>) -> Seq<char> {
    "Hello, "@ + name + "! You've been greeted from Rust!"@
}

/// The log line announcing that a directory is watched.
pub open spec fn watch_text(path: Seq<char>) -> Seq<char> {
    "Watching directory "@ + path
}

/// Echoes the chosen save path back to the caller.
pub fn set_save_file_path(save_path: &str) -> (r: String)
    ensures
        r@ == confirmation_text(save_path@),
{
    let prefix = String::from_str("Okay, the file path is: ");
    prefix.concat(save_path)
}

/// Greets the user by name.
pub fn greet(name: &str) -> (r: String)
    ensures
        r@ == greeting_text(name@),
{
    let text = String::from_str("Hello, ");
    let text = text.concat(name);
    text.concat("! You've been greeted from Rust!")
}

/// The message logged when watching of `path` starts.
pub fn watch_message(path: &str) -> (r: String)
    ensures
        r@ == watch_text(path@),
{
    let prefix = String::from_str("Watching directory ");
    prefix.concat(path)
}

/// A record sent to the host's log channel.
pub struct LogMessage {
    pub level: String,
    pub message: String,
}

impl LogMessage {
    /// An informational record carrying `message`.
    pub fn info(message: String) -> (r: LogMessage)
        ensures
            r.level@ == "info"@,
            r.message@ == message@,
    {
        LogMessage { level: String::from_str("info"), message }
    }
}

} // verus!
