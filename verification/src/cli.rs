//! The command line.

use vstd::prelude::*;
use vstd::string::*;

use crate::text;

verus! {

/// Exit status of a command that is not known.
pub const UNKNOWN_COMMAND_STATUS: i32 = 2;

/// What the program is to do.
#[derive(Debug)]
pub enum Command {
    /// No command: show the usage, and start.
    Default,
    Start,
    /// Start without activation.
    Skip,
    Info,
    Reset,
    Help,
    Unknown(String),
}

/// Whether `c` is the command that the first argument names.
pub open spec fn names(arg: Option<String>, c: Command) -> bool {
    match arg {
        None => c is Default,
        Some(s) => if s@ == "start"@ {
            c is Start
        } else if s@ == "skip"@ {
            c is Skip
        } else if s@ == "info"@ {
            c is Info
        } else if s@ == "reset"@ {
            c is Reset
        } else if s@ == "-h"@ || s@ == "--help"@ {
            c is Help
        } else {
            c == Command::Unknown(s)
        },
    }
}

/// The command that the first argument names.
pub fn parse_command(arg: Option<String>) -> (c: Command)
    ensures
        names(arg, c),
{
    match arg {
        None => Command::Default,
        Some(s) => {
            if text::same_text(s.as_str(), "start") {
                Command::Start
            } else if text::same_text(s.as_str(), "skip") {
                Command::Skip
            } else if text::same_text(s.as_str(), "info") {
                Command::Info
            } else if text::same_text(s.as_str(), "reset") {
                Command::Reset
            } else if text::same_text(s.as_str(), "-h") || text::same_text(s.as_str(), "--help") {
                Command::Help
            } else {
                Command::Unknown(s)
            }
        },
    }
}

/// Why the client ended, in words.
pub fn exit_reason(outcome: &Result<(), String>) -> (s: String)
    ensures
        s@ == match *outcome {
            Ok(_) => "normal-return（supervisor 已返回）"@,
            Err(e) => "error: "@ + e@,
        },
{
    match outcome {
        Ok(_) => "normal-return（supervisor 已返回）".to_owned(),
        Err(e) => text::join("error: ", e.as_str()),
    }
}

/// The commands that there are, by their words; no word at all is the default, and any other word
/// is kept to be told.
pub proof fn law_commands(arg: Option<String>, c: Command)
    requires
        call_ensures(parse_command, (arg,), c),
    ensures
        c is Default <==> arg is None,
        c is Start <==> (arg matches Some(s) && s@ == "start"@),
        c is Skip <==> (arg matches Some(s) && s@ == "skip"@),
        c is Info <==> (arg matches Some(s) && s@ == "info"@),
        c is Reset <==> (arg matches Some(s) && s@ == "reset"@),
        c is Help <==> (arg matches Some(s) && (s@ == "-h"@ || s@ == "--help"@)),
        c matches Command::Unknown(s) ==> arg == Some(s),
{
    reveal_strlit("start");
    reveal_strlit("skip");
    reveal_strlit("info");
    reveal_strlit("reset");
    reveal_strlit("-h");
    reveal_strlit("--help");
    assert("start"@[1] == 't');
    assert("skip"@[1] == 'k');
    assert("info"@[1] == 'n');
    assert("reset"@[1] == 'e');
    assert("-h"@[1] == 'h');
    assert("--help"@[1] == '-');
}

} // verus!
