use vstd::prelude::*;

verus! {

/// What the program is asked to do by its first argument.
#[derive(Debug, Clone)]
pub enum Command {
    /// No argument: serve and index.
    Index,
    /// `backfill-code-commitments`: the one-off backfill, then exit.
    BackfillCodeCommitments,
    /// Any other argument.
    Unknown(String),
}

/// The exit code after a failed backfill.
pub const BACKFILL_FAILURE_EXIT_CODE: i32 = 1;

/// The exit code after an unknown command.
pub const USAGE_EXIT_CODE: i32 = 2;

/// The command named by the program's first argument.
pub fn parse_command(first_arg: Option<String>) -> (r: Command)
    ensures
        match first_arg {
            None => r is Index,
            Some(a) => if a@ == "backfill-code-commitments"@ {
                r is BackfillCodeCommitments
            } else {
                r matches Command::Unknown(c) && c@ == a@
            },
        },
{
    match first_arg {
        None => Command::Index,
        Some(a) => {
            if a == String::from_str("backfill-code-commitments") {
                Command::BackfillCodeCommitments
            } else {
                Command::Unknown(a)
            }
        },
    }
}

/// The message printed for an unknown command.
pub fn usage_message(command: &str) -> (r: String)
    ensures
        r@ == "unknown command `"@ + command@
            + "`; usage: midenscan-indexer [backfill-code-commitments]"@,
{
    let mut m = String::from_str("unknown command `");
    m.append(command);
    m.append("`; usage: midenscan-indexer [backfill-code-commitments]");
    m
}

} // verus!
