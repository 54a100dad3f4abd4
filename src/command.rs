use vstd::prelude::*;
use crate::text::same_text;

verus! {

/// The two operations the program offers.
#[derive(Clone, Copy, Debug, PartialEq, Eq, Structural)]
pub enum Command {
    /// Fetch today's window and overwrite the cache.
    Update,
    /// Report `light` or `dark`, fetching first when there is no cache.
    Status,
}

/// Why an operation failed.
#[derive(Debug, PartialEq, Eq)]
pub enum AppError {
    /// No command was given on the command line.
    MissingCommand,
    /// The command given is neither `update` nor `status`.
    UnknownCommand { command: String },
    /// The remote service could not be reached, or its answer was unusable.
    Api,
    /// The cache file does not hold a window.
    Cache,
}

/// The text that names `update`.
pub open spec fn update_word() -> Seq<char> {
    seq!['u', 'p', 'd', 'a', 't', 'e']
}

/// The text that names `status`.
pub open spec fn status_word() -> Seq<char> {
    seq!['s', 't', 'a', 't', 'u', 's']
}

/// The command a word names, if any.
pub open spec fn command_of(word: Seq<char>) -> Option<Command> {
    if word == update_word() {
        Some(Command::Update)
    } else if word == status_word() {
        Some(Command::Status)
    } else {
        None
    }
}

/// `e` reports `word` as an unknown command.
pub open spec fn refuses_word(e: AppError, word: Seq<char>) -> bool {
    match e {
        AppError::UnknownCommand { command } => command@ == word,
        _ => false,
    }
}

/// The message that reports a missing command.
pub open spec fn missing_message() -> Seq<char> {
    "Missing command argument ('update' or 'status')"@
}

/// The message that reports an unknown command `c`.
pub open spec fn unknown_message(c: Seq<char>) -> Seq<char> {
    "Unknown command '"@ + c + "'"@
}

/// The message that reports a failed fetch.
pub open spec fn api_message() -> Seq<char> {
    "Failed to get data from API"@
}

/// The message that reports an unreadable cache.
pub open spec fn cache_message() -> Seq<char> {
    "Failed to read JSON from the cache file"@
}

impl AppError {
    /// The human-readable message of this error.
    pub fn message(&self) -> (r: String)
        ensures
            r@ == match self {
                AppError::MissingCommand => missing_message(),
                AppError::UnknownCommand { command } => unknown_message(command@),
                AppError::Api => api_message(),
                AppError::Cache => cache_message(),
            },
    {
        match self {
            AppError::MissingCommand => String::from_str(
                "Missing command argument ('update' or 'status')",
            ),
            AppError::UnknownCommand { command } => {
                let mut m = String::from_str("Unknown command '");
                m.append(command.as_str());
                m.append("'");
                m
            },
            AppError::Api => String::from_str("Failed to get data from API"),
            AppError::Cache => String::from_str("Failed to read JSON from the cache file"),
        }
    }
}

/// Reads a command word: `update` or `status`, anything else is refused
/// with the word itself.
pub fn parse_command(word: &str) -> (r: Result<Command, AppError>)
    ensures
        match r {
            Ok(c) => command_of(word@) == Some(c),
            Err(e) => command_of(word@) is None && refuses_word(e, word@),
        },
{
    proof {
        reveal_strlit("update");
        reveal_strlit("status");
        assert("update"@ == update_word());
        assert("status"@ == status_word());
    }
    if same_text(word, "update") {
        Ok(Command::Update)
    } else if same_text(word, "status") {
        Ok(Command::Status)
    } else {
        Err(AppError::UnknownCommand { command: String::from_str(word) })
    }
}

/// Reads the command from the program's arguments, the first of which is the
/// program's own name. Arguments after the command are not looked at.
pub fn parse_args(args: &Vec<String>) -> (r: Result<Command, AppError>)
    ensures
        args@.len() < 2 ==> r == Err::<Command, AppError>(AppError::MissingCommand),
        args@.len() >= 2 ==> match r {
            Ok(c) => command_of(args@[1]@) == Some(c),
            Err(e) => command_of(args@[1]@) is None && refuses_word(e, args@[1]@),
        },
{
    if args.len() < 2 {
        Err(AppError::MissingCommand)
    } else {
        parse_command(args[1].as_str())
    }
}

} // verus!
