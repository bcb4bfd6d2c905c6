//! The parsed command surface.  The chat transport parses an operator's
//! text into one of these; the supervisor decides what each one does.

use vstd::prelude::*;

use crate::ids::{LessonID, Password, Username};
use crate::users::UrlAction;

verus! {

/// One parsed operator command.  Without `Debug`: the login command
/// carries the password.
pub enum Command {
    /// Display the start message.
    Start,
    /// Display the command overview.
    Help,
    /// Get notified when the lesson starts or a spot opens up.
    Notify { lesson_id: LessonID },
    /// Like `Notify`, repeating every week.
    NotifyWeekly { lesson_id: LessonID },
    /// Get enrolled automatically.
    Enroll { lesson_id: LessonID },
    /// Like `Enroll`, repeating every week.
    EnrollWeekly { lesson_id: LessonID },
    /// Store credentials for automatic enrollment.
    Login { username: Username, password: Password },
    /// Remove the stored credentials.
    Logout,
    /// Set the reaction to a pasted lesson url.
    UrlAction { url_action: UrlAction },
    /// Show the running jobs.
    Jobs,
    /// Cancel all running jobs.
    CancelAll,
}

/// The start message.
pub open spec fn start_text() -> Seq<char> {
    "Welcome to the ASVZ telegram bot.\nThis bot allows you to get notified/enroll when a lesson starts or as soon as a spot opens up.\nSee /help for all available commands.\nThe source code is available online: (https://github.com/GeorgOhneH/asvz-bot)"@
}

/// The command overview shown by the help command.
pub open spec fn descriptions_text() -> Seq<char> {
    "The following commands are supported:\n/start - Display the Start Message.\n/help - Displays this text.\n/notify <lesson_id> - Get notified when a lesson starts or a spot becomes available.\n/notifyweekly <lesson_id> - Get weekly notifications when a lesson starts or a spot becomes available.\n/enroll <lesson_id> - Get automatically enrolled when a lesson starts or a spot becomes available.\n/enrollweekly <lesson_id> - Get automatically enrolled when a lesson starts or a spot becomes available (repeats every week).\n/login <username> <password> - Stores your username and password, so you can be enrolled automatically. Important: While your password is never stored in persistent memory, your are still giving a random person on the internet your password. I wouldn't do it, if I were you :)\n/logout - Remove your login credentials.\n/urlaction {0, 1, 2} - Sets the behavior when a lesson url is found:\n\t 0: Default - If you are logged in I will enroll you, otherwise I will only notify you\n\t 1: Notify - I will always notify you\n\t 2: Enroll - I will always enroll you\n\n/jobs - Show your current Jobs.\n/cancelall - Cancel all Jobs."@
}

impl Command {
    /// The start message, word for word.
    pub fn start_message() -> (r: String)
        ensures
            r@ == start_text(),
    {
        "Welcome to the ASVZ telegram bot.\nThis bot allows you to get notified/enroll when a lesson starts or as soon as a spot opens up.\nSee /help for all available commands.\nThe source code is available online: (https://github.com/GeorgOhneH/asvz-bot)".to_owned()
    }

    /// The command overview, word for word.
    pub fn descriptions() -> (r: String)
        ensures
            r@ == descriptions_text(),
    {
        "The following commands are supported:\n/start - Display the Start Message.\n/help - Displays this text.\n/notify <lesson_id> - Get notified when a lesson starts or a spot becomes available.\n/notifyweekly <lesson_id> - Get weekly notifications when a lesson starts or a spot becomes available.\n/enroll <lesson_id> - Get automatically enrolled when a lesson starts or a spot becomes available.\n/enrollweekly <lesson_id> - Get automatically enrolled when a lesson starts or a spot becomes available (repeats every week).\n/login <username> <password> - Stores your username and password, so you can be enrolled automatically. Important: While your password is never stored in persistent memory, your are still giving a random person on the internet your password. I wouldn't do it, if I were you :)\n/logout - Remove your login credentials.\n/urlaction {0, 1, 2} - Sets the behavior when a lesson url is found:\n\t 0: Default - If you are logged in I will enroll you, otherwise I will only notify you\n\t 1: Notify - I will always notify you\n\t 2: Enroll - I will always enroll you\n\n/jobs - Show your current Jobs.\n/cancelall - Cancel all Jobs.".to_owned()
    }
}

/// Why an operator's text failed to parse as a command.  A wrong bot name
/// is not represented: the transport treats that as a programming error.
#[derive(Debug)]
pub enum CmdParseError {
    /// The text names no known command.
    UnknownCommand,
    /// An argument had the wrong shape; carries the argument's own error.
    IncorrectFormat(String),
    /// Too few arguments.
    TooFewArguments { expected: u64, found: u64 },
    /// Too many arguments.
    TooManyArguments { expected: u64, found: u64 },
    /// A custom validation failed; carries its message.
    Custom(String),
}

} // verus!
