use vstd::prelude::*;

verus! {

/// Severity levels of the leveled logger, also used as the filter setting.
#[derive(Debug, Clone, Copy, PartialEq, Eq, Structural)]
pub enum Verbosity {
    Quite,
    Error,
    Warning,
    Standard,
    Info,
    Verbose,
}

/// Whether a logger configured at `setting` prints a message of `level`.
pub open spec fn admits(setting: Verbosity, level: Verbosity) -> bool {
    match setting {
        Verbosity::Quite => false,
        Verbosity::Error => level == Verbosity::Error,
        Verbosity::Warning => level == Verbosity::Warning || level == Verbosity::Error,
        Verbosity::Standard => level == Verbosity::Standard || level == Verbosity::Warning
            || level == Verbosity::Error,
        Verbosity::Info => level == Verbosity::Info || level == Verbosity::Standard || level
            == Verbosity::Warning || level == Verbosity::Error,
        Verbosity::Verbose => true,
    }
}

/// The verbosity selected by the numeric command-line setting.
pub open spec fn verbosity_of(n: nat) -> Verbosity {
    if n == 0 {
        Verbosity::Quite
    } else if n == 1 {
        Verbosity::Standard
    } else if n == 2 {
        Verbosity::Warning
    } else if n == 3 {
        Verbosity::Error
    } else if n == 4 {
        Verbosity::Info
    } else {
        Verbosity::Verbose
    }
}

/// `s` with every trailing line feed removed.
pub open spec fn strip_trailing_newlines(s: Seq<char>) -> Seq<char>
    decreases s.len(),
{
    if s.len() > 0 && s.last() == '\n' {
        strip_trailing_newlines(s.drop_last())
    } else {
        s
    }
}

/// A leveled logger: it decides which messages are shown and how.
pub struct Logger {
    pub verbosity: Verbosity,
}

impl Logger {
    pub fn new(verbosity: Verbosity) -> (r: Logger)
        ensures
            r.verbosity == verbosity,
    {
        Logger { verbosity }
    }

    fn remove_trailing_newline(&self, text: &str) -> (r: String)
        ensures
            r@ == strip_trailing_newlines(text@),
    {
        let n = text.unicode_len();
        let mut end: usize = n;
        assert(text@.subrange(0, n as int) =~= text@);
        while end > 0 && text.get_char(end - 1) == '\n'
            invariant
                end <= n,
                n == text@.len(),
                strip_trailing_newlines(text@.subrange(0, end as int)) == strip_trailing_newlines(
                    text@,
                ),
            decreases end,
        {
            assert(text@.subrange(0, end as int).drop_last() =~= text@.subrange(0, end - 1));
            end = end - 1;
        }
        String::from_str(text.substring_char(0, end))
    }

    /// The line to print for `message` at `level`, or `None` when the
    /// logger's verbosity filters it out.
    pub fn log(&self, message: &str, level: Verbosity) -> (r: Option<String>)
        ensures
            admits(self.verbosity, level) ==> r is Some && r->0@ == strip_trailing_newlines(
                message@,
            ),
            !admits(self.verbosity, level) ==> r is None,
    {
        if self.should_log_message(level) {
            Some(self.remove_trailing_newline(message))
        } else {
            None
        }
    }

    fn should_log_message(&self, level: Verbosity) -> (r: bool)
        ensures
            r == admits(self.verbosity, level),
    {
        match self.verbosity {
            Verbosity::Quite => false,
            Verbosity::Error => level == Verbosity::Error,
            Verbosity::Warning => level == Verbosity::Warning || level == Verbosity::Error,
            Verbosity::Standard => {
                level == Verbosity::Standard || level == Verbosity::Warning || level
                    == Verbosity::Error
            },
            Verbosity::Info => {
                level == Verbosity::Info || level == Verbosity::Standard || level
                    == Verbosity::Warning || level == Verbosity::Error
            },
            Verbosity::Verbose => true,
        }
    }
}

fn parse_verbosity(verbosity: usize) -> (r: Verbosity)
    ensures
        r == verbosity_of(verbosity as nat),
{
    match verbosity {
        0 => Verbosity::Quite,
        1 => Verbosity::Standard,
        2 => Verbosity::Warning,
        3 => Verbosity::Error,
        4 => Verbosity::Info,
        _ => Verbosity::Verbose,
    }
}

/// The logger for the numeric verbosity given on the command line
/// (0 quiet, 1 standard, 2 warning, 3 error, 4 info, 5 and above verbose).
pub fn init(verbosity: usize) -> (r: Logger)
    ensures
        r.verbosity == verbosity_of(verbosity as nat),
{
    Logger::new(parse_verbosity(verbosity))
}

/// The line to print for a standard message, if any.
pub fn log(logger: &Logger, message: &str) -> (r: Option<String>)
    ensures
        admits(logger.verbosity, Verbosity::Standard) ==> r is Some && r->0@
            == strip_trailing_newlines(message@),
        !admits(logger.verbosity, Verbosity::Standard) ==> r is None,
{
    logger.log(message, Verbosity::Standard)
}

/// The line to print for an error message, if any.
pub fn error(logger: &Logger, message: &str) -> (r: Option<String>)
    ensures
        admits(logger.verbosity, Verbosity::Error) ==> r is Some && r->0@
            == strip_trailing_newlines(message@),
        !admits(logger.verbosity, Verbosity::Error) ==> r is None,
{
    logger.log(message, Verbosity::Error)
}

/// The line to print for a warning, if any.
pub fn warn(logger: &Logger, message: &str) -> (r: Option<String>)
    ensures
        admits(logger.verbosity, Verbosity::Warning) ==> r is Some && r->0@
            == strip_trailing_newlines(message@),
        !admits(logger.verbosity, Verbosity::Warning) ==> r is None,
{
    logger.log(message, Verbosity::Warning)
}

/// The line to print for an informational message, if any.
pub fn info(logger: &Logger, message: &str) -> (r: Option<String>)
    ensures
        admits(logger.verbosity, Verbosity::Info) ==> r is Some && r->0@
            == strip_trailing_newlines(message@),
        !admits(logger.verbosity, Verbosity::Info) ==> r is None,
{
    logger.log(message, Verbosity::Info)
}

/// The line to print for a verbose message, if any.
pub fn verbose(logger: &Logger, message: &str) -> (r: Option<String>)
    ensures
        admits(logger.verbosity, Verbosity::Verbose) ==> r is Some && r->0@
            == strip_trailing_newlines(message@),
        !admits(logger.verbosity, Verbosity::Verbose) ==> r is None,
{
    logger.log(message, Verbosity::Verbose)
}

pub fn get_verbosity(logger: &Logger) -> (r: Verbosity)
    ensures
        r == logger.verbosity,
{
    logger.verbosity
}

pub fn is_quite(logger: &Logger) -> (r: bool)
    ensures
        r == (logger.verbosity == Verbosity::Quite),
{
    get_verbosity(logger) == Verbosity::Quite
}

/// Error messages are shown at every verbosity except the quiet one.
pub proof fn lemma_errors_visible_unless_quiet(setting: Verbosity)
    ensures
        admits(setting, Verbosity::Error) <==> setting != Verbosity::Quite,
{
}

} // verus!
