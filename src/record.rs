use vstd::prelude::*;

verus! {

/// Where a log record is sent.
#[derive(Clone, Copy, Debug, PartialEq, Eq, Structural)]
pub enum LogType {
    Console,
    FileSystem,
    Network,
}

/// Severity of a log record. No ordering or filtering is attached to it.
#[derive(Clone, Copy, Debug, PartialEq, Eq, Structural)]
pub enum LogLevel {
    Info,
    Error,
    Warn,
    Debug,
}

/// The upper-case tag that a level is rendered as.
pub open spec fn level_tag(level: LogLevel) -> Seq<char> {
    match level {
        LogLevel::Info => seq!['I', 'N', 'F', 'O'],
        LogLevel::Error => seq!['E', 'R', 'R', 'O', 'R'],
        LogLevel::Warn => seq!['W', 'A', 'R', 'N'],
        LogLevel::Debug => seq!['D', 'E', 'B', 'U', 'G'],
    }
}

impl LogLevel {
    /// The tag of this level, as text.
    pub fn to_string(&self) -> (r: String)
        ensures
            r@ == level_tag(*self),
    {
        let tag = match self {
            LogLevel::Info => "INFO",
            LogLevel::Error => "ERROR",
            LogLevel::Warn => "WARN",
            LogLevel::Debug => "DEBUG",
        };
        proof {
            reveal_strlit("INFO");
            reveal_strlit("ERROR");
            reveal_strlit("WARN");
            reveal_strlit("DEBUG");
        }
        let r = String::from_str(tag);
        assert(r@ =~= level_tag(*self));
        r
    }
}

/// Why a record could not be written. Each variant carries the description
/// of the underlying failure.
#[derive(Clone, Debug, PartialEq, Eq)]
pub enum LogError {
    FileOpenError(String),
    FileWriteError(String),
    LogError(String),
}

/// Name of the file that the file sink appends to.
pub const DEFAULT_LOG_FILE_NAME: &'static str = "log.txt";

/// The path the file sink appends to, as text.
pub open spec fn default_log_path() -> Seq<char> {
    seq!['l', 'o', 'g', '.', 't', 'x', 't']
}

/// The rendered record: `[TAG] message`.
pub open spec fn record_text(level: LogLevel, message: Seq<char>) -> Seq<char> {
    seq!['['] + level_tag(level) + seq![']', ' '] + message
}

/// What the file sink appends for one record: the record and a newline.
pub open spec fn file_line(level: LogLevel, message: Seq<char>) -> Seq<char> {
    record_text(level, message).push('\n')
}

impl LogType {
    /// Whether a sink exists for this target; the network sink does not.
    pub fn is_supported(&self) -> (r: bool)
        ensures
            r == !(*self is Network),
    {
        !matches!(self, LogType::Network)
    }
}

/// Renders `[TAG] message` for a level and a message.
pub fn format_record(level: LogLevel, message: &str) -> (r: String)
    ensures
        r@ == record_text(level, message@),
{
    let mut r = String::from_str("[");
    let tag = level.to_string();
    r.append(tag.as_str());
    r.append("] ");
    r.append(message);
    proof {
        reveal_strlit("[");
        reveal_strlit("] ");
    }
    assert(r@ =~= record_text(level, message@));
    r
}

/// The side effect that writing one record to a target consists of.
pub enum LogAction {
    /// Print `line` on standard output, followed by a newline.
    Print { line: String },
    /// Append `line` to the file at `path`, creating it first if `create`
    /// holds and it does not exist.
    Append { path: String, line: String, create: bool },
}

/// Decides what writing `value` at `log_level` to `log_type` does.
/// The network target has no sink, so it is left out.
pub fn plan_write(log_type: LogType, log_level: LogLevel, value: &str) -> (r: LogAction)
    requires
        !(log_type is Network),
    ensures
        log_type is Console ==> (r matches LogAction::Print { line } && line@ == record_text(
            log_level,
            value@,
        )),
        log_type is FileSystem ==> (r matches LogAction::Append { path, line, create } && path@
            == default_log_path() && line@ == file_line(log_level, value@) && create),
{
    let record = format_record(log_level, value);
    match log_type {
        LogType::Console => LogAction::Print { line: record },
        _ => {
            let mut line = record;
            line.append("\n");
            proof {
                reveal_strlit("\n");
                reveal_strlit("log.txt");
            }
            assert(line@ =~= file_line(log_level, value@));
            let path = String::from_str(DEFAULT_LOG_FILE_NAME);
            assert(path@ =~= default_log_path());
            LogAction::Append { path, line, create: true }
        },
    }
}

/// How an attempt to append a line to a file ended.
pub enum AppendOutcome {
    /// The file could not be opened; the failure's description.
    OpenFailed(String),
    /// The file was opened but the write failed; the failure's description.
    WriteFailed(String),
    /// The line was written.
    Written,
}

/// The result that writing to the file sink reports for an outcome.
pub fn append_result(outcome: AppendOutcome) -> (r: Result<(), LogError>)
    ensures
        outcome matches AppendOutcome::OpenFailed(d) ==> r == Err::<(), LogError>(
            LogError::FileOpenError(d),
        ),
        outcome matches AppendOutcome::WriteFailed(d) ==> r == Err::<(), LogError>(
            LogError::FileWriteError(d),
        ),
        outcome is Written ==> r is Ok,
{
    match outcome {
        AppendOutcome::OpenFailed(d) => Err(LogError::FileOpenError(d)),
        AppendOutcome::WriteFailed(d) => Err(LogError::FileWriteError(d)),
        AppendOutcome::Written => Ok(()),
    }
}

/// A record that the file sink appends is exactly one line: it ends in a
/// newline, holds no other, and what precedes the newline is the record,
/// whenever the message itself holds no newline.
pub proof fn lemma_file_line_is_one_record(level: LogLevel, message: Seq<char>)
    requires
        !message.contains('\n'),
    ensures
        file_line(level, message).len() > 0,
        file_line(level, message).last() == '\n',
        file_line(level, message).drop_last() == record_text(level, message),
        forall|i: int|
            0 <= i < file_line(level, message).len() - 1 ==> #[trigger] file_line(
                level,
                message,
            )[i] != '\n',
{
    let rec = record_text(level, message);
    let line = file_line(level, message);
    assert(line.drop_last() =~= rec);
    let head = seq!['['] + level_tag(level) + seq![']', ' '];
    assert(rec =~= head + message);
    assert forall|i: int| 0 <= i < line.len() - 1 implies #[trigger] line[i] != '\n' by {
        assert(line[i] == rec[i]);
        if i < head.len() {
            assert(head[i] != '\n');
        } else {
            assert(rec[i] == message[i - head.len()]);
        }
    }
}

} // verus!
