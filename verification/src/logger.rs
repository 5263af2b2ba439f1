//! The set-up of logging, and what a log looks like.
use vstd::prelude::*;

verus! {

/// The time stamp in the name of a log file.
pub const FILE_TIME_FORMAT: &'static str = "%Y-%m-%d_%H-%M-%S";

/// The time stamp of a line.
pub const LINE_TIME_FORMAT: &'static str = "%Y-%m-%d %H:%M:%S%.3f";

/// How grave a message is.
#[derive(Debug, Clone, Copy, PartialEq, Eq, Structural)]
pub enum Level {
    /// Something failed.
    Error,
    /// Something may be wrong.
    Warn,
    /// Something worth knowing.
    Info,
    /// For the search for faults.
    Debug,
    /// Every detail.
    Trace,
}

/// How grave a message must be to be logged.
#[derive(Debug, Clone, Copy, PartialEq, Eq, Structural)]
pub enum LevelFilter {
    /// No message is logged.
    Off,
    /// Failures alone.
    Error,
    /// Also what may be wrong.
    Warn,
    /// Also what is worth knowing.
    Info,
    /// Also what helps in the search for faults.
    Debug,
    /// Every message.
    Trace,
}

/// How to log.
#[derive(Debug)]
pub struct LoggerConfig {
    /// Whether to log at all.
    pub enabled: bool,
    /// The directory for the log file; without one there is no file.
    pub log_dir: Option<String>,
    /// How grave a message must be.
    pub log_level: LevelFilter,
}

impl Default for LoggerConfig {
    /// Logs everything but details, and to no file.
    fn default() -> (r: Self)
        ensures
            r.enabled,
            r.log_dir is None,
            r.log_level == LevelFilter::Debug,
    {
        LoggerConfig { enabled: true, log_dir: None, log_level: LevelFilter::Debug }
    }
}

impl LoggerConfig {
    /// Logs everything but details, and to no file.
    pub fn new() -> (r: Self)
        ensures
            r.enabled,
            r.log_dir is None,
            r.log_level == LevelFilter::Debug,
    {
        LoggerConfig::default()
    }

    /// Logs to a file in a directory.
    pub fn with_log_dir(self, dir: &str) -> (r: Self)
        ensures
            r.enabled == self.enabled,
            r.log_dir matches Some(d) && d@ == dir@,
            r.log_level == self.log_level,
    {
        LoggerConfig { log_dir: Some(dir.to_owned()), ..self }
    }

    /// Logs messages that are grave enough.
    pub fn with_log_level(self, level: LevelFilter) -> (r: Self)
        ensures
            r == (LoggerConfig { log_level: level, ..self }),
    {
        LoggerConfig { log_level: level, ..self }
    }

    /// Does not log.
    pub fn disable_logging(self) -> (r: Self)
        ensures
            r == (LoggerConfig { enabled: false, ..self }),
    {
        LoggerConfig { enabled: false, ..self }
    }
}

/// Whether logging was set up.
#[derive(Debug, Clone, Copy, PartialEq, Eq, Structural)]
pub struct LoggerState {
    /// Whether it was set up, or switched off for good.
    pub initialized: bool,
}

/// A logger that is to be installed.
#[derive(Debug)]
pub struct LoggerPlan {
    /// The directory for the log file; without one there is no file.
    pub log_dir: Option<String>,
    /// How grave a message must be.
    pub log_level: LevelFilter,
}

impl LoggerState {
    /// Logging that was not set up.
    pub fn new() -> (r: Self)
        ensures
            !r.initialized,
    {
        LoggerState { initialized: false }
    }

    /// Decides how to set up logging.
    ///
    /// It can be set up once. Switching it off counts as that, and can be asked
    /// for again. The logger that is to be installed, if any, is returned; once
    /// it is, `complete_setup` is to be called.
    pub fn setup_logger(&mut self, config: LoggerConfig) -> (r: Result<Option<LoggerPlan>, String>)
        ensures
            old(self).initialized && config.enabled ==> {
                &&& r matches Err(reason) && reason@ == "Logger already initialized"@
                &&& final(self).initialized
            },
            !config.enabled ==> {
                &&& r matches Ok(None)
                &&& final(self).initialized
            },
            !old(self).initialized && config.enabled ==> {
                &&& r matches Ok(Some(plan)) && plan.log_dir == config.log_dir && plan.log_level
                    == config.log_level
                &&& !final(self).initialized
            },
    {
        if self.initialized {
            if !config.enabled {
                return Ok(None);
            }
            return Err("Logger already initialized".to_owned());
        }
        if !config.enabled {
            self.initialized = true;
            return Ok(None);
        }
        Ok(Some(LoggerPlan { log_dir: config.log_dir, log_level: config.log_level }))
    }

    /// Takes note that the logger is installed.
    pub fn complete_setup(&mut self)
        ensures
            final(self).initialized,
    {
        self.initialized = true;
    }
}

/// What chrono makes of a date and a time under a format. The time is given in
/// seconds since the start of 1970 on the same clock, and nanoseconds.
pub uninterp spec fn formatted_time(secs: i64, nanos: u32, format: Seq<char>) -> Option<Seq<char>>;

/// A date and a time as text: `chrono::NaiveDateTime::format` of what
/// `chrono::DateTime::from_timestamp` makes of the seconds and nanoseconds.
///
/// The result depends on the arguments alone. There is one for every second
/// from 1970 up to the end of the year 9999. Converting to text fails under a
/// malformed format, so only the two formats of this module are passed.
#[verifier::external_body]
fn format_time(secs: i64, nanos: u32, format: &str) -> (r: Option<String>)
    requires
        format@ == FILE_TIME_FORMAT@ || format@ == LINE_TIME_FORMAT@,
    ensures
        match r {
            Some(text) => formatted_time(secs, nanos, format@) == Some(text@),
            None => formatted_time(secs, nanos, format@) is None,
        },
        0 <= secs < 253_402_300_800 && nanos < 1_000_000_000 ==> r is Some,
{
    match chrono::DateTime::from_timestamp(secs, nanos) {
        Some(time) => Some(time.naive_utc().format(format).to_string()),
        None => None,
    }
}

/// What a level is called in a log.
pub open spec fn level_text(level: Level) -> Seq<char> {
    match level {
        Level::Error => "ERROR"@,
        Level::Warn => "WARN"@,
        Level::Info => "INFO"@,
        Level::Debug => "DEBUG"@,
        Level::Trace => "TRACE"@,
    }
}

/// What a level is called: `log::Level::as_str`, which gives its name in upper
/// case.
#[verifier::external_body]
fn level_name(level: Level) -> (r: String)
    ensures
        r@ == level_text(level),
{
    let level = match level {
        Level::Error => log::Level::Error,
        Level::Warn => log::Level::Warn,
        Level::Info => log::Level::Info,
        Level::Debug => log::Level::Debug,
        Level::Trace => log::Level::Trace,
    };
    level.as_str().to_owned()
}

/// The name of a log file with a time stamp.
pub open spec fn file_name_text(timestamp: Seq<char>) -> Seq<char> {
    "application_log_"@ + timestamp + ".txt"@
}

/// The name of a log file with a time stamp.
pub fn file_name_with(timestamp: &str) -> (r: String)
    ensures
        r@ == file_name_text(timestamp@),
{
    let mut name = "application_log_".to_owned();
    name.append(timestamp);
    name.append(".txt");
    name
}

/// The name of a log file that is made at a time.
pub fn log_file_name(secs: i64, nanos: u32) -> (r: Option<String>)
    ensures
        match formatted_time(secs, nanos, FILE_TIME_FORMAT@) {
            Some(timestamp) => r matches Some(name) && name@ == file_name_text(timestamp),
            None => r is None,
        },
        0 <= secs < 253_402_300_800 && nanos < 1_000_000_000 ==> r is Some,
{
    match format_time(secs, nanos, FILE_TIME_FORMAT) {
        Some(timestamp) => Some(file_name_with(timestamp.as_str())),
        None => None,
    }
}

/// A line of a log: the time stamp, the level in square brackets, a dash, the
/// message and the end of the line.
pub open spec fn line_text(timestamp: Seq<char>, level: Level, message: Seq<char>) -> Seq<char> {
    timestamp + " ["@ + level_text(level) + "] - "@ + message + "\n"@
}

/// A line of a log with a time stamp.
pub fn line_with(timestamp: &str, level: Level, message: &str) -> (r: String)
    ensures
        r@ == line_text(timestamp@, level, message@),
{
    let mut line = timestamp.to_owned();
    line.append(" [");
    line.append(level_name(level).as_str());
    line.append("] - ");
    line.append(message);
    line.append("\n");
    line
}

/// The line of a log for a message at a time.
pub fn log_line(secs: i64, nanos: u32, level: Level, message: &str) -> (r: Option<String>)
    ensures
        match formatted_time(secs, nanos, LINE_TIME_FORMAT@) {
            Some(timestamp) => r matches Some(line) && line@ == line_text(
                timestamp,
                level,
                message@,
            ),
            None => r is None,
        },
        0 <= secs < 253_402_300_800 && nanos < 1_000_000_000 ==> r is Some,
{
    match format_time(secs, nanos, LINE_TIME_FORMAT) {
        Some(timestamp) => Some(line_with(timestamp.as_str(), level, message)),
        None => None,
    }
}

/// The larger of two counts, where a count that is missing is nothing.
pub open spec fn larger_count(a: Option<usize>, b: Option<usize>) -> usize {
    match (a, b) {
        (Some(m), Some(n)) => if m >= n {
            m
        } else {
            n
        },
        (Some(m), None) => m,
        (None, Some(n)) => n,
        (None, None) => 0,
    }
}

/// What writing to the file and to the standard output comes to: how much the
/// one that took more has taken. `None` stands for an output that there is not
/// or that failed.
pub fn combine_writes(file: Option<usize>, stdout: Option<usize>) -> (r: Result<usize, String>)
    ensures
        larger_count(file, stdout) > 0 ==> r == Ok::<usize, String>(larger_count(file, stdout)),
        larger_count(file, stdout) == 0 ==> (r matches Err(reason) && reason@
            == "Failed to write to any output"@),
{
    let mut max_written: usize = match file {
        Some(written) => written,
        None => 0,
    };
    match stdout {
        Some(written) => {
            if written > max_written {
                max_written = written;
            }
        },
        None => {},
    }
    if max_written > 0 {
        Ok(max_written)
    } else {
        Err("Failed to write to any output".to_owned())
    }
}

/// What flushing the file and the standard output comes to: it fails where one
/// of them failed.
pub fn combine_flushes(file_failed: bool, stdout_failed: bool) -> (r: Result<(), String>)
    ensures
        r is Ok <==> !file_failed && !stdout_failed,
        r matches Err(reason) ==> reason@ == "Failed to flush one or more outputs"@,
{
    if file_failed || stdout_failed {
        Err("Failed to flush one or more outputs".to_owned())
    } else {
        Ok(())
    }
}

/// A line of a log begins with its time stamp, has the level in square brackets
/// behind it, and ends with the message and the end of the line.
pub proof fn line_has_time_level_and_message(
    timestamp: Seq<char>,
    level: Level,
    message: Seq<char>,
)
    ensures
        ({
            let line = line_text(timestamp, level, message);
            let name = level_text(level);
            let start = timestamp.len() as int;
            &&& line.len() == start + 2 + name.len() + 4 + message.len() + 1
            &&& line.subrange(0, start) == timestamp
            &&& line[start] == ' '
            &&& line[start + 1] == '['
            &&& line.subrange(start + 2, start + 2 + name.len()) == name
            &&& line[start + 2 + name.len()] == ']'
            &&& line.subrange(line.len() - 1 - message.len(), line.len() - 1) == message
            &&& line.last() == '\n'
        }),
{
    reveal_strlit(" [");
    reveal_strlit("] - ");
    reveal_strlit("\n");
    let line = line_text(timestamp, level, message);
    let name = level_text(level);
    let start = timestamp.len() as int;
    assert(line.subrange(0, start) =~= timestamp);
    assert(line.subrange(start + 2, start + 2 + name.len()) =~= name);
    assert(line.subrange(line.len() - 1 - message.len(), line.len() - 1) =~= message);
}

/// What two outputs have taken comes to what the one has taken that took more.
pub proof fn larger_count_wins(a: Option<usize>, b: Option<usize>)
    ensures
        a matches Some(n) ==> larger_count(a, b) >= n,
        b matches Some(n) ==> larger_count(a, b) >= n,
        larger_count(a, b) == 0 || a == Some(larger_count(a, b)) || b == Some(larger_count(a, b)),
{
}

/// Log files of different times have different names.
pub proof fn file_names_tell_the_time(a: Seq<char>, b: Seq<char>)
    requires
        file_name_text(a) == file_name_text(b),
    ensures
        a == b,
        a.len() + 20 == file_name_text(a).len(),
        file_name_text(a).subrange(16, 16 + a.len() as int) == a,
{
    reveal_strlit("application_log_");
    reveal_strlit(".txt");
    assert(file_name_text(a).len() == a.len() + 20);
    assert(file_name_text(b).len() == b.len() + 20);
    assert(file_name_text(a).subrange(16, 16 + a.len() as int) =~= a);
    assert(file_name_text(b).subrange(16, 16 + b.len() as int) =~= b);
}

} // verus!
