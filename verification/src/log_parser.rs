//! Log analysis: the level of a runtime log line, the error that a line
//! tells of, and what to suggest for it.

use crate::text::{
    chars_of, contains, find, first_match, has_substring, join, slice_string, tail,
};
use std::collections::VecDeque;
use vstd::prelude::*;

verus! {

/// Severity of a log line.
#[derive(Clone, Copy, Debug, PartialEq, Eq, Structural)]
pub enum LogLevel {
    Info,
    Warning,
    Error,
    Fatal,
}

/// One log line, as it is kept.
#[derive(Clone, Debug)]
pub struct LogEntry {
    pub timestamp: u64,
    pub level: LogLevel,
    pub message: String,
    pub source: String,
}

/// Mathematical model of a `LogEntry`.
pub struct LogEntryModel {
    pub timestamp: u64,
    pub level: LogLevel,
    pub message: Seq<char>,
    pub source: Seq<char>,
}

impl View for LogEntry {
    type V = LogEntryModel;

    open spec fn view(&self) -> LogEntryModel {
        LogEntryModel {
            timestamp: self.timestamp,
            level: self.level,
            message: self.message@,
            source: self.source@,
        }
    }
}

/// An error that a log line tells of.
#[derive(Clone, Debug)]
pub enum WineError {
    MissingDLL { dll_name: String },
    DirectXError { error_code: String },
    SteamHelperCrash { reason: Option<String> },
    AccessViolation { address: String },
    MemoryError,
    RegistryError { key: String },
    Unknown { message: String },
}

/// Mathematical model of a `WineError`.
pub enum WineErrorModel {
    MissingDLL { dll_name: Seq<char> },
    DirectXError { error_code: Seq<char> },
    SteamHelperCrash { reason: Option<Seq<char>> },
    AccessViolation { address: Seq<char> },
    MemoryError,
    RegistryError { key: Seq<char> },
    Unknown { message: Seq<char> },
}

impl View for WineError {
    type V = WineErrorModel;

    open spec fn view(&self) -> WineErrorModel {
        match self {
            WineError::MissingDLL { dll_name } => WineErrorModel::MissingDLL { dll_name: dll_name@ },
            WineError::DirectXError { error_code } => WineErrorModel::DirectXError {
                error_code: error_code@,
            },
            WineError::SteamHelperCrash { reason } => WineErrorModel::SteamHelperCrash {
                reason: match reason {
                    Some(r) => Some(r@),
                    None => None,
                },
            },
            WineError::AccessViolation { address } => WineErrorModel::AccessViolation {
                address: address@,
            },
            WineError::MemoryError => WineErrorModel::MemoryError,
            WineError::RegistryError { key } => WineErrorModel::RegistryError { key: key@ },
            WineError::Unknown { message } => WineErrorModel::Unknown { message: message@ },
        }
    }
}

/// Number of log lines that a parser keeps.
pub const LOG_CAPACITY: usize = 1000;

/// The level of a log line: an error where the line is marked `:err:`, a
/// warning where it is marked `:fixme:`, information otherwise.
pub open spec fn level_of(line: Seq<char>) -> LogLevel {
    if has_substring(line, ":err:"@) {
        LogLevel::Error
    } else if has_substring(line, ":fixme:"@) {
        LogLevel::Warning
    } else {
        LogLevel::Info
    }
}

/// The entry that a log line read at `timestamp` is kept as.
pub open spec fn entry_of(line: Seq<char>, timestamp: u64) -> LogEntryModel {
    LogEntryModel { timestamp, level: level_of(line), message: line, source: "wine"@ }
}

/// The kept lines after one more was recorded: at capacity the oldest line
/// leaves first.
pub open spec fn record_step(logs: Seq<LogEntryModel>, entry: LogEntryModel) -> Seq<LogEntryModel> {
    if logs.len() >= LOG_CAPACITY {
        logs.subrange(1, logs.len() as int).push(entry)
    } else {
        logs.push(entry)
    }
}

/// The name of the library in the text that follows the word `Library `: what
/// stands before the first space, or before the next `Library `, whichever
/// comes first, or all of it.
pub open spec fn library_token(rest: Seq<char>) -> Seq<char> {
    let end = match (first_match(rest, " "@, 0), first_match(rest, "Library "@, 0)) {
        (Some(space), Some(next)) => if space < next {
            space
        } else {
            next
        },
        (Some(space), None) => space,
        (None, Some(next)) => next,
        (None, None) => rest.len() as int,
    };
    rest.subrange(0, end)
}

/// The error that a log line tells of, if any. A line of the module loader
/// about a library tells of a missing library, named after the first
/// `Library `; a page fault of the Steam helper tells of its crash; the code
/// `0xc0000005` tells of an access violation.
pub open spec fn analyze_spec(line: Seq<char>) -> Option<WineErrorModel> {
    if has_substring(line, "err:module:import_dll Library"@) {
        match first_match(line, "Library "@, 0) {
            Some(at) => Some(
                WineErrorModel::MissingDLL {
                    dll_name: library_token(
                        line.subrange(at + "Library "@.len(), line.len() as int),
                    ),
                },
            ),
            None => None,
        }
    } else if has_substring(line, "SteamHelper.exe"@) && has_substring(line, "page fault"@) {
        Some(WineErrorModel::SteamHelperCrash { reason: Some("CEF Crash"@) })
    } else if has_substring(line, "0xc0000005"@) {
        Some(WineErrorModel::AccessViolation { address: "0xc0000005"@ })
    } else {
        None
    }
}

/// What is suggested for an error.
pub open spec fn suggestions_of(error: WineErrorModel) -> Seq<Seq<char>> {
    match error {
        WineErrorModel::MissingDLL { dll_name } => seq![
            "Install missing library: "@ + dll_name,
            "Check 'winetricks' for this package"@,
        ],
        WineErrorModel::SteamHelperCrash { .. } => seq![
            "Restart Steam with '-no-browser' flag"@,
            "Disable GPU acceleration in Steam settings"@,
        ],
        WineErrorModel::AccessViolation { .. } => seq![
            "Check if the application requires 'run as admin'"@,
            "Verify file permissions in drive_c"@,
        ],
        _ => seq!["Check online WineHQ AppDB for this specific application"@],
    }
}

/// The log lines that were read last, oldest first.
pub struct LogParser {
    pub logs: VecDeque<LogEntry>,
}

impl View for LogParser {
    type V = Seq<LogEntryModel>;

    open spec fn view(&self) -> Seq<LogEntryModel> {
        self.logs@.map_values(|e: LogEntry| e@)
    }
}

impl LogParser {
    /// A parser that keeps no line yet.
    pub fn new() -> (parser: LogParser)
        ensures
            parser@ == Seq::<LogEntryModel>::empty(),
    {
        let parser = LogParser { logs: VecDeque::new() };
        assert(parser@ =~= Seq::<LogEntryModel>::empty());
        parser
    }

    /// The level of a log line.
    pub fn level(line: &str) -> (level: LogLevel)
        ensures
            level == level_of(line@),
    {
        if contains(line, ":err:") {
            LogLevel::Error
        } else if contains(line, ":fixme:") {
            LogLevel::Warning
        } else {
            LogLevel::Info
        }
    }

    /// Reads one log line at time `timestamp`: returns its entry and keeps a
    /// copy, dropping the oldest kept line where the parser is full.
    pub fn parse_line(&mut self, line: &str, timestamp: u64) -> (r: Option<LogEntry>)
        ensures
            r matches Some(entry) && entry@ == entry_of(line@, timestamp),
            final(self)@ == record_step(old(self)@, entry_of(line@, timestamp)),
    {
        let level = Self::level(line);
        let kept = LogEntry {
            timestamp,
            level,
            message: line.to_owned(),
            source: "wine".to_owned(),
        };
        let entry = LogEntry {
            timestamp,
            level,
            message: line.to_owned(),
            source: "wine".to_owned(),
        };
        if self.logs.len() >= LOG_CAPACITY {
            self.logs.pop_front();
        }
        self.logs.push_back(kept);
        assert(self@ =~= record_step(old(self)@, entry_of(line@, timestamp)));
        Some(entry)
    }

    /// The kept lines, oldest first.
    pub fn recent(&self) -> (entries: Vec<LogEntry>)
        ensures
            entries@.map_values(|e: LogEntry| e@) == self@,
    {
        let mut entries: Vec<LogEntry> = Vec::new();
        let mut i: usize = 0;
        while i < self.logs.len()
            invariant
                i <= self.logs.len(),
                entries@.map_values(|e: LogEntry| e@) == self@.take(i as int),
            decreases self.logs.len() - i,
        {
            let kept = &self.logs[i];
            entries.push(
                LogEntry {
                    timestamp: kept.timestamp,
                    level: kept.level,
                    message: kept.message.clone(),
                    source: kept.source.clone(),
                },
            );
            assert(entries@.last()@ == self@[i as int]);
            assert(entries@.map_values(|e: LogEntry| e@) =~= self@.take(i as int).push(
                self@[i as int],
            ));
            assert(self@.take(i + 1) =~= self@.take(i as int).push(self@[i as int]));
            i += 1;
        }
        assert(self@.take(self.logs.len() as int) =~= self@);
        entries
    }

    /// The name of the library in the text that follows the word `Library `.
    fn library_name(rest: &Vec<char>) -> (name: String)
        ensures
            name@ == library_token(rest@),
    {
        let space = find(rest, &chars_of(" "), 0);
        let next = find(rest, &chars_of("Library "), 0);
        proof {
            crate::text::lemma_first_match(rest@, " "@, 0);
            crate::text::lemma_first_match(rest@, "Library "@, 0);
        }
        let end: usize = match (space, next) {
            (Some(space), Some(next)) => if space < next {
                space
            } else {
                next
            },
            (Some(space), None) => space,
            (None, Some(next)) => next,
            (None, None) => rest.len(),
        };
        slice_string(rest, 0, end)
    }

    /// The error that a log line tells of, if any.
    pub fn analyze_error(line: &str) -> (error: Option<WineError>)
        ensures
            match error {
                Some(e) => analyze_spec(line@) == Some(e@),
                None => analyze_spec(line@).is_none(),
            },
    {
        if contains(line, "err:module:import_dll Library") {
            let chars = chars_of(line);
            let word = chars_of("Library ");
            proof {
                crate::text::lemma_first_match(chars@, word@, 0);
            }
            match find(&chars, &word, 0) {
                Some(at) => {
                    assert(crate::text::matches_at(chars@, word@, at as int));
                    assert(at + word.len() <= chars.len());
                    let rest = tail(&chars, at + word.len());
                    Some(WineError::MissingDLL { dll_name: Self::library_name(&rest) })
                },
                None => None,
            }
        } else if contains(line, "SteamHelper.exe") && contains(line, "page fault") {
            Some(WineError::SteamHelperCrash { reason: Some("CEF Crash".to_owned()) })
        } else if contains(line, "0xc0000005") {
            Some(WineError::AccessViolation { address: "0xc0000005".to_owned() })
        } else {
            None
        }
    }

    /// What is suggested for an error.
    pub fn suggest_fix(error: &WineError) -> (suggestions: Vec<String>)
        ensures
            suggestions@.map_values(|s: String| s@) == suggestions_of(error@),
    {
        let mut suggestions: Vec<String> = Vec::new();
        match error {
            WineError::MissingDLL { dll_name } => {
                suggestions.push(join("Install missing library: ", dll_name.as_str()));
                suggestions.push("Check 'winetricks' for this package".to_owned());
            },
            WineError::SteamHelperCrash { .. } => {
                suggestions.push("Restart Steam with '-no-browser' flag".to_owned());
                suggestions.push("Disable GPU acceleration in Steam settings".to_owned());
            },
            WineError::AccessViolation { .. } => {
                suggestions.push("Check if the application requires 'run as admin'".to_owned());
                suggestions.push("Verify file permissions in drive_c".to_owned());
            },
            _ => {
                suggestions.push(
                    "Check online WineHQ AppDB for this specific application".to_owned(),
                );
            },
        }
        assert(suggestions@.map_values(|s: String| s@) =~= suggestions_of(error@));
        suggestions
    }
}

} // verus!
