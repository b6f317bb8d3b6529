//! The rules of the logger: which records reach the native callback and with
//! which level and text, and which records each log file keeps.
use vstd::prelude::*;
use crate::text::{chars_of, occurs_at, push_char};

verus! {

/// The level of a log record, from the most to the least severe.
#[derive(Debug, Clone, Copy, PartialEq, Eq, Structural)]
pub enum LogLevel {
    Error,
    Warn,
    Info,
    Debug,
    Trace,
}

/// The native level a record is forwarded with, given the configured level
/// `log_level`: errors always (1); warnings from level 2 on (2); infos from
/// level 3 on (3); debug records from level 4 on (4); trace records never.
pub open spec fn spec_native_level(level: LogLevel, log_level: i32) -> Option<i32> {
    match level {
        LogLevel::Error => Some(1),
        LogLevel::Warn => if log_level >= 2 { Some(2) } else { None },
        LogLevel::Info => if log_level >= 3 { Some(3) } else { None },
        LogLevel::Debug => if log_level >= 4 { Some(4) } else { None },
        LogLevel::Trace => None,
    }
}

/// The tag written in front of a forwarded record.
pub open spec fn spec_native_tag(level: LogLevel) -> Seq<char> {
    match level {
        LogLevel::Error => "[Native][ERROR] ["@,
        LogLevel::Warn => "[Native][ERROR] ["@,
        LogLevel::Info => "[Native][DEBUG] ["@,
        LogLevel::Debug => "[Native][TRACE] ["@,
        LogLevel::Trace => "[Native][TRACE] ["@,
    }
}

/// The text forwarded for a record: `[Native][<TAG>] [<target>]: <message>`.
pub open spec fn spec_native_line(level: LogLevel, target: Seq<char>, message: Seq<char>) -> Seq<char> {
    spec_native_tag(level) + target + "]: "@ + message
}

/// The level a record is forwarded with, if it is forwarded at all.
pub fn native_level(level: LogLevel, log_level: i32) -> (r: Option<i32>)
    ensures
        r == spec_native_level(level, log_level),
{
    match level {
        LogLevel::Error => Some(1),
        LogLevel::Warn => if log_level >= 2 {
            Some(2)
        } else {
            None
        },
        LogLevel::Info => if log_level >= 3 {
            Some(3)
        } else {
            None
        },
        LogLevel::Debug => if log_level >= 4 {
            Some(4)
        } else {
            None
        },
        LogLevel::Trace => None,
    }
}

/// The text and the level with which a record is handed to the native
/// callback, or `None` when the configured level drops it.
pub fn native_record(level: LogLevel, log_level: i32, target: &str, message: &str) -> (r: Option<
    (String, i32),
>)
    ensures
        r is Some <==> spec_native_level(level, log_level) is Some,
        r matches Some((line, code)) ==> Some(code) == spec_native_level(level, log_level) && line@
            == spec_native_line(level, target@, message@),
{
    match native_level(level, log_level) {
        Some(code) => {
            let mut line = String::new();
            match level {
                LogLevel::Error => line.append("[Native][ERROR] ["),
                LogLevel::Warn => line.append("[Native][ERROR] ["),
                LogLevel::Info => line.append("[Native][DEBUG] ["),
                LogLevel::Debug => line.append("[Native][TRACE] ["),
                LogLevel::Trace => line.append("[Native][TRACE] ["),
            }
            line.append(target);
            line.append("]: ");
            line.append(message);
            assert(line@ =~= spec_native_line(level, target@, message@));
            Some((line, code))
        },
        None => None,
    }
}

/// Whether the debug mode goes with the configured level: from level 4 on.
pub fn debug_for_level(log_level: i32) -> (r: bool)
    ensures
        r == (log_level >= 4),
{
    log_level >= 4
}

/// The log files that the logger writes.
#[derive(Debug, Clone, Copy, PartialEq, Eq, Structural)]
pub enum LogFile {
    /// `<name>-error-<date>.log`
    Errors,
    /// `<name>-log-<date>.log`
    Infos,
    /// `<name>-trace-<date>.log`, only when tracing is on.
    Traces,
}

/// Which records a file keeps: errors and warnings in the error file, infos
/// and errors in the log file, trace records in the trace file.
pub open spec fn spec_file_keeps(file: LogFile, level: LogLevel) -> bool {
    match file {
        LogFile::Errors => level == LogLevel::Error || level == LogLevel::Warn,
        LogFile::Infos => level == LogLevel::Info || level == LogLevel::Error,
        LogFile::Traces => level == LogLevel::Trace,
    }
}

/// Whether `file` keeps a record of `level`.
pub fn file_keeps(file: LogFile, level: LogLevel) -> (r: bool)
    ensures
        r == spec_file_keeps(file, level),
{
    match file {
        LogFile::Errors => level == LogLevel::Error || level == LogLevel::Warn,
        LogFile::Infos => level == LogLevel::Info || level == LogLevel::Error,
        LogFile::Traces => level == LogLevel::Trace,
    }
}

/// The text that `str::to_lowercase` gives for `s`.
pub uninterp spec fn lowercased(s: Seq<char>) -> Seq<char>;

/// `str::to_lowercase`.
#[verifier::external_body]
fn to_lowercase(s: &str) -> (r: String)
    ensures
        r@ == lowercased(s@),
{
    s.to_lowercase()
}

/// The end of a file's name: its kind and the date pattern.
pub open spec fn spec_file_suffix(file: LogFile) -> Seq<char> {
    match file {
        LogFile::Errors => "-error-%Y%m%d.log"@,
        LogFile::Infos => "-log-%Y%m%d.log"@,
        LogFile::Traces => "-trace-%Y%m%d.log"@,
    }
}

/// The name pattern of a log file of the logger `name`: the name in lower
/// case, the kind of the file and the date pattern.
pub fn file_name_pattern(file: LogFile, name: &str) -> (r: String)
    ensures
        r@ == lowercased(name@) + spec_file_suffix(file),
{
    let mut r = to_lowercase(name);
    match file {
        LogFile::Errors => r.append("-error-%Y%m%d.log"),
        LogFile::Infos => r.append("-log-%Y%m%d.log"),
        LogFile::Traces => r.append("-trace-%Y%m%d.log"),
    }
    r
}

/// The text that the log file drops from every line: the bookkeeping fields
/// that the protobuf messages print.
pub open spec fn spec_proto_noise() -> Seq<char> {
    "unknown_fields: UnknownFields { fields: None }, cached_size: CachedSize { size: 0 }"@
}

/// `s` with every occurrence of `pat` removed, found from left to right
/// without overlaps.
pub open spec fn without(s: Seq<char>, pat: Seq<char>) -> Seq<char>
    decreases s.len(),
{
    if pat.len() == 0 || s.len() < pat.len() {
        s
    } else if s.take(pat.len() as int) == pat {
        without(s.skip(pat.len() as int), pat)
    } else {
        seq![s[0]] + without(s.drop_first(), pat)
    }
}

/// The line that a log file writes for `message`: `[<name>] <message>`.
pub open spec fn spec_file_line(name: Seq<char>, message: Seq<char>) -> Seq<char> {
    "["@ + name + "] "@ + message
}

/// The line that the error and trace files write.
pub fn file_line(name: &str, message: &str) -> (r: String)
    ensures
        r@ == spec_file_line(name@, message@),
{
    let mut r = String::new();
    r.append("[");
    r.append(name);
    r.append("] ");
    r.append(message);
    r
}

/// `message` with every occurrence of `pat` removed.
pub fn remove_all_of(message: &str, pat: &str) -> (r: String)
    ensures
        r@ == without(message@, pat@),
{
    let s = chars_of(message);
    let p = chars_of(pat);
    let n = s.len();
    let m = p.len();
    let mut r = String::new();
    let mut i: usize = 0;
    assert(s@.skip(0) =~= s@);
    while i < n
        invariant
            n == s@.len(),
            m == p@.len(),
            i <= n,
            s@ == message@,
            p@ == pat@,
            r@ + without(s@.skip(i as int), p@) == without(s@, p@),
        decreases n - i,
    {
        let ghost rest = s@.skip(i as int);
        if m > 0 && m <= n - i && occurs_at(&s, i, &p) {
            assert(rest.take(m as int) =~= s@.subrange(i as int, i + m));
            assert(rest.skip(m as int) =~= s@.skip(i + m));
            i = i + m;
        } else {
            if m > 0 && m <= n - i {
                assert(rest.take(m as int) =~= s@.subrange(i as int, i + m));
            }
            if m == 0 || n - i < m {
                assert(without(rest, p@) == rest);
                assert(without(s@.skip(i + 1), p@) == s@.skip(i + 1)) by {
                    assert(s@.skip(i + 1).len() < m || m == 0);
                }
                assert(rest =~= seq![s@[i as int]] + s@.skip(i + 1));
            } else {
                assert(rest.drop_first() =~= s@.skip(i + 1));
            }
            push_char(&mut r, s[i]);
            assert(r@ + without(s@.skip(i + 1), p@) =~= without(s@, p@));
            i = i + 1;
        }
    }
    assert(s@.skip(n as int) =~= Seq::<char>::empty());
    assert(r@ =~= without(s@, p@));
    r
}

/// The line that the log file writes: `[<name>] <message>` without the
/// protobuf bookkeeping fields.
pub fn info_line(name: &str, message: &str) -> (r: String)
    ensures
        r@ == without(spec_file_line(name@, message@), spec_proto_noise()),
{
    let line = file_line(name, message);
    remove_all_of(line.as_str(), "unknown_fields: UnknownFields { fields: None }, cached_size: CachedSize { size: 0 }")
}

/// Every error reaches the native callback and both the error file and the
/// log file; a trace record reaches only the trace file.
pub proof fn law_errors_are_never_dropped(log_level: i32)
    ensures
        spec_native_level(LogLevel::Error, log_level) == Some(1i32),
        spec_file_keeps(LogFile::Errors, LogLevel::Error),
        spec_file_keeps(LogFile::Infos, LogLevel::Error),
        spec_native_level(LogLevel::Trace, log_level) is None,
        !spec_file_keeps(LogFile::Errors, LogLevel::Trace) && !spec_file_keeps(
            LogFile::Infos,
            LogLevel::Trace,
        ),
{
}

/// Raising the configured level never drops a record that a lower level
/// forwarded.
pub proof fn law_native_level_monotone(level: LogLevel, low: i32, high: i32)
    requires
        low <= high,
    ensures
        spec_native_level(level, low) is Some ==> spec_native_level(level, high) == spec_native_level(
            level,
            low,
        ),
{
}


/// Which file keeps which record: the log file exactly the info and error
/// records, the error file exactly the error and warning records, the trace
/// file exactly the trace records. So every record from info up is kept by
/// some file, and an info record by the log file.
pub proof fn law_file_routing(level: LogLevel)
    ensures
        spec_file_keeps(LogFile::Infos, level) <==> (level == LogLevel::Info || level == LogLevel::Error),
        spec_file_keeps(LogFile::Errors, level) <==> (level == LogLevel::Error || level == LogLevel::Warn),
        spec_file_keeps(LogFile::Traces, level) <==> level == LogLevel::Trace,
        (level == LogLevel::Error || level == LogLevel::Warn || level == LogLevel::Info) ==> exists|file: LogFile|
            #[trigger] spec_file_keeps(file, level),
{
    if level == LogLevel::Error || level == LogLevel::Info {
        assert(spec_file_keeps(LogFile::Infos, level));
    }
    if level == LogLevel::Warn {
        assert(spec_file_keeps(LogFile::Errors, level));
    }
}

/// The line handed to the native callback names the record's severity as the
/// host reads it: errors and warnings as `ERROR`, infos as `DEBUG`, debug
/// records as `TRACE`, followed by the target in brackets and the message.
pub proof fn law_native_lines(target: Seq<char>, message: Seq<char>)
    ensures
        spec_native_line(LogLevel::Error, target, message) == "[Native][ERROR] ["@ + target + "]: "@ + message,
        spec_native_line(LogLevel::Warn, target, message) == "[Native][ERROR] ["@ + target + "]: "@ + message,
        spec_native_line(LogLevel::Info, target, message) == "[Native][DEBUG] ["@ + target + "]: "@ + message,
        spec_native_line(LogLevel::Debug, target, message) == "[Native][TRACE] ["@ + target + "]: "@ + message,
        spec_native_level(LogLevel::Warn, 2) == Some(2i32),
        spec_native_level(LogLevel::Info, 3) == Some(3i32),
        spec_native_level(LogLevel::Debug, 4) == Some(4i32),
{
}


/// Which records reach the native callback, and with which level: errors
/// always with 1; warnings with 2 from configured level 2 on; infos with 3
/// from level 3 on; debug records with 4 from level 4 on; trace records
/// never.
pub proof fn law_native_levels(log_level: i32)
    ensures
        spec_native_level(LogLevel::Error, log_level) == Some(1i32),
        spec_native_level(LogLevel::Warn, log_level) == (if log_level >= 2 {
            Some(2i32)
        } else {
            None
        }),
        spec_native_level(LogLevel::Info, log_level) == (if log_level >= 3 {
            Some(3i32)
        } else {
            None
        }),
        spec_native_level(LogLevel::Debug, log_level) == (if log_level >= 4 {
            Some(4i32)
        } else {
            None
        }),
        spec_native_level(LogLevel::Trace, log_level) == None::<i32>,
{
}

/// The three files of a logger are told apart by their kind, written
/// between the name and the date pattern: `-error-`, `-log-` and `-trace-`.
pub proof fn law_file_names(name: Seq<char>)
    ensures
        lowercased(name) + spec_file_suffix(LogFile::Errors) == lowercased(name) + "-error-%Y%m%d.log"@,
        lowercased(name) + spec_file_suffix(LogFile::Infos) == lowercased(name) + "-log-%Y%m%d.log"@,
        lowercased(name) + spec_file_suffix(LogFile::Traces) == lowercased(name) + "-trace-%Y%m%d.log"@,
{
}

/// A file line is the logger's name in brackets, a space and the message;
/// the log file's line is that line without the protobuf bookkeeping text.
pub proof fn law_file_lines(name: Seq<char>, message: Seq<char>)
    ensures
        spec_file_line(name, message) == "["@ + name + "] "@ + message,
        spec_proto_noise() == "unknown_fields: UnknownFields { fields: None }, cached_size: CachedSize { size: 0 }"@,
        without(message, Seq::<char>::empty()) == message,
{
}

} // verus!
