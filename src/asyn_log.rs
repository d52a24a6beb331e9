use vstd::prelude::*;
use vstd::string::{StrSliceExecFns, StringExecFns};
use crate::rotation::Rotator;

verus! {

/// Number of formatted lines the delivery channel holds before a sender blocks.
pub const CHANNEL_CAPACITY: usize = 1024;

/// Severity of one record, most severe first.
#[derive(Clone, Copy, Debug, PartialEq, Eq, Structural)]
pub enum Level {
    Error,
    Warn,
    Info,
    Debug,
    Trace,
}

/// Minimum severity that is emitted; `Off` emits nothing.
#[derive(Clone, Copy, Debug, PartialEq, Eq, Structural)]
pub enum LevelFilter {
    Off,
    Error,
    Warn,
    Info,
    Debug,
    Trace,
}

pub open spec fn level_rank(l: Level) -> nat {
    match l {
        Level::Error => 1,
        Level::Warn => 2,
        Level::Info => 3,
        Level::Debug => 4,
        Level::Trace => 5,
    }
}

pub open spec fn filter_rank(f: LevelFilter) -> nat {
    match f {
        LevelFilter::Off => 0,
        LevelFilter::Error => 1,
        LevelFilter::Warn => 2,
        LevelFilter::Info => 3,
        LevelFilter::Debug => 4,
        LevelFilter::Trace => 5,
    }
}

/// The one-letter token that stands for a level in a formatted line.
pub open spec fn level_token_spec(l: Level) -> char {
    match l {
        Level::Error => 'E',
        Level::Warn => 'W',
        Level::Info => 'I',
        Level::Debug => 'D',
        Level::Trace => 'T',
    }
}

/// Whether a record of level `l` passes the filter `f`.
pub fn level_enabled(l: Level, f: LevelFilter) -> (r: bool)
    ensures
        r == (level_rank(l) <= filter_rank(f)),
{
    let lr: u8 = match l {
        Level::Error => 1,
        Level::Warn => 2,
        Level::Info => 3,
        Level::Debug => 4,
        Level::Trace => 5,
    };
    let fr: u8 = match f {
        LevelFilter::Off => 0,
        LevelFilter::Error => 1,
        LevelFilter::Warn => 2,
        LevelFilter::Info => 3,
        LevelFilter::Debug => 4,
        LevelFilter::Trace => 5,
    };
    lr <= fr
}

pub fn level_token(l: Level) -> (r: char)
    ensures
        r == level_token_spec(l),
{
    match l {
        Level::Error => 'E',
        Level::Warn => 'W',
        Level::Info => 'I',
        Level::Debug => 'D',
        Level::Trace => 'T',
    }
}

/// Configuration of the logger, read-only once the logger has taken it.
#[derive(Clone, Debug)]
pub struct LogCfg {
    pub level: LevelFilter,
    pub enable_console: bool,
    pub dir: String,
    pub file_max_size: usize,
    pub file_max_count: usize,
}

impl LogCfg {
    /// Console off, no file sink, level `Info`, 1 MiB files, three retained.
    pub fn new() -> (r: LogCfg)
        ensures
            r.level == LevelFilter::Info,
            !r.enable_console,
            r.dir@ == Seq::<char>::empty(),
            r.file_max_size == 1048576,
            r.file_max_count == 3,
    {
        LogCfg {
            level: LevelFilter::Info,
            enable_console: false,
            dir: String::new(),
            file_max_size: 1048576,
            file_max_count: 3,
        }
    }
}

/// The directory with a trailing separator, or empty when the file sink is off.
pub open spec fn normalized_dir(d: Seq<char>) -> Seq<char> {
    if d.len() == 0 || d.last() == '/' {
        d
    } else {
        d.push('/')
    }
}

/// Relies on String::push: appends one character.
#[verifier::external_body]
pub(crate) fn push_char(s: &mut String, c: char)
    ensures
        final(s)@ == old(s)@.push(c),
{
    s.push(c)
}

/// Relies on String::pop: removes and returns the last character, if any.
#[verifier::external_body]
pub(crate) fn pop_char(s: &mut String) -> (r: Option<char>)
    ensures
        old(s)@.len() == 0 ==> r.is_none() && final(s)@ == old(s)@,
        old(s)@.len() > 0 ==> r == Some(old(s)@.last()) && final(s)@ == old(s)@.drop_last(),
{
    s.pop()
}

pub fn normalize_dir(dir: &str) -> (r: String)
    ensures
        r@ == normalized_dir(dir@),
{
    let mut r = String::from_str(dir);
    let n = dir.unicode_len();
    if n > 0 && dir.get_char(n - 1) != '/' {
        push_char(&mut r, '/');
    }
    r
}

pub open spec fn digit_spec(d: nat) -> char {
    if d == 0 { '0' }
    else if d == 1 { '1' }
    else if d == 2 { '2' }
    else if d == 3 { '3' }
    else if d == 4 { '4' }
    else if d == 5 { '5' }
    else if d == 6 { '6' }
    else if d == 7 { '7' }
    else if d == 8 { '8' }
    else { '9' }
}

/// Decimal text of `n`, without leading zeros.
pub open spec fn decimal(n: nat) -> Seq<char>
    decreases n,
{
    if n < 10 {
        seq![digit_spec(n)]
    } else {
        decimal(n / 10).push(digit_spec(n % 10))
    }
}

/// The last `width` decimal digits of `n`, padded with zeros.
pub open spec fn padded(n: nat, width: nat) -> Seq<char>
    decreases width,
{
    if width == 0 {
        Seq::empty()
    } else {
        padded(n / 10, (width - 1) as nat).push(digit_spec(n % 10))
    }
}

fn digit(d: u64) -> (r: char)
    requires
        d < 10,
    ensures
        r == digit_spec(d as nat),
{
    if d == 0 { '0' }
    else if d == 1 { '1' }
    else if d == 2 { '2' }
    else if d == 3 { '3' }
    else if d == 4 { '4' }
    else if d == 5 { '5' }
    else if d == 6 { '6' }
    else if d == 7 { '7' }
    else if d == 8 { '8' }
    else { '9' }
}

/// Appends the decimal text of `n`.
pub fn push_decimal(s: &mut String, n: u64)
    ensures
        final(s)@ == old(s)@ + decimal(n as nat),
    decreases n,
{
    if n >= 10 {
        push_decimal(s, n / 10);
    }
    push_char(s, digit(n % 10));
    assert(final(s)@ =~= old(s)@ + decimal(n as nat));
}


pub open spec fn days_in_month(year: int, month: int) -> int {
    if month == 2 {
        if (year % 4 == 0 && year % 100 != 0) || year % 400 == 0 { 29 } else { 28 }
    } else if month == 4 || month == 6 || month == 9 || month == 11 {
        30
    } else {
        31
    }
}

/// A local wall-clock instant, to the millisecond.
#[derive(Clone, Copy, Debug, PartialEq, Eq, Structural)]
pub struct Timestamp {
    pub year: i32,
    pub month: u32,
    pub day: u32,
    pub hour: u32,
    pub minute: u32,
    pub second: u32,
    pub millis: u32,
}

impl Timestamp {
    /// A real calendar date of years 0 to 9999 and a time of day without leap second.
    pub open spec fn wf(&self) -> bool {
        &&& 0 <= self.year <= 9999
        &&& 1 <= self.month <= 12
        &&& 1 <= self.day <= days_in_month(self.year as int, self.month as int)
        &&& self.hour < 24
        &&& self.minute < 60
        &&& self.second < 60
        &&& self.millis < 1000
    }

    /// `YYYY-MM-DD HH:MM:SS.mmm`
    pub open spec fn text(&self) -> Seq<char> {
        padded(self.year as nat, 4) + seq!['-'] + padded(self.month as nat, 2) + seq!['-']
            + padded(self.day as nat, 2) + seq![' '] + padded(self.hour as nat, 2) + seq![':']
            + padded(self.minute as nat, 2) + seq![':'] + padded(self.second as nat, 2)
            + seq!['.'] + padded(self.millis as nat, 3)
    }
}

/// Relies on chrono's `NaiveDate::from_ymd_opt`, `NaiveDate::and_hms_milli_opt` and
/// `format("%Y-%m-%d %H:%M:%S%.3f")`: both constructors accept every well-formed
/// timestamp, `%Y` writes a year of 0 to 9999 as four zero-padded digits, the other
/// fields take two digits and `%.3f` a dot and three digits of milliseconds.
#[verifier::external_body]
fn timestamp_text(t: &Timestamp) -> (r: String)
    requires
        t.wf(),
    ensures
        r@ == t.text(),
{
    match chrono::NaiveDate::from_ymd_opt(t.year, t.month, t.day) {
        Some(d) => match d.and_hms_milli_opt(t.hour, t.minute, t.second, t.millis) {
            Some(dt) => dt.format("%Y-%m-%d %H:%M:%S%.3f").to_string(),
            None => String::new(),
        },
        None => String::new(),
    }
}

/// `<timestamp> <thread-id> [<level-token>]-[<target>] <message>` and a newline.
pub open spec fn line_text(ts: Seq<char>, tid: nat, level: Level, target: Seq<char>, message: Seq<char>) -> Seq<char> {
    ts + seq![' '] + decimal(tid) + seq![' ', '[', level_token_spec(level), ']', '-', '['] + target
        + seq![']', ' '] + message + seq!['\n']
}

/// Formats one record from an already formatted timestamp.
pub fn format_line(ts: &str, tid: u64, level: Level, target: &str, message: &str) -> (r: String)
    ensures
        r@ == line_text(ts@, tid as nat, level, target@, message@),
{
    let mut r = String::from_str(ts);
    push_char(&mut r, ' ');
    push_decimal(&mut r, tid);
    push_char(&mut r, ' ');
    push_char(&mut r, '[');
    push_char(&mut r, level_token(level));
    push_char(&mut r, ']');
    push_char(&mut r, '-');
    push_char(&mut r, '[');
    r.append(target);
    push_char(&mut r, ']');
    push_char(&mut r, ' ');
    r.append(message);
    push_char(&mut r, '\n');
    assert(r@ =~= line_text(ts@, tid as nat, level, target@, message@));
    r
}

/// Formats one record stamped with `ts`.
pub fn format_record(ts: &Timestamp, tid: u64, level: Level, target: &str, message: &str) -> (r: String)
    requires
        ts.wf(),
    ensures
        r@ == line_text(ts.text(), tid as nat, level, target@, message@),
{
    let t = timestamp_text(ts);
    format_line(t.as_str(), tid, level, target, message)
}

/// Base name of every log file; the index follows it.
pub open spec fn base_name() -> Seq<char> {
    seq!['d', 'r', 'a', 'g', 'o', 'n', '.', 'l', 'o', 'g', '.']
}

/// `<dir>dragon.log.<index>`
pub open spec fn file_path(dir: Seq<char>, index: nat) -> Seq<char> {
    dir + base_name() + decimal(index)
}

/// Path of the file of the given index under a normalized directory.
pub fn file_name(dir: &str, index: usize) -> (r: String)
    ensures
        r@ == file_path(dir@, index as nat),
{
    let mut r = String::from_str(dir);
    proof {
        reveal_strlit("dragon.log.");
    }
    r.append("dragon.log.");
    assert("dragon.log."@ =~= base_name());
    push_decimal(&mut r, index as u64);
    r
}

/// The installed logger's settings, taken once from a configuration.
pub struct Logger {
    pub cfg: LogCfg,
}

impl Logger {
    /// Takes the configuration, the directory given a trailing separator.
    pub fn new(cfg: LogCfg) -> (r: Logger)
        ensures
            r.cfg.dir@ == normalized_dir(cfg.dir@),
            r.cfg.level == cfg.level,
            r.cfg.enable_console == cfg.enable_console,
            r.cfg.file_max_size == cfg.file_max_size,
            r.cfg.file_max_count == cfg.file_max_count,
    {
        let dir = normalize_dir(cfg.dir.as_str());
        Logger { cfg: LogCfg { dir, ..cfg } }
    }

    /// Whether records go to files at all: an empty directory turns that off.
    pub fn file_sink_enabled(&self) -> (r: bool)
        ensures
            r == (self.cfg.dir@.len() > 0),
    {
        self.cfg.dir.unicode_len() > 0
    }

    /// Whether a record of this level is emitted.
    pub fn enabled(&self, level: Level) -> (r: bool)
        ensures
            r == (level_rank(level) <= filter_rank(self.cfg.level)),
    {
        level_enabled(level, self.cfg.level)
    }

    /// Path of the file of the given index.
    pub fn log_file(&self, index: usize) -> (r: String)
        ensures
            r@ == file_path(self.cfg.dir@, index as nat),
    {
        file_name(self.cfg.dir.as_str(), index)
    }

    /// Size accounting for an active file that already holds `existing_len`
    /// bytes; a rotation is due at once where it is already at its limit.
    pub fn rotator(&self, existing_len: usize) -> (r: Rotator)
        ensures
            r.current_bytes == existing_len,
            r.max_size == self.cfg.file_max_size,
            r.max_count == self.cfg.file_max_count,
    {
        Rotator::new(self.cfg.file_max_size, self.cfg.file_max_count, existing_len)
    }
}

} // verus!
