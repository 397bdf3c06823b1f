//! The log: what its lines look like, when a new file is begun and which files are kept.

use crate::settings;
use crate::text;
use chrono::{DateTime, SecondsFormat, Utc};
use vstd::prelude::*;
use vstd::string::*;

verus! {

/// The bytes that a file holds before a new one is begun: 8 MiB.
pub const MAX_LOG_BYTES: u64 = 8_388_608;

/// How many files are kept.
pub const MAX_LOG_FILES: usize = 20;

/// What the names of all files begin with.
pub const LOG_PREFIX: &'static str = "sanctuary-player-";

/// How the time of the launch is written in names.
pub const LAUNCH_STAMP_PATTERN: &'static str = "%Y%m%d-%H%M%S%.3fZ";

/// Why the log could not be set up.
#[derive(Debug)]
pub enum LoggingError {
    Io(String),
    GlobalLoggerAlreadySet,
}

impl LoggingError {
    pub open spec fn text(self) -> Seq<char> {
        match self {
            LoggingError::Io(error) => error@,
            LoggingError::GlobalLoggerAlreadySet => "global logger is already initialised"@,
        }
    }

    pub fn message(&self) -> (message: String)
        ensures
            message@ == self.text(),
    {
        match self {
            LoggingError::Io(error) => error.clone(),
            LoggingError::GlobalLoggerAlreadySet => {
                "global logger is already initialised".to_owned()
            },
        }
    }
}

/// How much a message matters.
#[derive(Clone, Copy, Debug, PartialEq, Eq, Structural)]
pub enum Level {
    Error,
    Warn,
    Info,
    Debug,
    Trace,
}

impl Level {
    /// The name, filled up to five characters.
    pub open spec fn name(self) -> Seq<char> {
        match self {
            Level::Error => "ERROR"@,
            Level::Warn => "WARN "@,
            Level::Info => "INFO "@,
            Level::Debug => "DEBUG"@,
            Level::Trace => "TRACE"@,
        }
    }

    pub fn as_str(self) -> (name: &'static str)
        ensures
            name@ == self.name(),
    {
        match self {
            Level::Error => "ERROR",
            Level::Warn => "WARN ",
            Level::Info => "INFO ",
            Level::Debug => "DEBUG",
            Level::Trace => "TRACE",
        }
    }

    /// Whether messages of this level are written.
    pub fn enabled(self) -> (enabled: bool)
        ensures
            enabled == (self is Error || self is Warn || self is Info),
    {
        matches!(self, Level::Error | Level::Warn | Level::Info)
    }
}

/// How much of a second is written behind a time.
#[derive(Clone, Copy, Debug, PartialEq, Eq, Structural)]
pub enum SecondDigits {
    Secs,
    Millis,
    Micros,
    Nanos,
    AutoSi,
}

/// The text that a time has in the form of RFC 3339, with `digits` of its second and with `Z`
/// for its zone where `zulu` says so; none for a time that the calendar does not reach.
pub uninterp spec fn rfc3339_of(millis: i64, digits: SecondDigits, zulu: bool) -> Option<Seq<char>>;

/// The text of a time in a log: with milliseconds and a `Z`.
pub open spec fn log_time(millis: i64) -> Option<Seq<char>> {
    rfc3339_of(millis, SecondDigits::Millis, true)
}

/// `DateTime::from_timestamp_millis` finds the point in time, and `to_rfc3339_opts` writes it;
/// what comes out depends on the milliseconds and the two options alone.
#[verifier::external_body]
fn rfc3339(millis: i64, digits: SecondDigits, zulu: bool) -> (time: Option<String>)
    ensures
        settings::optional_view(time) == rfc3339_of(millis, digits, zulu),
{
    let digits = match digits {
        SecondDigits::Secs => SecondsFormat::Secs,
        SecondDigits::Millis => SecondsFormat::Millis,
        SecondDigits::Micros => SecondsFormat::Micros,
        SecondDigits::Nanos => SecondsFormat::Nanos,
        SecondDigits::AutoSi => SecondsFormat::AutoSi,
    };
    DateTime::<Utc>::from_timestamp_millis(millis).map(|time| time.to_rfc3339_opts(digits, zulu))
}

/// The text that a time has in the names of files, none for a time that the calendar does
/// not reach.
pub uninterp spec fn launch_stamp_of(millis: i64, pattern: Seq<char>) -> Option<Seq<char>>;

/// `DateTime::from_timestamp_millis` finds the point in time, and `DateTime::format` writes it
/// after a pattern; what comes out depends on the milliseconds and the pattern alone. A
/// pattern that says nothing to `format` would panic, so only the one in use is admitted.
#[verifier::external_body]
fn launch_stamp(millis: i64, pattern: &str) -> (stamp: Option<String>)
    requires
        pattern@ == LAUNCH_STAMP_PATTERN@,
    ensures
        settings::optional_view(stamp) == launch_stamp_of(millis, pattern@),
{
    DateTime::<Utc>::from_timestamp_millis(millis).map(|time| time.format(pattern).to_string())
}

/// A line of the log, with the time as it is written.
pub open spec fn line_text(
    time: Seq<char>,
    level: Level,
    thread: Option<Seq<char>>,
    target: Seq<char>,
    message: Seq<char>,
) -> Seq<char> {
    "["@ + time + "] "@ + level.name() + " ["@ + (match thread {
        Some(thread) => thread,
        None => "unnamed"@,
    }) + "] "@ + target + ": "@ + message + "\n"@
}

/// Writes a line with the time as it is written.
pub fn line(time: &str, level: Level, thread: Option<&str>, target: &str, message: &str) -> (line: String)
    ensures
        line@ == line_text(
            time@,
            level,
            match thread {
                Some(thread) => Some(thread@),
                None => None,
            },
            target@,
            message@,
        ),
{
    let mut line = "[".to_owned();
    line.append(time);
    line.append("] ");
    line.append(level.as_str());
    line.append(" [");
    match thread {
        Some(thread) => line.append(thread),
        None => line.append("unnamed"),
    }
    line.append("] ");
    line.append(target);
    line.append(": ");
    line.append(message);
    line.append("\n");
    line
}

/// The line for a message at a time: none for a level that is not written, or a time that
/// the calendar does not reach.
pub fn record_line(
    millis: i64,
    level: Level,
    thread: Option<&str>,
    target: &str,
    message: &str,
) -> (record: Option<String>)
    ensures
        match record {
            Some(record) => {
                &&& level is Error || level is Warn || level is Info
                &&& log_time(millis) matches Some(time) && record@ == line_text(
                    time,
                    level,
                    match thread {
                        Some(thread) => Some(thread@),
                        None => None,
                    },
                    target@,
                    message@,
                )
            },
            None => level is Debug || level is Trace || log_time(millis) is None,
        },
{
    if !level.enabled() {
        return None;
    }
    match rfc3339(millis, SecondDigits::Millis, true) {
        Some(time) => Some(line(time.as_str(), level, thread, target, message)),
        None => None,
    }
}

/// The name that the files of a launch begin with, where the time is written as `stamp`.
pub open spec fn launch_base_text(stamp: Seq<char>, pid: u32) -> Seq<char> {
    LOG_PREFIX@ + stamp + "-p"@ + text::decimal(pid as nat)
}

/// The name that the files of a launch begin with, where the time is written as `stamp`.
pub fn launch_base_of(stamp: &str, pid: u32) -> (base: String)
    ensures
        base@ == launch_base_text(stamp@, pid),
{
    let mut base = LOG_PREFIX.to_owned();
    base.append(stamp);
    base.append("-p");
    text::push_decimal(&mut base, pid as u64);
    base
}

/// The name that the files of a launch begin with: none for a time that the calendar does
/// not reach.
pub fn launch_base(millis: i64, pid: u32) -> (base: Option<String>)
    ensures
        settings::optional_view(base) == (match launch_stamp_of(millis, LAUNCH_STAMP_PATTERN@) {
            Some(stamp) => Some(launch_base_text(stamp, pid)),
            None => None,
        }),
{
    match launch_stamp(millis, LAUNCH_STAMP_PATTERN) {
        Some(stamp) => Some(launch_base_of(stamp.as_str(), pid)),
        None => None,
    }
}

/// The name of a file of a launch.
pub open spec fn part_name_text(launch_base: Seq<char>, part: u32) -> Seq<char> {
    launch_base + "-part"@ + text::padded(part as nat, 8) + ".log"@
}

pub fn part_name(launch_base: &str, part: u32) -> (name: String)
    ensures
        name@ == part_name_text(launch_base@, part),
{
    let mut name = launch_base.to_owned();
    name.append("-part");
    text::push_padded(&mut name, part as u64, 8);
    name.append(".log");
    name
}

/// Whether a file is one of the log's.
pub open spec fn is_log_name(name: Seq<char>) -> bool {
    text::begins_with(name, LOG_PREFIX@) && text::finishes_with(name, ".log"@)
}

fn log_name(name: &str) -> (is_log: bool)
    ensures
        is_log == is_log_name(name@),
{
    let chars = text::chars_of(name);
    text::strip_prefix(&chars, LOG_PREFIX).is_some() && text::ends_in(&chars, ".log")
}

/// Addition as far as 64 bits go.
pub open spec fn bytes_sum(a: u64, b: u64) -> u64 {
    if a + b > u64::MAX { u64::MAX } else { (a + b) as u64 }
}

/// Which file is being written and how full it is.
pub struct RotatingWriter {
    pub launch_base: String,
    pub part: u32,
    pub current_name: String,
    pub current_bytes: u64,
    pub max_bytes: u64,
    pub max_files: usize,
}

/// Which file is being written and how full it is, as values.
pub struct Writer {
    pub launch_base: Seq<char>,
    pub part: u32,
    pub current_name: Seq<char>,
    pub current_bytes: u64,
    pub max_bytes: u64,
    pub max_files: usize,
}

impl View for RotatingWriter {
    type V = Writer;

    open spec fn view(&self) -> Writer {
        Writer {
            launch_base: self.launch_base@,
            part: self.part,
            current_name: self.current_name@,
            current_bytes: self.current_bytes,
            max_bytes: self.max_bytes,
            max_files: self.max_files,
        }
    }
}

impl Writer {
    /// Whether a new file is begun before `incoming` bytes are written: a file that holds
    /// nothing yet takes a line of any length.
    pub open spec fn is_full_for(self, incoming: u64) -> bool {
        self.current_bytes != 0 && bytes_sum(self.current_bytes, incoming) > self.max_bytes
    }

    pub open spec fn next_part(self) -> u32 {
        if self.part == u32::MAX { u32::MAX } else { (self.part + 1) as u32 }
    }

    /// The state once the number of the next file is taken.
    pub open spec fn rotating(self) -> Self {
        Writer { part: self.next_part(), ..self }
    }

    /// The state once the next file is open.
    pub open spec fn rotated(self) -> Self {
        Writer {
            part: self.next_part(),
            current_name: part_name_text(self.launch_base, self.next_part()),
            current_bytes: 0,
            ..self
        }
    }

    /// The state once bytes are written.
    pub open spec fn written(self, incoming: u64) -> Self {
        Writer { current_bytes: bytes_sum(self.current_bytes, incoming), ..self }
    }

    /// The state once a line is written, in a new file where the old one is too full.
    pub open spec fn line_written(self, incoming: u64) -> Self {
        if self.is_full_for(incoming) {
            self.rotated().written(incoming)
        } else {
            self.written(incoming)
        }
    }
}

impl RotatingWriter {
    /// Begins with the first file of a launch.
    pub fn new(launch_base: String, max_bytes: u64, max_files: usize) -> (writer: Self)
        ensures
            writer@ == (Writer {
                launch_base: launch_base@,
                part: 1,
                current_name: part_name_text(launch_base@, 1),
                current_bytes: 0,
                max_bytes,
                max_files,
            }),
    {
        let current_name = part_name(launch_base.as_str(), 1);
        RotatingWriter {
            launch_base,
            part: 1,
            current_name,
            current_bytes: 0,
            max_bytes,
            max_files,
        }
    }

    /// Whether a new file is to be begun before `incoming` bytes are written.
    pub fn must_rotate(&self, incoming: u64) -> (rotate: bool)
        ensures
            rotate == self@.is_full_for(incoming),
    {
        let sum: u64 = match self.current_bytes.checked_add(incoming) {
            Some(sum) => sum,
            None => u64::MAX,
        };
        self.current_bytes != 0 && sum > self.max_bytes
    }

    /// Takes the number of the next file, and says what that is called.
    pub fn rotate(&mut self) -> (name: String)
        ensures
            final(self)@ == old(self)@.rotating(),
            name@ == part_name_text(old(self)@.launch_base, old(self)@.next_part()),
    {
        self.part = if self.part == u32::MAX { u32::MAX } else { self.part + 1 };
        part_name(self.launch_base.as_str(), self.part)
    }

    /// Goes on with a file that was opened under `name`.
    pub fn rotated(&mut self, name: String)
        ensures
            final(self)@ == (Writer { current_name: name@, current_bytes: 0, ..old(self)@ }),
    {
        self.current_name = name;
        self.current_bytes = 0;
    }

    /// Takes note of bytes that were written.
    pub fn written(&mut self, incoming: u64)
        ensures
            final(self)@ == old(self)@.written(incoming),
    {
        self.current_bytes = match self.current_bytes.checked_add(incoming) {
            Some(sum) => sum,
            None => u64::MAX,
        };
    }
}

/// No file outgrows the limit, unless by a single line that is longer than the limit.
pub proof fn files_stay_within_the_limit(writer: Writer, incoming: u64)
    requires
        writer.current_bytes <= writer.max_bytes,
    ensures
        writer.line_written(incoming).current_bytes <= writer.max_bytes || writer.line_written(
            incoming,
        ).current_bytes == incoming,
{
}

/// What was written is never written over: the next file has another name, as long as there
/// are numbers.
pub proof fn next_file_is_another(writer: Writer)
    requires
        writer.current_name == part_name_text(writer.launch_base, writer.part),
        writer.part < u32::MAX,
    ensures
        writer.rotated().current_name != writer.current_name,
        writer.rotated().current_name == part_name_text(writer.launch_base, writer.rotated().part),
{
    let before = text::padded(writer.part as nat, 8);
    let after = text::padded((writer.part + 1) as nat, 8);
    padded_denotes(writer.part as nat, 8);
    padded_denotes((writer.part + 1) as nat, 8);
    let base = writer.launch_base + "-part"@;
    assert(before != after);
    if before.len() == after.len() {
        assert(exists|i: int| 0 <= i < before.len() && before[i] != after[i]) by {
            if forall|i: int| 0 <= i < before.len() ==> before[i] == after[i] {
                assert(before =~= after);
            }
        }
        let i = choose|i: int| 0 <= i < before.len() && before[i] != after[i];
        assert(writer.current_name[base.len() + i] == before[i]);
        assert(writer.rotated().current_name[base.len() + i] == after[i]);
    } else {
        assert(writer.current_name.len() == base.len() + before.len() + ".log"@.len());
        assert(writer.rotated().current_name.len() == base.len() + after.len() + ".log"@.len());
    }
}

/// Zeros in front of a number do not change it.
proof fn padded_denotes(n: nat, width: nat)
    ensures
        text::digits_value(text::padded(n, width)) == n,
{
    text::decimal_denotes(n);
    if text::decimal(n).len() < width {
        zeros_denote_nothing((width - text::decimal(n).len()) as nat, text::decimal(n));
    }
}

proof fn zeros_denote_nothing(count: nat, digits: Seq<char>)
    ensures
        text::digits_value(text::zeros(count) + digits) == text::digits_value(digits),
    decreases count + digits.len(),
{
    let whole = text::zeros(count) + digits;
    if digits.len() > 0 {
        assert(whole.drop_last() =~= text::zeros(count) + digits.drop_last());
        zeros_denote_nothing(count, digits.drop_last());
    } else if count > 0 {
        assert(whole.drop_last() =~= text::zeros((count - 1) as nat) + digits);
        zeros_denote_nothing((count - 1) as nat, digits);
    }
}

/// Whether `a` stands before `b` among names in order, or is the same name.
pub open spec fn in_order(a: Seq<char>, b: Seq<char>) -> bool
    decreases a.len(),
{
    if a.len() == 0 {
        true
    } else if b.len() == 0 {
        false
    } else if a[0] != b[0] {
        a[0] < b[0]
    } else {
        in_order(a.skip(1), b.skip(1))
    }
}

fn ordered(a: &str, b: &str) -> (ordered: bool)
    ensures
        ordered == in_order(a@, b@),
{
    let x = text::chars_of(a);
    let y = text::chars_of(b);
    let mut i: usize = 0;
    assert(x@.skip(0) =~= x@);
    assert(y@.skip(0) =~= y@);
    while i < x.len()
        invariant
            i <= x.len(),
            i <= y.len(),
            x@ == a@,
            y@ == b@,
            in_order(a@, b@) == in_order(x@.skip(i as int), y@.skip(i as int)),
        decreases x.len() - i,
    {
        if i == y.len() {
            return false;
        }
        assert(x@.skip(i as int)[0] == x@[i as int]);
        assert(y@.skip(i as int)[0] == y@[i as int]);
        if x[i] != y[i] {
            return x[i] < y[i];
        }
        assert(x@.skip(i as int).skip(1) =~= x@.skip(i + 1));
        assert(y@.skip(i as int).skip(1) =~= y@.skip(i + 1));
        i += 1;
    }
    true
}

proof fn order_is_total(a: Seq<char>, b: Seq<char>)
    ensures
        in_order(a, b) || in_order(b, a),
    decreases a.len(),
{
    if a.len() > 0 && b.len() > 0 && a[0] == b[0] {
        order_is_total(a.skip(1), b.skip(1));
    }
}

proof fn order_is_transitive(a: Seq<char>, b: Seq<char>, c: Seq<char>)
    requires
        in_order(a, b),
        in_order(b, c),
    ensures
        in_order(a, c),
    decreases a.len(),
{
    if a.len() > 0 && b.len() > 0 && c.len() > 0 && a[0] == b[0] && b[0] == c[0] {
        order_is_transitive(a.skip(1), b.skip(1), c.skip(1));
    }
}

/// The texts of a list of names.
pub open spec fn names_view(names: Seq<String>) -> Seq<Seq<char>> {
    names.map_values(|name: String| name@)
}

/// Whether names stand in order.
pub open spec fn is_sorted(names: Seq<Seq<char>>) -> bool {
    forall|i: int, j: int| 0 <= i < j < names.len() ==> in_order(#[trigger] names[i], #[trigger] names[j])
}

/// Puts a name where it belongs in names that stand in order.
fn insert_name(sorted: &mut Vec<String>, name: String)
    requires
        is_sorted(names_view(old(sorted)@)),
        old(sorted)@.len() < usize::MAX,
    ensures
        is_sorted(names_view(final(sorted)@)),
        names_view(final(sorted)@).to_multiset() == names_view(old(sorted)@).to_multiset().insert(
            name@,
        ),
        final(sorted)@.len() == old(sorted)@.len() + 1,
{
    let ghost before = names_view(sorted@);
    let mut i: usize = 0;
    while i < sorted.len() && ordered(sorted[i].as_str(), name.as_str())
        invariant
            i <= sorted.len(),
            before == names_view(sorted@),
            sorted@ == old(sorted)@,
            forall|k: int| 0 <= k < i ==> in_order(#[trigger] before[k], name@),
        decreases sorted.len() - i,
    {
        i += 1;
    }
    let ghost given = name@;
    proof {
        if i < before.len() {
            order_is_total(before[i as int], given);
            assert forall|k: int| i <= k < before.len() implies in_order(
                given,
                #[trigger] before[k],
            ) by {
                if k > i {
                    order_is_transitive(given, before[i as int], before[k]);
                }
            }
        }
    }
    sorted.insert(i, name);
    assert(names_view(sorted@) =~= before.insert(i as int, given));
    proof {
        before.to_multiset_ensures();
        vstd::seq_lib::to_multiset_insert(before, i as int, given);
    }
}

/// The names in order.
pub fn sorted_names(names: Vec<String>) -> (sorted: Vec<String>)
    ensures
        is_sorted(names_view(sorted@)),
        names_view(sorted@).to_multiset() == names_view(names@).to_multiset(),
        sorted@.len() == names@.len(),
{
    let count: usize = names.len();
    let mut rest = names;
    let mut sorted: Vec<String> = Vec::new();
    proof {
        assert(names_view(rest@) =~= names_view(names@));
        assert(names_view(sorted@) =~= Seq::<Seq<char>>::empty());
        Seq::<Seq<char>>::empty().to_multiset_ensures();
    }
    while rest.len() > 0
        invariant
            is_sorted(names_view(sorted@)),
            names_view(sorted@).to_multiset().add(names_view(rest@).to_multiset())
                =~= names_view(names@).to_multiset(),
            sorted@.len() + rest@.len() == names@.len(),
            names@.len() == count,
        decreases rest.len(),
    {
        let ghost before = names_view(rest@);
        match rest.pop() {
            Some(name) => {
                proof {
                    assert(before.drop_last() =~= names_view(rest@));
                    assert(before =~= names_view(rest@).push(name@));
                    names_view(rest@).to_multiset_ensures();
                }
                insert_name(&mut sorted, name);
            },
            None => {},
        }
    }
    proof {
        assert(names_view(rest@) =~= Seq::<Seq<char>>::empty());
        Seq::<Seq<char>>::empty().to_multiset_ensures();
    }
    sorted
}

/// The files among `names` that are the log's.
pub open spec fn log_names(names: Seq<Seq<char>>) -> Seq<Seq<char>> {
    names.filter(|name: Seq<char>| is_log_name(name))
}

/// Which files are still to be removed: so many of `candidates`, from the first on.
pub struct Pruning {
    pub candidates: Vec<String>,
    pub remove_count: usize,
}

/// Which files are still to be removed, as values.
pub struct Removals {
    pub candidates: Seq<Seq<char>>,
    pub remove_count: usize,
}

impl View for Pruning {
    type V = Removals;

    open spec fn view(&self) -> Removals {
        Removals { candidates: names_view(self.candidates@), remove_count: self.remove_count }
    }
}

impl Removals {
    /// The state once the first candidate was tried, and may have been removed.
    pub open spec fn tried(self, removed: bool) -> Self {
        Removals {
            candidates: self.candidates.skip(1),
            remove_count: if removed { (self.remove_count - 1) as usize } else { self.remove_count },
        }
    }

    /// The file to try next.
    pub open spec fn next(self) -> Option<Seq<char>> {
        if self.remove_count == 0 || self.candidates.len() == 0 {
            None
        } else {
            Some(self.candidates[0])
        }
    }

    /// What is left once every file was tried, `removed` saying of which tries one came off.
    pub open spec fn after(self, removed: Seq<bool>) -> Self
        decreases removed.len(),
    {
        if removed.len() == 0 {
            self
        } else {
            self.tried(removed[0]).after(removed.skip(1))
        }
    }
}

/// How many of `count` files have to go for `max_files` to be left.
pub open spec fn excess(count: nat, max_files: usize) -> nat {
    if count > max_files { (count - max_files) as nat } else { 0 }
}

impl Pruning {
    /// Looks through the files of a directory: those of the log are candidates in the order
    /// of their names, except the one that is being written.
    pub fn new(names: Vec<String>, current: &str, max_files: usize) -> (pruning: Self)
        ensures
            is_sorted(pruning@.candidates),
            pruning@.candidates.to_multiset() == log_names(names_view(names@)).filter(
                |name: Seq<char>| name != current@,
            ).to_multiset(),
            pruning@.remove_count == excess(log_names(names_view(names@)).len(), max_files),
    {
        let mut others: Vec<String> = Vec::new();
        let ghost all = names_view(names@);
        let ghost is_log = |name: Seq<char>| is_log_name(name);
        let ghost is_other = |name: Seq<char>| name != current@;
        let count: usize = names.len();
        let mut log_count: usize = 0;
        let mut i: usize = 0;
        proof {
            assert(all.take(0) =~= Seq::<Seq<char>>::empty());
            reveal(Seq::filter);
            assert(names_view(others@) =~= Seq::<Seq<char>>::empty());
        }
        while i < names.len()
            invariant
                i <= names.len(),
                names.len() == count,
                all == names_view(names@),
                is_log == (|name: Seq<char>| is_log_name(name)),
                is_other == (|name: Seq<char>| name != current@),
                log_count == all.take(i as int).filter(is_log).len(),
                log_count <= i,
                names_view(others@) == all.take(i as int).filter(is_log).filter(is_other),
            decreases names.len() - i,
        {
            proof {
                assert(all.take(i + 1) =~= all.take(i as int).push(all[i as int]));
                filter_of_push(all.take(i as int), all[i as int], is_log);
                filter_of_push(all.take(i as int).filter(is_log), all[i as int], is_other);
            }
            if log_name(names[i].as_str()) {
                log_count = log_count + 1;
                if !text::same(names[i].as_str(), current) {
                    let ghost before = names_view(others@);
                    others.push(names[i].clone());
                    assert(names_view(others@) =~= before.push(all[i as int]));
                }
            }
            i += 1;
        }
        assert(all.take(all.len() as int) =~= all);
        let candidates = sorted_names(others);
        let remove_count: usize = if log_count > max_files { log_count - max_files } else { 0 };
        Pruning { candidates, remove_count }
    }

    /// Takes the file to try next.
    pub fn next_removal(&mut self) -> (name: Option<String>)
        ensures
            match name {
                Some(name) => {
                    &&& old(self)@.next() == Some(name@)
                    &&& final(self)@ == old(self)@.tried(false)
                },
                None => old(self)@.next() is None && *final(self) == *old(self),
            },
    {
        if self.remove_count == 0 || self.candidates.len() == 0 {
            return None;
        }
        let name = self.candidates.remove(0);
        assert(names_view(self.candidates@) =~= old(self)@.candidates.skip(1));
        Some(name)
    }

    /// Takes note of a file that was removed.
    pub fn removed(&mut self)
        requires
            old(self)@.remove_count > 0,
        ensures
            final(self)@ == (Removals {
                remove_count: (old(self)@.remove_count - 1) as usize,
                ..old(self)@
            }),
    {
        self.remove_count = self.remove_count - 1;
    }
}

proof fn filter_of_push<A>(s: Seq<A>, a: A, keep: spec_fn(A) -> bool)
    ensures
        s.push(a).filter(keep) == (if keep(a) { s.filter(keep).push(a) } else { s.filter(keep) }),
{
    reveal(Seq::filter);
    assert(s.push(a).drop_last() =~= s);
}

/// A file that is being written is never removed.
pub proof fn current_file_is_kept(names: Seq<Seq<char>>, current: Seq<char>, candidates: Seq<Seq<char>>)
    requires
        candidates.to_multiset() == log_names(names).filter(
            |name: Seq<char>| name != current,
        ).to_multiset(),
    ensures
        !candidates.contains(current),
{
    let keep = |name: Seq<char>| name != current;
    let others = log_names(names).filter(keep);
    candidates.to_multiset_ensures();
    others.to_multiset_ensures();
    if candidates.contains(current) {
        assert(candidates.to_multiset().count(current) > 0);
        assert(others.contains(current));
        let i = choose|i: int| 0 <= i < others.len() && others[i] == current;
        log_names(names).lemma_filter_pred(keep, i);
    }
}

/// Where every file can be removed that is tried, the oldest go, as many as there are too
/// many, and nothing more is tried.
pub proof fn oldest_files_go(removals: Removals)
    ensures
        ({
            let gone = if removals.remove_count < removals.candidates.len() {
                removals.remove_count as nat
            } else {
                removals.candidates.len()
            };
            let left = removals.after(Seq::new(gone, |i: int| true));
            &&& left.candidates == removals.candidates.skip(gone as int)
            &&& left.remove_count == removals.remove_count - gone
            &&& left.next() is None
        }),
    decreases removals.candidates.len(),
{
    let gone = if removals.remove_count < removals.candidates.len() {
        removals.remove_count as nat
    } else {
        removals.candidates.len()
    };
    let tries = Seq::new(gone, |i: int| true);
    if gone > 0 {
        oldest_files_go(removals.tried(true));
        assert(tries.skip(1) =~= Seq::new((gone - 1) as nat, |i: int| true));
        assert(removals.candidates.skip(1).skip(gone - 1) =~= removals.candidates.skip(gone as int));
    } else {
        assert(removals.candidates.skip(0) =~= removals.candidates);
    }
}

/// A log file holds at most eight mebibytes, unless a single line is longer; a line that
/// still fits goes to the same file, and one that does not begins the next.
pub proof fn log_files_hold_eight_mebibytes(writer: Writer, incoming: u64)
    requires
        writer.max_bytes == MAX_LOG_BYTES,
        writer.current_bytes <= 8_388_608,
        incoming <= 8_388_608,
        writer.part < u32::MAX,
    ensures
        ({
            let after = writer.line_written(incoming);
            &&& after.current_bytes <= 8_388_608
            &&& writer.current_bytes + incoming <= 8_388_608 ==> after.part == writer.part
                && after.current_bytes == writer.current_bytes + incoming
            &&& writer.current_bytes + incoming > 8_388_608 ==> after.part == writer.part + 1
                && after.current_bytes == incoming
            &&& after.launch_base == writer.launch_base
        }),
{
}

/// Twenty log files are kept, and as many removed as there are more.
pub proof fn twenty_log_files_are_kept(count: nat)
    ensures
        count <= 20 ==> excess(count, MAX_LOG_FILES) == 0,
        count > 20 ==> excess(count, MAX_LOG_FILES) + 20 == count,
{
}

/// Names come in the order of the first character in which they differ; a name that another
/// begins with comes first.
pub proof fn first_difference_orders_names(
    common: Seq<char>,
    x: char,
    y: char,
    a: Seq<char>,
    b: Seq<char>,
)
    ensures
        x != y ==> in_order(common + seq![x] + a, common + seq![y] + b) == (x < y),
        in_order(common, common + b),
        !in_order(common + seq![x] + a, common),
    decreases common.len(),
{
    let left = common + seq![x] + a;
    let right = common + seq![y] + b;
    let longer = common + b;
    if common.len() == 0 {
        assert(left[0] == x && right[0] == y);
        assert(left.len() > 0);
    } else {
        let rest = common.skip(1);
        first_difference_orders_names(rest, x, y, a, b);
        assert(left[0] == common[0] && right[0] == common[0] && longer.len() > 0 && longer[0]
            == common[0]);
        assert(left.skip(1) =~= rest + seq![x] + a);
        assert(right.skip(1) =~= rest + seq![y] + b);
        assert(longer.skip(1) =~= rest + b);
    }
}

/// A log file is known by how its name begins and ends.
pub proof fn log_files_are_known_by_their_name(middle: Seq<char>)
    ensures
        is_log_name("sanctuary-player-"@ + middle + ".log"@),
{
    let name = "sanctuary-player-"@ + middle + ".log"@;
    assert(name.take("sanctuary-player-"@.len() as int) =~= "sanctuary-player-"@);
    assert(name.skip(name.len() - ".log"@.len()) =~= ".log"@);
}

/// The part of a launch's log has the name of the launch, and its number in eight digits.
pub proof fn parts_are_numbered(launch_base: Seq<char>, part: u32)
    requires
        part < 10,
    ensures
        part_name_text(launch_base, part) == launch_base + "-part0000000"@ + text::decimal(
            part as nat,
        ) + ".log"@,
{
    reveal_strlit("-part");
    reveal_strlit("-part0000000");
    assert(text::decimal(part as nat).len() == 1);
    assert("-part"@ + text::zeros(7) =~= "-part0000000"@);
    assert(part_name_text(launch_base, part) =~= launch_base + "-part0000000"@ + text::decimal(
        part as nat,
    ) + ".log"@);
}

} // verus!
