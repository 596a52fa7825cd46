//! What the daemon is configured with: logging options, credentials, TLS
//! files, and the handlers with their scheduling policy and command.
use vstd::prelude::*;
use crate::access::{Endpoint, IpAddress, IpRange};
use crate::message::ImseEvent;
use crate::span::{digit_value, is_digit, most_seconds, seconds_bound};
use crate::text::{eq_ignoring_case, lemma_differ_at, lemma_same_chain, same_ignoring_case};
use std::time::Duration;

verus! {

/// Nanoseconds in one second.
pub const NANOS_PER_SEC: u32 = 1_000_000_000;

// ---------------------------------------------------------------------------
// Durations
// ---------------------------------------------------------------------------
#[verifier::external_type_specification]
#[verifier::external_body]
pub struct ExDurationError(humantime::DurationError);

/// What `humantime::parse_duration` makes of a text: the whole seconds and
/// the nanoseconds beyond them, or nothing where it rejects the text.
pub uninterp spec fn humantime_span(s: Seq<char>) -> Option<(u64, u32)>;

/// The `std::time::Duration` of so many whole seconds and so many
/// nanoseconds beyond them.
pub uninterp spec fn std_duration(secs: u64, nanos: u32) -> Duration;

/// `humantime::parse_duration`, with the duration taken apart into whole
/// seconds and the nanoseconds beyond them. Trusted: the outcome depends on
/// the text alone, and the nanoseconds are fewer than a billion.
///
/// The parser adds up seconds and nanoseconds with checked arithmetic, but
/// fails in `Duration::new` when the seconds stand at `u64::MAX` and the
/// nanoseconds carry one more. Up to its first error it reads the text as
/// `reading` does: blanks are passed over inside a number, a letter begins
/// the unit's word, a blank or a digit ends it, and at the end of each word
/// the parser adds the whole part in that unit and then the fraction, both
/// exactly as `Reading::settled` counts them. After its first error it adds
/// nothing more. So the seconds that it holds never pass `most_seconds`,
/// and where that fits `u64` the parser returns.
#[verifier::external_body]
fn parse_span(s: &str) -> (r: Result<(u64, u32), humantime::DurationError>)
    requires
        most_seconds(s@) <= u64::MAX,
    ensures
        match r {
            Ok(parts) => humantime_span(s@) == Some(parts) && parts.1 < NANOS_PER_SEC,
            Err(_) => humantime_span(s@) is None,
        },
{
    match humantime::parse_duration(s) {
        Ok(d) => Ok((d.as_secs(), d.subsec_nanos())),
        Err(e) => Err(e),
    }
}

/// `Duration::new`. Trusted: with fewer than a billion nanoseconds it does
/// not panic, and its result depends on the two numbers alone.
pub assume_specification[ Duration::new ](secs: u64, nanos: u32) -> (r: Duration)
    requires
        nanos < NANOS_PER_SEC,
    ensures
        r == std_duration(secs, nanos),
;

/// Why a text is no usable duration.
#[derive(Clone, Copy, Debug, PartialEq, Eq, Structural)]
pub enum InvalidDuration {
    /// The text is not a duration.
    Syntax,
    /// The text is a duration of no length.
    Zero,
}

impl InvalidDuration {
    /// The text of the error.
    pub open spec fn text(self) -> Seq<char> {
        match self {
            InvalidDuration::Syntax => "Error parsing Duration"@,
            InvalidDuration::Zero => "Duration is zero"@,
        }
    }

    /// The text of the error.
    pub fn message(self) -> (r: &'static str)
        ensures
            r@ == self.text(),
    {
        match self {
            InvalidDuration::Syntax => "Error parsing Duration",
            InvalidDuration::Zero => "Duration is zero",
        }
    }
}

/// A span of time that is not zero.
#[derive(Clone, Copy, Debug)]
pub struct NonZeroDuration {
    secs: u64,
    nanos: u32,
}

impl NonZeroDuration {
    #[verifier::type_invariant]
    spec fn inv(self) -> bool {
        self.nanos < NANOS_PER_SEC && (self.secs > 0 || self.nanos > 0)
    }

    /// Whole seconds of the span.
    pub closed spec fn secs(self) -> u64 {
        self.secs
    }

    /// Nanoseconds beyond the whole seconds.
    pub closed spec fn subsec_nanos(self) -> u32 {
        self.nanos
    }

    /// The span in nanoseconds.
    pub open spec fn total_nanos(self) -> nat {
        (self.secs() * NANOS_PER_SEC + self.subsec_nanos()) as nat
    }

    /// The span in nanoseconds, held to the range of `u64`.
    pub open spec fn clamped_nanos(self) -> u64 {
        if self.total_nanos() > u64::MAX {
            u64::MAX
        } else {
            self.total_nanos() as u64
        }
    }

    /// Which parts make a span: fewer than a billion nanoseconds, and not
    /// both parts zero.
    pub open spec fn valid_parts(secs: u64, nanos: u32) -> bool {
        nanos < NANOS_PER_SEC && (secs > 0 || nanos > 0)
    }

    /// The span of the given parts, where they make one.
    pub fn from_parts(secs: u64, nanos: u32) -> (r: Option<NonZeroDuration>)
        ensures
            r is Some <==> Self::valid_parts(secs, nanos),
            match r {
                Some(d) => d.secs() == secs && d.subsec_nanos() == nanos,
                None => true,
            },
    {
        if nanos < NANOS_PER_SEC && (secs > 0 || nanos > 0) {
            Some(NonZeroDuration { secs, nanos })
        } else {
            None
        }
    }

    /// What a parsed text amounts to: the parser's rejection, or parts that
    /// make no duration, are a syntax error; a span of no length is refused;
    /// any other span is taken.
    pub open spec fn judged(parsed: Option<(u64, u32)>) -> Result<(u64, u32), InvalidDuration> {
        match parsed {
            None => Err(InvalidDuration::Syntax),
            Some(parts) => if parts.1 >= NANOS_PER_SEC {
                Err(InvalidDuration::Syntax)
            } else if parts.0 == 0 && parts.1 == 0 {
                Err(InvalidDuration::Zero)
            } else {
                Ok(parts)
            },
        }
    }

    /// Takes the outcome of parsing: a span that is not zero, or the reason
    /// why there is none.
    pub fn from_parsed(parsed: Option<(u64, u32)>) -> (r: Result<NonZeroDuration, InvalidDuration>)
        ensures
            match (r, Self::judged(parsed)) {
                (Ok(d), Ok(parts)) => d.secs() == parts.0 && d.subsec_nanos() == parts.1,
                (Err(e), Err(f)) => e == f,
                _ => false,
            },
    {
        match parsed {
            None => Err(InvalidDuration::Syntax),
            Some((secs, nanos)) => {
                if nanos >= NANOS_PER_SEC {
                    Err(InvalidDuration::Syntax)
                } else if secs == 0 && nanos == 0 {
                    Err(InvalidDuration::Zero)
                } else {
                    Ok(NonZeroDuration { secs, nanos })
                }
            },
        }
    }

    /// What is read from a text: what the parser makes of it. A text whose
    /// numbers in their units amount to more seconds than `u64` holds is
    /// no duration.
    pub open spec fn read(s: Seq<char>) -> Option<(u64, u32)> {
        if most_seconds(s) <= u64::MAX {
            humantime_span(s)
        } else {
            None
        }
    }

    /// Reads a span written as numbers with units of time. A text whose
    /// numbers in their units amount to more seconds than `u64` holds is a
    /// syntax error.
    pub fn parse(s: &str) -> (r: Result<NonZeroDuration, InvalidDuration>)
        ensures
            match (r, Self::judged(Self::read(s@))) {
                (Ok(d), Ok(parts)) => d.secs() == parts.0 && d.subsec_nanos() == parts.1,
                (Err(e), Err(f)) => e == f,
                _ => false,
            },
    {
        if seconds_bound(s).is_none() {
            return Self::from_parsed(None);
        }
        match parse_span(s) {
            Ok(parts) => Self::from_parsed(Some(parts)),
            Err(_) => Self::from_parsed(None),
        }
    }

    /// Whole seconds of the span.
    pub fn as_secs(&self) -> (r: u64)
        ensures
            r == self.secs(),
    {
        self.secs
    }

    /// Nanoseconds beyond the whole seconds.
    pub fn nanos(&self) -> (r: u32)
        ensures
            r == self.subsec_nanos(),
            r < NANOS_PER_SEC,
            self.total_nanos() > 0,
    {
        proof {
            use_type_invariant(self);
        }
        self.nanos
    }

    /// The span in nanoseconds; a span too long for `u64` gives `u64::MAX`.
    pub fn as_nanos(&self) -> (r: u64)
        ensures
            r == self.clamped_nanos(),
            r > 0,
    {
        proof {
            use_type_invariant(self);
        }
        let total: u128 = self.secs as u128 * 1_000_000_000u128 + self.nanos as u128;
        if total > u64::MAX as u128 {
            u64::MAX
        } else {
            total as u64
        }
    }

    /// The span as a `std::time::Duration`.
    pub fn into_std(self) -> (r: Duration)
        ensures
            r == std_duration(self.secs(), self.subsec_nanos()),
    {
        proof {
            use_type_invariant(self);
        }
        Duration::new(self.secs, self.nanos)
    }
}

// ---------------------------------------------------------------------------
// Commands
// ---------------------------------------------------------------------------
#[verifier::external_type_specification]
#[verifier::external_body]
pub struct ExParseError(shell_words::ParseError);

/// What `shell_words::split` makes of a command line: its words, or nothing
/// where a quote is left open.
pub uninterp spec fn shell_split(s: Seq<char>) -> Option<Seq<Seq<char>>>;

/// The texts of a list of strings.
pub open spec fn texts(v: Seq<String>) -> Seq<Seq<char>> {
    Seq::new(v.len(), |i: int| v[i]@)
}

/// `shell_words::split`. Trusted: the outcome depends on the text alone.
#[verifier::external_body]
fn split_words(s: &str) -> (r: Result<Vec<String>, shell_words::ParseError>)
    ensures
        match r {
            Ok(words) => shell_split(s@) == Some(texts(words@)),
            Err(_) => shell_split(s@) is None,
        },
{
    shell_words::split(s)
}

/// Why a text is no usable command.
#[derive(Clone, Copy, Debug, PartialEq, Eq, Structural)]
pub enum CommandError {
    /// A quote is left open.
    BadSyntax,
    /// There is no word in it.
    Empty,
}

impl CommandError {
    /// The text of the error.
    pub open spec fn text(self) -> Seq<char> {
        match self {
            CommandError::BadSyntax => "missing closing quote"@,
            CommandError::Empty => "command is empty"@,
        }
    }

    /// The text of the error.
    pub fn message(self) -> (r: &'static str)
        ensures
            r@ == self.text(),
    {
        match self {
            CommandError::BadSyntax => "missing closing quote",
            CommandError::Empty => "command is empty",
        }
    }
}

/// One variable of a child's environment.
#[derive(Clone, Debug)]
pub struct EnvVar {
    pub name: String,
    pub value: String,
}

impl View for EnvVar {
    type V = (Seq<char>, Seq<char>);

    open spec fn view(&self) -> (Seq<char>, Seq<char>) {
        (self.name@, self.value@)
    }
}

/// The names and values of a list of variables.
pub open spec fn bindings(v: Seq<EnvVar>) -> Seq<(Seq<char>, Seq<char>)> {
    Seq::new(v.len(), |i: int| v[i]@)
}

/// A child process to be started: the program, its arguments, and the
/// variables laid over the parent's environment.
#[derive(Debug)]
pub struct Invocation {
    pub program: String,
    pub args: Vec<String>,
    pub env: Vec<EnvVar>,
}

/// A command line, split into its words; there is at least one.
#[derive(Debug)]
pub struct SplitCommand {
    words: Vec<String>,
}

impl Clone for SplitCommand {
    fn clone(&self) -> (r: Self)
        ensures
            r@ == self@,
    {
        proof {
            use_type_invariant(self);
        }
        let n: usize = self.words.len();
        let mut words: Vec<String> = Vec::new();
        let mut i: usize = 0;
        while i < n
            invariant
                n == self.words@.len(),
                0 <= i <= n,
                words@.len() == i,
                forall|k: int| 0 <= k < i ==> words@[k]@ == self.words@[k]@,
            decreases n - i,
        {
            words.push(self.words[i].clone());
            i += 1;
        }
        assert(texts(words@) =~= texts(self.words@));
        SplitCommand { words }
    }
}

impl View for SplitCommand {
    type V = Seq<Seq<char>>;

    closed spec fn view(&self) -> Seq<Seq<char>> {
        texts(self.words@)
    }
}

impl SplitCommand {
    #[verifier::type_invariant]
    spec fn inv(self) -> bool {
        self.words@.len() > 0
    }

    /// What a tokenised text amounts to: an open quote is bad syntax, no
    /// word at all is an empty command, anything else is the command.
    pub open spec fn judged(split: Option<Seq<Seq<char>>>) -> Result<Seq<Seq<char>>, CommandError> {
        match split {
            None => Err(CommandError::BadSyntax),
            Some(words) => if words.len() == 0 {
                Err(CommandError::Empty)
            } else {
                Ok(words)
            },
        }
    }

    /// Takes the outcome of tokenising: the command, or the reason why there
    /// is none.
    pub fn from_split(split: Option<Vec<String>>) -> (r: Result<SplitCommand, CommandError>)
        ensures
            match (r, Self::judged(
                match split {
                    Some(w) => Some(texts(w@)),
                    None => None,
                },
            )) {
                (Ok(c), Ok(words)) => c@ == words,
                (Err(e), Err(f)) => e == f,
                _ => false,
            },
    {
        match split {
            None => Err(CommandError::BadSyntax),
            Some(words) => {
                if words.len() == 0 {
                    Err(CommandError::Empty)
                } else {
                    Ok(SplitCommand { words })
                }
            },
        }
    }

    /// Splits a command line into words by the shell's rules for quotes and
    /// backslashes.
    pub fn parse(s: &str) -> (r: Result<SplitCommand, CommandError>)
        ensures
            match (r, Self::judged(shell_split(s@))) {
                (Ok(c), Ok(words)) => c@ == words,
                (Err(e), Err(f)) => e == f,
                _ => false,
            },
    {
        match split_words(s) {
            Ok(words) => Self::from_split(Some(words)),
            Err(_) => Self::from_split(None),
        }
    }

    /// The program: the first word.
    pub fn get_prog(&self) -> (r: &str)
        ensures
            self@.len() > 0,
            r@ == self@[0],
    {
        proof {
            use_type_invariant(self);
        }
        self.words[0].as_str()
    }

    /// All words, the program first.
    pub fn argv(&self) -> (r: &Vec<String>)
        ensures
            r@.len() > 0,
            texts(r@) == self@,
    {
        proof {
            use_type_invariant(self);
        }
        &self.words
    }

    /// The child process that runs this command with `env` laid over the
    /// parent's environment.
    pub fn build_invocation(&self, env: Vec<EnvVar>) -> (r: Invocation)
        ensures
            self@.len() > 0,
            r.program@ == self@[0],
            texts(r.args@) == self@.subrange(1, self@.len() as int),
            r.env == env,
    {
        proof {
            use_type_invariant(self);
        }
        let n: usize = self.words.len();
        let mut args: Vec<String> = Vec::new();
        let mut i: usize = 1;
        while i < n
            invariant
                n == self.words@.len(),
                1 <= i <= n,
                args@.len() == i - 1,
                forall|k: int| 0 <= k < args@.len() ==> args@[k]@ == self.words@[k + 1]@,
            decreases n - i,
        {
            args.push(self.words[i].clone());
            i += 1;
        }
        assert(texts(args@) =~= self@.subrange(1, self@.len() as int));
        Invocation { program: self.words[0].clone(), args, env }
    }
}

// ---------------------------------------------------------------------------
// Logging
// ---------------------------------------------------------------------------
/// How log lines are laid out.
#[derive(Clone, Copy, Debug, PartialEq, Eq, Hash, Structural)]
pub enum LoggingFormat {
    Full,
    Compact,
    Pretty,
    Json,
}

impl Default for LoggingFormat {
    fn default() -> (r: Self)
        ensures
            r == LoggingFormat::Compact,
    {
        LoggingFormat::Compact
    }
}

impl LoggingFormat {
    /// The name of the layout, in its canonical casing.
    pub open spec fn name(self) -> Seq<char> {
        match self {
            LoggingFormat::Full => "Full"@,
            LoggingFormat::Compact => "Compact"@,
            LoggingFormat::Pretty => "Pretty"@,
            LoggingFormat::Json => "Json"@,
        }
    }

    /// No two layouts have names that agree when case is ignored.
    pub proof fn lemma_names_distinct(a: LoggingFormat, b: LoggingFormat)
        requires
            a != b,
        ensures
            !same_ignoring_case(a.name(), b.name()),
    {
        reveal_strlit("Full");
        reveal_strlit("Compact");
        reveal_strlit("Pretty");
        reveal_strlit("Json");
        if a.name().len() == b.name().len() {
            lemma_differ_at(a.name(), b.name(), 0);
        }
    }

    /// The name of the layout, in its canonical casing.
    pub fn as_str(self) -> (r: &'static str)
        ensures
            r@ == self.name(),
    {
        match self {
            LoggingFormat::Full => "Full",
            LoggingFormat::Compact => "Compact",
            LoggingFormat::Pretty => "Pretty",
            LoggingFormat::Json => "Json",
        }
    }

    /// Reads a layout from its name, without regard to the case of letters.
    pub fn parse(s: &str) -> (r: Option<LoggingFormat>)
        ensures
            forall|f: LoggingFormat| r == Some(f) <==> same_ignoring_case(s@, #[trigger] f.name()),
    {
        let found: Option<LoggingFormat> = if eq_ignoring_case(s, "Full") {
            Some(LoggingFormat::Full)
        } else if eq_ignoring_case(s, "Compact") {
            Some(LoggingFormat::Compact)
        } else if eq_ignoring_case(s, "Pretty") {
            Some(LoggingFormat::Pretty)
        } else if eq_ignoring_case(s, "Json") {
            Some(LoggingFormat::Json)
        } else {
            None
        };
        proof {
            match found {
                Some(e) => {
                    assert forall|f: LoggingFormat|
                        same_ignoring_case(s@, #[trigger] f.name()) implies f == e by {
                        if f != e {
                            Self::lemma_names_distinct(f, e);
                            lemma_same_chain(f.name(), s@, e.name());
                        }
                    }
                },
                None => {},
            }
        }
        found
    }
}

/// How grave a log record is, from the gravest to the most verbose.
#[derive(Clone, Copy, Debug, PartialEq, Eq, Hash, Structural)]
pub enum Level {
    Error,
    Warn,
    Info,
    Debug,
    Trace,
}

#[verifier::external_type_specification]
#[verifier::external_body]
pub struct ExParseLevelError(tracing::metadata::ParseLevelError);

/// The number that a text of digits spells in decimal.
pub open spec fn decimal_value(s: Seq<char>) -> nat
    decreases s.len(),
{
    if s.len() == 0 {
        0
    } else {
        decimal_value(s.drop_last()) * 10 + digit_value(s.last())
    }
}

/// Whether a text is made of digits alone.
pub open spec fn all_digits(s: Seq<char>) -> bool {
    forall|i: int| 0 <= i < s.len() ==> is_digit(#[trigger] s[i])
}

/// A text without the plus sign that it may begin with.
pub open spec fn unsigned_part(s: Seq<char>) -> Seq<char> {
    if s.len() > 0 && s[0] == '+' {
        s.skip(1)
    } else {
        s
    }
}

/// The number that a text spells: one digit or more, with or without a plus
/// sign before them, and nothing else.
pub open spec fn written_number(s: Seq<char>) -> Option<nat> {
    let digits = unsigned_part(s);
    if digits.len() > 0 && all_digits(digits) {
        Some(decimal_value(digits))
    } else {
        None
    }
}

/// The level of a number: one for errors, up to five for traces.
pub open spec fn level_by_number(n: nat) -> Option<Level> {
    if n == 1 {
        Some(Level::Error)
    } else if n == 2 {
        Some(Level::Warn)
    } else if n == 3 {
        Some(Level::Info)
    } else if n == 4 {
        Some(Level::Debug)
    } else if n == 5 {
        Some(Level::Trace)
    } else {
        None
    }
}

/// The level of a name, without regard to the case of letters.
pub open spec fn level_by_name(s: Seq<char>) -> Option<Level> {
    if same_ignoring_case(s, "error"@) {
        Some(Level::Error)
    } else if same_ignoring_case(s, "warn"@) {
        Some(Level::Warn)
    } else if same_ignoring_case(s, "info"@) {
        Some(Level::Info)
    } else if same_ignoring_case(s, "debug"@) {
        Some(Level::Debug)
    } else if same_ignoring_case(s, "trace"@) {
        Some(Level::Trace)
    } else {
        None
    }
}

/// The level that a text names: by its number where the text spells one
/// from one to five, and by its name otherwise.
pub open spec fn level_of(s: Seq<char>) -> Option<Level> {
    match written_number(s) {
        Some(n) => match level_by_number(n) {
            Some(level) => Some(level),
            None => level_by_name(s),
        },
        None => level_by_name(s),
    }
}

/// `tracing::Level::from_str`, with the level given as one of the five
/// levels. Trusted: it reads the text as a `usize`, which is digits with or
/// without a plus sign before them, and takes the numbers one to five for
/// the levels from errors to traces; any other text it compares with the
/// five names by `eq_ignore_ascii_case`.
#[verifier::external_body]
fn parse_level(s: &str) -> (r: Result<Level, tracing::metadata::ParseLevelError>)
    ensures
        match r {
            Ok(level) => level_of(s@) == Some(level),
            Err(_) => level_of(s@) is None,
        },
{
    match s.parse::<tracing::Level>() {
        Ok(tracing::Level::ERROR) => Ok(Level::Error),
        Ok(tracing::Level::WARN) => Ok(Level::Warn),
        Ok(tracing::Level::INFO) => Ok(Level::Info),
        Ok(tracing::Level::DEBUG) => Ok(Level::Debug),
        Ok(_) => Ok(Level::Trace),
        Err(e) => Err(e),
    }
}

/// The most verbose level that is logged.
#[derive(Clone, Copy, Debug, PartialEq, Eq, Hash, Structural)]
pub struct LoggingLevel(pub Level);

impl Default for LoggingLevel {
    fn default() -> (r: Self)
        ensures
            r == LoggingLevel(Level::Info),
    {
        LoggingLevel(Level::Info)
    }
}

impl LoggingLevel {
    /// Reads a level from its name or its number.
    pub fn parse(s: &str) -> (r: Option<LoggingLevel>)
        ensures
            r == match level_of(s@) {
                Some(level) => Some(LoggingLevel(level)),
                None => None,
            },
    {
        match parse_level(s) {
            Ok(level) => Some(LoggingLevel(level)),
            Err(_) => None,
        }
    }

    /// The level itself.
    pub fn inner(self) -> (r: Level)
        ensures
            r == self.0,
    {
        self.0
    }
}

/// What is logged, and how.
#[derive(Clone, Copy, Debug)]
pub struct Logging {
    pub max_level: LoggingLevel,
    pub level: bool,
    pub timestamp: bool,
    pub target: bool,
    pub ansi: bool,
    pub format: LoggingFormat,
}

impl Default for Logging {
    fn default() -> (r: Self)
        ensures
            r.max_level == LoggingLevel(Level::Info),
            !r.level,
            !r.timestamp,
            !r.target,
            !r.ansi,
            r.format == LoggingFormat::Compact,
    {
        Logging {
            max_level: LoggingLevel(Level::Info),
            level: false,
            timestamp: false,
            target: false,
            ansi: false,
            format: LoggingFormat::Compact,
        }
    }
}

// ---------------------------------------------------------------------------
// Front end and handlers
// ---------------------------------------------------------------------------
/// The credentials that a request must carry.
#[derive(Clone, Debug)]
pub struct Auth {
    pub user: String,
    pub pass: String,
}

/// Where the certificate and its key are, and how often to read them again.
#[derive(Clone, Debug)]
pub struct TlsConfig {
    pub cert: String,
    pub key: String,
    pub periodic_reload: Option<NonZeroDuration>,
}

/// One handler: whose events of which kind it takes, its scheduling policy,
/// and the command that it runs.
#[derive(Clone, Debug)]
pub struct Handler {
    pub user: String,
    pub event: ImseEvent,
    /// Least time between the first event of a burst and the spawn for it.
    pub delay: Option<NonZeroDuration>,
    /// Time in which the bucket refills wholly; thirty seconds if unset.
    pub limit_period: Option<NonZeroDuration>,
    /// Tokens that the bucket holds; one if unset or zero.
    pub limit_burst: Option<u32>,
    /// Cadence of spawns when no event arrives.
    pub periodic: Option<NonZeroDuration>,
    pub command: SplitCommand,
}

impl From<NonZeroDuration> for Duration {
    fn from(d: NonZeroDuration) -> (r: Duration) {
        d.into_std()
    }
}

impl vstd::std_specs::convert::FromSpecImpl<NonZeroDuration> for Duration {
    open spec fn obeys_from_spec() -> bool {
        true
    }

    open spec fn from_spec(d: NonZeroDuration) -> Duration {
        std_duration(d.secs(), d.subsec_nanos())
    }
}

/// Seconds to wait after the first failed reload; each further failure in
/// a row adds as much, up to fifteen times.
pub const RETRY_STEP_SECS: u64 = 60;

/// The number of failures in a row past which the wait grows no more.
pub const RETRY_STEPS: u64 = 15;

/// When the certificate is read again: at the configured period while
/// reloads succeed, and sooner after a failure.
#[derive(Clone, Copy, Debug)]
pub struct ReloadSchedule {
    period: NonZeroDuration,
    fails: u64,
}

impl ReloadSchedule {
    /// The configured time between two reloads.
    pub closed spec fn period(self) -> NonZeroDuration {
        self.period
    }

    /// How many reloads in a row have failed.
    pub closed spec fn fails(self) -> u64 {
        self.fails
    }

    /// The seconds to wait after so many failures in a row.
    pub open spec fn retry_secs(fails: u64) -> u64 {
        if fails >= RETRY_STEPS {
            (RETRY_STEP_SECS * RETRY_STEPS) as u64
        } else {
            (RETRY_STEP_SECS * fails) as u64
        }
    }

    /// A schedule with no failure yet.
    pub fn new(period: NonZeroDuration) -> (r: ReloadSchedule)
        ensures
            r.period() == period,
            r.fails() == 0,
    {
        ReloadSchedule { period, fails: 0 }
    }

    /// The wait before the first reload: the period.
    pub fn first_delay(&self) -> (r: NonZeroDuration)
        ensures
            r == self.period(),
    {
        self.period
    }

    /// Records how a reload went, and gives the wait before the next one.
    ///
    /// A success clears the count of failures, and the wait is the period.
    /// A failure adds to the count, and the wait is a minute for each
    /// failure in a row, fifteen minutes at most.
    pub fn record(&mut self, reloaded: bool) -> (r: NonZeroDuration)
        ensures
            final(self).period() == old(self).period(),
            reloaded ==> final(self).fails() == 0 && r == old(self).period(),
            !reloaded ==> final(self).fails() == (if old(self).fails() == u64::MAX {
                u64::MAX
            } else {
                (old(self).fails() + 1) as u64
            }),
            !reloaded ==> r.secs() == Self::retry_secs(final(self).fails()) && r.subsec_nanos() == 0,
    {
        if reloaded {
            self.fails = 0;
            self.period
        } else {
            self.fails = self.fails.saturating_add(1);
            let steps: u64 = if self.fails >= RETRY_STEPS {
                RETRY_STEPS
            } else {
                self.fails
            };
            NonZeroDuration { secs: RETRY_STEP_SECS * steps, nanos: 0 }
        }
    }
}

impl TlsConfig {
    /// The schedule of reloads, where a period is configured.
    pub fn reload_schedule(&self) -> (r: Option<ReloadSchedule>)
        ensures
            match (r, self.periodic_reload) {
                (Some(s), Some(p)) => s.period() == p && s.fails() == 0,
                (None, None) => true,
                _ => false,
            },
    {
        match self.periodic_reload {
            Some(p) => Some(ReloadSchedule::new(p)),
            None => None,
        }
    }
}

/// The whole configuration.
#[derive(Clone, Debug)]
pub struct Config {
    /// Where to listen; the loopback address, port 12525, if unset.
    pub listen: Option<Endpoint>,
    /// The ranges that peers must come from; any peer if empty.
    pub allow: Vec<IpRange>,
    /// The path that events are put to; `/notify` if unset.
    pub endpoint: Option<String>,
    /// How many requests are served at once; eight if unset or zero.
    pub max_connections: Option<u16>,
    /// How long a request may take; five seconds if unset.
    pub timeout: Option<NonZeroDuration>,
    pub auth: Option<Auth>,
    pub tls: Option<TlsConfig>,
    pub log: Logging,
    pub handler: Vec<Handler>,
}

/// The port that the daemon listens on when none is configured.
pub const DEFAULT_PORT: u16 = 12525;

/// The loopback address, 127.0.0.1.
pub const LOOPBACK_V4: u32 = 0x7f00_0001;

/// How many requests are served at once when no number is configured.
pub const DEFAULT_CONNECTIONS: u16 = 8;

/// Seconds that a request may take when no timeout is configured.
pub const DEFAULT_TIMEOUT_SECS: u64 = 5;

impl Config {
    /// Where the daemon listens.
    pub fn listen_or_default(&self) -> (r: Endpoint)
        ensures
            r == match self.listen {
                Some(e) => e,
                None => (Endpoint { ip: IpAddress::V4(LOOPBACK_V4), port: DEFAULT_PORT }),
            },
    {
        match self.listen {
            Some(e) => e,
            None => Endpoint { ip: IpAddress::V4(LOOPBACK_V4), port: DEFAULT_PORT },
        }
    }

    /// The path that events are put to.
    pub fn endpoint_or_default(&self) -> (r: String)
        ensures
            r@ == match self.endpoint {
                Some(e) => e@,
                None => "/notify"@,
            },
    {
        match &self.endpoint {
            Some(e) => e.clone(),
            None => String::from_str("/notify"),
        }
    }

    /// How many requests are served at once.
    pub fn concurrency(&self) -> (r: u16)
        ensures
            r >= 1,
            r == match self.max_connections {
                Some(n) => if n == 0 {
                    DEFAULT_CONNECTIONS
                } else {
                    n
                },
                None => DEFAULT_CONNECTIONS,
            },
    {
        match self.max_connections {
            Some(n) => if n == 0 {
                DEFAULT_CONNECTIONS
            } else {
                n
            },
            None => DEFAULT_CONNECTIONS,
        }
    }

    /// How long a request may take.
    pub fn timeout_or_default(&self) -> (r: NonZeroDuration)
        ensures
            match self.timeout {
                Some(t) => r == t,
                None => r.secs() == DEFAULT_TIMEOUT_SECS && r.subsec_nanos() == 0,
            },
    {
        match self.timeout {
            Some(t) => t,
            None => NonZeroDuration { secs: DEFAULT_TIMEOUT_SECS, nanos: 0 },
        }
    }
}

} // verus!
