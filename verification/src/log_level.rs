//! Log levels accepted on the command line, and their `tracing` counterparts.
use vstd::prelude::*;
use vstd::string::*;
use vstd::utf8::*;

verus! {

broadcast use {vstd::utf8::encode_utf8_decode_utf8, vstd::utf8::encode_utf8_valid_utf8};

/// `tracing::Level`, an opaque value for Verus.
#[verifier::external_type_specification]
#[verifier::external_body]
pub struct ExTracingLevel(tracing::Level);

/// The verbosity levels the exporter understands, from most to least verbose.
#[derive(Debug, Clone, Copy, PartialEq, Eq, Structural)]
pub enum LogLevel {
    Trace,
    Debug,
    Info,
    Warn,
    Error,
}

/// The error returned for a string that names no log level.
#[derive(Debug, Clone)]
pub struct LogLevelError {
    input: String,
}

impl View for LogLevelError {
    type V = Seq<char>;

    /// The text that was not recognised.
    closed spec fn view(&self) -> Seq<char> {
        self.input@
    }
}

/// The lower-case name under which each level is written on the command line.
pub open spec fn level_name(l: LogLevel) -> Seq<char> {
    match l {
        LogLevel::Trace => "trace"@,
        LogLevel::Debug => "debug"@,
        LogLevel::Info => "info"@,
        LogLevel::Warn => "warn"@,
        LogLevel::Error => "error"@,
    }
}

/// Whether `s` is the name of some level.
pub open spec fn is_level_name(s: Seq<char>) -> bool {
    exists|l: LogLevel| level_name(l) == s
}

/// The level named by `s`, if any.
pub open spec fn parse_level_spec(s: Seq<char>) -> Option<LogLevel> {
    if s == level_name(LogLevel::Trace) {
        Some(LogLevel::Trace)
    } else if s == level_name(LogLevel::Debug) {
        Some(LogLevel::Debug)
    } else if s == level_name(LogLevel::Info) {
        Some(LogLevel::Info)
    } else if s == level_name(LogLevel::Warn) {
        Some(LogLevel::Warn)
    } else if s == level_name(LogLevel::Error) {
        Some(LogLevel::Error)
    } else {
        None
    }
}

/// The text of the error reported for input `s`.
pub open spec fn error_message_spec(s: Seq<char>) -> Seq<char> {
    "unsupported log level: "@ + s
}

/// The `tracing` level that `tracing`'s own parser gives for the text `name`.
pub uninterp spec fn tracing_level_named(name: Seq<char>) -> tracing::Level;

/// Calls `<tracing::Level as FromStr>::from_str` on one of the five lower-case level
/// names and unwraps the result. In tracing-core's source that parser first tries the
/// text as a number and then compares it, ignoring ASCII case, with "error", "warn",
/// "info", "debug" and "trace", returning `Level::ERROR`, `Level::WARN`, `Level::INFO`,
/// `Level::DEBUG` and `Level::TRACE`; so it succeeds on every name admitted here.
/// The contract claims that the result is the value named `tracing_level_named(name@)`,
/// and that distinct names among the five give distinct levels (the five constants differ).
#[verifier::external_body]
fn tracing_level_from_name(name: &str) -> (l: tracing::Level)
    requires
        is_level_name(name@),
    ensures
        l == tracing_level_named(name@),
        forall|other: LogLevel|
            level_name(other) != name@ ==> l != #[trigger] tracing_level_named(level_name(other)),
{
    name.parse::<tracing::Level>().unwrap()
}

/// Compares two strings character by character.
pub fn str_equal(a: &str, b: &str) -> (r: bool)
    ensures
        r == (a@ == b@),
{
    let ab = a.as_bytes();
    let bb = b.as_bytes();
    proof {
        assert(ab@ == encode_utf8(a@));
        assert(bb@ == encode_utf8(b@));
    }
    if ab.len() != bb.len() {
        return false;
    }
    let n = ab.len();
    let mut i: usize = 0;
    while i < n
        invariant
            n == ab@.len(),
            n == bb@.len(),
            ab@ == encode_utf8(a@),
            bb@ == encode_utf8(b@),
            i <= n,
            forall|j: int| 0 <= j < i ==> ab@[j] == bb@[j],
        decreases n - i,
    {
        if ab[i] != bb[i] {
            proof {
                if a@ == b@ {
                    assert(ab@[i as int] == bb@[i as int]);
                }
            }
            return false;
        }
        i = i + 1;
    }
    proof {
        assert(ab@ =~= bb@);
        assert(decode_utf8(encode_utf8(a@)) == a@);
        assert(decode_utf8(encode_utf8(b@)) == b@);
    }
    true
}

/// Distinct levels have distinct names.
pub proof fn level_names_distinct()
    ensures
        forall|a: LogLevel, b: LogLevel| #[trigger] level_name(a) == #[trigger] level_name(b) ==> a == b,
{
    reveal_strlit("trace");
    reveal_strlit("debug");
    reveal_strlit("info");
    reveal_strlit("warn");
    reveal_strlit("error");
    assert("trace"@.len() == 5);
    assert("debug"@.len() == 5);
    assert("info"@.len() == 4);
    assert("warn"@.len() == 4);
    assert("error"@.len() == 5);
    assert("trace"@[0] != "debug"@[0]);
    assert("trace"@[0] != "error"@[0]);
    assert("debug"@[0] != "error"@[0]);
    assert("info"@[0] != "warn"@[0]);
}

/// Parsing the name of a level gives that level back, and a text parses to a level
/// exactly when it is that level's name.
pub proof fn parse_level_name_round_trip(l: LogLevel, s: Seq<char>)
    ensures
        parse_level_spec(level_name(l)) == Some(l),
        is_level_name(level_name(l)),
        parse_level_spec(s) == Some(l) <==> level_name(l) == s,
        parse_level_spec(s) is Some <==> is_level_name(s),
{
    level_names_distinct();
    assert(level_name(l) == level_name(l));
    if is_level_name(s) {
        let w = choose|w: LogLevel| level_name(w) == s;
        match w {
            LogLevel::Trace => {},
            LogLevel::Debug => {},
            LogLevel::Info => {},
            LogLevel::Warn => {},
            LogLevel::Error => {},
        }
    }
    match l {
        LogLevel::Trace => {},
        LogLevel::Debug => {},
        LogLevel::Info => {},
        LogLevel::Warn => {},
        LogLevel::Error => {},
    }
}

/// The `tracing` level of a parsed level is the one `tracing` itself reads from the same text.
pub proof fn parsed_level_agrees_with_tracing(s: Seq<char>, l: LogLevel)
    requires
        parse_level_spec(s) == Some(l),
    ensures
        tracing_level_named(level_name(l)) == tracing_level_named(s),
{
    parse_level_name_round_trip(l, s);
}

impl LogLevel {
    /// Reads a level from its lower-case name.
    pub fn parse(s: &str) -> (r: Result<LogLevel, LogLevelError>)
        ensures
            match r {
                Ok(l) => level_name(l) == s@,
                Err(e) => !is_level_name(s@) && e@ == s@,
            },
            r is Ok <==> is_level_name(s@),
            r is Ok ==> parse_level_spec(s@) == Some(r->Ok_0),
    {
        proof {
            reveal_strlit("trace");
            reveal_strlit("debug");
            reveal_strlit("info");
            reveal_strlit("warn");
            reveal_strlit("error");
        }
        if str_equal(s, "trace") {
            Ok(LogLevel::Trace)
        } else if str_equal(s, "debug") {
            Ok(LogLevel::Debug)
        } else if str_equal(s, "info") {
            Ok(LogLevel::Info)
        } else if str_equal(s, "warn") {
            Ok(LogLevel::Warn)
        } else if str_equal(s, "error") {
            Ok(LogLevel::Error)
        } else {
            proof {
                assert forall|l: LogLevel| level_name(l) != s@ by {
                    match l {
                        LogLevel::Trace => {},
                        LogLevel::Debug => {},
                        LogLevel::Info => {},
                        LogLevel::Warn => {},
                        LogLevel::Error => {},
                    }
                }
            }
            Err(LogLevelError { input: String::from_str(s) })
        }
    }

    /// The `tracing` level with the same meaning.
    pub fn level(&self) -> (l: tracing::Level)
        ensures
            l == tracing_level_named(level_name(*self)),
            forall|other: LogLevel|
                other != *self ==> l != #[trigger] tracing_level_named(level_name(other)),
    {
        proof {
            level_names_distinct();
        }
        proof {
            reveal_strlit("trace");
            reveal_strlit("debug");
            reveal_strlit("info");
            reveal_strlit("warn");
            reveal_strlit("error");
        }
        match self {
            LogLevel::Trace => {
                assert(level_name(LogLevel::Trace) == "trace"@);
                tracing_level_from_name("trace")
            },
            LogLevel::Debug => {
                assert(level_name(LogLevel::Debug) == "debug"@);
                tracing_level_from_name("debug")
            },
            LogLevel::Info => {
                assert(level_name(LogLevel::Info) == "info"@);
                tracing_level_from_name("info")
            },
            LogLevel::Warn => {
                assert(level_name(LogLevel::Warn) == "warn"@);
                tracing_level_from_name("warn")
            },
            LogLevel::Error => {
                assert(level_name(LogLevel::Error) == "error"@);
                tracing_level_from_name("error")
            },
        }
    }
}

impl LogLevelError {
    /// The text that was not recognised.
    pub fn input(&self) -> (s: &str)
        ensures
            s@ == self@,
    {
        self.input.as_str()
    }

    /// A human-readable description of the error.
    pub fn message(&self) -> (m: String)
        ensures
            m@ == error_message_spec(self@),
    {
        let mut m = String::from_str("unsupported log level: ");
        m.append(self.input.as_str());
        proof {
            reveal_strlit("unsupported log level: ");
        }
        m
    }
}

impl core::str::FromStr for LogLevel {
    type Err = LogLevelError;

    fn from_str(s: &str) -> (r: Result<LogLevel, LogLevelError>)
        ensures
            match r {
                Ok(l) => level_name(l) == s@,
                Err(e) => !is_level_name(s@) && e@ == s@,
            },
            r is Ok <==> is_level_name(s@),
    {
        LogLevel::parse(s)
    }
}

} // verus!
