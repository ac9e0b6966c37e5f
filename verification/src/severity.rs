use vstd::prelude::*;

verus! {

/// Severity threshold a logger can be configured with.
///
/// `Off` switches logging off entirely; `Full` is the most permissive
/// setting and lets every message kind through. `Info`, `Warning` and
/// `Error` each restrict the output to the kinds named by `permits`.
#[derive(Clone, Copy, Debug)]
pub enum LoggingLevel {
    Off,
    Full,
    Info,
    Warning,
    Error,
}

/// Category tag of a single log call.
///
/// `NoOp` marks a call that is never printed; the other four select the
/// severity tag that the rendered line carries.
#[derive(Clone, Copy, Debug)]
pub enum LoggingType {
    NoOp,
    Info,
    Warning,
    Error,
    Debug,
}

/// The filtering table: whether a logger configured at `level` prints a
/// message of kind `kind`.
///
/// `Off` silences everything and `Full` permits every real kind. Of the
/// remaining thresholds, `Info` lets only informational messages through
/// and `Warning` only warnings; warnings also survive the `Error`
/// threshold. Error messages print at every threshold except `Off`, and
/// debug messages appear only at the `Full` threshold.
pub open spec fn permits(level: LoggingLevel, kind: LoggingType) -> bool {
    match kind {
        LoggingType::NoOp => false,
        LoggingType::Info => level is Full || level is Info,
        LoggingType::Warning => level is Full || level is Warning || level is Error,
        LoggingType::Error => !(level is Off),
        LoggingType::Debug => level is Full,
    }
}

/// Executable twin of `permits`.
pub fn is_permitted(level: LoggingLevel, kind: LoggingType) -> (b: bool)
    ensures
        b == permits(level, kind),
{
    match kind {
        LoggingType::NoOp => false,
        LoggingType::Info => match level {
            LoggingLevel::Full | LoggingLevel::Info => true,
            _ => false,
        },
        LoggingType::Warning => match level {
            LoggingLevel::Full | LoggingLevel::Warning | LoggingLevel::Error => true,
            _ => false,
        },
        LoggingType::Error => match level {
            LoggingLevel::Off => false,
            _ => true,
        },
        LoggingType::Debug => match level {
            LoggingLevel::Full => true,
            _ => false,
        },
    }
}

/// The severity tag printed inside the first pair of brackets after the
/// timestamp. The no-op kind never reaches the output, so its label is
/// empty.
pub open spec fn kind_label(kind: LoggingType) -> Seq<char> {
    match kind {
        LoggingType::NoOp => Seq::empty(),
        LoggingType::Info => "INFO"@,
        LoggingType::Warning => "WARN"@,
        LoggingType::Error => "ERROR"@,
        LoggingType::Debug => "DEBUG"@,
    }
}

/// Executable twin of `kind_label`.
pub fn label_text(kind: LoggingType) -> (r: &'static str)
    ensures
        r@ == kind_label(kind),
{
    match kind {
        LoggingType::NoOp => {
            proof {
                reveal_strlit("");
                assert(""@ =~= Seq::<char>::empty());
            }
            ""
        },
        LoggingType::Info => "INFO",
        LoggingType::Warning => "WARN",
        LoggingType::Error => "ERROR",
        LoggingType::Debug => "DEBUG",
    }
}

/// Number of alignment spaces appended after the bracketed severity tag.
/// The four-letter tags get one space so that the text after them lines up
/// with the five-letter tags.
pub open spec fn kind_padding(kind: LoggingType) -> nat {
    match kind {
        LoggingType::Info | LoggingType::Warning => 1nat,
        _ => 0nat,
    }
}

/// Executable twin of `kind_padding`.
pub fn padding_width(kind: LoggingType) -> (n: usize)
    ensures
        n as nat == kind_padding(kind),
{
    match kind {
        LoggingType::Info | LoggingType::Warning => 1,
        _ => 0,
    }
}

/// Law: the no-op kind is never printed, whatever the threshold.
pub proof fn lemma_noop_never_permitted(level: LoggingLevel)
    ensures
        !permits(level, LoggingType::NoOp),
{
}

/// Law: the `Off` threshold silences every message kind.
pub proof fn lemma_off_silences(kind: LoggingType)
    ensures
        !permits(LoggingLevel::Off, kind),
{
}

/// Law: the `Full` threshold permits every kind except the no-op marker.
pub proof fn lemma_full_permits(kind: LoggingType)
    ensures
        !(kind is NoOp) ==> permits(LoggingLevel::Full, kind),
{
}

/// Law: at the strictest printing threshold, `Error`, error messages
/// still come through while informational and debug messages do not.
pub proof fn lemma_strictest_threshold_effect()
    ensures
        permits(LoggingLevel::Error, LoggingType::Error),
        !permits(LoggingLevel::Error, LoggingType::Info),
        !permits(LoggingLevel::Error, LoggingType::Debug),
{
}

} // verus!
