use vstd::prelude::*;

use std::io::Write;

use crate::severity::kind_label;
use crate::severity::kind_padding;
use crate::severity::label_text;
use crate::severity::padding_width;
use crate::severity::LoggingType;

verus! {

use vstd::string::StringExecFns;

/// True when `s` holds no ANSI escape character. Styling an escape-free
/// text never rewrites the text itself.
pub open spec fn esc_free(s: Seq<char>) -> bool {
    forall|i: int| 0 <= i < s.len() ==> s[i] != '\u{1b}'
}

/// The ANSI sequence that ends a styled stretch of text.
pub open spec fn style_reset() -> Seq<char> {
    "\u{1b}[0m"@
}

/// How styling an escape-free text comes out: either the text unchanged
/// (colors switched off) or exactly the given color prefix, the text, and
/// the reset sequence.
pub open spec fn styled_as(styled: Seq<char>, plain: Seq<char>, prefix: Seq<char>) -> bool {
    styled == plain || styled == prefix + plain + style_reset()
}

/// The ANSI color prefix of each kind's severity tag: green for
/// informational messages, yellow for warnings, bright red for errors,
/// blue for debug output. The no-op kind is never styled.
pub open spec fn color_prefix(kind: LoggingType) -> Seq<char> {
    match kind {
        LoggingType::NoOp => Seq::empty(),
        LoggingType::Info => "\u{1b}[32m"@,
        LoggingType::Warning => "\u{1b}[33m"@,
        LoggingType::Error => "\u{1b}[91m"@,
        LoggingType::Debug => "\u{1b}[34m"@,
    }
}

/// The ANSI color prefix of the origin label: bright white.
pub open spec fn origin_style_prefix() -> Seq<char> {
    "\u{1b}[97m"@
}

/// `n` space characters.
pub open spec fn spaces(n: nat) -> Seq<char> {
    Seq::new(n, |i: int| ' ')
}

/// The origin part of a line: absent origins contribute nothing, present
/// ones stand bracketed after a single space.
pub open spec fn origin_segment(origin: Option<Seq<char>>) -> Seq<char> {
    match origin {
        Some(o) => " ["@ + o + "]"@,
        None => Seq::empty(),
    }
}

/// An ASCII decimal digit.
pub open spec fn is_digit(c: char) -> bool {
    '0' <= c && c <= '9'
}

/// Shape of the calendar date in front of the time: dash-separated,
/// zero-padded numeric fields, at least ten characters, possibly signed.
pub open spec fn date_shape(s: Seq<char>) -> bool {
    &&& s.len() >= 10
    &&& forall|i: int| 0 <= i < s.len() ==> is_digit(#[trigger] s[i]) || s[i] == '-' || s[i] == '+'
}

/// Shape of the wall-clock time: `HH:MM:SS`, zero-padded.
pub open spec fn time_shape(s: Seq<char>) -> bool {
    &&& s.len() == 8
    &&& s[2] == ':'
    &&& s[5] == ':'
    &&& is_digit(s[0])
    &&& is_digit(s[1])
    &&& is_digit(s[3])
    &&& is_digit(s[4])
    &&& is_digit(s[6])
    &&& is_digit(s[7])
}

/// The whole rendered line:
/// `[<date><time>] [<label>]<padding><origin segment>: <message>`.
pub open spec fn composed_line(
    date: Seq<char>,
    time: Seq<char>,
    label: Seq<char>,
    pad: nat,
    origin: Option<Seq<char>>,
    msg: Seq<char>,
) -> Seq<char> {
    "["@ + date + time + "] ["@ + label + "]"@ + spaces(pad) + origin_segment(origin) + ": "@
        + msg
}

/// View of an optional borrowed string.
pub open spec fn opt_str_view(o: Option<&str>) -> Option<Seq<char>> {
    match o {
        Some(s) => Some(s@),
        None => None,
    }
}

/// Builds the rendered line out of its already-styled pieces.
pub fn compose_line(
    date: &str,
    time: &str,
    label: &str,
    pad: usize,
    origin: Option<&str>,
    message: &str,
) -> (r: String)
    ensures
        r@ == composed_line(date@, time@, label@, pad as nat, opt_str_view(origin), message@),
{
    let mut line = String::new();
    line.append("[");
    line.append(date);
    line.append(time);
    line.append("] [");
    line.append(label);
    line.append("]");
    let ghost head: Seq<char> = "["@ + date@ + time@ + "] ["@ + label@ + "]"@;
    proof {
        assert(line@ =~= head + spaces(0nat));
    }
    let mut i: usize = 0;
    while i < pad
        invariant
            i <= pad,
            line@ == head + spaces(i as nat),
        decreases pad - i,
    {
        line.append(" ");
        proof {
            reveal_strlit(" ");
            assert(line@ =~= head + spaces((i + 1) as nat));
        }
        i = i + 1;
    }
    match origin {
        Some(o) => {
            line.append(" [");
            line.append(o);
            line.append("]");
            proof {
                assert(line@ =~= head + spaces(pad as nat) + origin_segment(opt_str_view(origin)));
            }
        },
        None => {
            proof {
                assert(line@ =~= head + spaces(pad as nat) + origin_segment(opt_str_view(origin)));
            }
        },
    }
    line.append(": ");
    line.append(message);
    proof {
        assert(line@ =~= composed_line(
            date@,
            time@,
            label@,
            pad as nat,
            opt_str_view(origin),
            message@,
        ));
    }
    line
}

/// Law: the message body stands verbatim at the very end of every composed
/// line, immediately after a `": "` separator.
pub proof fn lemma_message_passthrough(
    date: Seq<char>,
    time: Seq<char>,
    label: Seq<char>,
    pad: nat,
    origin: Option<Seq<char>>,
    msg: Seq<char>,
)
    ensures
        ({
            let line = composed_line(date, time, label, pad, origin, msg);
            &&& line.len() >= msg.len() + 2
            &&& line.subrange(line.len() - msg.len(), line.len() as int) == msg
            &&& line.subrange(line.len() - msg.len() - 2, line.len() - msg.len()) == ": "@
        }),
{
    reveal_strlit(": ");
    let line = composed_line(date, time, label, pad, origin, msg);
    assert(line.subrange(line.len() - msg.len(), line.len() as int) =~= msg);
    assert(line.subrange(line.len() - msg.len() - 2, line.len() - msg.len()) =~= ": "@);
}

/// Law: every composed line begins with the bracketed timestamp, the date
/// directly followed by the time.
pub proof fn lemma_timestamp_prefix(
    date: Seq<char>,
    time: Seq<char>,
    label: Seq<char>,
    pad: nat,
    origin: Option<Seq<char>>,
    msg: Seq<char>,
)
    ensures
        ({
            let line = composed_line(date, time, label, pad, origin, msg);
            let dlen = date.len() as int;
            let tlen = time.len() as int;
            &&& line.len() >= 1 + dlen + tlen + 2
            &&& line[0] == '['
            &&& line.subrange(1, 1 + dlen) == date
            &&& line.subrange(1 + dlen, 1 + dlen + tlen) == time
            &&& line.subrange(1 + dlen + tlen, 1 + dlen + tlen + 2) == "] "@
        }),
{
    reveal_strlit("[");
    reveal_strlit("] [");
    reveal_strlit("] ");
    let line = composed_line(date, time, label, pad, origin, msg);
    let dlen = date.len() as int;
    let tlen = time.len() as int;
    assert(line.subrange(1, 1 + dlen) =~= date);
    assert(line.subrange(1 + dlen, 1 + dlen + tlen) =~= time);
    assert(line.subrange(1 + dlen + tlen, 1 + dlen + tlen + 2) =~= "] "@);
}

/// Law: an empty resolved origin leaves the line without any origin
/// segment; the separator follows the padded severity tag directly.
pub proof fn lemma_empty_origin_omits_segment(
    date: Seq<char>,
    time: Seq<char>,
    label: Seq<char>,
    pad: nat,
    msg: Seq<char>,
)
    ensures
        composed_line(date, time, label, pad, None, msg) == "["@ + date + time + "] ["@ + label
            + "]"@ + spaces(pad) + ": "@ + msg,
{
    assert(composed_line(date, time, label, pad, None, msg) =~= "["@ + date + time + "] ["@
        + label + "]"@ + spaces(pad) + ": "@ + msg);
}

/// Relies on `std::time::SystemTime::now` and chrono's
/// `DateTime::from_timestamp` and `DateTime::format`. One wall-clock
/// instant is fetched and formatted twice, so that date and time of a line
/// agree: `"%Y-%m-%d"` gives zero-padded numeric fields joined by dashes,
/// ten characters or more, a sign only for years outside the four-digit
/// range; `"%H:%M:%S"` gives two zero-padded digits per field with colons
/// in between. A clock before the Unix epoch or outside chrono's range
/// falls back to the epoch itself (chrono's `Utc::now` would panic there),
/// so the same shapes hold of every outcome. Nothing is promised about
/// which instant comes back.
#[verifier::external_body]
fn timestamp_strings() -> (r: (String, String))
    ensures
        date_shape(r.0@),
        time_shape(r.1@),
{
    let stamp = match std::time::SystemTime::now().duration_since(std::time::UNIX_EPOCH) {
        Ok(d) => chrono::DateTime::from_timestamp(d.as_secs() as i64, d.subsec_nanos()),
        Err(_) => None,
    };
    match stamp {
        Some(t) => (t.format("%Y-%m-%d").to_string(), t.format("%H:%M:%S").to_string()),
        None => (String::from("1970-01-01"), String::from("00:00:00")),
    }
}

/// Relies on colored's `Colorize::green` for `&str`: an escape-free text
/// comes back unchanged, or wrapped in exactly the green prefix and the
/// reset sequence.
#[verifier::external_body]
fn style_green(s: &str) -> (r: String)
    ensures
        esc_free(s@) ==> styled_as(r@, s@, "\u{1b}[32m"@),
{
    colored::Colorize::green(s).to_string()
}

/// Relies on colored's `Colorize::yellow` for `&str`: an escape-free text
/// comes back unchanged, or wrapped in exactly the yellow prefix and the
/// reset sequence.
#[verifier::external_body]
fn style_yellow(s: &str) -> (r: String)
    ensures
        esc_free(s@) ==> styled_as(r@, s@, "\u{1b}[33m"@),
{
    colored::Colorize::yellow(s).to_string()
}

/// Relies on colored's `Colorize::bright_red` for `&str`: an escape-free
/// text comes back unchanged, or wrapped in exactly the bright-red prefix
/// and the reset sequence.
#[verifier::external_body]
fn style_bright_red(s: &str) -> (r: String)
    ensures
        esc_free(s@) ==> styled_as(r@, s@, "\u{1b}[91m"@),
{
    colored::Colorize::bright_red(s).to_string()
}

/// Relies on colored's `Colorize::blue` for `&str`: an escape-free text
/// comes back unchanged, or wrapped in exactly the blue prefix and the
/// reset sequence.
#[verifier::external_body]
fn style_blue(s: &str) -> (r: String)
    ensures
        esc_free(s@) ==> styled_as(r@, s@, "\u{1b}[34m"@),
{
    colored::Colorize::blue(s).to_string()
}

/// Relies on colored's `Colorize::bright_white` for `&str`: an escape-free
/// text comes back unchanged, or wrapped in exactly the bright-white
/// prefix and the reset sequence.
#[verifier::external_body]
pub(crate) fn style_bright_white(s: &str) -> (r: String)
    ensures
        esc_free(s@) ==> styled_as(r@, s@, origin_style_prefix()),
{
    colored::Colorize::bright_white(s).to_string()
}

/// Relies on `std::io::stdout` and `Write::write_fmt`: writes the line and
/// a trailing newline to standard output. A failed write is dropped, as
/// the logger promises nothing about the stream itself.
#[verifier::external_body]
pub(crate) fn emit_line(line: &str) {
    let _ = writeln!(std::io::stdout(), "{}", line);
}

/// The severity tag of `kind`, styled in that kind's color.
pub fn styled_label(kind: LoggingType) -> (r: String)
    ensures
        styled_as(r@, kind_label(kind), color_prefix(kind)),
{
    match kind {
        LoggingType::NoOp => {
            let r = String::new();
            r
        },
        LoggingType::Info => {
            let r = style_green(label_text(kind));
            proof {
                reveal_strlit("INFO");
                assert(esc_free("INFO"@));
            }
            r
        },
        LoggingType::Warning => {
            let r = style_yellow(label_text(kind));
            proof {
                reveal_strlit("WARN");
                assert(esc_free("WARN"@));
            }
            r
        },
        LoggingType::Error => {
            let r = style_bright_red(label_text(kind));
            proof {
                reveal_strlit("ERROR");
                assert(esc_free("ERROR"@));
            }
            r
        },
        LoggingType::Debug => {
            let r = style_blue(label_text(kind));
            proof {
                reveal_strlit("DEBUG");
                assert(esc_free("DEBUG"@));
            }
            r
        },
    }
}

/// How a styled origin relates to the resolved origin text: an empty
/// origin is dropped altogether, a non-empty one is present and, when it
/// is escape-free, either unchanged or wrapped in exactly the bright-white
/// prefix and the reset sequence.
pub open spec fn styled_origin_ok(styled: Option<Seq<char>>, origin: Seq<char>) -> bool {
    if origin.len() == 0 {
        styled is None
    } else {
        styled matches Some(c) && (esc_free(origin) ==> styled_as(c, origin, origin_style_prefix()))
    }
}

/// What holds of every line the logger renders for a message of `kind`
/// with resolved origin `origin`: it is the composition of a well-shaped
/// timestamp, the styled severity tag, that kind's alignment padding, the
/// styled origin segment and the verbatim message.
pub open spec fn rendered_line_ok(
    line: Seq<char>,
    kind: LoggingType,
    origin: Seq<char>,
    msg: Seq<char>,
) -> bool {
    exists|date: Seq<char>, time: Seq<char>, label: Seq<char>, styled: Option<Seq<char>>|
        {
            &&& date_shape(date)
            &&& time_shape(time)
            &&& styled_as(label, kind_label(kind), color_prefix(kind))
            &&& styled_origin_ok(styled, origin)
            &&& line == #[trigger] composed_line(date, time, label, kind_padding(kind), styled, msg)
        }
}

/// Renders one line for a permitted message: fetches the wall-clock
/// timestamp, styles the tag and the origin, and composes the pieces.
pub(crate) fn render_line(kind: LoggingType, origin_text: &str, message: &str) -> (r: String)
    ensures
        rendered_line_ok(r@, kind, origin_text@, message@),
{
    let (date, time) = timestamp_strings();
    let label = styled_label(kind);
    let pad = padding_width(kind);
    if origin_text.is_empty() {
        let line = compose_line(date.as_str(), time.as_str(), label.as_str(), pad, None, message);
        proof {
            assert(rendered_line_ok(line@, kind, origin_text@, message@));
        }
        line
    } else {
        let styled = style_bright_white(origin_text);
        let line = compose_line(
            date.as_str(),
            time.as_str(),
            label.as_str(),
            pad,
            Some(styled.as_str()),
            message,
        );
        proof {
            assert(rendered_line_ok(line@, kind, origin_text@, message@));
        }
        line
    }
}

} // verus!
