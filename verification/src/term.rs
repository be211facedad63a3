use vstd::prelude::*;
use colored::Colorize;
use std::io::Write;

verus! {

/// The ANSI sequence that resets terminal styling.
pub open spec fn reset_seq() -> Seq<char> {
    seq!['\x1b', '[', '0', 'm']
}

/// `s` holds the terminal reset sequence somewhere.
pub open spec fn contains_reset(s: Seq<char>) -> bool {
    exists|i: int| 0 <= i && i + 4 <= s.len() && #[trigger] s.subrange(i, i + 4) == reset_seq()
}

/// The ANSI style sequence with the given codes: `ESC` `[`, the codes,
/// closed by `m`.
pub open spec fn style_seq(codes: Seq<char>) -> Seq<char> {
    seq!['\x1b', '['] + codes + seq!['m']
}

/// The style codes of the dark paint (bright black, code `9 0`) that the
/// timestamp is rendered in.
pub open spec fn dark_codes() -> Seq<char> {
    seq!['9', '0']
}

/// `dec` is `text` painted with exactly the style `codes`: for text free of
/// the reset sequence, `dec` is either `text` verbatim (coloring off) or
/// `style_seq(codes)`, `text`, and the reset sequence, and nothing else.
/// (Text that itself holds a reset sequence is re-styled from the inside, so
/// nothing is stated of it.)
pub open spec fn spec_painted(codes: Seq<char>, text: Seq<char>, dec: Seq<char>) -> bool {
    !contains_reset(text) ==> (dec == text || dec == style_seq(codes) + text + reset_seq())
}

/// `c` is a decimal digit.
pub open spec fn is_digit_char(c: char) -> bool {
    c == '0' || c == '1' || c == '2' || c == '3' || c == '4' || c == '5' || c == '6' || c == '7'
        || c == '8' || c == '9'
}

/// `s` is a rendering of the clock pattern `%Y-%m-%d %H:%M:%S`: a year of
/// width at least four (digits, possibly with a sign), then `-MM-DD
/// HH:MM:SS` with two-digit fields and the fixed separators.
pub open spec fn spec_stamp_shape(s: Seq<char>) -> bool {
    let n = s.len() as int;
    &&& s.len() >= 19
    &&& s[n - 15] == '-' && s[n - 12] == '-' && s[n - 9] == ' ' && s[n - 6] == ':' && s[n - 3]
        == ':'
    &&& forall|i: int|
        n - 14 <= i < n && i != n - 12 && i != n - 9 && i != n - 6 && i != n - 3 ==> is_digit_char(
            #[trigger] s[i],
        )
    &&& forall|i: int|
        0 <= i < n - 15 ==> is_digit_char(#[trigger] s[i]) || s[i] == '+' || s[i] == '-'
}

/// Relies on `colored::Colorize::bright_red` and `ColoredString`'s `Display`
/// impl: the rendered text is the input verbatim (when the environment turns
/// coloring off) or exactly the bright-red style sequence `ESC [ 9 1 m`, the
/// input, and the reset sequence; which of the two depends on the
/// environment, so only that alternative is stated.
#[verifier::external_body]
pub(crate) fn bright_red_text(s: &str) -> (r: String)
    ensures
        spec_painted(seq!['9', '1'], s@, r@),
{
    s.bright_red().to_string()
}

/// Relies on `colored::Colorize::bright_yellow` and `ColoredString`'s
/// `Display` impl, as `bright_red_text` does; the style sequence is
/// `ESC [ 9 3 m`.
#[verifier::external_body]
pub(crate) fn bright_yellow_text(s: &str) -> (r: String)
    ensures
        spec_painted(seq!['9', '3'], s@, r@),
{
    s.bright_yellow().to_string()
}

/// Relies on `colored::Colorize::bright_green` and `ColoredString`'s
/// `Display` impl, as `bright_red_text` does; the style sequence is
/// `ESC [ 9 2 m`.
#[verifier::external_body]
pub(crate) fn bright_green_text(s: &str) -> (r: String)
    ensures
        spec_painted(seq!['9', '2'], s@, r@),
{
    s.bright_green().to_string()
}

/// Relies on `colored::Colorize::bright_black` and `ColoredString`'s
/// `Display` impl, as `bright_red_text` does; the style sequence is
/// `ESC [ 9 0 m`.
#[verifier::external_body]
pub(crate) fn bright_black_text(s: &str) -> (r: String)
    ensures
        spec_painted(seq!['9', '0'], s@, r@),
{
    s.bright_black().to_string()
}

/// Relies on chrono's `Local::now` and `DateTime::format` with the pattern
/// `%Y-%m-%d %H:%M:%S`: the local wall-clock time, at seconds resolution, as
/// `YYYY-MM-DD HH:MM:SS`. The value depends on the clock, so only what every
/// outcome satisfies is stated: the shape of the pattern (digits, signs and
/// the fixed separators, the year at least four digits wide), and that the
/// rendering never holds an escape character, so a stamp never holds a
/// reset sequence.
#[verifier::external_body]
pub(crate) fn now_string() -> (r: String)
    ensures
        spec_stamp_shape(r@),
        forall|i: int| 0 <= i < r@.len() ==> #[trigger] r@[i] != '\x1b',
{
    format!("{}", chrono::Local::now().format("%Y-%m-%d %H:%M:%S"))
}

/// Relies on `std::io::Stdout`'s `Write` impl: prints the line and a newline
/// to standard output. An output error is swallowed: logging must never
/// abort the caller.
#[verifier::external_body]
pub(crate) fn write_standard_line(line: &str) {
    let _ = writeln!(std::io::stdout(), "{}", line);
}

/// Relies on `std::io::Stderr`'s `Write` impl: prints the line and a newline
/// to standard error. An output error is swallowed.
#[verifier::external_body]
pub(crate) fn write_error_line(line: &str) {
    let _ = writeln!(std::io::stderr(), "{}", line);
}

} // verus!
