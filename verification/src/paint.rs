//! Terminal colorization and the clock reading for event lines. Each
//! color helper's output shape is pinned down exactly: an ANSI foreground
//! escape, the text unchanged, then the default-foreground escape.
#![allow(unused_imports)]

use vstd::prelude::*;

verus! {

/// The ANSI escape that returns the foreground to its default color.
pub open spec fn fg_default() -> Seq<char> {
    seq!['\u{1b}', '[', '3', '9', 'm']
}

/// Text colored bright black (ANSI foreground 90).
pub open spec fn bright_black_text(s: Seq<char>) -> Seq<char> {
    seq!['\u{1b}', '[', '9', '0', 'm'] + s + fg_default()
}

/// Text colored bright yellow (ANSI foreground 93).
pub open spec fn bright_yellow_text(s: Seq<char>) -> Seq<char> {
    seq!['\u{1b}', '[', '9', '3', 'm'] + s + fg_default()
}

/// Text colored bright purple (ANSI foreground 95).
pub open spec fn bright_purple_text(s: Seq<char>) -> Seq<char> {
    seq!['\u{1b}', '[', '9', '5', 'm'] + s + fg_default()
}

/// Relies on owo_colors' OwoColorize::bright_black on str: its Display
/// writes `ESC[90m`, the text unchanged, then `ESC[39m`.
#[verifier::external_body]
pub fn paint_bright_black(s: &str) -> (r: String)
    ensures
        r@ == bright_black_text(s@),
{
    format!("{}", owo_colors::OwoColorize::bright_black(&s))
}

/// Relies on owo_colors' OwoColorize::bright_yellow on str: its Display
/// writes `ESC[93m`, the text unchanged, then `ESC[39m`.
#[verifier::external_body]
pub fn paint_bright_yellow(s: &str) -> (r: String)
    ensures
        r@ == bright_yellow_text(s@),
{
    format!("{}", owo_colors::OwoColorize::bright_yellow(&s))
}

/// Relies on owo_colors' OwoColorize::bright_purple on str: its Display
/// writes `ESC[95m` (bright magenta), the text unchanged, then `ESC[39m`.
#[verifier::external_body]
pub fn paint_bright_purple(s: &str) -> (r: String)
    ensures
        r@ == bright_purple_text(s@),
{
    format!("{}", owo_colors::OwoColorize::bright_purple(&s))
}

/// Relies on colored_json::to_colored_json_auto: pretty-prints a JSON
/// value, syntax-colored when standard output is a terminal and plain
/// otherwise. The result depends on that environment, so nothing is
/// stated of it beyond the error side being the formatter's message.
#[verifier::external_body]
pub fn colored_json_text(v: &serde_json::Value) -> Result<String, String> {
    colored_json::to_colored_json_auto(v).map_err(|e| e.to_string())
}

/// The shape every clock reading has: `HH:MM:SS.mmm`, twelve characters,
/// all digits but for two colons and one dot. In particular it holds no
/// line break.
pub open spec fn spec_clock_shape(c: Seq<char>) -> bool {
    &&& c.len() == 12
    &&& c[2] == ':'
    &&& c[5] == ':'
    &&& c[8] == '.'
    &&& forall|i: int| 0 <= i < 12 && i != 2 && i != 5 && i != 8 ==> ('0' <= c[i] && c[i] <= '9')
}

/// Relies on chrono's Utc::now and its `%H:%M:%S%.3f` formatter: the
/// current wall clock as text. Which instant is read depends on the
/// clock, so only the shape — two-digit hour, minute and second (60 on a
/// leap second) and three fraction digits — is stated: it holds of every
/// outcome.
#[verifier::external_body]
pub fn clock_text() -> (r: String)
    ensures
        spec_clock_shape(r@),
{
    format!("{}", chrono::Utc::now().format("%H:%M:%S%.3f"))
}

} // verus!
