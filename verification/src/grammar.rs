//! Which of the two line grammars applies to a file.

use vstd::prelude::*;
use vstd::string::*;

verus! {

/// The log format that the worker is configured with.
#[derive(Clone, Copy, Debug, PartialEq, Eq)]
pub enum LogFormat {
    /// Every file holds JSON lines.
    Json,
    /// Every file holds free-text audit lines.
    Text,
    /// Each file is judged by its first line.
    Auto,
}

/// The grammar by which the lines of one file are read.
#[derive(Clone, Copy, Debug, PartialEq, Eq)]
pub enum Grammar {
    Json,
    Text,
}

/// White space as Unicode defines it (the property `White_Space`).
pub open spec fn is_white_space(c: char) -> bool {
    let code = c as u32;
    ||| 0x09 <= code <= 0x0D
    ||| code == 0x20
    ||| code == 0x85
    ||| code == 0xA0
    ||| code == 0x1680
    ||| 0x2000 <= code <= 0x200A
    ||| code == 0x2028
    ||| code == 0x2029
    ||| code == 0x202F
    ||| code == 0x205F
    ||| code == 0x3000
}

/// The first character of `text` from position `from` on that is not white
/// space, if there is one.
pub open spec fn first_visible_from(text: Seq<char>, from: int) -> Option<char>
    decreases text.len() - from,
{
    if from < 0 || from >= text.len() {
        None
    } else if is_white_space(text[from]) {
        first_visible_from(text, from + 1)
    } else {
        Some(text[from])
    }
}

/// The grammar that the first line of a file suggests: JSON when the line,
/// leading white space aside, starts with an opening brace, and text
/// otherwise. An empty or blank line suggests text.
pub open spec fn sniffed(first_line: Seq<char>) -> Grammar {
    if first_visible_from(first_line, 0) == Some('{') {
        Grammar::Json
    } else {
        Grammar::Text
    }
}

/// The grammar for a file with the given first line under the configured
/// format: the configured one where it is fixed, the sniffed one otherwise.
pub open spec fn detected(first_line: Seq<char>, mode: LogFormat) -> Grammar {
    match mode {
        LogFormat::Json => Grammar::Json,
        LogFormat::Text => Grammar::Text,
        LogFormat::Auto => sniffed(first_line),
    }
}

/// Whether `c` is white space.
pub fn white_space(c: char) -> (b: bool)
    ensures
        b == is_white_space(c),
{
    let code = c as u32;
    (0x09 <= code && code <= 0x0D) || code == 0x20 || code == 0x85 || code == 0xA0 || code
        == 0x1680 || (0x2000 <= code && code <= 0x200A) || code == 0x2028 || code == 0x2029 || code
        == 0x202F || code == 0x205F || code == 0x3000
}

/// Judges a file by its first line.
pub fn sniff(first_line: &str) -> (g: Grammar)
    ensures
        g == sniffed(first_line@),
{
    let n = first_line.unicode_len();
    let mut i: usize = 0;
    while i < n
        invariant
            n == first_line@.len(),
            i <= n,
            first_visible_from(first_line@, 0) == first_visible_from(first_line@, i as int),
        decreases n - i,
    {
        let c = first_line.get_char(i);
        if !white_space(c) {
            return if c == '{' {
                Grammar::Json
            } else {
                Grammar::Text
            };
        }
        i += 1;
    }
    Grammar::Text
}

/// Decides the grammar of a file from its first line and the configured
/// format. A file without lines is given the empty first line.
pub fn detect(first_line: &str, mode: LogFormat) -> (g: Grammar)
    ensures
        g == detected(first_line@, mode),
{
    match mode {
        LogFormat::Json => Grammar::Json,
        LogFormat::Text => Grammar::Text,
        LogFormat::Auto => sniff(first_line),
    }
}

} // verus!
