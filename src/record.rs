use vstd::prelude::*;

verus! {

/// A character with the Unicode property White_Space, as `char::is_whitespace`
/// defines it.
pub open spec fn is_white(c: char) -> bool {
    let u = c as u32;
    ||| 0x09 <= u <= 0x0D
    ||| u == 0x20
    ||| u == 0x85
    ||| u == 0xA0
    ||| u == 0x1680
    ||| 0x2000 <= u <= 0x200A
    ||| u == 0x2028
    ||| u == 0x2029
    ||| u == 0x202F
    ||| u == 0x205F
    ||| u == 0x3000
}

/// The maximal runs of non-white characters of `s` from `start` on, where
/// `s[start..i]` holds none that is white.
pub open spec fn tokens_from(s: Seq<char>, start: int, i: int) -> Seq<Seq<char>>
    decreases s.len() - i,
{
    if i >= s.len() {
        if start < i {
            seq![s.subrange(start, s.len() as int)]
        } else {
            Seq::empty()
        }
    } else if is_white(s[i]) {
        let rest = tokens_from(s, i + 1, i + 1);
        if start < i {
            seq![s.subrange(start, i)] + rest
        } else {
            rest
        }
    } else {
        tokens_from(s, start, i + 1)
    }
}

/// The tokens of a text: its maximal runs of non-white characters, in order.
pub open spec fn whitespace_tokens(s: Seq<char>) -> Seq<Seq<char>> {
    tokens_from(s, 0, 0)
}

/// A line without the carriage return that ends it, if any.
pub open spec fn strip_cr(line: Seq<char>) -> Seq<char> {
    if line.len() > 0 && line.last() == '\r' {
        line.drop_last()
    } else {
        line
    }
}

/// The lines of `s` from `start` on, where `s[start..i]` holds no line feed.
pub open spec fn lines_from(s: Seq<char>, start: int, i: int) -> Seq<Seq<char>>
    decreases s.len() - i,
{
    if i >= s.len() {
        if start < s.len() {
            seq![s.subrange(start, s.len() as int)]
        } else {
            Seq::empty()
        }
    } else if s[i] == '\n' {
        seq![strip_cr(s.subrange(start, i))] + lines_from(s, i + 1, i + 1)
    } else {
        lines_from(s, start, i + 1)
    }
}

/// The lines of a text: the pieces between line feeds, each without a carriage
/// return just before its line feed; a line feed at the very end opens no
/// further line, and the empty text has no lines.
pub open spec fn text_lines(s: Seq<char>) -> Seq<Seq<char>> {
    lines_from(s, 0, 0)
}

/// Relies on `str::split_whitespace`: the maximal runs of non-white characters
/// of `line`, in order.
#[verifier::external_body]
fn split_tokens(line: &str) -> (r: Vec<String>)
    ensures
        r@.len() == whitespace_tokens(line@).len(),
        forall|i: int| 0 <= i < r@.len() ==> #[trigger] r@[i]@ == whitespace_tokens(line@)[i],
{
    line.split_whitespace().map(|w| w.to_string()).collect()
}

/// Relies on `str::lines`: the lines of `text`, split at `\n` or `\r\n`, in
/// order, without their line ends; the last line end is optional.
#[verifier::external_body]
fn split_lines(text: &str) -> (r: Vec<String>)
    ensures
        r@.len() == text_lines(text@).len(),
        forall|i: int| 0 <= i < r@.len() ==> #[trigger] r@[i]@ == text_lines(text@)[i],
{
    text.lines().map(|l| l.to_string()).collect()
}

/// One input line taken apart: the first token is the candidate interval value,
/// the second the candidate annotation. Further tokens play no part.
#[derive(Debug)]
pub struct RawRecord {
    pub value: Option<String>,
    pub annotation: Option<String>,
}

impl RawRecord {
    /// A line with no tokens at all.
    pub open spec fn is_blank(&self) -> bool {
        self.value is None
    }
}

/// Token `i` of `tokens`, where there is one.
pub open spec fn token_at(tokens: Seq<Seq<char>>, i: int) -> Option<Seq<char>> {
    if 0 <= i < tokens.len() {
        Some(tokens[i])
    } else {
        None
    }
}

/// The view of an optional string.
pub open spec fn opt_view(o: Option<String>) -> Option<Seq<char>> {
    match o {
        Some(s) => Some(s@),
        None => None,
    }
}

/// `r` holds the first two tokens of `tokens`.
pub open spec fn holds_tokens(r: RawRecord, tokens: Seq<Seq<char>>) -> bool {
    &&& opt_view(r.value) == token_at(tokens, 0)
    &&& opt_view(r.annotation) == token_at(tokens, 1)
}

/// `r` is the record of the line `line`.
pub open spec fn parsed_from(r: RawRecord, line: Seq<char>) -> bool {
    holds_tokens(r, whitespace_tokens(line))
}

/// Splits a line on whitespace and keeps its first two tokens.
pub fn parse_line(line: &str) -> (r: RawRecord)
    ensures
        parsed_from(r, line@),
{
    let mut tokens = split_tokens(line);
    let n = tokens.len();
    let mut first: Option<String> = None;
    let mut second: Option<String> = None;
    if n >= 2 {
        tokens.truncate(2);
        second = tokens.pop();
        first = tokens.pop();
    } else if n == 1 {
        first = tokens.pop();
    }
    RawRecord { value: first, annotation: second }
}

/// Splits a whole text into lines and parses each of them.
pub fn parse_text(text: &str) -> (r: Vec<RawRecord>)
    ensures
        r@.len() == text_lines(text@).len(),
        forall|i: int| 0 <= i < r@.len() ==> parsed_from(#[trigger] r@[i], text_lines(text@)[i]),
{
    let lines = split_lines(text);
    let mut out: Vec<RawRecord> = Vec::new();
    let mut i: usize = 0;
    while i < lines.len()
        invariant
            i <= lines@.len(),
            lines@.len() == text_lines(text@).len(),
            forall|k: int| 0 <= k < lines@.len() ==> #[trigger] lines@[k]@ == text_lines(text@)[k],
            out@.len() == i,
            forall|k: int| 0 <= k < i ==> parsed_from(#[trigger] out@[k], text_lines(text@)[k]),
        decreases lines@.len() - i,
    {
        let r = parse_line(lines[i].as_str());
        out.push(r);
        i = i + 1;
    }
    out
}

} // verus!
