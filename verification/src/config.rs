//! The config file: plain text, one value on each line.

use vstd::prelude::*;
use vstd::string::*;
use vstd::utf8::{decode_utf8, valid_utf8};
use crate::failure::{status_of, Failure};
use crate::text::{from_utf8, texts};

verus! {

/// The number of characters that stand before the first line feed of
/// `text`: all of them where it has none.
pub open spec fn line_length(text: Seq<char>) -> nat
    decreases text.len(),
{
    if text.len() == 0 || text.first() == '\n' {
        0
    } else {
        1 + line_length(text.drop_first())
    }
}

/// `line` without the carriage return at its end, if it has one.
pub open spec fn without_return(line: Seq<char>) -> Seq<char> {
    if line.len() > 0 && line.last() == '\r' {
        line.drop_last()
    } else {
        line
    }
}

/// The lines of `text`, without their terminators. A line ends with a line
/// feed, or with a carriage return and a line feed; the last line may do
/// without. A carriage return that no line feed follows belongs to its line.
pub open spec fn lines_of(text: Seq<char>) -> Seq<Seq<char>>
    decreases text.len(),
{
    let n = line_length(text) as int;
    if text.len() == 0 {
        Seq::empty()
    } else if n >= text.len() {
        seq![text]
    } else {
        seq![without_return(text.take(n))] + lines_of(text.skip(n + 1))
    }
}

/// Whether `end` is a line terminator.
pub open spec fn is_line_end(end: Seq<char>) -> bool {
    end == seq!['\n'] || end == seq!['\r', '\n']
}

/// Whether `line`, written before the terminator `end`, is the whole of what
/// stands on that line: it holds no line feed, and it does not lend a
/// carriage return to a bare line feed.
pub open spec fn is_line_before(line: Seq<char>, end: Seq<char>) -> bool {
    &&& forall|i: int| 0 <= i < line.len() ==> line[i] != '\n'
    &&& is_line_end(end)
    &&& end == seq!['\n'] ==> without_return(line) == line
}

/// Whether `line` is the whole of a line of a text in which `end` and then
/// `rest` follow it: either `end` is its terminator, or the text ends with
/// the line, which then is not empty and has no terminator.
pub open spec fn is_line_of(line: Seq<char>, end: Seq<char>, rest: Seq<char>) -> bool {
    ||| is_line_before(line, end)
    ||| {
        &&& end.len() == 0
        &&& rest.len() == 0
        &&& line.len() > 0
        &&& forall|i: int| 0 <= i < line.len() ==> line[i] != '\n'
    }
}

/// Where no line feed stands among the first `k` characters, the first line
/// has at least `k` characters, and exactly `k` where a line feed or the end
/// of the text follows them.
pub proof fn lemma_line_length(text: Seq<char>, k: int)
    requires
        0 <= k <= text.len(),
        forall|i: int| 0 <= i < k ==> text[i] != '\n',
    ensures
        line_length(text) >= k,
        k == text.len() || text[k] == '\n' ==> line_length(text) == k,
    decreases k,
{
    if k > 0 {
        let rest = text.drop_first();
        assert forall|i: int| 0 <= i < k - 1 implies rest[i] != '\n' by {
            assert(rest[i] == text[i + 1]);
        }
        lemma_line_length(rest, k - 1);
    }
}

/// A text that begins with a line and its terminator has that line first,
/// and then the lines of what follows.
pub proof fn lemma_first_line(line: Seq<char>, end: Seq<char>, rest: Seq<char>)
    requires
        is_line_before(line, end),
    ensures
        lines_of(line + end + rest) == seq![line] + lines_of(rest),
{
    let text = line + end + rest;
    let n = line.len() + end.len() - 1;
    assert forall|i: int| 0 <= i < n implies text[i] != '\n' by {
        if i < line.len() {
            assert(text[i] == line[i]);
        }
    }
    lemma_line_length(text, n);
    assert(text.skip(n + 1) == rest);
    if end == seq!['\n'] {
        assert(text.take(n) == line);
    } else {
        assert(text.take(n) == line.push('\r'));
        assert(line.push('\r').drop_last() == line);
    }
}

/// A text without a line feed that is not empty is one line.
pub proof fn lemma_last_line(line: Seq<char>)
    requires
        line.len() > 0,
        forall|i: int| 0 <= i < line.len() ==> line[i] != '\n',
    ensures
        lines_of(line) == seq![line],
{
    lemma_line_length(line, line.len() as int);
}

/// A config file with at least two lines gives those two lines first, each
/// without its terminator. The second line may be the last of the file and
/// do without a terminator: then `end_second` and `rest` are empty.
pub proof fn lemma_first_two_lines(
    first: Seq<char>,
    end_first: Seq<char>,
    second: Seq<char>,
    end_second: Seq<char>,
    rest: Seq<char>,
)
    requires
        is_line_before(first, end_first),
        is_line_of(second, end_second, rest),
    ensures
        lines_of(first + end_first + second + end_second + rest).len() >= 2,
        lines_of(first + end_first + second + end_second + rest)[0] == first,
        lines_of(first + end_first + second + end_second + rest)[1] == second,
{
    let tail = second + end_second + rest;
    assert(first + end_first + second + end_second + rest == first + end_first + tail);
    lemma_first_line(first, end_first, tail);
    if is_line_before(second, end_second) {
        lemma_first_line(second, end_second, rest);
    } else {
        lemma_last_line(second);
    }
}

/// Splits `text` into its lines.
pub fn split_lines(text: &str) -> (lines: Vec<String>)
    ensures
        texts(lines@) == lines_of(text@),
{
    let n = text.unicode_len();
    let mut lines: Vec<String> = Vec::new();
    let mut start: usize = 0;
    let mut i: usize = 0;
    let mut after_return = false;
    assert(text@.skip(0) == text@);
    for c in it: text.chars()
        invariant
            n == text@.len(),
            it.seq() == text@,
            i == it.index(),
            start <= i <= n,
            after_return == (start < i && text@[i - 1] == '\r'),
            forall|k: int| start <= k < i ==> text@[k] != '\n',
            lines_of(text@) == texts(lines@) + lines_of(text@.skip(start as int)),
    {
        if c == '\n' {
            let end = if after_return {
                i - 1
            } else {
                i
            };
            let line = text.substring_char(start, end).to_owned();
            proof {
                let rest = text@.skip(start as int);
                let len = i - start;
                lemma_line_length(rest, len);
                assert(rest.take(len) == text@.subrange(start as int, i as int));
                assert(without_return(rest.take(len)) == line@);
                assert(rest.skip(len + 1) == text@.skip(i + 1));
            }
            lines.push(line);
            start = i + 1;
            after_return = false;
        } else {
            after_return = c == '\r';
        }
        i = i + 1;
    }
    if start < n {
        let line = text.substring_char(start, n).to_owned();
        proof {
            let rest = text@.skip(start as int);
            lemma_line_length(rest, rest.len() as int);
            assert(rest == line@);
        }
        lines.push(line);
    }
    lines
}

/// The bytes of the file, where it was read.
pub open spec fn contents_of(config_file: Option<Vec<u8>>) -> Option<Seq<u8>> {
    match config_file {
        Some(bytes) => Some(bytes@),
        None => None,
    }
}

/// The config that a file gives: the lines of its text. A file that could
/// not be opened or read gives none, and neither does one that is no UTF-8
/// text: no empty config stands in for it.
pub open spec fn config_of(config_file: Option<Seq<u8>>) -> Result<Seq<Seq<char>>, Failure> {
    match config_file {
        None => Err(Failure::ConfigUnreadable),
        Some(bytes) => if valid_utf8(bytes) {
            Ok(lines_of(decode_utf8(bytes)))
        } else {
            Err(Failure::ConfigNotText)
        },
    }
}

/// The outcome of reading, with the texts of the lines.
pub open spec fn read_of(r: Result<Vec<String>, Failure>) -> Result<Seq<Seq<char>>, Failure> {
    match r {
        Ok(lines) => Ok(texts(lines@)),
        Err(failure) => Err(failure),
    }
}

/// Reads the config out of its file: the lines of the text, in their order
/// and without their terminators. `config_file` holds the bytes of the file,
/// or `None` where it could not be opened or read. Nothing is trimmed, and no
/// number of lines is asked for.
pub fn read_config(config_file: Option<Vec<u8>>) -> (r: Result<Vec<String>, Failure>)
    ensures
        read_of(r) == config_of(contents_of(config_file)),
{
    let contents = match config_file {
        Some(contents) => contents,
        None => {
            return Err(Failure::ConfigUnreadable);
        },
    };
    match from_utf8(contents) {
        Ok(text) => Ok(split_lines(text.as_str())),
        Err(_) => Err(Failure::ConfigNotText),
    }
}

/// A config file that does not exist, or cannot be read, gives no config:
/// reading ends in a failure, and the status of the run is not zero.
pub proof fn lemma_missing_file_gives_no_config()
    ensures
        config_of(None) == Err::<Seq<Seq<char>>, Failure>(Failure::ConfigUnreadable),
        status_of(Some(Failure::ConfigUnreadable)) != 0,
{
}

/// The text in which each of the lines is written with a line feed after it.
pub open spec fn written(lines: Seq<Seq<char>>) -> Seq<char>
    decreases lines.len(),
{
    if lines.len() == 0 {
        Seq::empty()
    } else {
        lines.first() + seq!['\n'] + written(lines.drop_first())
    }
}

/// Lines that are written out, each with a line feed after it, are read back
/// as they were. This holds of lines without a line feed in them and without
/// a carriage return at their end.
pub proof fn lemma_written_lines_are_read_back(lines: Seq<Seq<char>>)
    requires
        forall|k: int| 0 <= k < lines.len() ==> is_line_before(#[trigger] lines[k], seq!['\n']),
    ensures
        lines_of(written(lines)) == lines,
    decreases lines.len(),
{
    if lines.len() > 0 {
        let rest = lines.drop_first();
        assert forall|k: int| 0 <= k < rest.len() implies is_line_before(
            #[trigger] rest[k],
            seq!['\n'],
        ) by {
            assert(rest[k] == lines[k + 1]);
        }
        lemma_written_lines_are_read_back(rest);
        lemma_first_line(lines.first(), seq!['\n'], written(rest));
        assert(seq![lines.first()] + rest == lines);
    }
}

} // verus!
