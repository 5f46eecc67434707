//! Log messages on standard error, framing those of several lines.
use vstd::prelude::*;
use vstd::string::*;

use crate::failure::SauceError;
use crate::logger::Logger;
use crate::process::strings_view;

verus! {

/// A line without the carriage return that ends it, if any.
pub open spec fn without_cr(line: Seq<char>) -> Seq<char> {
    if line.len() > 0 && line.last() == '\r' {
        line.drop_last()
    } else {
        line
    }
}

/// Reading `s` from the start: the lines ended so far, each without its
/// line ending, and the line begun after the last line break.
pub open spec fn scan_lines(s: Seq<char>) -> (Seq<Seq<char>>, Seq<char>)
    decreases s.len(),
{
    if s.len() == 0 {
        (Seq::empty(), Seq::empty())
    } else {
        let (done, current) = scan_lines(s.drop_last());
        if s.last() == '\n' {
            (done.push(without_cr(current)), Seq::empty())
        } else {
            (done, current.push(s.last()))
        }
    }
}

/// The lines of a text, as `str::lines` splits it: at each line break, with
/// a carriage return before the break dropped; a last line without a break
/// counts, an empty one after a final break does not.
pub open spec fn lines_of(s: Seq<char>) -> Seq<Seq<char>> {
    let (done, current) = scan_lines(s);
    if current.len() == 0 {
        done
    } else {
        done.push(current)
    }
}

/// Splits a text into lines, as `lines_of` states.
pub fn split_lines(message: &str) -> (r: Vec<String>)
    ensures
        strings_view(r@) == lines_of(message@),
{
    let n = message.unicode_len();
    let mut done: Vec<String> = Vec::new();
    let mut start: usize = 0;
    let mut i: usize = 0;
    while i < n
        invariant
            n == message@.len(),
            start <= i <= n,
            scan_lines(message@.subrange(0, i as int)) == (
                strings_view(done@),
                message@.subrange(start as int, i as int),
            ),
        decreases n - i,
    {
        let ghost before = message@.subrange(0, i as int);
        assert(message@.subrange(0, i + 1).drop_last() =~= before);
        let c = message.get_char(i);
        if c == '\n' {
            let end = if i > start && message.get_char(i - 1) == '\r' {
                i - 1
            } else {
                i
            };
            let line = message.substring_char(start, end);
            assert(line@ =~= without_cr(message@.subrange(start as int, i as int)));
            let ghost old_done = done@;
            done.push(String::from_str(line));
            assert(strings_view(done@) =~= strings_view(old_done).push(line@));
            start = i + 1;
        }
        i = i + 1;
        assert(message@.subrange(start as int, i as int) =~= scan_lines(
            message@.subrange(0, i as int),
        ).1);
    }
    assert(message@.subrange(0, n as int) =~= message@);
    if start < n {
        let line = message.substring_char(start, n);
        let ghost old_done = done@;
        done.push(String::from_str(line));
        assert(strings_view(done@) =~= strings_view(old_done).push(line@));
    }
    done
}

/// The rule above a message of several lines.
pub open spec fn top_rule() -> Seq<char> {
    Seq::new(51, |i: int| '~') + seq!['\n']
}

/// The rule below a message of several lines.
pub open spec fn bottom_rule() -> Seq<char> {
    Seq::new(52, |i: int| '~')
}

/// The lines written for a message of `lines`: a message of several lines
/// stands between two rules, a message of one line or none stands alone.
pub open spec fn framed(lines: Seq<Seq<char>>) -> Seq<Seq<char>> {
    if lines.len() > 1 {
        seq![top_rule()] + lines + seq![bottom_rule()]
    } else {
        lines
    }
}

/// Writes messages to standard error.
pub struct Log {}

impl Log {
    /// The lines to write for `lines`, as `framed` states.
    pub fn frame(lines: Vec<String>) -> (r: Vec<String>)
        ensures
            strings_view(r@) == framed(strings_view(lines@)),
    {
        if lines.len() <= 1 {
            return lines;
        }
        let mut top = String::new();
        let mut bottom = String::new();
        let mut k: usize = 0;
        while k < 52
            invariant
                k <= 52,
                top@ == Seq::new(if k < 51 { k as nat } else { 51 }, |i: int| '~'),
                bottom@ == Seq::new(k as nat, |i: int| '~'),
            decreases 52 - k,
        {
            proof {
                reveal_strlit("~");
            }
            if k < 51 {
                top.append("~");
            }
            bottom.append("~");
            k = k + 1;
            assert(top@ =~= Seq::new(if k < 51 { k as nat } else { 51 }, |i: int| '~'));
            assert(bottom@ =~= Seq::new(k as nat, |i: int| '~'));
        }
        proof {
            reveal_strlit("\n");
        }
        top.append("\n");
        assert(top@ =~= top_rule());
        let mut r: Vec<String> = Vec::new();
        r.push(top);
        assert(strings_view(r@) =~= seq![top_rule()] + strings_view(lines@.subrange(0, 0)));
        let mut i: usize = 0;
        while i < lines.len()
            invariant
                i <= lines@.len(),
                strings_view(r@) == seq![top_rule()] + strings_view(lines@.subrange(0, i as int)),
            decreases lines@.len() - i,
        {
            let line = lines[i].clone();
            assert(line@ == lines@[i as int]@);
            let ghost before = r@;
            r.push(line);
            assert(r@ == before.push(line));
            assert(strings_view(r@) =~= strings_view(before).push(line@));
            assert(strings_view(lines@.subrange(0, i + 1)) =~= strings_view(
                lines@.subrange(0, i as int),
            ).push(line@));
            i = i + 1;
            assert(strings_view(r@) =~= seq![top_rule()] + strings_view(
                lines@.subrange(0, i as int),
            ));
        }
        r.push(bottom);
        assert(lines@.subrange(0, lines@.len() as int) =~= lines@);
        assert(strings_view(r@) =~= framed(strings_view(lines@)));
        r
    }

    /// The lines written for `message`: its lines, framed as `framed` states.
    pub fn framed_lines(message: &str) -> (r: Vec<String>)
        ensures
            strings_view(r@) == framed(lines_of(message@)),
    {
        Log::frame(split_lines(message))
    }

    /// Writes the message line by line, framed as `framed_lines` states.
    pub fn info(message: &str) {
        let lines = Log::framed_lines(message);
        let mut i: usize = 0;
        while i < lines.len()
            invariant
                i <= lines@.len(),
            decreases lines@.len() - i,
        {
            Logger::info(lines[i].as_str());
            i = i + 1;
        }
    }

    /// Writes an error, under the error that caused it if any, as
    /// `Logger::error` does.
    pub fn error(message: &str, original_error: Option<SauceError>) {
        Logger::error(message, original_error);
    }
}

} // verus!
