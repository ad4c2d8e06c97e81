//! Line-oriented text operations on `str`, each proved against a definition
//! over `Seq<char>`.

use vstd::prelude::*;
use vstd::string::StringExecFns;

verus! {

/// `String::push` of the standard library: the string afterwards is the string
/// before with `c` appended. Trusted, as std documents it.
pub assume_specification[ String::push ](s: &mut String, c: char)
    ensures
        final(s)@ == old(s)@.push(c),
;

/// The views of a sequence of strings, in order.
pub open spec fn texts(v: Seq<String>) -> Seq<Seq<char>> {
    v.map_values(|s: String| s@)
}

/// The view of a string that may not be there.
pub open spec fn optional_text(s: Option<String>) -> Option<Seq<char>> {
    match s {
        Some(s) => Some(s@),
        None => None,
    }
}

/// The characters with the Unicode property `White_Space`.
pub open spec fn is_whitespace(c: char) -> bool {
    let u = c as u32;
    ||| 0x09 <= u <= 0x0D
    ||| u == 0x20
    ||| u == 0x85
    ||| u == 0xA0
    ||| u == 0x1680
    ||| 0x2000 <= u <= 0x200A
    ||| u == 0x2028
    ||| u == 0x2029
    ||| u == 0x202F
    ||| u == 0x205F
    ||| u == 0x3000
}

/// Tells whether `c` is a whitespace character.
pub fn char_is_whitespace(c: char) -> (b: bool)
    ensures
        b == is_whitespace(c),
{
    let u: u32 = c as u32;
    (0x09 <= u && u <= 0x0D) || u == 0x20 || u == 0x85 || u == 0xA0 || u == 0x1680 || (0x2000 <= u
        && u <= 0x200A) || u == 0x2028 || u == 0x2029 || u == 0x202F || u == 0x205F || u == 0x3000
}

/// `s` holds no line feed.
pub open spec fn no_newline(s: Seq<char>) -> bool {
    forall|i: int| 0 <= i < s.len() ==> s[i] != '\n'
}

/// The index of the first line feed in `s`, or `s.len()` where there is none.
pub open spec fn line_end(s: Seq<char>) -> int
    decreases s.len(),
{
    if s.len() == 0 || s[0] == '\n' {
        0
    } else {
        1 + line_end(s.drop_first())
    }
}

/// `line` without one trailing carriage return, if it has one.
pub open spec fn strip_cr(line: Seq<char>) -> Seq<char> {
    if line.len() > 0 && line.last() == '\r' {
        line.drop_last()
    } else {
        line
    }
}

/// The lines of `s`. A line ends at a line feed, or at a carriage return
/// directly followed by a line feed; neither belongs to the line. What follows
/// the last line feed is a line of its own unless it is empty, and keeps a
/// carriage return at its end.
pub open spec fn split_lines(s: Seq<char>) -> Seq<Seq<char>>
    decreases s.len(),
{
    if s.len() == 0 {
        Seq::empty()
    } else {
        let n = line_end(s);
        if 0 <= n < s.len() {
            seq![strip_cr(s.take(n))] + split_lines(s.skip(n + 1))
        } else {
            seq![s]
        }
    }
}

/// Before its first line feed, a text's first line goes on.
pub proof fn lemma_line_end_after_prefix(a: Seq<char>, b: Seq<char>)
    requires
        no_newline(a),
    ensures
        line_end(a + b) == a.len() + line_end(b),
    decreases a.len(),
{
    if a.len() == 0 {
        assert(a + b =~= b);
    } else {
        assert((a + b)[0] == a[0]);
        assert((a + b).drop_first() =~= a.drop_first() + b);
        assert(no_newline(a.drop_first())) by {
            assert forall|i: int| 0 <= i < a.drop_first().len() implies a.drop_first()[i]
                != '\n' by {
                assert(a.drop_first()[i] == a[i + 1]);
            }
        }
        lemma_line_end_after_prefix(a.drop_first(), b);
    }
}

/// The lines of a text whose first line is `a`, followed by a line feed and `b`.
pub proof fn lemma_split_lines_first(a: Seq<char>, b: Seq<char>)
    requires
        no_newline(a),
    ensures
        split_lines(a + seq!['\n'] + b) == seq![strip_cr(a)] + split_lines(b),
{
    let s = a + seq!['\n'] + b;
    let tail = seq!['\n'] + b;
    assert(s =~= a + tail);
    lemma_line_end_after_prefix(a, tail);
    assert(line_end(tail) == 0);
    assert(s.take(a.len() as int) =~= a);
    assert(s.skip(a.len() as int + 1) =~= b);
}

/// A text without a line feed is one line, or none where it is empty.
pub proof fn lemma_split_lines_last(a: Seq<char>)
    requires
        no_newline(a),
    ensures
        split_lines(a) == if a.len() == 0 {
            Seq::<Seq<char>>::empty()
        } else {
            seq![a]
        },
{
    assert(a + Seq::<char>::empty() =~= a);
    lemma_line_end_after_prefix(a, Seq::empty());
}

/// Splits `s` into its lines.
pub fn lines(s: &str) -> (out: Vec<String>)
    ensures
        texts(out@) == split_lines(s@),
{
    let mut out: Vec<String> = Vec::new();
    let mut cur = String::new();
    // A carriage return that was read and not yet put into `cur`: it is left
    // out if the line ends right after it.
    let mut held_cr = false;
    let ghost mut start: int = 0;
    proof {
        assert(s@.skip(0) =~= s@);
        assert(texts(out@) + split_lines(s@) =~= split_lines(s@));
    }
    for c in it: s.chars()
        invariant
            it.seq() == s@,
            0 <= start <= it.index() <= s@.len(),
            (if held_cr {
                cur@.push('\r')
            } else {
                cur@
            }) == s@.subrange(start, it.index() as int),
            no_newline(s@.subrange(start, it.index() as int)),
            !held_cr ==> cur@.len() == 0 || cur@.last() != '\r',
            split_lines(s@) == texts(out@) + split_lines(s@.skip(start)),
    {
        let ghost i = it.index() as int;
        let ghost line = s@.subrange(start, i);
        if c == '\n' {
            proof {
                assert(s@.skip(start) =~= line + seq!['\n'] + s@.skip(i + 1));
                lemma_split_lines_first(line, s@.skip(i + 1));
                assert(strip_cr(line) =~= cur@);
                assert(texts(out@.push(cur)) =~= texts(out@) + seq![cur@]);
                start = i + 1;
                assert(s@.subrange(start, i + 1) =~= Seq::<char>::empty());
            }
            out.push(cur);
            cur = String::new();
            held_cr = false;
        } else {
            if held_cr {
                cur.push('\r');
            }
            if c == '\r' {
                held_cr = true;
            } else {
                cur.push(c);
                held_cr = false;
            }
            proof {
                assert(s@.subrange(start, i + 1) =~= line.push(c));
            }
        }
    }
    if held_cr {
        cur.push('\r');
    }
    proof {
        let line = s@.subrange(start, s@.len() as int);
        assert(s@.skip(start) =~= line);
        lemma_split_lines_last(line);
        assert(cur@ =~= line);
    }
    if !cur.as_str().is_empty() {
        proof {
            assert(texts(out@.push(cur)) =~= texts(out@) + seq![cur@]);
        }
        out.push(cur);
    } else {
        assert(texts(out@) + Seq::<Seq<char>>::empty() =~= texts(out@));
    }
    out
}

/// `s` without the whitespace at its end.
pub open spec fn trimmed_end(s: Seq<char>) -> Seq<char>
    decreases s.len(),
{
    if s.len() > 0 && is_whitespace(s.last()) {
        trimmed_end(s.drop_last())
    } else {
        s
    }
}

/// Whitespace after a text that does not end in whitespace is all that
/// trimming takes away.
pub proof fn lemma_trimmed_end_of_padded(kept: Seq<char>, pad: Seq<char>)
    requires
        kept.len() == 0 || !is_whitespace(kept.last()),
        forall|i: int| 0 <= i < pad.len() ==> is_whitespace(#[trigger] pad[i]),
    ensures
        trimmed_end(kept + pad) == kept,
    decreases pad.len(),
{
    if pad.len() == 0 {
        assert(kept + pad =~= kept);
    } else {
        assert((kept + pad).last() == pad.last());
        assert((kept + pad).drop_last() =~= kept + pad.drop_last());
        lemma_trimmed_end_of_padded(kept, pad.drop_last());
    }
}

/// Copies `s` without the whitespace at its end.
pub fn trim_end(s: &str) -> (out: String)
    ensures
        out@ == trimmed_end(s@),
{
    let mut out = String::new();
    // The whitespace read since the last character that is none.
    let mut pad = String::new();
    for c in it: s.chars()
        invariant
            it.seq() == s@,
            out@ + pad@ == s@.take(it.index() as int),
            out@.len() == 0 || !is_whitespace(out@.last()),
            forall|i: int| 0 <= i < pad@.len() ==> is_whitespace(#[trigger] pad@[i]),
    {
        let ghost i = it.index() as int;
        if char_is_whitespace(c) {
            pad.push(c);
            assert(out@ + pad@ =~= s@.take(i).push(c));
        } else {
            out.append(pad.as_str());
            out.push(c);
            pad = String::new();
            assert(out@ + pad@ =~= s@.take(i).push(c));
        }
        assert(s@.take(i + 1) =~= s@.take(i).push(c));
    }
    proof {
        assert(s@.take(s@.len() as int) =~= s@);
        lemma_trimmed_end_of_padded(out@, pad@);
    }
    out
}

/// The lines, with one line feed between each two.
pub open spec fn joined(lines: Seq<Seq<char>>) -> Seq<char>
    decreases lines.len(),
{
    if lines.len() == 0 {
        Seq::empty()
    } else if lines.len() == 1 {
        lines[0]
    } else {
        joined(lines.drop_last()) + seq!['\n'] + lines.last()
    }
}

/// Joins the first `n` of the lines by line feeds.
pub fn join(lines: &Vec<String>, n: usize) -> (out: String)
    requires
        n <= lines.len(),
    ensures
        out@ == joined(texts(lines@).take(n as int)),
{
    let mut out = String::new();
    let mut i: usize = 0;
    while i < n
        invariant
            i <= n <= lines.len(),
            out@ == joined(texts(lines@).take(i as int)),
        decreases n - i,
    {
        proof {
            let next = texts(lines@).take(i + 1);
            assert(next.drop_last() =~= texts(lines@).take(i as int));
            assert(next.last() == lines@[i as int]@);
            reveal_strlit("\n");
            assert("\n"@ =~= seq!['\n']);
            assert(Seq::<char>::empty() + lines@[i as int]@ =~= lines@[i as int]@);
        }
        if i > 0 {
            out.append("\n");
        }
        out.append(lines[i].as_str());
        i += 1;
    }
    out
}

} // verus!
