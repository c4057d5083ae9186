//! Text as sequences of characters: exact and ASCII case-insensitive
//! comparison, and the splitting of a text into lines.

use vstd::prelude::*;
use vstd::std_specs::iter::IteratorSpec;

verus! {

/// `String::push` appends the given character to the end of the string.
pub assume_specification[ String::push ](s: &mut String, c: char)
    ensures
        final(s)@ == old(s)@.push(c),
;

/// The texts of a sequence of strings, in their order.
pub open spec fn texts(strings: Seq<String>) -> Seq<Seq<char>> {
    strings.map_values(|s: String| s@)
}

/// The ASCII lower-case form of a character. Characters outside `A`..=`Z`
/// are their own lower-case form.
pub open spec fn fold(c: char) -> char {
    if 'A' <= c && c <= 'Z' {
        ((c as u8) + 32) as char
    } else {
        c
    }
}

/// A text with every character in ASCII lower case.
pub open spec fn folded(s: Seq<char>) -> Seq<char> {
    s.map_values(|c: char| fold(c))
}

/// Two texts are the same up to the case of ASCII letters.
pub open spec fn same_ignoring_case(a: Seq<char>, b: Seq<char>) -> bool {
    folded(a) == folded(b)
}

/// The number of characters before the first line feed, or the length of the
/// text if it holds none.
pub open spec fn line_len(s: Seq<char>) -> nat
    decreases s.len(),
{
    if s.len() == 0 || s[0] == '\n' {
        0
    } else {
        1 + line_len(s.drop_first())
    }
}

/// A line without the carriage return that may end it.
pub open spec fn without_cr(line: Seq<char>) -> Seq<char> {
    if line.len() > 0 && line.last() == '\r' {
        line.drop_last()
    } else {
        line
    }
}

/// The lines of a text. A line ends at a line feed; the line feed and a
/// carriage return directly before it are not part of the line. Text after
/// the last line feed is a line of its own, kept as it is, unless it is empty.
pub open spec fn lines(s: Seq<char>) -> Seq<Seq<char>>
    decreases s.len(),
{
    if s.len() == 0 {
        Seq::empty()
    } else {
        let n = line_len(s) as int;
        if n < s.len() {
            seq![without_cr(s.take(n))] + lines(s.skip(n + 1))
        } else {
            seq![s]
        }
    }
}

/// No character of the text is a line feed.
pub open spec fn no_line_feed(s: Seq<char>) -> bool {
    forall|i: int| 0 <= i < s.len() ==> s[i] != '\n'
}

/// A text without line feed, followed by anything, has its first line end
/// where that text ends.
pub proof fn lemma_line_len_after(cur: Seq<char>, rest: Seq<char>)
    requires
        no_line_feed(cur),
        rest.len() == 0 || rest[0] == '\n',
    ensures
        line_len(cur + rest) == cur.len(),
    decreases cur.len(),
{
    let s = cur + rest;
    if cur.len() == 0 {
        assert(s == rest);
    } else {
        assert(s[0] == cur[0]);
        assert(s.drop_first() == cur.drop_first() + rest);
        assert(no_line_feed(cur.drop_first())) by {
            assert forall|i: int| 0 <= i < cur.drop_first().len() implies cur.drop_first()[i]
                != '\n' by {
                assert(cur.drop_first()[i] == cur[i + 1]);
            }
        }
        lemma_line_len_after(cur.drop_first(), rest);
    }
}

fn fold_char(c: char) -> (r: char)
    ensures
        r == fold(c),
{
    if 'A' <= c && c <= 'Z' {
        ((c as u8) + 32) as char
    } else {
        c
    }
}

/// Compares two texts character by character; with `ignore_case`, after
/// folding each character to ASCII lower case.
fn compare(a: &str, b: &str, ignore_case: bool) -> (r: bool)
    ensures
        ignore_case ==> r == same_ignoring_case(a@, b@),
        !ignore_case ==> r == (a@ == b@),
{
    let mut ia = a.chars();
    let mut ib = b.chars();
    let ghost mut n: int = 0;
    loop
        invariant
            0 <= n <= a@.len(),
            n <= b@.len(),
            ia.remaining() == a@.skip(n),
            ib.remaining() == b@.skip(n),
            folded(a@.take(n)) == folded(b@.take(n)),
            !ignore_case ==> a@.take(n) == b@.take(n),
        decreases a@.len() - n,
    {
        let ca = ia.next();
        let cb = ib.next();
        match (ca, cb) {
            (None, None) => {
                assert(a@.take(n) == a@);
                assert(b@.take(n) == b@);
                return true;
            },
            (Some(x), Some(y)) => {
                let differ = if ignore_case {
                    fold_char(x) != fold_char(y)
                } else {
                    x != y
                };
                if differ {
                    assert(a@[n] == x && b@[n] == y);
                    assert(ignore_case ==> folded(a@)[n] != folded(b@)[n]);
                    return false;
                }
                proof {
                    assert(a@.take(n + 1) == a@.take(n).push(x));
                    assert(b@.take(n + 1) == b@.take(n).push(y));
                    assert(folded(a@.take(n + 1)) == folded(a@.take(n)).push(fold(x)));
                    assert(folded(b@.take(n + 1)) == folded(b@.take(n)).push(fold(y)));
                    assert(a@.skip(n).drop_first() == a@.skip(n + 1));
                    assert(b@.skip(n).drop_first() == b@.skip(n + 1));
                    n = n + 1;
                }
            },
            _ => {
                assert(a@.len() != b@.len());
                assert(folded(a@).len() != folded(b@).len());
                return false;
            },
        }
    }
}

/// Whether two texts hold the same characters.
pub fn same(a: &str, b: &str) -> (r: bool)
    ensures
        r == (a@ == b@),
{
    compare(a, b, false)
}

/// Whether two texts are the same up to the case of ASCII letters.
pub fn eq_ignore_case(a: &str, b: &str) -> (r: bool)
    ensures
        r == same_ignoring_case(a@, b@),
{
    compare(a, b, true)
}

/// The first `n` characters as a string.
fn string_of(chars: &Vec<char>, n: usize) -> (s: String)
    requires
        n <= chars@.len(),
    ensures
        s@ == chars@.take(n as int),
{
    let mut s = String::new();
    let mut i: usize = 0;
    while i < n
        invariant
            i <= n <= chars@.len(),
            s@ == chars@.take(i as int),
        decreases n - i,
    {
        s.push(chars[i]);
        proof {
            assert(chars@.take(i + 1) == chars@.take(i as int).push(chars@[i as int]));
        }
        i += 1;
    }
    s
}

/// Splits a text into its lines.
pub fn split_lines(text: &str) -> (out: Vec<String>)
    ensures
        texts(out@) == lines(text@),
{
    let mut out: Vec<String> = Vec::new();
    let mut cur: Vec<char> = Vec::new();
    let mut it = text.chars();
    let ghost mut done: Seq<Seq<char>> = Seq::empty();
    let ghost mut read: int = 0;
    loop
        invariant
            0 <= read <= text@.len(),
            it.remaining() == text@.skip(read),
            done == texts(out@),
            no_line_feed(cur@),
            lines(text@) == done + lines(cur@ + it.remaining()),
        decreases text@.len() - read,
    {
        let ghost rest = it.remaining();
        match it.next() {
            None => {
                proof {
                    assert(cur@ + rest == cur@);
                    lemma_line_len_after(cur@, Seq::empty());
                    assert(cur@ + Seq::<char>::empty() == cur@);
                }
                if cur.len() > 0 {
                    let line = string_of(&cur, cur.len());
                    proof {
                        assert(cur@.take(cur@.len() as int) == cur@);
                        assert(texts(out@.push(line)) == done.push(cur@));
                        assert(done + seq![cur@] == done.push(cur@));
                    }
                    out.push(line);
                } else {
                    assert(done + Seq::<Seq<char>>::empty() == done);
                }
                return out;
            },
            Some(c) => {
                let ghost tail = rest.drop_first();
                proof {
                    assert(tail == text@.skip(read + 1));
                    read = read + 1;
                }
                if c == '\n' {
                    let n = cur.len();
                    let keep = if n > 0 && cur[n - 1] == '\r' {
                        n - 1
                    } else {
                        n
                    };
                    let line = string_of(&cur, keep);
                    proof {
                        let s = cur@ + rest;
                        lemma_line_len_after(cur@, rest);
                        assert(s.take(n as int) == cur@);
                        assert(s.skip(n as int + 1) == tail);
                        assert(line@ == without_cr(cur@));
                        assert(texts(out@.push(line)) == done.push(line@));
                        assert(done + (seq![line@] + lines(tail)) == done.push(line@) + lines(
                            tail,
                        ));
                        assert(Seq::<char>::empty() + tail == tail);
                        done = done.push(line@);
                    }
                    out.push(line);
                    cur = Vec::new();
                } else {
                    proof {
                        assert(cur@.push(c) + tail == cur@ + rest);
                    }
                    cur.push(c);
                }
            },
        }
    }
}

} // verus!
