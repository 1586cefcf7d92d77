//! The language catalog: one language code per line of a text resource.

use vstd::prelude::*;
use vstd::string::*;

verus! {

/// Index of the first line feed in `text`, or `text.len()` if there is none.
pub open spec fn first_line_feed(text: Seq<char>) -> int
    decreases text.len(),
{
    if text.len() == 0 {
        0
    } else if text[0] == '\n' {
        0
    } else {
        1 + first_line_feed(text.drop_first())
    }
}

/// A line without the carriage return that may precede its line feed.
pub open spec fn without_carriage_return(line: Seq<char>) -> Seq<char> {
    if line.len() > 0 && line.last() == '\r' {
        line.drop_last()
    } else {
        line
    }
}

/// The lines of a text. A line ends at a line feed, or at a carriage return
/// directly followed by a line feed; the terminator is not part of the line.
/// The last line need not be terminated, and a terminator at the very end
/// opens no further (empty) line.
pub open spec fn lines_of(text: Seq<char>) -> Seq<Seq<char>>
    decreases text.len(),
{
    let k = first_line_feed(text);
    if text.len() == 0 {
        Seq::empty()
    } else if 0 <= k < text.len() {
        seq![without_carriage_return(text.take(k))] + lines_of(text.skip(k + 1))
    } else {
        seq![text]
    }
}

/// The texts of a sequence of string slices.
pub open spec fn texts(parts: Seq<&str>) -> Seq<Seq<char>> {
    Seq::new(parts.len(), |i: int| parts[i]@)
}

/// `first_line_feed` is the one index `k` such that no line feed stands
/// before `k`, and `k` is the end of the text or holds a line feed.
pub proof fn lemma_first_line_feed(text: Seq<char>, k: int)
    requires
        0 <= k <= text.len(),
        forall|i: int| 0 <= i < k ==> text[i] != '\n',
        k == text.len() || text[k] == '\n',
    ensures
        first_line_feed(text) == k,
    decreases text.len(),
{
    if k > 0 {
        let rest = text.drop_first();
        assert forall|i: int| 0 <= i < k - 1 implies rest[i] != '\n' by {
            assert(rest[i] == text[i + 1]);
        }
        lemma_first_line_feed(rest, k - 1);
    }
}

/// Gets the language codes of the supported languages, in ISO 639-1
/// (two-letter) format, e. g. "en": the lines of the catalog text, in order.
pub fn supported_language_codes<'a>(catalog: &'a str) -> (codes: Vec<&'a str>)
    ensures
        texts(codes@) == lines_of(catalog@),
{
    let n: usize = catalog.unicode_len();
    let mut codes: Vec<&'a str> = Vec::new();
    let mut start: usize = 0;
    let mut i: usize = 0;
    proof {
        assert(catalog@.skip(0) =~= catalog@);
        assert(texts(codes@) + lines_of(catalog@) =~= lines_of(catalog@));
    }
    while i < n
        invariant
            n == catalog@.len(),
            0 <= start <= i <= n,
            forall|j: int| start <= j < i ==> catalog@[j] != '\n',
            texts(codes@) + lines_of(catalog@.skip(start as int)) == lines_of(catalog@),
        decreases n - i,
    {
        let c = catalog.get_char(i);
        if c == '\n' {
            let mut end: usize = i;
            if start < i && catalog.get_char(i - 1) == '\r' {
                end = i - 1;
            }
            let line = catalog.substring_char(start, end);
            proof {
                let rest = catalog@.skip(start as int);
                let k = i - start;
                assert(rest[k] == '\n');
                lemma_first_line_feed(rest, k);
                assert(rest.take(k) == catalog@.subrange(start as int, i as int));
                assert(line@ == without_carriage_return(rest.take(k)));
                assert(rest.skip(k + 1) == catalog@.skip(i + 1));
                assert(texts(codes@.push(line)) == texts(codes@) + seq![line@]);
                assert(texts(codes@) + (seq![line@] + lines_of(rest.skip(k + 1))) == (texts(
                    codes@,
                ) + seq![line@]) + lines_of(rest.skip(k + 1)));
            }
            codes.push(line);
            start = i + 1;
        }
        i = i + 1;
    }
    if start < n {
        let line = catalog.substring_char(start, n);
        proof {
            let rest = catalog@.skip(start as int);
            lemma_first_line_feed(rest, rest.len() as int);
            assert(line@ == rest);
            assert(texts(codes@.push(line)) == texts(codes@) + seq![line@]);
        }
        codes.push(line);
    } else {
        proof {
            assert(lines_of(catalog@.skip(start as int)) == Seq::<Seq<char>>::empty());
            assert(texts(codes@) + Seq::<Seq<char>>::empty() == texts(codes@));
        }
    }
    codes
}

} // verus!
