use vstd::prelude::*;
use vstd::string::StringSliceAdditionalSpecFns;

verus! {

/// Byte value of a line feed.
pub const NEWLINE: u8 = 10;

/// Byte value of a carriage return.
pub const CARRIAGE_RETURN: u8 = 13;

/// A half-open byte range `[offset, offset + len)` into a source text.
#[derive(Clone, Copy, Debug, PartialEq, Eq, Structural)]
pub struct Span {
    pub offset: usize,
    pub len: usize,
}

/// The UTF-8 bytes of a text.
pub open spec fn text_bytes(t: Seq<char>) -> Seq<u8> {
    vstd::utf8::encode_utf8(t)
}

impl Span {
    /// This span, laid over `source`, is exactly its 1-based line `n`,
    /// without the terminator.
    pub open spec fn covers_line(self, source: Seq<char>, n: int) -> bool {
        line_span(text_bytes(source), n, self.offset as int, self.offset + self.len)
    }
}

/// Number of line feeds in `b`.
pub open spec fn count_newlines(b: Seq<u8>) -> nat
    decreases b.len(),
{
    if b.len() == 0 {
        0
    } else {
        count_newlines(b.drop_last()) + if b.last() == NEWLINE {
            1nat
        } else {
            0nat
        }
    }
}

/// Number of lines of `b`, counted as `str::lines` does: every line feed ends
/// a line, and a last line without a terminator counts too.
pub open spec fn line_count(b: Seq<u8>) -> nat {
    if b.len() == 0 {
        0
    } else if b.last() == NEWLINE {
        count_newlines(b)
    } else {
        count_newlines(b) + 1
    }
}

/// `line` is a 1-based line number of the text `source`.
pub open spec fn names_line(source: Seq<char>, line: int) -> bool {
    1 <= line <= line_count(text_bytes(source))
}

/// `start` is where the 1-based line `n` of `b` begins.
pub open spec fn is_line_start(b: Seq<u8>, n: int, start: int) -> bool {
    &&& 0 <= start <= b.len()
    &&& start == 0 || b[start - 1] == NEWLINE
    &&& count_newlines(b.subrange(0, start)) == n - 1
}

/// `b[start..end]` is exactly the 1-based line `n` of `b`, without its
/// terminator (`\n` or `\r\n`).
pub open spec fn line_span(b: Seq<u8>, n: int, start: int, end: int) -> bool {
    &&& is_line_start(b, n, start)
    &&& start <= end <= b.len()
    &&& forall|k: int| start <= k < end ==> b[k] != NEWLINE
    &&& {
        ||| end == b.len()
        ||| b[end] == NEWLINE && !(end > start && b[end - 1] == CARRIAGE_RETURN)
        ||| end + 1 < b.len() && b[end] == CARRIAGE_RETURN && b[end + 1] == NEWLINE
    }
}

proof fn lemma_count_newlines_step(b: Seq<u8>, i: int)
    requires
        0 <= i < b.len(),
    ensures
        count_newlines(b.subrange(0, i + 1)) == count_newlines(b.subrange(0, i)) + if b[i]
            == NEWLINE {
            1nat
        } else {
            0nat
        },
{
    assert(b.subrange(0, i + 1).drop_last() =~= b.subrange(0, i));
}

/// There are no more line feeds, and no more lines, than bytes.
pub proof fn lemma_line_count_bound(b: Seq<u8>)
    ensures
        count_newlines(b) <= b.len(),
        line_count(b) <= b.len(),
    decreases b.len(),
{
    if b.len() > 0 {
        lemma_line_count_bound(b.drop_last());
    }
}

/// The span of the whole 1-based line `line` of `source`, in bytes and
/// without its terminator.
pub fn locate_span(source: &str, line: usize) -> (r: Span)
    requires
        names_line(source@, line as int),
    ensures
        r.covers_line(source@, line as int),
{
    let b = source.as_bytes();
    let n = b.len();
    let ghost bs = source.spec_bytes();
    let mut i: usize = 0;
    let mut seen: usize = 0;
    while seen + 1 < line
        invariant
            b@ == bs,
            n == bs.len(),
            1 <= line <= line_count(bs),
            i <= n,
            seen < line,
            seen == count_newlines(bs.subrange(0, i as int)),
            i == 0 || bs[i - 1] == NEWLINE || seen + 1 < line,
        decreases n - i,
    {
        assert(i < n) by {
            if i == n {
                assert(bs.subrange(0, i as int) =~= bs);
            }
        }
        proof {
            lemma_count_newlines_step(bs, i as int);
        }
        if b[i] == NEWLINE {
            seen = seen + 1;
        }
        i = i + 1;
    }
    let start = i;
    while i < n && b[i] != NEWLINE
        invariant
            b@ == bs,
            n == bs.len(),
            start <= i <= n,
            forall|k: int| start <= k < i ==> bs[k] != NEWLINE,
        decreases n - i,
    {
        i = i + 1;
    }
    let end = if i < n && i > start && b[i - 1] == CARRIAGE_RETURN {
        i - 1
    } else {
        i
    };
    Span { offset: start, len: end - start }
}

/// The number of lines of `source`, counted as `str::lines` does.
pub fn count_lines(source: &str) -> (r: usize)
    ensures
        r == line_count(text_bytes(source@)),
{
    let b = source.as_bytes();
    let n = b.len();
    let ghost bs = source.spec_bytes();
    let mut i: usize = 0;
    let mut seen: usize = 0;
    while i < n
        invariant
            b@ == bs,
            n == bs.len(),
            i <= n,
            seen <= i,
            seen == count_newlines(bs.subrange(0, i as int)),
        decreases n - i,
    {
        proof {
            lemma_count_newlines_step(bs, i as int);
        }
        if b[i] == NEWLINE {
            seen = seen + 1;
        }
        i = i + 1;
    }
    assert(bs.subrange(0, n as int) =~= bs);
    proof {
        lemma_line_count_bound(bs);
    }
    if n == 0 || b[n - 1] == NEWLINE {
        seen
    } else {
        seen + 1
    }
}

} // verus!
