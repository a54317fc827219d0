//! Fenced code blocks in an answer, and the code that is taken from them.
//!
//! A block opens at a run of three backticks. The rest of that line is the
//! block's tag and is dropped. The body runs from the next line up to the
//! next run of three backticks; one line break directly before the closing
//! run belongs to the fence, not to the body.

use crate::text::chars_of;
use vstd::prelude::*;
use vstd::string::StringExecFns;
use vstd::string::StrSliceExecFns;

verus! {

/// Whether three backticks start at index `i` of `t`.
pub open spec fn is_fence_at(t: Seq<char>, i: int) -> bool {
    &&& 0 <= i
    &&& i + 3 <= t.len()
    &&& t[i] == '`'
    &&& t[i + 1] == '`'
    &&& t[i + 2] == '`'
}

/// The first index at or after `from` where a fence starts; `t.len()` if there
/// is none.
pub open spec fn next_fence(t: Seq<char>, from: int) -> int
    decreases t.len() - from,
{
    if from < 0 || from >= t.len() {
        t.len() as int
    } else if is_fence_at(t, from) {
        from
    } else {
        next_fence(t, from + 1)
    }
}

/// The first index at or after `from` that holds a line break; `t.len()` if
/// there is none.
pub open spec fn next_newline(t: Seq<char>, from: int) -> int
    decreases t.len() - from,
{
    if from < 0 || from >= t.len() {
        t.len() as int
    } else if t[from] == '\n' {
        from
    } else {
        next_newline(t, from + 1)
    }
}

/// `next_fence` finds a fence, and the first one.
pub proof fn lemma_next_fence(t: Seq<char>, from: int)
    requires
        0 <= from,
    ensures
        from <= next_fence(t, from) || t.len() < from,
        next_fence(t, from) <= t.len(),
        next_fence(t, from) < t.len() ==> is_fence_at(t, next_fence(t, from)),
        forall|i: int| from <= i < next_fence(t, from) ==> !is_fence_at(t, i),
    decreases t.len() - from,
{
    if from < t.len() && !is_fence_at(t, from) {
        lemma_next_fence(t, from + 1);
    }
}

/// `next_newline` finds a line break, and the first one.
pub proof fn lemma_next_newline(t: Seq<char>, from: int)
    requires
        0 <= from,
    ensures
        from <= next_newline(t, from) || t.len() < from,
        next_newline(t, from) <= t.len(),
        next_newline(t, from) < t.len() ==> t[next_newline(t, from)] == '\n',
        forall|i: int| from <= i < next_newline(t, from) ==> t[i] != '\n',
    decreases t.len() - from,
{
    if from < t.len() && t[from] != '\n' {
        lemma_next_newline(t, from + 1);
    }
}

/// A fence with no fence between `from` and it is the next one from `from`.
pub proof fn lemma_fence_is_next(t: Seq<char>, from: int, at: int)
    requires
        0 <= from <= at,
        is_fence_at(t, at),
        forall|i: int| from <= i < at ==> !is_fence_at(t, i),
    ensures
        next_fence(t, from) == at,
    decreases at - from,
{
    if from < at {
        lemma_fence_is_next(t, from + 1, at);
    }
}

/// A line break with no line break between `from` and it is the next one
/// from `from`.
pub proof fn lemma_newline_is_next(t: Seq<char>, from: int, at: int)
    requires
        0 <= from <= at < t.len(),
        t[at] == '\n',
        forall|i: int| from <= i < at ==> t[i] != '\n',
    ensures
        next_newline(t, from) == at,
    decreases at - from,
{
    if from < at {
        lemma_newline_is_next(t, from + 1, at);
    }
}

/// Where no fence starts at or after `from`, none is found from there.
pub proof fn lemma_no_fence_from(t: Seq<char>, from: int)
    requires
        0 <= from,
        forall|i: int| from <= i ==> !is_fence_at(t, i),
    ensures
        next_fence(t, from) == t.len(),
    decreases t.len() - from,
{
    if from < t.len() {
        lemma_no_fence_from(t, from + 1);
    }
}

/// The index of the first fence at or after `from`, or the length of `t`.
fn find_fence(t: &Vec<char>, from: usize) -> (at: usize)
    ensures
        at == next_fence(t@, from as int),
        at <= t.len(),
        from <= at || t.len() < from,
{
    let n = t.len();
    let mut i = from;
    while i < n
        invariant
            n == t.len(),
            from <= i,
            next_fence(t@, from as int) == next_fence(t@, i as int),
        decreases n - i,
    {
        if n - i >= 3 && t[i] == '`' && t[i + 1] == '`' && t[i + 2] == '`' {
            return i;
        }
        i += 1;
    }
    n
}

/// The index of the first line break at or after `from`, or the length of `t`.
fn find_newline(t: &Vec<char>, from: usize) -> (at: usize)
    ensures
        at == next_newline(t@, from as int),
        at <= t.len(),
        from <= at || t.len() < from,
{
    let n = t.len();
    let mut i = from;
    while i < n
        invariant
            n == t.len(),
            from <= i,
            next_newline(t@, from as int) == next_newline(t@, i as int),
        decreases n - i,
    {
        if t[i] == '\n' {
            return i;
        }
        i += 1;
    }
    n
}

/// The body between `start` and the closing fence at `close`: the characters
/// in between, without one line break at the end.
pub open spec fn block_body(t: Seq<char>, start: int, close: int) -> Seq<char> {
    let raw = t.subrange(start, close);
    if raw.len() > 0 && raw.last() == '\n' {
        raw.drop_last()
    } else {
        raw
    }
}

/// The bodies of the fenced blocks that open at or after `from`, in order.
/// A fence whose line never ends, or that is never closed, opens no block.
pub open spec fn blocks_from(t: Seq<char>, from: int) -> Seq<Seq<char>>
    decreases t.len() - from,
{
    let open = next_fence(t, from);
    let line_end = next_newline(t, open + 3);
    let close = next_fence(t, line_end + 1);
    if 0 <= from <= open < line_end < close && close + 3 <= t.len() {
        seq![block_body(t, line_end + 1, close)] + blocks_from(t, close + 3)
    } else {
        Seq::empty()
    }
}

/// The bodies of all fenced blocks of `t`, in order of appearance.
pub open spec fn blocks_of(t: Seq<char>) -> Seq<Seq<char>> {
    blocks_from(t, 0)
}

/// The blocks joined by single line breaks.
pub open spec fn join_lines(blocks: Seq<Seq<char>>) -> Seq<char>
    decreases blocks.len(),
{
    if blocks.len() == 0 {
        Seq::empty()
    } else if blocks.len() == 1 {
        blocks[0]
    } else {
        join_lines(blocks.drop_last()) + seq!['\n'] + blocks.last()
    }
}

/// The code taken from an answer: its blocks joined by line breaks, or the
/// whole answer where it has no block.
pub open spec fn extracted(t: Seq<char>) -> Seq<char> {
    if blocks_of(t).len() == 0 {
        t
    } else {
        join_lines(blocks_of(t))
    }
}

/// The views of a sequence of strings.
pub open spec fn views(v: Seq<String>) -> Seq<Seq<char>> {
    Seq::new(v.len(), |i: int| v[i]@)
}

/// All fenced blocks of `text`, in order of appearance.
pub fn extract_rust_codes(text: &str) -> (blocks: Vec<String>)
    ensures
        views(blocks@) == blocks_of(text@),
{
    let chars = chars_of(text);
    let n = chars.len();
    let mut blocks: Vec<String> = Vec::new();
    let mut pos: usize = 0;
    loop
        invariant
            chars@ == text@,
            n == chars.len(),
            pos <= n,
            blocks_of(text@) == views(blocks@) + blocks_from(text@, pos as int),
        ensures
            views(blocks@) == blocks_of(text@),
        decreases n - pos,
    {
        let open = find_fence(&chars, pos);
        if open >= n || n - open < 3 {
            break;
        }
        let line_end = find_newline(&chars, open + 3);
        if line_end >= n {
            break;
        }
        let start = line_end + 1;
        let close = find_fence(&chars, start);
        if close >= n || n - close < 3 {
            break;
        }
        let end = if close > start && chars[close - 1] == '\n' {
            close - 1
        } else {
            close
        };
        let body = text.substring_char(start, end).to_owned();
        assert(body@ == block_body(text@, start as int, close as int));
        let ghost before = views(blocks@);
        blocks.push(body);
        assert(views(blocks@) == before + seq![body@]);
        pos = close + 3;
    }
    blocks
}

/// The code of an answer: its fenced blocks joined by line breaks, or, where
/// it has none, the answer itself.
pub fn extract_code_blocks(text: &str) -> (code: String)
    ensures
        code@ == extracted(text@),
{
    let blocks = extract_rust_codes(text);
    if blocks.len() == 0 {
        return text.to_owned();
    }
    let mut code: String = blocks[0].clone();
    let mut i: usize = 1;
    assert(views(blocks@).take(1) == seq![blocks[0]@]);
    while i < blocks.len()
        invariant
            1 <= i <= blocks.len(),
            code@ == join_lines(views(blocks@).take(i as int)),
        decreases blocks.len() - i,
    {
        proof {
            reveal_strlit("\n");
            let next = views(blocks@).take(i + 1);
            assert(next.drop_last() == views(blocks@).take(i as int));
            assert(next.last() == blocks[i as int]@);
            assert("\n"@ == seq!['\n']);
        }
        code.append("\n");
        code.append(blocks[i].as_str());
        i += 1;
    }
    assert(views(blocks@).take(blocks.len() as int) == views(blocks@));
    code
}

} // verus!
