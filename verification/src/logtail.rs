//! The last lines of the driver's log.
//!
//! A line ends at a newline; a carriage return directly before that newline
//! is not part of the line. What follows the last newline is a line of its
//! own if it is not empty. The lines that are handed out are joined by
//! newlines alone.

use vstd::prelude::*;

verus! {

/// The byte that ends a line.
pub const NEWLINE: u8 = 10;

/// The byte that may stand before the newline at the end of a line.
pub const CARRIAGE_RETURN: u8 = 13;

/// The line that stands from `start` up to the newline at `at`: without the
/// newline, and without a carriage return directly before it.
pub open spec fn ended_line(s: Seq<u8>, start: int, at: int) -> Seq<u8> {
    if start < at && s[at - 1] == CARRIAGE_RETURN {
        s.subrange(start, at - 1)
    } else {
        s.subrange(start, at)
    }
}

/// The lines of `s` from position `at` on, the line under way having
/// started at `start`.
pub open spec fn lines_scan(s: Seq<u8>, start: int, at: int) -> Seq<Seq<u8>>
    decreases s.len() - at,
{
    if at >= s.len() {
        if start < s.len() {
            seq![s.subrange(start, s.len() as int)]
        } else {
            Seq::<Seq<u8>>::empty()
        }
    } else if s[at] == NEWLINE {
        seq![ended_line(s, start, at)] + lines_scan(s, at + 1, at + 1)
    } else {
        lines_scan(s, start, at + 1)
    }
}

/// The lines of a text.
pub open spec fn lines_of(s: Seq<u8>) -> Seq<Seq<u8>> {
    lines_scan(s, 0, 0)
}

/// Lines joined by newlines, with none at the end.
pub open spec fn joined(lines: Seq<Seq<u8>>) -> Seq<u8>
    decreases lines.len(),
{
    if lines.len() == 0 {
        Seq::<u8>::empty()
    } else if lines.len() == 1 {
        lines[0]
    } else {
        joined(lines.drop_last()) + seq![NEWLINE] + lines.last()
    }
}

/// The last `count` of `lines`, or all of them where there are fewer.
pub open spec fn last_lines(lines: Seq<Seq<u8>>, count: nat) -> Seq<Seq<u8>> {
    if count >= lines.len() {
        lines
    } else {
        lines.subrange(lines.len() - count, lines.len() as int)
    }
}

/// The last `count` lines of a log, joined by newlines.
pub open spec fn log_tail(s: Seq<u8>, count: nat) -> Seq<u8> {
    joined(last_lines(lines_of(s), count))
}

/// The pieces of `s` that `ranges` name.
pub open spec fn cut(s: Seq<u8>, ranges: Seq<(usize, usize)>) -> Seq<Seq<u8>> {
    Seq::new(ranges.len(), |i: int| s.subrange(ranges[i].0 as int, ranges[i].1 as int))
}

/// Finds where each line of a text starts and ends.
pub fn line_ranges(content: &[u8]) -> (ranges: Vec<(usize, usize)>)
    ensures
        cut(content@, ranges@) == lines_of(content@),
        forall|i: int|
            0 <= i < ranges@.len() ==> (#[trigger] ranges@[i]).0 <= ranges@[i].1 <= content.len(),
{
    let mut ranges: Vec<(usize, usize)> = Vec::new();
    let mut start: usize = 0;
    let mut at: usize = 0;
    while at < content.len()
        invariant
            start <= at <= content.len(),
            forall|i: int|
                0 <= i < ranges@.len() ==> (#[trigger] ranges@[i]).0 <= ranges@[i].1
                    <= content.len(),
            lines_of(content@) == cut(content@, ranges@) + lines_scan(
                content@,
                start as int,
                at as int,
            ),
        decreases content.len() - at,
    {
        if content[at] == NEWLINE {
            let end: usize = if start < at && content[at - 1] == CARRIAGE_RETURN {
                at - 1
            } else {
                at
            };
            let ghost before = ranges@;
            ranges.push((start, end));
            proof {
                let line = ended_line(content@, start as int, at as int);
                assert(cut(content@, ranges@) =~= cut(content@, before) + seq![line]);
                assert(cut(content@, ranges@) + lines_scan(content@, at + 1, at + 1) =~= cut(
                    content@,
                    before,
                ) + (seq![line] + lines_scan(content@, at + 1, at + 1)));
            }
            start = at + 1;
        }
        at += 1;
    }
    if start < content.len() {
        let ghost before = ranges@;
        ranges.push((start, content.len()));
        proof {
            assert(cut(content@, ranges@) =~= cut(content@, before) + seq![
                content@.subrange(start as int, content@.len() as int),
            ]);
        }
    } else {
        proof {
            assert(cut(content@, ranges@) + Seq::<Seq<u8>>::empty() =~= cut(content@, ranges@));
        }
    }
    ranges
}

/// Puts the bytes of `content` from `from` up to `to` at the end of `out`.
fn append_range(out: &mut Vec<u8>, content: &[u8], from: usize, to: usize)
    requires
        from <= to <= content.len(),
    ensures
        final(out)@ == old(out)@ + content@.subrange(from as int, to as int),
{
    let ghost start = out@;
    let mut i: usize = from;
    while i < to
        invariant
            from <= i <= to <= content.len(),
            out@ == start + content@.subrange(from as int, i as int),
        decreases to - i,
    {
        out.push(content[i]);
        proof {
            assert(out@ =~= start + content@.subrange(from as int, i + 1));
        }
        i += 1;
    }
}

/// The last `lines` lines of a log, or all of them where it has fewer,
/// joined by newlines.
pub fn logs(content: &[u8], lines: usize) -> (tail: Vec<u8>)
    ensures
        tail@ == log_tail(content@, lines as nat),
{
    let ranges = line_ranges(content);
    let first: usize = if lines >= ranges.len() {
        0
    } else {
        ranges.len() - lines
    };
    let ghost all = lines_of(content@);
    let ghost chosen = last_lines(all, lines as nat);
    proof {
        assert(all.len() == ranges@.len());
        assert(chosen =~= all.subrange(first as int, all.len() as int));
    }
    let mut tail: Vec<u8> = Vec::new();
    let mut k: usize = first;
    while k < ranges.len()
        invariant
            first <= k <= ranges.len(),
            all == cut(content@, ranges@),
            all.len() == ranges@.len(),
            chosen == all.subrange(first as int, all.len() as int),
            forall|i: int|
                0 <= i < ranges@.len() ==> (#[trigger] ranges@[i]).0 <= ranges@[i].1
                    <= content.len(),
            tail@ == joined(chosen.take(k - first)),
        decreases ranges.len() - k,
    {
        let ghost before = tail@;
        if k > first {
            tail.push(NEWLINE);
        }
        let (from, to) = ranges[k];
        append_range(&mut tail, content, from, to);
        proof {
            let done = chosen.take(k - first);
            let more = chosen.take(k - first + 1);
            assert(more.drop_last() =~= done);
            assert(more.last() == content@.subrange(from as int, to as int));
            if k > first {
                assert(tail@ =~= before + seq![NEWLINE] + more.last());
            } else {
                assert(tail@ =~= more[0]);
            }
        }
        k += 1;
    }
    proof {
        assert(chosen.take(chosen.len() as int) =~= chosen);
    }
    tail
}

} // verus!
