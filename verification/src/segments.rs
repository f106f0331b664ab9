//! Splitting of paths into segments, over the bytes of the text.

use vstd::prelude::*;

verus! {

/// The byte `/`, which separates the segments of a path.
pub const SLASH: u8 = 47;

/// The byte `?`, which starts a query string.
pub const QUESTION_MARK: u8 = 63;

/// The byte `#`, which starts a fragment.
pub const HASH_MARK: u8 = 35;

/// Whether `b` ends the part of a segment that takes part in matching.
pub open spec fn is_marker(b: u8) -> bool {
    b == QUESTION_MARK || b == HASH_MARK
}

/// The number of bytes at the start of `s` that are no `/`.
pub open spec fn segment_len(s: Seq<u8>) -> int
    decreases s.len(),
{
    if s.len() == 0 || s[0] == SLASH {
        0
    } else {
        1 + segment_len(s.skip(1))
    }
}

/// The number of bytes at the start of `s` that are neither `?` nor `#`.
pub open spec fn stem_len(s: Seq<u8>) -> int
    decreases s.len(),
{
    if s.len() == 0 || is_marker(s[0]) {
        0
    } else {
        1 + stem_len(s.skip(1))
    }
}

/// The non-empty runs of bytes between the `/` of `s`, in order.
pub open spec fn split_segments(s: Seq<u8>) -> Seq<Seq<u8>>
    decreases s.len(),
{
    if s.len() == 0 {
        Seq::empty()
    } else if s[0] == SLASH {
        split_segments(s.skip(1))
    } else {
        proof {
            lemma_segment_len_bounds(s);
        }
        seq![s.take(segment_len(s))] + split_segments(s.skip(segment_len(s)))
    }
}

/// A segment without its query string and fragment: what stands before the
/// first `?` or `#`.
pub open spec fn strip_markers(segment: Seq<u8>) -> Seq<u8> {
    segment.take(stem_len(segment))
}

/// The segments of a request path as they are compared with a route: split
/// first, then each segment stripped on its own.
pub open spec fn request_segments(path: Seq<u8>) -> Seq<Seq<u8>> {
    split_segments(path).map_values(|segment: Seq<u8>| strip_markers(segment))
}

/// The contents of a list of segments.
pub open spec fn segment_views(segments: Seq<Vec<u8>>) -> Seq<Seq<u8>> {
    segments.map_values(|segment: Vec<u8>| segment@)
}

pub proof fn lemma_segment_len_bounds(s: Seq<u8>)
    ensures
        0 <= segment_len(s) <= s.len(),
        segment_len(s) < s.len() ==> s[segment_len(s)] == SLASH,
        forall|i: int| 0 <= i < segment_len(s) ==> s[i] != SLASH,
    decreases s.len(),
{
    if s.len() == 0 || s[0] == SLASH {
    } else {
        lemma_segment_len_bounds(s.skip(1));
        assert forall|i: int| 0 <= i < segment_len(s) implies s[i] != SLASH by {
            if i > 0 {
                assert(s.skip(1)[i - 1] == s[i]);
            }
        }
    }
}

pub proof fn lemma_stem_len_bounds(s: Seq<u8>)
    ensures
        0 <= stem_len(s) <= s.len(),
        stem_len(s) < s.len() ==> is_marker(s[stem_len(s)]),
        forall|i: int| 0 <= i < stem_len(s) ==> !is_marker(s[i]),
    decreases s.len(),
{
    if s.len() == 0 || is_marker(s[0]) {
    } else {
        lemma_stem_len_bounds(s.skip(1));
        assert forall|i: int| 0 <= i < stem_len(s) implies !is_marker(s[i]) by {
            if i > 0 {
                assert(s.skip(1)[i - 1] == s[i]);
            }
        }
    }
}

/// A segment is cut at its first `?` or `#`: what stands before the marker
/// remains, whatever follows it.
pub proof fn strip_cuts_at_first_marker(stem: Seq<u8>, marker: u8, rest: Seq<u8>)
    requires
        is_marker(marker),
        forall|i: int| 0 <= i < stem.len() ==> !is_marker(stem[i]),
    ensures
        strip_markers(stem + seq![marker] + rest) == stem,
    decreases stem.len(),
{
    let whole = stem + seq![marker] + rest;
    if stem.len() == 0 {
        assert(whole[0] == marker);
        assert(whole.take(0) =~= stem);
    } else {
        assert(whole[0] == stem[0]);
        assert(whole.skip(1) =~= stem.skip(1) + seq![marker] + rest);
        strip_cuts_at_first_marker(stem.skip(1), marker, rest);
        assert(stem.skip(1) == whole.skip(1).take(stem_len(whole.skip(1))));
        assert(stem_len(whole) == stem.len()) by {
            assert(stem.skip(1).len() == stem_len(whole.skip(1))) by {
                lemma_stem_len_bounds(whole.skip(1));
            }
        }
        assert(whole.take(stem.len() as int) =~= stem);
    }
}

/// A segment without `?` and `#` is compared as it is.
pub proof fn strip_keeps_plain_segment(segment: Seq<u8>)
    requires
        forall|i: int| 0 <= i < segment.len() ==> !is_marker(segment[i]),
    ensures
        strip_markers(segment) == segment,
{
    lemma_stem_len_bounds(segment);
    assert(segment.take(segment.len() as int) =~= segment);
}

/// No segment of a path is empty, and none holds a `/`.
pub proof fn segments_are_whole(s: Seq<u8>)
    ensures
        forall|k: int|
            0 <= k < split_segments(s).len() ==> (#[trigger] split_segments(s)[k]).len() > 0,
        forall|k: int, i: int|
            0 <= k < split_segments(s).len() && 0 <= i < split_segments(s)[k].len()
                ==> #[trigger] split_segments(s)[k][i] != SLASH,
    decreases s.len(),
{
    let all = split_segments(s);
    if s.len() == 0 {
        assert(all.len() == 0);
    } else if s[0] == SLASH {
        segments_are_whole(s.skip(1));
        assert(all == split_segments(s.skip(1)));
    } else {
        lemma_segment_len_bounds(s);
        let n = segment_len(s);
        segments_are_whole(s.skip(n));
        let first = s.take(n);
        let others = split_segments(s.skip(n));
        assert(all == seq![first] + others);
        assert forall|k: int| 0 <= k < all.len() implies (#[trigger] all[k]).len() > 0 by {
            if k > 0 {
                assert(all[k] == others[k - 1]);
            }
        }
        assert forall|k: int, i: int| 0 <= k < all.len() && 0 <= i < all[k].len() implies 
            #[trigger] all[k][i] != SLASH by {
            if k > 0 {
                assert(all[k] == others[k - 1]);
            } else {
                assert(first[i] == s[i]);
            }
        }
    }
}

/// Copies the bytes of `bytes` from `from` up to `to`.
pub fn copy_range(bytes: &[u8], from: usize, to: usize) -> (out: Vec<u8>)
    requires
        from <= to <= bytes@.len(),
    ensures
        out@ == bytes@.subrange(from as int, to as int),
{
    let mut out: Vec<u8> = Vec::new();
    let mut i: usize = from;
    while i < to
        invariant
            from <= i <= to <= bytes@.len(),
            out@ == bytes@.subrange(from as int, i as int),
        decreases to - i,
    {
        out.push(bytes[i]);
        i = i + 1;
        assert(out@ =~= bytes@.subrange(from as int, i as int));
    }
    out
}

/// The position of the first `/` at or after `from`, or the length of `bytes`
/// where there is none.
pub fn segment_end(bytes: &[u8], from: usize) -> (end: usize)
    requires
        from <= bytes@.len(),
    ensures
        end == from + segment_len(bytes@.skip(from as int)),
        from <= end <= bytes@.len(),
{
    let mut i: usize = from;
    while i < bytes.len() && bytes[i] != SLASH
        invariant
            from <= i <= bytes@.len(),
            segment_len(bytes@.skip(from as int)) == (i - from) + segment_len(
                bytes@.skip(i as int),
            ),
        decreases bytes@.len() - i,
    {
        assert(bytes@.skip(i as int).skip(1) =~= bytes@.skip(i + 1));
        i = i + 1;
    }
    proof {
        end_of_run(bytes@, i as int);
    }
    i
}

proof fn end_of_run(s: Seq<u8>, i: int)
    requires
        0 <= i <= s.len(),
        i < s.len() ==> s[i] == SLASH,
    ensures
        segment_len(s.skip(i)) == 0,
{
}

/// The position of the first `?` or `#` of `segment`, or its length where
/// there is none.
pub fn stem_end(segment: &[u8]) -> (end: usize)
    ensures
        end == stem_len(segment@),
        end <= segment@.len(),
{
    let mut i: usize = 0;
    assert(segment@.skip(0) =~= segment@);
    while i < segment.len() && segment[i] != QUESTION_MARK && segment[i] != HASH_MARK
        invariant
            i <= segment@.len(),
            stem_len(segment@) == i + stem_len(segment@.skip(i as int)),
        decreases segment@.len() - i,
    {
        assert(segment@.skip(i as int).skip(1) =~= segment@.skip(i + 1));
        i = i + 1;
    }
    i
}

/// Splits `bytes` at each `/` and drops the empty pieces.
pub fn split_path(bytes: &[u8]) -> (out: Vec<Vec<u8>>)
    ensures
        segment_views(out@) == split_segments(bytes@),
{
    let mut out: Vec<Vec<u8>> = Vec::new();
    let mut i: usize = 0;
    assert(bytes@.skip(0) =~= bytes@);
    assert(segment_views(out@) =~= Seq::<Seq<u8>>::empty());
    while i < bytes.len()
        invariant
            i <= bytes@.len(),
            split_segments(bytes@) == segment_views(out@) + split_segments(bytes@.skip(i as int)),
        decreases bytes@.len() - i,
    {
        let ghost rest = bytes@.skip(i as int);
        let ghost before = segment_views(out@);
        if bytes[i] == SLASH {
            assert(rest.skip(1) =~= bytes@.skip(i + 1));
            i = i + 1;
        } else {
            let end: usize = segment_end(bytes, i);
            let segment = copy_range(bytes, i, end);
            assert(segment@ =~= rest.take(segment_len(rest)));
            assert(rest.skip(segment_len(rest)) =~= bytes@.skip(end as int));
            out.push(segment);
            assert(segment_views(out@) =~= before + seq![segment@]);
            assert(end > i);
            i = end;
        }
    }
    assert(split_segments(bytes@.skip(i as int)) =~= Seq::<Seq<u8>>::empty());
    out
}

/// Splits a request path at each `/`, drops the empty pieces, and cuts each
/// piece at its first `?` or `#`.
pub fn split_request_path(bytes: &[u8]) -> (out: Vec<Vec<u8>>)
    ensures
        segment_views(out@) == request_segments(bytes@),
{
    let raw = split_path(bytes);
    let mut out: Vec<Vec<u8>> = Vec::new();
    let mut k: usize = 0;
    while k < raw.len()
        invariant
            k <= raw@.len(),
            segment_views(raw@) == split_segments(bytes@),
            out@.len() == k,
            forall|j: int| 0 <= j < k ==> (#[trigger] out@[j])@ == strip_markers(raw@[j]@),
        decreases raw@.len() - k,
    {
        let end: usize = stem_end(raw[k].as_slice());
        let stem = copy_range(raw[k].as_slice(), 0, end);
        out.push(stem);
        k = k + 1;
    }
    assert(segment_views(out@) =~= request_segments(bytes@)) by {
        assert forall|j: int| 0 <= j < out@.len() implies segment_views(out@)[j]
            == request_segments(bytes@)[j] by {
            assert(segment_views(raw@)[j] == raw@[j]@);
        }
    }
    out
}

/// Whether two byte strings hold the same bytes.
pub fn same_bytes(a: &[u8], b: &[u8]) -> (same: bool)
    ensures
        same == (a@ == b@),
{
    if a.len() != b.len() {
        return false;
    }
    let mut i: usize = 0;
    while i < a.len()
        invariant
            i <= a@.len(),
            a@.len() == b@.len(),
            forall|j: int| 0 <= j < i ==> a@[j] == b@[j],
        decreases a@.len() - i,
    {
        if a[i] != b[i] {
            return false;
        }
        i = i + 1;
    }
    assert(a@ =~= b@);
    true
}

/// Whether `bytes` begins with `start`, byte by byte.
pub fn bytes_start_with(bytes: &[u8], start: &[u8]) -> (found: bool)
    ensures
        found == start@.is_prefix_of(bytes@),
{
    if start.len() > bytes.len() {
        return false;
    }
    let mut i: usize = 0;
    while i < start.len()
        invariant
            i <= start@.len() <= bytes@.len(),
            forall|j: int| 0 <= j < i ==> start@[j] == bytes@[j],
        decreases start@.len() - i,
    {
        if start[i] != bytes[i] {
            assert(bytes@.subrange(0, start@.len() as int)[i as int] == bytes@[i as int]);
            return false;
        }
        i = i + 1;
    }
    assert(start@ =~= bytes@.subrange(0, start@.len() as int));
    true
}

/// Whether the segments of `path` begin with those of `pattern`, segment by
/// segment.
pub fn segments_start_with(path: &Vec<Vec<u8>>, pattern: &Vec<Vec<u8>>) -> (found: bool)
    ensures
        found == segment_views(pattern@).is_prefix_of(segment_views(path@)),
{
    let ghost want = segment_views(pattern@);
    let ghost have = segment_views(path@);
    if pattern.len() > path.len() {
        return false;
    }
    let mut i: usize = 0;
    while i < pattern.len()
        invariant
            i <= pattern@.len() <= path@.len(),
            want == segment_views(pattern@),
            have == segment_views(path@),
            forall|j: int| 0 <= j < i ==> want[j] == have[j],
        decreases pattern@.len() - i,
    {
        if !same_bytes(pattern[i].as_slice(), path[i].as_slice()) {
            assert(want[i as int] == pattern@[i as int]@);
            assert(have.subrange(0, want.len() as int)[i as int] == path@[i as int]@);
            return false;
        }
        assert(want[i as int] == have[i as int]);
        i = i + 1;
    }
    assert(want =~= have.subrange(0, want.len() as int));
    true
}

} // verus!
