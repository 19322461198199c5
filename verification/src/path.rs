//! File names that come from outside, made safe to use below a directory.
//!
//! A path is text whose segments are separated by `/`. A name for writing is
//! reduced to the segments that name something; a name for reading has to be
//! one such segment as it stands.

use vstd::prelude::*;
use crate::error::Error;
use crate::text::chars_of;

verus! {

/// The segment `.`, which names the directory it stands in.
pub open spec fn is_dot(segment: Seq<char>) -> bool {
    segment.len() == 1 && segment[0] == '.'
}

/// The segment `..`, which names the directory above.
pub open spec fn is_dot_dot(segment: Seq<char>) -> bool {
    segment.len() == 2 && segment[0] == '.' && segment[1] == '.'
}

/// No character of the text is a separator.
pub open spec fn slash_free(text: Seq<char>) -> bool {
    forall|i: int| 0 <= i < text.len() ==> text[i] != '/'
}

/// A segment that names an entry of a directory: not empty, without a
/// separator, and neither `.` nor `..`.
pub open spec fn is_normal_segment(segment: Seq<char>) -> bool {
    &&& segment.len() > 0
    &&& slash_free(segment)
    &&& !is_dot(segment)
    &&& !is_dot_dot(segment)
}

/// Every segment names an entry of a directory.
pub open spec fn all_normal(segments: Seq<Seq<char>>) -> bool {
    forall|i: int| 0 <= i < segments.len() ==> is_normal_segment(#[trigger] segments[i])
}

/// The pieces of a path between its separators. A path with `n` separators
/// has `n + 1` segments, some of which may be empty.
pub open spec fn segments(path: Seq<char>) -> Seq<Seq<char>>
    decreases path.len(),
{
    if path.len() == 0 {
        seq![Seq::<char>::empty()]
    } else {
        let before = segments(path.drop_last());
        if path.last() == '/' {
            before.push(Seq::<char>::empty())
        } else {
            before.drop_last().push(before.last().push(path.last()))
        }
    }
}

/// Where one segment leads from the directory `at`, itself given by the
/// names that lead to it: `..` leads one up, and stays where there is no
/// way up; an empty segment and `.` lead nowhere; any other segment leads
/// into the entry of that name.
pub open spec fn step(at: Seq<Seq<char>>, segment: Seq<char>) -> Seq<Seq<char>> {
    if is_dot_dot(segment) {
        if at.len() > 0 {
            at.drop_last()
        } else {
            at
        }
    } else if segment.len() == 0 || is_dot(segment) {
        at
    } else {
        at.push(segment)
    }
}

/// Where a run of segments leads from the directory `from`.
pub open spec fn walk(from: Seq<Seq<char>>, run: Seq<Seq<char>>) -> Seq<Seq<char>>
    decreases run.len(),
{
    if run.len() == 0 {
        from
    } else {
        step(walk(from, run.drop_last()), run.last())
    }
}

/// Where a path leads from the top.
pub open spec fn location(path: Seq<char>) -> Seq<Seq<char>> {
    walk(Seq::empty(), segments(path))
}

/// The segments that are kept of a name for writing: those that name an
/// entry, in order, each `..` taking the last kept one away.
pub open spec fn sanitized(name: Seq<char>) -> Seq<Seq<char>> {
    walk(Seq::empty(), segments(name))
}

/// The segments written out with a separator between each two.
pub open spec fn joined(segments: Seq<Seq<char>>) -> Seq<char>
    decreases segments.len(),
{
    if segments.len() == 0 {
        Seq::empty()
    } else if segments.len() == 1 {
        segments[0]
    } else {
        joined(segments.drop_last()) + seq!['/'] + segments.last()
    }
}

/// The path `rel` taken from the directory `base`: an absolute `rel` stands
/// for itself, any other follows `base` and one separator.
pub open spec fn join_paths(base: Seq<char>, rel: Seq<char>) -> Seq<char> {
    if rel.len() > 0 && rel[0] == '/' {
        rel
    } else if base.len() == 0 || base.last() == '/' {
        base + rel
    } else {
        base + seq!['/'] + rel
    }
}

/// The views of a list of strings.
pub open spec fn texts(strings: Seq<String>) -> Seq<Seq<char>> {
    Seq::new(strings.len(), |i: int| strings[i]@)
}

/// A path has at least one segment.
pub proof fn lemma_segments_len(path: Seq<char>)
    ensures
        segments(path).len() >= 1,
    decreases path.len(),
{
    if path.len() > 0 {
        lemma_segments_len(path.drop_last());
    }
}

/// No segment of a path holds a separator.
pub proof fn lemma_segments_slash_free(path: Seq<char>)
    ensures
        forall|i: int| 0 <= i < segments(path).len() ==> slash_free(#[trigger] segments(path)[i]),
    decreases path.len(),
{
    if path.len() > 0 {
        lemma_segments_len(path.drop_last());
        lemma_segments_slash_free(path.drop_last());
    }
}

/// Text without a separator lengthens the last segment.
pub proof fn lemma_segments_append(path: Seq<char>, tail: Seq<char>)
    requires
        slash_free(tail),
    ensures
        segments(path + tail) == segments(path).drop_last().push(segments(path).last() + tail),
    decreases tail.len(),
{
    lemma_segments_len(path);
    if tail.len() > 0 {
        let shorter = tail.drop_last();
        lemma_segments_append(path, shorter);
        assert((path + tail).drop_last() =~= path + shorter);
        assert(segments(path + shorter).last().push(tail.last()) =~= segments(path).last() + tail);
    }
}

/// Text without a separator is one segment.
pub proof fn lemma_segments_single(segment: Seq<char>)
    requires
        slash_free(segment),
    ensures
        segments(segment) == seq![segment],
{
    let nothing = Seq::<char>::empty();
    lemma_segments_append(nothing, segment);
    assert(segments(nothing).drop_last().push(segments(nothing).last() + segment) =~= seq![
        segment,
    ]);
}

/// The segments of two paths with a separator between them are those of
/// the first followed by those of the second.
pub proof fn lemma_segments_concat(front: Seq<char>, back: Seq<char>)
    ensures
        segments(front + seq!['/'] + back) == segments(front) + segments(back),
    decreases back.len(),
{
    let whole = front + seq!['/'] + back;
    if back.len() == 0 {
        assert(whole.drop_last() =~= front);
    } else {
        let shorter = back.drop_last();
        lemma_segments_concat(front, shorter);
        lemma_segments_len(shorter);
        assert(whole.drop_last() =~= front + seq!['/'] + shorter);
        if back.last() != '/' {
            let before = segments(front) + segments(shorter);
            assert(before.drop_last().push(before.last().push(back.last())) =~= segments(front)
                + segments(back));
        }
    }
}

/// Segments written out with separators read back as they were.
pub proof fn lemma_segments_joined(run: Seq<Seq<char>>)
    requires
        run.len() > 0,
        forall|i: int| 0 <= i < run.len() ==> slash_free(#[trigger] run[i]),
    ensures
        segments(joined(run)) == run,
    decreases run.len(),
{
    if run.len() == 1 {
        lemma_segments_single(run[0]);
    } else {
        lemma_segments_joined(run.drop_last());
        lemma_segments_concat(joined(run.drop_last()), run.last());
        lemma_segments_single(run.last());
    }
}

/// Walking two runs in turn is walking the one after the other.
pub proof fn lemma_walk_concat(from: Seq<Seq<char>>, first: Seq<Seq<char>>, second: Seq<Seq<char>>)
    ensures
        walk(from, first + second) == walk(walk(from, first), second),
    decreases second.len(),
{
    if second.len() > 0 {
        lemma_walk_concat(from, first, second.drop_last());
        assert((first + second).drop_last() =~= first + second.drop_last());
    }
}

/// A run of segments that each name an entry leads down by exactly those
/// names.
pub proof fn lemma_walk_normal(from: Seq<Seq<char>>, run: Seq<Seq<char>>)
    requires
        all_normal(run),
    ensures
        walk(from, run) == from + run,
    decreases run.len(),
{
    if run.len() > 0 {
        lemma_walk_normal(from, run.drop_last());
    }
}

/// Walking from names of entries, over segments without separators, ends at
/// names of entries.
pub proof fn lemma_walk_keeps_normal(from: Seq<Seq<char>>, run: Seq<Seq<char>>)
    requires
        all_normal(from),
        forall|i: int| 0 <= i < run.len() ==> slash_free(#[trigger] run[i]),
    ensures
        all_normal(walk(from, run)),
    decreases run.len(),
{
    if run.len() > 0 {
        lemma_walk_keeps_normal(from, run.drop_last());
    }
}

/// What is kept of a name are names of entries.
pub proof fn lemma_sanitized_normal(name: Seq<char>)
    ensures
        all_normal(sanitized(name)),
{
    lemma_segments_slash_free(name);
    lemma_walk_keeps_normal(Seq::empty(), segments(name));
}

/// Sanitizing never leads out of the base directory: whatever the name,
/// what is kept of it, written out as a path and followed from `base`, ends
/// at `base` or below it, one directory down for each kept segment.
pub proof fn lemma_sanitized_stays_below(base: Seq<Seq<char>>, name: Seq<char>)
    ensures
        walk(base, segments(joined(sanitized(name)))) == base + sanitized(name),
        base.is_prefix_of(walk(base, segments(joined(sanitized(name))))),
{
    let kept = sanitized(name);
    lemma_sanitized_normal(name);
    if kept.len() == 0 {
        assert(walk(base, segments(joined(kept))) == base) by {
            reveal_with_fuel(segments, 2);
            reveal_with_fuel(walk, 2);
        }
    } else {
        assert(forall|i: int| 0 <= i < kept.len() ==> slash_free(#[trigger] kept[i]));
        lemma_segments_joined(kept);
        lemma_walk_normal(base, kept);
    }
}

/// Names of entries, written out as a path and joined to the text of a
/// base directory, lead to where the base leads and then down by exactly
/// those names.
pub proof fn lemma_joined_run_leads_down(base: Seq<char>, run: Seq<Seq<char>>)
    requires
        all_normal(run),
    ensures
        location(join_paths(base, joined(run))) == location(base) + run,
        location(base).is_prefix_of(location(join_paths(base, joined(run)))),
{
    let rel = joined(run);
    let nothing = Seq::<Seq<char>>::empty();
    lemma_segments_len(base);
    if run.len() > 0 {
        assert(forall|i: int| 0 <= i < run.len() ==> slash_free(#[trigger] run[i]));
        lemma_segments_joined(run);
        if rel.len() > 0 && rel[0] == '/' {
            // The first segment of `rel` would then be empty.
            lemma_first_segment_empty(rel);
        }
        lemma_walk_normal(location(base), run);
    } else {
        assert(walk(location(base), segments(rel)) == location(base)) by {
            reveal_with_fuel(segments, 2);
            reveal_with_fuel(walk, 2);
        }
    }
    // From here on `rel` does not start with a separator.
    if base.len() == 0 {
        assert(location(base) == nothing) by {
            reveal_with_fuel(segments, 2);
            reveal_with_fuel(walk, 2);
        }
        lemma_walk_concat(nothing, nothing, segments(rel));
    } else if base.last() == '/' {
        let front = base.drop_last();
        assert(base + rel =~= front + seq!['/'] + rel);
        lemma_segments_concat(front, rel);
        lemma_walk_concat(nothing, segments(front), segments(rel));
        // The empty last segment of `base` leads nowhere.
        assert(segments(base).drop_last() =~= segments(front));
    } else {
        lemma_segments_concat(base, rel);
        lemma_walk_concat(nothing, segments(base), segments(rel));
    }
}

/// The same for paths as text: joined to the text of a base directory, the
/// sanitized name leads to where the base leads, or below it.
pub proof fn lemma_joined_path_stays_below(base: Seq<char>, name: Seq<char>)
    ensures
        location(join_paths(base, joined(sanitized(name)))) == location(base) + sanitized(name),
        location(base).is_prefix_of(location(join_paths(base, joined(sanitized(name))))),
{
    lemma_sanitized_normal(name);
    lemma_joined_run_leads_down(base, sanitized(name));
}

/// One name of an entry, joined to the text of a base directory, leads to
/// that entry of the base.
pub proof fn lemma_joined_segment_leads_in(base: Seq<char>, segment: Seq<char>)
    requires
        is_normal_segment(segment),
    ensures
        location(join_paths(base, segment)) == location(base).push(segment),
{
    let run = seq![segment];
    assert(joined(run) == segment);
    lemma_joined_run_leads_down(base, run);
    assert(location(base) + run =~= location(base).push(segment));
}

/// A path that starts with a separator has an empty first segment.
pub proof fn lemma_first_segment_empty(path: Seq<char>)
    requires
        path.len() > 0,
        path[0] == '/',
    ensures
        segments(path).len() >= 2,
        segments(path)[0].len() == 0,
    decreases path.len(),
{
    if path.len() == 1 {
        assert(path.drop_last() =~= Seq::<char>::empty());
    } else {
        lemma_first_segment_empty(path.drop_last());
    }
}

/// Takes one segment of `path`, from `start` up to `end`, as `step` says.
fn keep_segment(kept: &mut Vec<String>, path: &str, chars: &Vec<char>, start: usize, end: usize)
    requires
        chars@ == path@,
        start <= end <= chars.len(),
        slash_free(path@.subrange(start as int, end as int)),
        all_normal(texts(old(kept)@)),
    ensures
        texts(final(kept)@) == step(texts(old(kept)@), path@.subrange(start as int, end as int)),
        all_normal(texts(final(kept)@)),
{
    let ghost segment = path@.subrange(start as int, end as int);
    let ghost before = texts(kept@);
    let len = end - start;
    if len == 0 {
        return ;
    }
    if len == 1 && chars[start] == '.' {
        return ;
    }
    if len == 2 && chars[start] == '.' && chars[start + 1] == '.' {
        kept.pop();
        return ;
    }
    let piece = path.substring_char(start, end);
    kept.push(piece.to_owned());
    assert(texts(kept@) =~= before.push(segment));
}

/// What is kept of a name for writing: segments that each name an entry of
/// a directory.
#[derive(Debug)]
pub struct SanitizedPath {
    segments: Vec<String>,
}

impl View for SanitizedPath {
    type V = Seq<Seq<char>>;

    closed spec fn view(&self) -> Seq<Seq<char>> {
        texts(self.segments@)
    }
}

impl SanitizedPath {
    #[verifier::type_invariant]
    spec fn well_formed(self) -> bool {
        all_normal(texts(self.segments@))
    }

    /// The number of segments.
    pub fn len(&self) -> (r: usize)
        ensures
            r == self@.len(),
    {
        self.segments.len()
    }

    /// Whether nothing was kept.
    pub fn is_empty(&self) -> (r: bool)
        ensures
            r == (self@.len() == 0),
    {
        self.segments.len() == 0
    }

    /// The segments written out as a relative path.
    pub fn to_string(&self) -> (r: String)
        ensures
            r@ == joined(self@),
            all_normal(self@),
    {
        proof {
            use_type_invariant(self);
        }
        let mut out = String::new();
        let n = self.segments.len();
        let mut i: usize = 0;
        while i < n
            invariant
                i <= n,
                n == self.segments@.len(),
                out@ == joined(texts(self.segments@).take(i as int)),
            decreases n - i,
        {
            let ghost upto = texts(self.segments@).take(i + 1);
            assert(upto.drop_last() =~= texts(self.segments@).take(i as int));
            if i > 0 {
                proof {
                    reveal_strlit("/");
                }
                out.append("/");
            }
            out.append(self.segments[i].as_str());
            i = i + 1;
        }
        assert(texts(self.segments@).take(n as int) =~= texts(self.segments@));
        out
    }
}

/// Reduces a name that came with an upload to a path that is safe to write
/// to: the segments that name an entry are kept in order, `..` takes the
/// last kept segment away and does nothing where none is left, and
/// everything else is dropped.
pub fn sanitize_path(path: &str) -> (r: SanitizedPath)
    ensures
        r@ == sanitized(path@),
        all_normal(r@),
{
    let chars = chars_of(path);
    let n = chars.len();
    let mut kept: Vec<String> = Vec::new();
    let mut start: usize = 0;
    let mut i: usize = 0;
    while i < n
        invariant
            start <= i <= n,
            n == chars@.len(),
            chars@ == path@,
            segments(path@.take(i as int)).len() >= 1,
            segments(path@.take(i as int)).last() == path@.subrange(start as int, i as int),
            texts(kept@) == walk(Seq::empty(), segments(path@.take(i as int)).drop_last()),
            slash_free(path@.subrange(start as int, i as int)),
            all_normal(texts(kept@)),
        decreases n - i,
    {
        let ghost before = segments(path@.take(i as int));
        let ghost upto = path@.take(i + 1);
        proof {
            assert(upto.drop_last() =~= path@.take(i as int));
        }
        if chars[i] == '/' {
            keep_segment(&mut kept, path, &chars, start, i);
            start = i + 1;
            proof {
                assert(segments(upto).drop_last() =~= before);
            }
        } else {
            proof {
                assert(segments(upto).drop_last() =~= before.drop_last());
                assert(path@.subrange(start as int, i + 1) =~= path@.subrange(
                    start as int,
                    i as int,
                ).push(chars@[i as int]));
            }
        }
        i = i + 1;
    }
    proof {
        assert(path@.take(n as int) =~= path@);
    }
    keep_segment(&mut kept, path, &chars, start, n);
    SanitizedPath { segments: kept }
}

/// The name of one file of a share, as a request for reading names it.
#[derive(Debug)]
pub struct Filename {
    name: String,
}

impl View for Filename {
    type V = Seq<char>;

    closed spec fn view(&self) -> Seq<char> {
        self.name@
    }
}

impl Filename {
    #[verifier::type_invariant]
    spec fn well_formed(self) -> bool {
        is_normal_segment(self.name@)
    }

    /// Takes a name for reading as it stands, or not at all: it must be one
    /// segment that names an entry. Nothing is corrected.
    pub fn parse(name: &str) -> (r: Result<Filename, Error>)
        ensures
            is_normal_segment(name@) ==> r is Ok && r->Ok_0@ == name@,
            !is_normal_segment(name@) ==> r == Err::<Filename, Error>(Error::Malformed),
    {
        let chars = chars_of(name);
        let n = chars.len();
        if n == 0 {
            return Err(Error::Malformed);
        }
        if n == 1 && chars[0] == '.' {
            return Err(Error::Malformed);
        }
        if n == 2 && chars[0] == '.' && chars[1] == '.' {
            return Err(Error::Malformed);
        }
        let mut i: usize = 0;
        while i < n
            invariant
                i <= n,
                n == chars@.len(),
                chars@ == name@,
                forall|j: int| 0 <= j < i ==> name@[j] != '/',
            decreases n - i,
        {
            if chars[i] == '/' {
                return Err(Error::Malformed);
            }
            i = i + 1;
        }
        Ok(Filename { name: name.to_owned() })
    }

    /// The name as text.
    pub fn display(&self) -> (r: &str)
        ensures
            r@ == self@,
            is_normal_segment(r@),
    {
        proof {
            use_type_invariant(self);
        }
        self.name.as_str()
    }
}

/// The path `rel` taken from the directory `base`.
pub fn join_path(base: &str, rel: &str) -> (r: String)
    ensures
        r@ == join_paths(base@, rel@),
{
    let rel_len = rel.unicode_len();
    if rel_len > 0 && rel.get_char(0) == '/' {
        return rel.to_owned();
    }
    let base_len = base.unicode_len();
    let mut out = base.to_owned();
    if !(base_len == 0 || base.get_char(base_len - 1) == '/') {
        proof {
            reveal_strlit("/");
        }
        out.append("/");
    }
    out.append(rel);
    out
}

} // verus!
