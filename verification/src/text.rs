use vstd::prelude::*;

use crate::fs_path::{FsPath, PathModel};

verus! {

/// The characters Unicode counts as white space.
pub open spec fn is_white_space(c: char) -> bool {
    ('\u{9}' <= c && c <= '\u{d}') || c == ' ' || c == '\u{85}' || c == '\u{a0}' || c == '\u{1680}'
        || ('\u{2000}' <= c && c <= '\u{200a}') || c == '\u{2028}' || c == '\u{2029}' || c == '\u{202f}'
        || c == '\u{205f}' || c == '\u{3000}'
}

/// Whether `c` is white space: see [`is_white_space`].
pub fn white_space(c: char) -> (r: bool)
    ensures
        r == is_white_space(c),
{
    ('\u{9}' <= c && c <= '\u{d}') || c == ' ' || c == '\u{85}' || c == '\u{a0}' || c == '\u{1680}'
        || ('\u{2000}' <= c && c <= '\u{200a}') || c == '\u{2028}' || c == '\u{2029}' || c == '\u{202f}'
        || c == '\u{205f}' || c == '\u{3000}'
}

/// The number of white-space characters `s` starts with.
pub open spec fn leading_space(s: Seq<char>) -> nat
    decreases s.len(),
{
    if s.len() > 0 && is_white_space(s[0]) {
        1 + leading_space(s.drop_first())
    } else {
        0
    }
}

/// The number of white-space characters `s` ends with.
pub open spec fn trailing_space(s: Seq<char>) -> nat
    decreases s.len(),
{
    if s.len() > 0 && is_white_space(s.last()) {
        1 + trailing_space(s.drop_last())
    } else {
        0
    }
}

/// `s` without white space at either end.
pub open spec fn trimmed(s: Seq<char>) -> Seq<char> {
    let t = s.subrange(leading_space(s) as int, s.len() as int);
    t.subrange(0, t.len() - trailing_space(t))
}

proof fn lemma_leading_space_bound(s: Seq<char>)
    ensures
        leading_space(s) <= s.len(),
    decreases s.len(),
{
    if s.len() > 0 && is_white_space(s[0]) {
        lemma_leading_space_bound(s.drop_first());
    }
}

proof fn lemma_trailing_space_bound(s: Seq<char>)
    ensures
        trailing_space(s) <= s.len(),
    decreases s.len(),
{
    if s.len() > 0 && is_white_space(s.last()) {
        lemma_trailing_space_bound(s.drop_last());
    }
}

/// The range of `text` left by trimming white space at both ends.
pub fn trim_range(text: &str) -> (r: (usize, usize))
    ensures
        r.0 <= r.1 <= text@.len(),
        text@.subrange(r.0 as int, r.1 as int) == trimmed(text@),
{
    let n = text.unicode_len();
    let ghost s = text@;
    let mut start: usize = 0;
    proof {
        assert(s.subrange(0, n as int) =~= s);
    }
    while start < n && white_space(text.get_char(start))
        invariant
            start <= n,
            n == s.len(),
            s == text@,
            leading_space(s) == start + leading_space(s.subrange(start as int, n as int)),
        decreases n - start,
    {
        proof {
            let rest = s.subrange(start as int, n as int);
            assert(rest.drop_first() =~= s.subrange(start + 1, n as int));
            assert(rest[0] == s[start as int]);
        }
        start = start + 1;
    }
    proof {
        let rest = s.subrange(start as int, n as int);
        if start < n {
            assert(rest[0] == s[start as int]);
        }
        assert(leading_space(rest) == 0);
        lemma_leading_space_bound(s);
    }
    let mut end: usize = n;
    let ghost t = s.subrange(start as int, n as int);
    while end > start && white_space(text.get_char(end - 1))
        invariant
            start <= end <= n,
            n == s.len(),
            s == text@,
            t == s.subrange(start as int, n as int),
            trailing_space(t) == (n - end) + trailing_space(s.subrange(start as int, end as int)),
        decreases end - start,
    {
        proof {
            let part = s.subrange(start as int, end as int);
            assert(part.drop_last() =~= s.subrange(start as int, end - 1));
            assert(part.last() == s[end - 1]);
        }
        end = end - 1;
    }
    proof {
        let part = s.subrange(start as int, end as int);
        if end > start {
            assert(part.last() == s[end - 1]);
        }
        assert(trailing_space(part) == 0);
        assert(t.subrange(0, t.len() - trailing_space(t)) =~= part);
    }
    (start, end)
}

/// One more segment of a path text is complete: empty segments and `.` add nothing.
pub open spec fn with_segment(parts: Seq<Seq<char>>, segment: Seq<char>) -> Seq<Seq<char>> {
    if segment.len() == 0 || segment == seq!['.'] {
        parts
    } else {
        parts.push(segment)
    }
}

/// Reads `s` up to its end: the segments completed so far (each ended by a
/// `/`) and the segment still being read.
pub open spec fn scan_segments(s: Seq<char>) -> (Seq<Seq<char>>, Seq<char>)
    decreases s.len(),
{
    if s.len() == 0 {
        (Seq::empty(), Seq::empty())
    } else {
        let (done, current) = scan_segments(s.drop_last());
        if s.last() == '/' {
            (with_segment(done, current), Seq::empty())
        } else {
            (done, current.push(s.last()))
        }
    }
}

/// The path a text names: absolute when it starts with `/`, with the
/// segments between slashes as components, leaving out empty and `.` segments.
pub open spec fn parse_path(s: Seq<char>) -> PathModel {
    let (done, current) = scan_segments(s);
    PathModel { absolute: s.len() > 0 && s[0] == '/', parts: with_segment(done, current) }
}

impl FsPath {
    /// The path `text` names: see [`parse_path`].
    pub fn from_text(text: &str) -> (r: FsPath)
        ensures
            r@ == parse_path(text@),
    {
        let n = text.unicode_len();
        let ghost s = text@;
        let absolute = n > 0 && text.get_char(0) == '/';
        let mut components: Vec<String> = Vec::new();
        let mut start: usize = 0;
        let mut i: usize = 0;
        while i < n
            invariant
                start <= i <= n,
                n == s.len(),
                s == text@,
                scan_segments(s.take(i as int)) == (
                    components@.map_values(|c: String| c@),
                    s.subrange(start as int, i as int),
                ),
            decreases n - i,
        {
            proof {
                assert(s.take(i + 1).drop_last() =~= s.take(i as int));
                assert(s.take(i + 1).last() == s[i as int]);
            }
            let c = text.get_char(i);
            if c == '/' {
                let segment = text.substring_char(start, i);
                let ghost before = components@.map_values(|c: String| c@);
                let is_dot = segment.unicode_len() == 1 && segment.get_char(0) == '.';
                proof {
                    if segment@ == seq!['.'] {
                        assert(segment@[0] == '.');
                    }
                    if is_dot {
                        assert(segment@ =~= seq!['.']);
                    }
                }
                if segment.unicode_len() > 0 && !is_dot {
                    components.push(segment.to_string());
                    proof {
                        assert(components@.map_values(|c: String| c@) =~= before.push(segment@));
                    }
                }
                start = i + 1;
                proof {
                    assert(s.subrange(start as int, i + 1) =~= Seq::<char>::empty());
                }
            } else {
                proof {
                    assert(s.subrange(start as int, i + 1) =~= s.subrange(start as int, i as int).push(c));
                }
            }
            i = i + 1;
        }
        proof {
            assert(s.take(n as int) =~= s);
        }
        let segment = text.substring_char(start, n);
        let ghost before = components@.map_values(|c: String| c@);
        let is_dot = segment.unicode_len() == 1 && segment.get_char(0) == '.';
        proof {
            if segment@ == seq!['.'] {
                assert(segment@[0] == '.');
            }
            if is_dot {
                assert(segment@ =~= seq!['.']);
            }
        }
        if segment.unicode_len() > 0 && !is_dot {
            components.push(segment.to_string());
            proof {
                assert(components@.map_values(|c: String| c@) =~= before.push(segment@));
            }
        }
        proof {
            if n > 0 {
                assert(s[0] == text@[0]);
            }
        }
        FsPath { absolute, components }
    }
}

} // verus!
