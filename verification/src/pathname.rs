//! Unix path names as `std::path::Path` reads them: absoluteness and the
//! final component (`file_name`).

use vstd::prelude::*;

verus! {

/// `s` cut at every `/`.
pub open spec fn split_slash(s: Seq<char>) -> Seq<Seq<char>>
    decreases s.len(),
{
    if s.len() == 0 {
        seq![Seq::<char>::empty()]
    } else {
        let p = split_slash(s.drop_last());
        if s.last() == '/' {
            p.push(Seq::<char>::empty())
        } else {
            p.update(p.len() - 1, p.last().push(s.last()))
        }
    }
}

/// A segment that names a component: not empty and not `.`.
pub open spec fn is_named_segment(seg: Seq<char>) -> bool {
    seg.len() > 0 && seg != seq!['.']
}

/// The last segment of `segs` that names a component.
pub open spec fn last_named(segs: Seq<Seq<char>>) -> Option<Seq<char>>
    decreases segs.len(),
{
    if segs.len() == 0 {
        None
    } else if is_named_segment(segs.last()) {
        Some(segs.last())
    } else {
        last_named(segs.drop_last())
    }
}

/// `Path::new(s).file_name()`: the last component when it is a name (not
/// `..`, not the root, not `.`).
pub open spec fn file_name_spec(s: Seq<char>) -> Option<Seq<char>> {
    match last_named(split_slash(s)) {
        Some(seg) => if seg == seq!['.', '.'] {
            None
        } else {
            Some(seg)
        },
        None => None,
    }
}

/// `Path::new(s).is_absolute()` on Unix.
pub open spec fn is_absolute_spec(s: Seq<char>) -> bool {
    s.len() > 0 && s[0] == '/'
}

proof fn lemma_split_nonempty(s: Seq<char>)
    ensures
        split_slash(s).len() >= 1,
    decreases s.len(),
{
    if s.len() > 0 {
        lemma_split_nonempty(s.drop_last());
    }
}

fn segment_is_named(s: &str, lo: usize, hi: usize) -> (r: bool)
    requires
        lo <= hi <= s@.len(),
    ensures
        r == is_named_segment(s@.subrange(lo as int, hi as int)),
{
    if lo == hi {
        return false;
    }
    if hi - lo == 1 && s.get_char(lo) == '.' {
        assert(s@.subrange(lo as int, hi as int) =~= seq!['.']);
        return false;
    }
    if hi - lo == 1 {
        assert(s@.subrange(lo as int, hi as int)[0] != seq!['.'][0]);
    }
    true
}

/// `Path::new(s).file_name()`, as an owned string.
pub fn file_name(s: &str) -> (r: Option<String>)
    ensures
        r matches Some(f) ==> file_name_spec(s@) == Some(f@),
        r is None ==> file_name_spec(s@) is None,
{
    let n = s.unicode_len();
    let mut seg_start: usize = 0;
    let mut last: Option<(usize, usize)> = None;
    let mut i: usize = 0;
    assert(s@.take(0) =~= Seq::<char>::empty());
    while i < n
        invariant
            n == s@.len(),
            seg_start <= i <= n,
            split_slash(s@.take(i as int)).len() >= 1,
            split_slash(s@.take(i as int)).last() == s@.subrange(seg_start as int, i as int),
            last matches Some((a, b)) ==> a <= b <= seg_start && last_named(
                split_slash(s@.take(i as int)).drop_last(),
            ) == Some(s@.subrange(a as int, b as int)),
            last is None ==> last_named(split_slash(s@.take(i as int)).drop_last()) is None,
        decreases n - i,
    {
        let ghost prev = split_slash(s@.take(i as int));
        assert(s@.take(i + 1).drop_last() =~= s@.take(i as int));
        assert(s@.take(i + 1).last() == s@[i as int]);
        if s.get_char(i) == '/' {
            let named = segment_is_named(s, seg_start, i);
            proof {
                let next = split_slash(s@.take(i + 1));
                assert(next == prev.push(Seq::<char>::empty()));
                assert(next.drop_last() =~= prev);
                lemma_split_nonempty(s@.take(i as int));
                assert(prev.drop_last().push(prev.last()) =~= prev);
            }
            if named {
                last = Some((seg_start, i));
            }
            seg_start = i + 1;
            assert(s@.subrange(seg_start as int, i + 1) =~= Seq::<char>::empty());
        } else {
            proof {
                let next = split_slash(s@.take(i + 1));
                assert(next == prev.update(prev.len() - 1, prev.last().push(s@[i as int])));
                assert(next.drop_last() =~= prev.drop_last());
                assert(s@.subrange(seg_start as int, i + 1) =~= s@.subrange(seg_start as int, i as int).push(
                    s@[i as int],
                ));
            }
        }
        i = i + 1;
    }
    assert(s@.take(n as int) =~= s@);
    let ghost segs = split_slash(s@);
    assert(segs.drop_last().push(segs.last()) =~= segs);
    let (a, b) = if segment_is_named(s, seg_start, n) {
        (seg_start, n)
    } else {
        match last {
            Some(p) => p,
            None => {
                return None;
            },
        }
    };
    if b - a == 2 && s.get_char(a) == '.' && s.get_char(a + 1) == '.' {
        assert(s@.subrange(a as int, b as int) =~= seq!['.', '.']);
        return None;
    }
    if b - a == 2 {
        assert(s@.subrange(a as int, b as int) != seq!['.', '.']) by {
            if s@[a as int] != '.' {
                assert(s@.subrange(a as int, b as int)[0] != seq!['.', '.'][0]);
            } else {
                assert(s@.subrange(a as int, b as int)[1] != seq!['.', '.'][1]);
            }
        }
    }
    Some(String::from_str(s.substring_char(a, b)))
}

/// `Path::new(s).is_absolute()` on Unix.
pub fn is_absolute(s: &str) -> (r: bool)
    ensures
        r == is_absolute_spec(s@),
{
    s.unicode_len() > 0 && s.get_char(0) == '/'
}

} // verus!
