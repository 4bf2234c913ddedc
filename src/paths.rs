//! Confinement of resolved paths to the serving root. A path is first put
//! in canonical form, lexically: empty and `.` segments are dropped and a
//! `..` segment removes the segment before it. The path is confined when it
//! starts with `public/` and no `..` climbs above that directory.
use vstd::prelude::*;
use vstd::string::StringExecFns;
use crate::text::{chars_of, lemma_split_on_nonempty, split_on, string_of};

verus! {

/// The segments so far after one more segment; `None` once a `..` has
/// climbed above the start.
pub open spec fn step_segment(stack: Option<Seq<Seq<char>>>, seg: Seq<char>) -> Option<Seq<Seq<char>>> {
    match stack {
        None => None,
        Some(s) => if seg.len() == 0 || seg == "."@ {
            Some(s)
        } else if seg == ".."@ {
            if s.len() == 0 {
                None
            } else {
                Some(s.drop_last())
            }
        } else {
            Some(s.push(seg))
        },
    }
}

/// The segments that a sequence of segments comes to.
pub open spec fn walk(segs: Seq<Seq<char>>) -> Option<Seq<Seq<char>>>
    decreases segs.len(),
{
    if segs.len() == 0 {
        Some(Seq::empty())
    } else {
        step_segment(walk(segs.drop_last()), segs.last())
    }
}

/// Segments joined by `/`.
pub open spec fn join_segments(s: Seq<Seq<char>>) -> Seq<char>
    decreases s.len(),
{
    if s.len() == 0 {
        Seq::empty()
    } else if s.len() == 1 {
        s[0]
    } else {
        join_segments(s.drop_last()) + "/"@ + s.last()
    }
}

/// The canonical form of a resolved path, when it stays under the serving
/// root `public/`.
pub open spec fn canonical(p: Seq<char>) -> Option<Seq<char>> {
    if p.len() >= 7 && p.subrange(0, 7) == "public/"@ {
        match walk(split_on(p.subrange(7, p.len() as int), '/')) {
            Some(s) => Some("public/"@ + join_segments(s)),
            None => None,
        }
    } else {
        None
    }
}

pub open spec fn segments_view(w: Seq<char>, st: Seq<(usize, usize)>) -> Seq<Seq<char>> {
    st.map_values(|r: (usize, usize)| w.subrange(r.0 as int, r.1 as int))
}

fn starts_with_root(v: &Vec<char>) -> (r: bool)
    ensures
        r == (v@.len() >= 7 && v@.subrange(0, 7) == "public/"@),
{
    proof {
        reveal_strlit("public/");
    }
    if v.len() < 7 {
        return false;
    }
    let r = v[0] == 'p' && v[1] == 'u' && v[2] == 'b' && v[3] == 'l' && v[4] == 'i' && v[5] == 'c'
        && v[6] == '/';
    if r {
        assert(v@.subrange(0, 7) =~= "public/"@);
    } else {
        assert(forall|k: int| 0 <= k < 7 ==> v@.subrange(0, 7)[k] == v@[k]);
    }
    r
}

/// Applies the segment `w[lo..hi]` to the segments kept so far.
fn apply_segment(w: &Vec<char>, stack: &mut Vec<(usize, usize)>, lo: usize, hi: usize) -> (r: bool)
    requires
        lo <= hi <= w@.len(),
        forall|k: int| 0 <= k < old(stack)@.len() ==> (#[trigger] old(stack)@[k]).0 <= old(stack)@[k].1 <= w@.len(),
    ensures
        forall|k: int| 0 <= k < final(stack)@.len() ==> (#[trigger] final(stack)@[k]).0 <= final(stack)@[k].1 <= w@.len(),
        r == step_segment(Some(segments_view(w@, old(stack)@)), w@.subrange(lo as int, hi as int)) is Some,
        r ==> step_segment(Some(segments_view(w@, old(stack)@)), w@.subrange(lo as int, hi as int))
            == Some(segments_view(w@, final(stack)@)),
{
    proof {
        reveal_strlit(".");
        reveal_strlit("..");
    }
    let ghost seg = w@.subrange(lo as int, hi as int);
    let ghost before = segments_view(w@, stack@);
    let len = hi - lo;
    let dot = len == 1 && w[lo] == '.';
    let dot_dot = len == 2 && w[lo] == '.' && w[lo + 1] == '.';
    assert(len == 1 ==> seg[0] == w@[lo as int]);
    assert(len == 2 ==> seg[0] == w@[lo as int] && seg[1] == w@[lo + 1]);
    if dot {
        assert(seg =~= "."@);
    }
    if dot_dot {
        assert(seg =~= ".."@);
    }
    assert(seg.len() == len);
    if len == 0 || dot {
        true
    } else if dot_dot {
        if stack.len() == 0 {
            false
        } else {
            stack.pop();
            assert(segments_view(w@, stack@) =~= before.drop_last());
            true
        }
    } else {
        stack.push((lo, hi));
        assert(segments_view(w@, stack@) =~= before.push(seg));
        true
    }
}

/// The canonical form of a resolved path, or `None` when it does not stay
/// under the serving root.
pub fn canonical_path(p: &str) -> (r: Option<String>)
    ensures
        match r {
            Some(c) => canonical(p@) == Some(c@),
            None => canonical(p@) is None,
        },
{
    let v = chars_of(p);
    if !starts_with_root(&v) {
        return None;
    }
    let mut w: Vec<char> = Vec::new();
    let mut i: usize = 7;
    while i < v.len()
        invariant
            7 <= i <= v@.len(),
            w@ == v@.subrange(7, i as int),
        decreases v@.len() - i,
    {
        w.push(v[i]);
        assert(v@.subrange(7, i + 1) =~= v@.subrange(7, i as int).push(v@[i as int]));
        i += 1;
    }
    let mut stack: Vec<(usize, usize)> = Vec::new();
    let mut ok = true;
    let mut start: usize = 0;
    let mut i: usize = 0;
    assert(segments_view(w@, stack@) =~= Seq::<Seq<char>>::empty());
    assert(split_on(w@.take(0), '/').drop_last() =~= Seq::<Seq<char>>::empty()) by {
        assert(w@.take(0) =~= Seq::<char>::empty());
    }
    while i < w.len()
        invariant
            start <= i <= w@.len(),
            split_on(w@.take(i as int), '/').len() >= 1,
            split_on(w@.take(i as int), '/').last() == w@.subrange(start as int, i as int),
            forall|k: int| 0 <= k < stack@.len() ==> (#[trigger] stack@[k]).0 <= stack@[k].1 <= w@.len(),
            ok ==> walk(split_on(w@.take(i as int), '/').drop_last()) == Some(segments_view(w@, stack@)),
            !ok ==> walk(split_on(w@.take(i as int), '/').drop_last()) is None,
        decreases w@.len() - i,
    {
        let ghost before = split_on(w@.take(i as int), '/');
        assert(w@.take(i + 1).drop_last() =~= w@.take(i as int));
        proof {
            lemma_split_on_nonempty(w@.take(i + 1), '/');
        }
        if w[i] == '/' {
            assert(split_on(w@.take(i + 1), '/').drop_last() =~= before);
            assert(before =~= before.drop_last().push(before.last()));
            if ok {
                ok = apply_segment(&w, &mut stack, start, i);
            }
            start = i + 1;
        } else {
            assert(split_on(w@.take(i + 1), '/').drop_last() =~= before.drop_last());
            assert(w@.subrange(start as int, i + 1) =~= w@.subrange(start as int, i as int).push(w@[i as int]));
        }
        i += 1;
    }
    assert(w@.take(w@.len() as int) =~= w@);
    let ghost all = split_on(w@, '/');
    assert(all =~= all.drop_last().push(all.last()));
    if ok {
        ok = apply_segment(&w, &mut stack, start, w.len());
    }
    if !ok {
        return None;
    }
    let ghost segs = segments_view(w@, stack@);
    let mut out = "public/".to_owned();
    let mut k: usize = 0;
    while k < stack.len()
        invariant
            0 <= k <= stack@.len(),
            segs == segments_view(w@, stack@),
            forall|j: int| 0 <= j < stack@.len() ==> (#[trigger] stack@[j]).0 <= stack@[j].1 <= w@.len(),
            out@ == "public/"@ + join_segments(segs.take(k as int)),
        decreases stack@.len() - k,
    {
        let ghost prev = out@;
        assert(segs.take(k + 1).drop_last() =~= segs.take(k as int));
        if k > 0 {
            out.append("/");
        }
        let (lo, hi) = stack[k];
        let seg = string_of(&w, lo, hi);
        out.append(seg.as_str());
        assert(out@ =~= prev + (if k > 0 { "/"@ } else { Seq::empty() }) + segs[k as int]);
        k += 1;
    }
    assert(segs.take(stack@.len() as int) =~= segs);
    assert(v@.subrange(7, v@.len() as int) =~= w@);
    Some(out)
}

} // verus!
