use crate::amount::{find_text, lemma_found_text};
use crate::method_match::matches_at;
use crate::text::{
    chars_of, from_chars, has_prefix, lower, lowercase, str_eq, string_views, trim, trim_spec,
};
use vstd::prelude::*;

verus! {

/// The parts of `s` between the occurrences of a non-empty `p`, found from
/// the left without overlaps (as std's `str::split` with a string gives
/// them).
pub open spec fn split_text_spec(s: Seq<char>, p: Seq<char>) -> Seq<Seq<char>>
    decreases s.len(),
{
    if p.len() == 0 {
        seq![s]
    } else {
        match find_text(s, p, 0) {
            None => seq![s],
            Some(i) => {
                proof {
                    lemma_found_text(s, p, 0);
                }
                if 0 <= i && i + p.len() <= s.len() {
                    seq![s.subrange(0, i)] + split_text_spec(
                        s.subrange(i + p.len(), s.len() as int),
                        p,
                    )
                } else {
                    seq![s]
                }
            },
        }
    }
}

/// The texts in order, each kept at its first occurrence only.
pub open spec fn first_occurrences(v: Seq<Seq<char>>) -> Seq<Seq<char>>
    decreases v.len(),
{
    if v.len() == 0 {
        v
    } else {
        let r = first_occurrences(v.drop_last());
        if r.contains(v.last()) {
            r
        } else {
            r.push(v.last())
        }
    }
}

/// The texts that are not among `existing`, in order.
pub open spec fn not_among(v: Seq<Seq<char>>, existing: Seq<Seq<char>>) -> Seq<Seq<char>>
    decreases v.len(),
{
    if v.len() == 0 {
        v
    } else {
        let r = not_among(v.drop_last(), existing);
        if existing.contains(v.last()) {
            r
        } else {
            r.push(v.last())
        }
    }
}

/// What a line typed to name transaction methods asks for.
#[derive(Clone, Debug, PartialEq, Eq)]
pub enum MethodInput {
    /// The operation is cancelled.
    Cancelled,
    /// No usable method was given: the question is asked again.
    Empty,
    /// The methods to add.
    Methods(Vec<String>),
}

/// What a line typed to name transaction methods asks for, as the names it
/// holds: the line is trimmed and split at ", ", and repeated names are
/// dropped. When adding to `existing` methods, a line starting with
/// "cancel" (in any case) cancels, and the names already known are dropped.
/// When no name remains, or the only one is empty, the line is empty.
pub open spec fn method_input_spec(line: Seq<char>, existing: Seq<Seq<char>>, adding: bool) -> Option<
    Option<Seq<Seq<char>>>,
> {
    let t = trim_spec(line);
    if adding && has_prefix(lowercase(t), "cancel"@) {
        None
    } else {
        let names = first_occurrences(split_text_spec(t, ", "@));
        let kept = if adding {
            not_among(names, existing)
        } else {
            names
        };
        if kept.len() == 0 || kept == seq![Seq::<char>::empty()] {
            Some(None)
        } else {
            Some(Some(kept))
        }
    }
}

/// Splits a text at every occurrence of a non-empty `p` (see
/// `split_text_spec`).
pub fn split_text(s: &str, p: &str) -> (r: Vec<String>)
    requires
        p@.len() > 0,
    ensures
        string_views(r@) == split_text_spec(s@, p@),
{
    let sv = chars_of(s);
    let pv = chars_of(p);
    let n = sv.len();
    let mut parts: Vec<String> = Vec::new();
    let mut start: usize = 0;
    let mut i: usize = 0;
    assert(sv@.subrange(0, n as int) =~= sv@);
    while i < n && pv.len() <= n - i
        invariant
            n == sv@.len(),
            pv@ == p@,
            sv@ == s@,
            pv@.len() > 0,
            start <= i <= n,
            find_text(sv@.subrange(start as int, n as int), pv@, 0) == find_text(
                sv@.subrange(start as int, n as int),
                pv@,
                i - start,
            ),
            string_views(parts@) + split_text_spec(sv@.subrange(start as int, n as int), pv@)
                == split_text_spec(sv@, pv@),
        decreases n - i,
    {
        let ghost rest = sv@.subrange(start as int, n as int);
        assert(rest.subrange(i - start, i - start + pv@.len()) =~= sv@.subrange(
            i as int,
            i + pv@.len(),
        ));
        if matches_at(&sv, &pv, i) {
            assert(find_text(rest, pv@, i - start) == Some((i - start) as int));
            let mut piece: Vec<char> = Vec::new();
            let mut k: usize = start;
            while k < i
                invariant
                    start <= k <= i <= n,
                    n == sv@.len(),
                    piece@ == sv@.subrange(start as int, k as int),
                decreases i - k,
            {
                piece.push(sv[k]);
                k = k + 1;
                assert(piece@ =~= sv@.subrange(start as int, k as int));
            }
            let ghost before = string_views(parts@);
            parts.push(from_chars(&piece));
            assert(rest.subrange(0, i - start) =~= piece@);
            assert(rest.subrange(i - start + pv@.len(), rest.len() as int) =~= sv@.subrange(
                i + pv@.len(),
                n as int,
            ));
            assert(string_views(parts@) =~= before.push(piece@));
            start = i + pv.len();
            i = start;
            assert(string_views(parts@) + split_text_spec(sv@.subrange(start as int, n as int), pv@)
                =~= before + split_text_spec(rest, pv@));
        } else {
            i = i + 1;
        }
    }
    let ghost rest = sv@.subrange(start as int, n as int);
    assert(find_text(rest, pv@, i - start) is None);
    let mut piece: Vec<char> = Vec::new();
    let mut k: usize = start;
    while k < n
        invariant
            start <= k <= n,
            n == sv@.len(),
            piece@ == sv@.subrange(start as int, k as int),
        decreases n - k,
    {
        piece.push(sv[k]);
        k = k + 1;
        assert(piece@ =~= sv@.subrange(start as int, k as int));
    }
    let ghost before = string_views(parts@);
    parts.push(from_chars(&piece));
    assert(string_views(parts@) =~= before + seq![rest]);
    parts
}

/// Whether `v` holds a text equal to `x`.
fn holds(v: &Vec<String>, x: &str) -> (r: bool)
    ensures
        r == string_views(v@).contains(x@),
{
    let mut k: usize = 0;
    while k < v.len()
        invariant
            k <= v@.len(),
            forall|j: int| 0 <= j < k ==> v@[j]@ != x@,
        decreases v@.len() - k,
    {
        if str_eq(v[k].as_str(), x) {
            assert(string_views(v@)[k as int] == x@);
            return true;
        }
        k = k + 1;
    }
    assert forall|j: int| 0 <= j < string_views(v@).len() implies string_views(v@)[j] != x@ by {
        assert(string_views(v@)[j] == v@[j]@);
    }
    false
}

/// Reads a line typed to name transaction methods (see
/// `method_input_spec`).
pub fn read_method_input(line: &str, existing: &Vec<String>, adding: bool) -> (r: MethodInput)
    ensures
        match r {
            MethodInput::Cancelled => method_input_spec(line@, string_views(existing@), adding)
                is None,
            MethodInput::Empty => method_input_spec(line@, string_views(existing@), adding) == Some(
                None::<Seq<Seq<char>>>,
            ),
            MethodInput::Methods(v) => method_input_spec(line@, string_views(existing@), adding)
                == Some(Some(string_views(v@))),
        },
{
    proof {
        reveal_strlit("cancel");
        reveal_strlit(", ");
    }
    let t = trim(line);
    let lowered = lower(t.as_str());
    let lv = chars_of(lowered.as_str());
    let cv = chars_of("cancel");
    if adding && lv.len() >= cv.len() && matches_at(&lv, &cv, 0) {
        assert(lowercase(t@).subrange(0, 6) == "cancel"@);
        return MethodInput::Cancelled;
    }
    assert(adding ==> !has_prefix(lowercase(t@), "cancel"@)) by {
        if adding && has_prefix(lowercase(t@), "cancel"@) {
            assert(lv@.subrange(0, 6) == cv@);
        }
    }
    let parts = split_text(t.as_str(), ", ");
    let mut names: Vec<String> = Vec::new();
    let mut k: usize = 0;
    while k < parts.len()
        invariant
            k <= parts@.len(),
            string_views(names@) == first_occurrences(string_views(parts@).subrange(0, k as int)),
        decreases parts@.len() - k,
    {
        let ghost sub = string_views(parts@).subrange(0, k + 1);
        assert(sub.drop_last() =~= string_views(parts@).subrange(0, k as int));
        assert(sub.last() == parts@[k as int]@);
        if !holds(&names, parts[k].as_str()) {
            let ghost before = string_views(names@);
            names.push(parts[k].clone());
            assert(string_views(names@) =~= before.push(parts@[k as int]@));
        }
        k = k + 1;
    }
    assert(string_views(parts@).subrange(0, parts@.len() as int) =~= string_views(parts@));
    let kept = if adding {
        let mut kept: Vec<String> = Vec::new();
        let mut k: usize = 0;
        while k < names.len()
            invariant
                k <= names@.len(),
                string_views(kept@) == not_among(
                    string_views(names@).subrange(0, k as int),
                    string_views(existing@),
                ),
            decreases names@.len() - k,
        {
            let ghost sub = string_views(names@).subrange(0, k + 1);
            assert(sub.drop_last() =~= string_views(names@).subrange(0, k as int));
            assert(sub.last() == names@[k as int]@);
            if !holds(existing, names[k].as_str()) {
                let ghost before = string_views(kept@);
                kept.push(names[k].clone());
                assert(string_views(kept@) =~= before.push(names@[k as int]@));
            }
            k = k + 1;
        }
        assert(string_views(names@).subrange(0, names@.len() as int) =~= string_views(names@));
        kept
    } else {
        names
    };
    if kept.len() == 0 {
        return MethodInput::Empty;
    }
    if kept.len() == 1 && crate::text::char_count(kept[0].as_str()) == 0 {
        assert(kept@[0]@ =~= Seq::<char>::empty());
        assert(string_views(kept@) =~= seq![Seq::<char>::empty()]);
        return MethodInput::Empty;
    }
    assert(string_views(kept@) != seq![Seq::<char>::empty()]) by {
        if string_views(kept@) == seq![Seq::<char>::empty()] {
            assert(kept@[0]@ == string_views(kept@)[0]);
        }
    }
    MethodInput::Methods(kept)
}

} // verus!
