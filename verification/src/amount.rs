use crate::method_match::matches_at;
use crate::text::{chars_of, from_chars, has_prefix};
use vstd::prelude::*;

verus! {

/// `s` with every occurrence of a non-empty `p` replaced by `w`, the
/// occurrences taken from the left without overlaps (as std's
/// `str::replace` does).
pub open spec fn replaced(s: Seq<char>, p: Seq<char>, w: Seq<char>) -> Seq<char>
    decreases s.len(),
{
    if p.len() == 0 || s.len() < p.len() {
        s
    } else if s.subrange(0, p.len() as int) == p {
        w + replaced(s.subrange(p.len() as int, s.len() as int), p, w)
    } else {
        seq![s[0]] + replaced(s.subrange(1, s.len() as int), p, w)
    }
}

/// Replaces every occurrence of a non-empty `p` in `s` by `w` (see
/// `replaced`).
pub fn replace_text(s: &str, p: &str, w: &str) -> (r: String)
    requires
        p@.len() > 0,
    ensures
        r@ == replaced(s@, p@, w@),
{
    let sv = chars_of(s);
    let pv = chars_of(p);
    let wv = chars_of(w);
    let n = sv.len();
    let mut out: Vec<char> = Vec::new();
    let mut i: usize = 0;
    assert(sv@.subrange(0, sv@.len() as int) =~= sv@);
    while i < sv.len() && pv.len() <= sv.len() - i
        invariant
            sv@ == s@,
            pv@ == p@,
            wv@ == w@,
            n == sv@.len(),
            pv@.len() > 0,
            i <= sv@.len(),
            out@ + replaced(sv@.subrange(i as int, sv@.len() as int), pv@, wv@) == replaced(
                sv@,
                pv@,
                wv@,
            ),
        decreases sv@.len() - i,
    {
        let ghost rest = sv@.subrange(i as int, sv@.len() as int);
        let ghost before = out@;
        let same = matches_at(&sv, &pv, i);
        assert(rest.subrange(0, pv@.len() as int) =~= sv@.subrange(i as int, i + pv@.len()));
        if same {
            assert(rest.subrange(pv@.len() as int, rest.len() as int) =~= sv@.subrange(
                i + pv@.len(),
                sv@.len() as int,
            ));
            let mut k: usize = 0;
            while k < wv.len()
                invariant
                    k <= wv@.len(),
                    out@ == before + wv@.subrange(0, k as int),
                decreases wv@.len() - k,
            {
                out.push(wv[k]);
                k = k + 1;
                assert(out@ =~= before + wv@.subrange(0, k as int));
            }
            assert(wv@.subrange(0, wv@.len() as int) =~= wv@);
            assert(out@ + replaced(sv@.subrange(i + pv@.len(), sv@.len() as int), pv@, wv@)
                =~= before + replaced(rest, pv@, wv@));
            i = i + pv.len();
        } else {
            assert(rest.subrange(1, rest.len() as int) =~= sv@.subrange(
                i + 1,
                sv@.len() as int,
            ));
            assert(rest[0] == sv@[i as int]);
            out.push(sv[i]);
            assert(out@ + replaced(sv@.subrange(i + 1, sv@.len() as int), pv@, wv@) =~= before
                + replaced(rest, pv@, wv@));
            i = i + 1;
        }
    }
    let ghost rest = sv@.subrange(i as int, sv@.len() as int);
    assert(replaced(rest, pv@, wv@) == rest);
    let ghost before = out@;
    let mut k: usize = i;
    while k < sv.len()
        invariant
            i <= k <= sv@.len(),
            n == sv@.len(),
            out@ == before + sv@.subrange(i as int, k as int),
        decreases sv@.len() - k,
    {
        out.push(sv[k]);
        k = k + 1;
        assert(out@ =~= before + sv@.subrange(i as int, k as int));
    }
    from_chars(&out)
}

/// How an amount typed in the search compares with the amounts looked for:
/// it may start with ">=", "<=", ">" or "<".
#[derive(Clone, Copy, Debug, PartialEq, Eq, Structural)]
pub enum ComparisonType {
    Equal,
    BiggerThan,
    SmallerThan,
    EqualOrBigger,
    EqualOrSmaller,
}

/// The comparison an amount asks for, by its first characters.
pub open spec fn comparison_of(amount: Seq<char>) -> ComparisonType {
    if has_prefix(amount, ">="@) {
        ComparisonType::EqualOrBigger
    } else if has_prefix(amount, "<="@) {
        ComparisonType::EqualOrSmaller
    } else if has_prefix(amount, ">"@) {
        ComparisonType::BiggerThan
    } else if has_prefix(amount, "<"@) {
        ComparisonType::SmallerThan
    } else {
        ComparisonType::Equal
    }
}

/// A text that starts with `p` has the characters of `p` first.
proof fn lemma_prefix_chars(s: Seq<char>, p: Seq<char>)
    ensures
        has_prefix(s, p) ==> forall|i: int| 0 <= i < p.len() ==> s[i] == #[trigger] p[i],
{
    if has_prefix(s, p) {
        assert forall|i: int| 0 <= i < p.len() implies s[i] == #[trigger] p[i] by {
            assert(s.subrange(0, p.len() as int)[i] == s[i]);
        }
    }
}

/// Reads the comparison an amount asks for (see `comparison_of`).
pub fn check_comparison(amount: &str) -> (r: ComparisonType)
    ensures
        r == comparison_of(amount@),
{
    proof {
        reveal_strlit(">=");
        reveal_strlit("<=");
        reveal_strlit(">");
        reveal_strlit("<");
        lemma_prefix_chars(amount@, ">="@);
        lemma_prefix_chars(amount@, "<="@);
        lemma_prefix_chars(amount@, ">"@);
        lemma_prefix_chars(amount@, "<"@);
        assert(">="@[0] == '>' && ">="@[1] == '=' && "<="@[0] == '<' && "<="@[1] == '=');
        assert(">"@[0] == '>' && "<"@[0] == '<');
    }
    let v = chars_of(amount);
    if v.len() >= 2 && v[0] == '>' && v[1] == '=' {
        assert(amount@.subrange(0, 2) =~= ">="@);
        ComparisonType::EqualOrBigger
    } else if v.len() >= 2 && v[0] == '<' && v[1] == '=' {
        assert(!has_prefix(amount@, ">="@));
        assert(amount@.subrange(0, 2) =~= "<="@);
        ComparisonType::EqualOrSmaller
    } else if v.len() >= 1 && v[0] == '>' {
        assert(!has_prefix(amount@, ">="@) && !has_prefix(amount@, "<="@));
        assert(amount@.subrange(0, 1) =~= ">"@);
        ComparisonType::BiggerThan
    } else if v.len() >= 1 && v[0] == '<' {
        assert(!has_prefix(amount@, ">="@) && !has_prefix(amount@, "<="@));
        assert(amount@.subrange(0, 1) =~= "<"@);
        ComparisonType::SmallerThan
    } else {
        assert(!has_prefix(amount@, ">="@) && !has_prefix(amount@, "<="@));
        assert(!has_prefix(amount@, ">"@) && !has_prefix(amount@, "<"@));
        ComparisonType::Equal
    }
}

impl ComparisonType {
    /// The symbol a comparison is typed with; none for an exact amount.
    pub open spec fn symbol_spec(self) -> Option<Seq<char>> {
        match self {
            ComparisonType::Equal => None,
            ComparisonType::BiggerThan => Some(">"@),
            ComparisonType::SmallerThan => Some("<"@),
            ComparisonType::EqualOrBigger => Some(">="@),
            ComparisonType::EqualOrSmaller => Some("<="@),
        }
    }

    /// The symbol a comparison is typed with; none for an exact amount.
    pub fn symbol(&self) -> (r: Option<&'static str>)
        ensures
            match r {
                Some(s) => self.symbol_spec() == Some(s@),
                None => self.symbol_spec() is None,
            },
    {
        match self {
            ComparisonType::Equal => None,
            ComparisonType::BiggerThan => Some(">"),
            ComparisonType::SmallerThan => Some("<"),
            ComparisonType::EqualOrBigger => Some(">="),
            ComparisonType::EqualOrSmaller => Some("<="),
        }
    }
}

/// The first position at or after `from` where a non-empty `p` occurs in `s`.
pub open spec fn find_text(s: Seq<char>, p: Seq<char>, from: int) -> Option<int>
    decreases s.len() - from,
{
    if from < 0 || p.len() == 0 || from + p.len() > s.len() {
        None
    } else if s.subrange(from, from + p.len()) == p {
        Some(from)
    } else {
        find_text(s, p, from + 1)
    }
}

/// The two methods of a transfer saved as "<from> to <to>": the first two
/// parts of the method split at " to "; none when it holds no " to ".
pub open spec fn transfer_sides_spec(m: Seq<char>) -> Option<(Seq<char>, Seq<char>)> {
    match find_text(m, " to "@, 0) {
        None => None,
        Some(i) => {
            let j = i + 4;
            let end = match find_text(m, " to "@, j) {
                Some(k) => k,
                None => m.len() as int,
            };
            Some((m.subrange(0, i), m.subrange(j, end)))
        },
    }
}

/// A position found lies where `p` occurs, at or after `from`.
pub proof fn lemma_found_text(s: Seq<char>, p: Seq<char>, from: int)
    ensures
        find_text(s, p, from) matches Some(i) ==> from <= i && i + p.len() <= s.len()
            && s.subrange(i, i + p.len()) == p,
    decreases s.len() - from,
{
    if !(from < 0 || p.len() == 0 || from + p.len() > s.len()) {
        if s.subrange(from, from + p.len()) != p {
            lemma_found_text(s, p, from + 1);
        }
    }
}

/// Searches a non-empty `p` in `s` from `from` on (see `find_text`).
fn find_from(sv: &Vec<char>, pv: &Vec<char>, from: usize) -> (r: Option<usize>)
    requires
        pv@.len() > 0,
        from <= sv@.len(),
    ensures
        match r {
            Some(i) => find_text(sv@, pv@, from as int) == Some(i as int),
            None => find_text(sv@, pv@, from as int) is None,
        },
{
    let mut i = from;
    while i < sv.len() && pv.len() <= sv.len() - i
        invariant
            from <= i <= sv@.len(),
            pv@.len() > 0,
            find_text(sv@, pv@, from as int) == find_text(sv@, pv@, i as int),
        decreases sv@.len() - i,
    {
        if matches_at(sv, pv, i) {
            return Some(i);
        }
        i = i + 1;
    }
    None
}

/// Splits the method of a transfer into its two methods (see
/// `transfer_sides_spec`).
pub fn transfer_sides(m: &str) -> (r: Option<(String, String)>)
    ensures
        match r {
            Some((a, b)) => transfer_sides_spec(m@) == Some((a@, b@)),
            None => transfer_sides_spec(m@) is None,
        },
{
    proof {
        reveal_strlit(" to ");
    }
    let sv = chars_of(m);
    let pv = chars_of(" to ");
    assert(pv@.len() == 4);
    let n = sv.len();
    match find_from(&sv, &pv, 0) {
        None => None,
        Some(i) => {
            proof {
                lemma_found_text(sv@, pv@, 0);
            }
            assert(i + 4 <= n);
            let j = i + 4;
            let end = match find_from(&sv, &pv, j) {
                Some(k) => k,
                None => sv.len(),
            };
            proof {
                lemma_found_text(sv@, pv@, j as int);
            }
            let mut a: Vec<char> = Vec::new();
            let mut k: usize = 0;
            while k < i
                invariant
                    k <= i,
                    i + 4 <= sv@.len(),
                    a@ == sv@.subrange(0, k as int),
                decreases i - k,
            {
                a.push(sv[k]);
                k = k + 1;
                assert(a@ =~= sv@.subrange(0, k as int));
            }
            let mut b: Vec<char> = Vec::new();
            let mut k: usize = j;
            while k < end
                invariant
                    j <= k <= end <= sv@.len(),
                    b@ == sv@.subrange(j as int, k as int),
                decreases end - k,
            {
                b.push(sv[k]);
                k = k + 1;
                assert(b@ =~= sv@.subrange(j as int, k as int));
            }
            Some((from_chars(&a), from_chars(&b)))
        },
    }
}

} // verus!
