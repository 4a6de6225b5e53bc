use crate::outputs::{AType, NAType, StepType, SteppingError, VerifyingOutput};
use crate::status_checks::{contains_text, has_substring, utf8_len};
use crate::text::byte_len;
use crate::text::{char_count, chars_of, lower, lowercase, str_eq, string_views, trim, trim_spec};
use crate::ui_state::{cyclic_next, cyclic_previous, lemma_cyclic_index};
use vstd::prelude::*;

verus! {

/// How many times a non-empty `p` occurs in `s`, counting from the left and
/// without overlaps (as std's `str::matches` counts them).
pub open spec fn count_occurrences(s: Seq<char>, p: Seq<char>) -> nat
    decreases s.len(),
{
    if p.len() == 0 || s.len() < p.len() {
        0
    } else if s.subrange(0, p.len() as int) == p {
        1 + count_occurrences(s.subrange(p.len() as int, s.len() as int), p)
    } else {
        count_occurrences(s.subrange(1, s.len() as int), p)
    }
}

/// Whether `a` ranks strictly above `b` for the typed text `t`: the number of
/// times `t` occurs in the lower case method, per byte of the method, is
/// larger.
pub open spec fn ranks_above(a: Seq<char>, b: Seq<char>, t: Seq<char>) -> bool {
    count_occurrences(lowercase(a), t) * byte_len(b) > count_occurrences(lowercase(b), t)
        * byte_len(a)
}

/// The index of the first of the first `k` methods equal to `t` up to case.
pub open spec fn first_same_case(methods: Seq<Seq<char>>, t: Seq<char>, k: int) -> Option<int>
    decreases k,
{
    if k <= 0 {
        None
    } else {
        match first_same_case(methods, t, k - 1) {
            Some(i) => Some(i),
            None => if lowercase(methods[k - 1]) == lowercase(t) {
                Some(k - 1)
            } else {
                None
            },
        }
    }
}

/// The first `k` methods whose lower case contains the lower case of `t`,
/// in order.
pub open spec fn candidates(methods: Seq<Seq<char>>, t: Seq<char>, k: int) -> Seq<Seq<char>>
    decreases k,
{
    if k <= 0 {
        Seq::empty()
    } else if has_substring(lowercase(methods[k - 1]), lowercase(t)) {
        candidates(methods, t, k - 1).push(methods[k - 1])
    } else {
        candidates(methods, t, k - 1)
    }
}

/// The best ranked of the first `k` candidates: the first one unless a later
/// one ranks strictly above the best so far.
pub open spec fn best_ranked(cands: Seq<Seq<char>>, t: Seq<char>, k: int) -> Seq<char>
    decreases k,
{
    if k <= 1 {
        cands[0]
    } else {
        let prev = best_ranked(cands, t, k - 1);
        if ranks_above(cands[k - 1], prev, t) {
            cands[k - 1]
        } else {
            prev
        }
    }
}

/// What checking a method against the known methods gives, with the method
/// afterwards. The text is trimmed; an empty text is left. A method equal up
/// to case is accepted and written as known. Otherwise the text becomes the
/// best ranked of the methods that contain it (up to case), or the first
/// method when none does.
pub open spec fn ranked_method_spec(s: Seq<char>, methods: Seq<Seq<char>>) -> (
    VerifyingOutput,
    Seq<char>,
) {
    let t = trim_spec(s);
    if t.len() == 0 {
        (VerifyingOutput::Nothing(AType::TxMethod), t)
    } else {
        match first_same_case(methods, t, methods.len() as int) {
            Some(i) => (VerifyingOutput::Accepted(AType::TxMethod), methods[i]),
            None => {
                let c = candidates(methods, t, methods.len() as int);
                (
                    VerifyingOutput::NotAccepted(NAType::InvalidTxMethod),
                    if c.len() == 0 {
                        methods[0]
                    } else {
                        best_ranked(c, t, c.len() as int)
                    },
                )
            },
        }
    }
}

/// Whether `p` occurs in `s` at position `i`.
pub fn matches_at(sv: &Vec<char>, pv: &Vec<char>, i: usize) -> (r: bool)
    requires
        i + pv@.len() <= sv@.len(),
    ensures
        r == (sv@.subrange(i as int, i + pv@.len()) == pv@),
{
    let n = sv.len();
    let mut j: usize = 0;
    let mut same = true;
    assert(sv@.subrange(i as int, i as int) =~= pv@.subrange(0, 0));
    while j < pv.len()
        invariant
            n == sv@.len(),
            i + pv@.len() <= sv@.len(),
            j <= pv@.len(),
            same == (sv@.subrange(i as int, i + j) == pv@.subrange(0, j as int)),
        decreases pv@.len() - j,
    {
        if sv[i + j] != pv[j] {
            if same {
                assert(sv@.subrange(i as int, i + j + 1)[j as int] != pv@.subrange(0, j + 1)[j as int]);
            }
            same = false;
        } else if same {
            assert(sv@.subrange(i as int, i + j + 1) =~= sv@.subrange(i as int, i + j).push(
                sv@[i + j],
            ));
            assert(pv@.subrange(0, j + 1) =~= pv@.subrange(0, j as int).push(pv@[j as int]));
        }
        if !same {
            assert(sv@.subrange(i as int, i + j + 1) != pv@.subrange(0, j + 1)) by {
                if sv@.subrange(i as int, i + j + 1) == pv@.subrange(0, j + 1) {
                    assert(sv@.subrange(i as int, i + j) =~= sv@.subrange(
                        i as int,
                        i + j + 1,
                    ).drop_last());
                    assert(pv@.subrange(0, j as int) =~= pv@.subrange(0, j + 1).drop_last());
                }
            }
        }
        j = j + 1;
    }
    assert(pv@.subrange(0, pv@.len() as int) =~= pv@);
    same
}

/// Counts the occurrences of a non-empty `p` in `s` (see
/// `count_occurrences`).
pub fn count_matches(s: &str, p: &str) -> (r: usize)
    requires
        p@.len() > 0,
    ensures
        r == count_occurrences(s@, p@),
{
    let sv = chars_of(s);
    let pv = chars_of(p);
    let n = sv.len();
    let mut count: usize = 0;
    let mut i: usize = 0;
    assert(sv@.subrange(0, sv@.len() as int) =~= sv@);
    while i < sv.len() && pv.len() <= sv.len() - i
        invariant
            sv@ == s@,
            pv@ == p@,
            n == sv@.len(),
            pv@.len() > 0,
            i <= sv@.len(),
            count <= i,
            count + count_occurrences(sv@.subrange(i as int, sv@.len() as int), pv@)
                == count_occurrences(sv@, pv@),
        decreases sv@.len() - i,
    {
        let ghost rest = sv@.subrange(i as int, sv@.len() as int);
        let same = matches_at(&sv, &pv, i);
        assert(rest.subrange(0, pv@.len() as int) =~= sv@.subrange(i as int, i + pv@.len()));
        if same {
            assert(rest.subrange(pv@.len() as int, rest.len() as int) =~= sv@.subrange(
                i + pv@.len(),
                sv@.len() as int,
            ));
            count = count + 1;
            i = i + pv.len();
        } else {
            assert(rest.subrange(1, rest.len() as int) =~= sv@.subrange(
                i + 1,
                sv@.len() as int,
            ));
            i = i + 1;
        }
    }
    assert(count_occurrences(sv@.subrange(i as int, sv@.len() as int), pv@) == 0);
    count
}

/// Once a method equal up to case is found, looking further finds the same.
proof fn lemma_first_same_case_stays(methods: Seq<Seq<char>>, t: Seq<char>, i: int, k: int)
    requires
        0 <= i < k,
        first_same_case(methods, t, i + 1) == Some(i),
    ensures
        first_same_case(methods, t, k) == Some(i),
    decreases k - i,
{
    if k > i + 1 {
        lemma_first_same_case_stays(methods, t, i, k - 1);
    }
}

proof fn lemma_product_fits(a: usize, b: usize)
    ensures
        (a as int) * (b as int) <= u128::MAX,
{
    assert((a as int) * (b as int) <= u128::MAX) by (nonlinear_arith)
        requires
            a <= 0xffff_ffff_ffff_ffffu64,
            b <= 0xffff_ffff_ffff_ffffu64,
    ;
}

/// Whether every method is short enough for its length in bytes to be
/// counted in a `usize`.
pub open spec fn methods_fit(methods: Seq<Seq<char>>) -> bool {
    forall|i: int| 0 <= i < methods.len() ==> #[trigger] methods[i].len() <= usize::MAX / 4
}

/// Checks a method against the known methods and corrects it (see
/// `ranked_method_spec`).
#[verifier::loop_isolation(false)]
pub fn verify_ranked_method(cu_method: &mut String, all_tx_methods: &Vec<String>) -> (r:
    VerifyingOutput)
    requires
        trim_spec(old(cu_method)@).len() > 0 ==> all_tx_methods@.len() > 0,
        methods_fit(all_tx_methods@.map_values(|m: String| m@)),
    ensures
        (r, final(cu_method)@) == ranked_method_spec(
            old(cu_method)@,
            all_tx_methods@.map_values(|m: String| m@),
        ),
{
    let ghost ms = all_tx_methods@.map_values(|m: String| m@);
    *cu_method = trim(cu_method.as_str());
    if char_count(cu_method.as_str()) == 0 {
        return VerifyingOutput::Nothing(AType::TxMethod);
    }
    let ghost t = cu_method@;
    let typed_lower = lower(cu_method.as_str());
    let mut k: usize = 0;
    while k < all_tx_methods.len()
        invariant
            k <= ms.len(),
            ms == all_tx_methods@.map_values(|m: String| m@),
            cu_method@ == t,
            t == trim_spec(old(cu_method)@),
            t.len() > 0,
            typed_lower@ == lowercase(cu_method@),
            first_same_case(ms, cu_method@, k as int) is None,
        decreases ms.len() - k,
    {
        let method_lower = lower(all_tx_methods[k].as_str());
        if str_eq(method_lower.as_str(), typed_lower.as_str()) {
            assert(ms[k as int] == all_tx_methods@[k as int]@);
            assert(lowercase(ms[k as int]) == lowercase(t));
            assert(first_same_case(ms, t, k as int) is None);
            assert(first_same_case(ms, t, k + 1) == Some(k as int));
            proof {
                lemma_first_same_case_stays(ms, t, k as int, ms.len() as int);
            }
            *cu_method = all_tx_methods[k].clone();
            return VerifyingOutput::Accepted(AType::TxMethod);
        }
        k = k + 1;
    }
    let mut cands: Vec<usize> = Vec::new();
    let mut k: usize = 0;
    while k < all_tx_methods.len()
        invariant
            k <= ms.len(),
            ms == all_tx_methods@.map_values(|m: String| m@),
            cu_method@ == t,
            t == trim_spec(old(cu_method)@),
            t.len() > 0,
            first_same_case(ms, t, ms.len() as int) is None,
            typed_lower@ == lowercase(cu_method@),
            cands@.len() == candidates(ms, cu_method@, k as int).len(),
            forall|j: int|
                0 <= j < cands@.len() ==> #[trigger] cands@[j] < k && ms[cands@[j] as int]
                    == candidates(ms, cu_method@, k as int)[j],
        decreases ms.len() - k,
    {
        let method_lower = lower(all_tx_methods[k].as_str());
        if contains_text(method_lower.as_str(), typed_lower.as_str()) {
            cands.push(k);
        }
        k = k + 1;
    }
    let ghost c = candidates(ms, cu_method@, ms.len() as int);
    assert(first_same_case(ms, cu_method@, ms.len() as int) is None);
    if cands.len() == 0 {
        assert(c.len() == 0);
        assert(ms[0] == all_tx_methods@[0]@);
        *cu_method = all_tx_methods[0].clone();
        assert(ranked_method_spec(old(cu_method)@, ms) == (
            VerifyingOutput::NotAccepted(NAType::InvalidTxMethod),
            ms[0],
        ));
        return VerifyingOutput::NotAccepted(NAType::InvalidTxMethod);
    }
    let mut best: usize = cands[0];
    let first_best = all_tx_methods[best].as_str();
    let first_lower = lower(first_best);
    let mut best_count = count_matches(first_lower.as_str(), cu_method.as_str());
    let mut best_len = utf8_len(first_best);
    let mut i: usize = 1;
    while i < cands.len()
        invariant
            1 <= i <= cands@.len(),
            cands@.len() == c.len(),
            forall|j: int| 0 <= j < cands@.len() ==> #[trigger] cands@[j] < ms.len(),
            forall|j: int| 0 <= j < cands@.len() ==> ms[#[trigger] cands@[j] as int] == c[j],
            best < ms.len(),
            ms[best as int] == best_ranked(c, cu_method@, i as int),
            best_count == count_occurrences(lowercase(ms[best as int]), cu_method@),
            best_len == byte_len(ms[best as int]),
        decreases cands@.len() - i,
    {
        let m = all_tx_methods[cands[i]].as_str();
        let ml = lower(m);
        let count = count_matches(ml.as_str(), cu_method.as_str());
        let len = utf8_len(m);
        assert(ms[cands@[i as int] as int] == c[i as int]);
        proof {
            lemma_product_fits(count, best_len);
            lemma_product_fits(best_count, len);
        }
        let left = (count as u128) * (best_len as u128);
        let right = (best_count as u128) * (len as u128);
        if left > right {
            best = cands[i];
            best_count = count;
            best_len = len;
        }
        i = i + 1;
    }
    *cu_method = all_tx_methods[best].clone();
    VerifyingOutput::NotAccepted(NAType::InvalidTxMethod)
}

/// The index of the first of the first `k` methods equal to `m`.
pub open spec fn first_index_of(methods: Seq<Seq<char>>, m: Seq<char>, k: int) -> Option<int>
    decreases k,
{
    if k <= 0 {
        None
    } else {
        match first_index_of(methods, m, k - 1) {
            Some(i) => Some(i),
            None => if methods[k - 1] == m {
                Some(k - 1)
            } else {
                None
            },
        }
    }
}

/// What stepping a method up or down gives, with the method afterwards. A
/// blank method starts from the first method. The method is checked first
/// (see `ranked_method_spec`); one that is not known stays corrected and the
/// step fails. A known method moves to the next (up) or previous (down)
/// method, wrapping around.
pub open spec fn step_method_spec(s: Seq<char>, step: StepType, methods: Seq<Seq<char>>) -> (
    Result<(), SteppingError>,
    Seq<char>,
) {
    let start = if trim_spec(s).len() == 0 {
        methods[0]
    } else {
        s
    };
    let (out, text) = ranked_method_spec(start, methods);
    match out {
        VerifyingOutput::NotAccepted(_) => (Err(SteppingError::InvalidTxMethod), text),
        _ => {
            let j = first_index_of(methods, text, methods.len() as int)->0;
            let n = match step {
                StepType::StepUp => cyclic_next(j, methods.len() as int),
                StepType::StepDown => cyclic_previous(j, methods.len() as int),
            };
            (Ok(()), methods[n])
        },
    }
}

/// Whether every method is non-blank once trimmed and short enough for its
/// length in bytes to be counted.
pub open spec fn methods_usable(methods: Seq<Seq<char>>) -> bool {
    methods.len() > 0 && methods_fit(methods) && forall|i: int|
        0 <= i < methods.len() ==> #[trigger] trim_spec(methods[i]).len() > 0
}

/// Once a method is found, looking further finds the same.
pub proof fn lemma_first_index_stays(methods: Seq<Seq<char>>, m: Seq<char>, i: int, k: int)
    requires
        0 <= i < k,
        first_index_of(methods, m, i + 1) == Some(i),
    ensures
        first_index_of(methods, m, k) == Some(i),
    decreases k - i,
{
    if k > i + 1 {
        lemma_first_index_stays(methods, m, i, k - 1);
    }
}

/// A method that is found lies among the methods and equals the method looked
/// for; a method of the list is always found.
pub proof fn lemma_first_index_found(methods: Seq<Seq<char>>, m: Seq<char>, k: int)
    requires
        0 <= k <= methods.len(),
    ensures
        first_index_of(methods, m, k) matches Some(i) ==> 0 <= i < k && methods[i] == m,
        (exists|i: int| 0 <= i < k && methods[i] == m) ==> first_index_of(methods, m, k) is Some,
    decreases k,
{
    if k > 0 {
        lemma_first_index_found(methods, m, k - 1);
        if first_index_of(methods, m, k - 1) is None && (exists|i: int|
            0 <= i < k && methods[i] == m) {
            let i = choose|i: int| 0 <= i < k && methods[i] == m;
            if i < k - 1 {
                assert(exists|i: int| 0 <= i < k - 1 && methods[i] == m);
            }
        }
    }
}

/// A method accepted by the check is one of the methods.
proof fn lemma_accepted_is_listed(s: Seq<char>, methods: Seq<Seq<char>>)
    requires
        ranked_method_spec(s, methods).0 is Accepted,
    ensures
        exists|i: int| 0 <= i < methods.len() && methods[i] == ranked_method_spec(s, methods).1,
{
    let t = trim_spec(s);
    lemma_first_same_case_found(methods, t, methods.len() as int);
    let i = first_same_case(methods, t, methods.len() as int)->0;
    assert(methods[i] == ranked_method_spec(s, methods).1);
}

proof fn lemma_first_same_case_found(methods: Seq<Seq<char>>, t: Seq<char>, k: int)
    requires
        0 <= k <= methods.len(),
    ensures
        first_same_case(methods, t, k) matches Some(i) ==> 0 <= i < k,
    decreases k,
{
    if k > 0 {
        lemma_first_same_case_found(methods, t, k - 1);
    }
}

/// Steps a method up or down through the known methods (see
/// `step_method_spec`).
pub fn step_tx_method(user_method: &mut String, step_type: StepType, all_tx_methods: &Vec<String>) -> (r:
    Result<(), SteppingError>)
    requires
        methods_usable(string_views(all_tx_methods@)),
    ensures
        (r, final(user_method)@) == step_method_spec(
            old(user_method)@,
            step_type,
            string_views(all_tx_methods@),
        ),
{
    let ghost ms = string_views(all_tx_methods@);
    let trimmed = trim(user_method.as_str());
    if char_count(trimmed.as_str()) == 0 {
        *user_method = all_tx_methods[0].clone();
    }
    let ghost start = user_method@;
    let status = verify_ranked_method(user_method, all_tx_methods);
    match status {
        VerifyingOutput::NotAccepted(_) => {
            return Err(SteppingError::InvalidTxMethod);
        },
        _ => {},
    }
    proof {
        if trim_spec(start).len() == 0 {
            assert(start == ms[0]);
            assert(trim_spec(ms[0]).len() > 0);
        }
        lemma_accepted_is_listed(start, ms);
        lemma_first_index_found(ms, user_method@, ms.len() as int);
    }
    let n = all_tx_methods.len();
    let mut j: usize = 0;
    while j < n
        invariant
            n == ms.len(),
            ms == string_views(all_tx_methods@),
            j <= n,
            first_index_of(ms, user_method@, j as int) is None,
            first_index_of(ms, user_method@, n as int) is Some,
        ensures
            j < n,
            ms[j as int] == user_method@,
            first_index_of(ms, user_method@, j as int) is None,
        decreases n - j,
    {
        if str_eq(all_tx_methods[j].as_str(), user_method.as_str()) {
            break;
        }
        j = j + 1;
    }
    proof {
        assert(first_index_of(ms, user_method@, j + 1) == Some(j as int));
        lemma_first_index_stays(ms, user_method@, j as int, n as int);
        lemma_cyclic_index(j as int, n as int);
    }
    let next: usize = match step_type {
        StepType::StepUp => if j + 1 < n {
            j + 1
        } else {
            0
        },
        StepType::StepDown => if j > 0 {
            j - 1
        } else {
            n - 1
        },
    };
    proof {
        if j + 1 >= n {
            vstd::arithmetic::div_mod::lemma_mod_self_0(n as int);
        } else {
            vstd::arithmetic::div_mod::lemma_small_mod((j + 1) as nat, n as nat);
        }
    }
    *user_method = all_tx_methods[next].clone();
    Ok(())
}

/// Whether every method is already trimmed and not empty.
pub open spec fn methods_trimmed(methods: Seq<Seq<char>>) -> bool {
    forall|i: int|
        0 <= i < methods.len() ==> #[trigger] trim_spec(methods[i]) == methods[i]
            && methods[i].len() > 0
}

/// Whether no two methods are equal up to case.
pub open spec fn distinct_up_to_case(methods: Seq<Seq<char>>) -> bool {
    forall|i: int, j: int|
        0 <= i < methods.len() && 0 <= j < methods.len() && i != j ==> lowercase(
            #[trigger] methods[i],
        ) != lowercase(#[trigger] methods[j])
}

/// A method equal up to case to one of the first `k` methods is found.
proof fn lemma_same_case_found(methods: Seq<Seq<char>>, t: Seq<char>, j: int, k: int)
    requires
        0 <= j < k <= methods.len(),
        lowercase(methods[j]) == lowercase(t),
    ensures
        first_same_case(methods, t, k) is Some,
    decreases k,
{
    if j < k - 1 {
        lemma_same_case_found(methods, t, j, k - 1);
    }
}

/// Among methods distinct up to case, the method found for `methods[j]` is
/// `methods[j]` itself.
proof fn lemma_same_case_is_itself(methods: Seq<Seq<char>>, j: int, k: int)
    requires
        0 <= j < k <= methods.len(),
        distinct_up_to_case(methods),
    ensures
        first_same_case(methods, methods[j], k) == Some(j),
    decreases k,
{
    if j < k - 1 {
        lemma_same_case_is_itself(methods, j, k - 1);
    } else {
        lemma_no_same_case_before(methods, j, j);
    }
}

proof fn lemma_no_same_case_before(methods: Seq<Seq<char>>, j: int, k: int)
    requires
        0 <= k <= j < methods.len(),
        distinct_up_to_case(methods),
    ensures
        first_same_case(methods, methods[j], k) is None,
    decreases k,
{
    if k > 0 {
        lemma_no_same_case_before(methods, j, k - 1);
        assert(lowercase(methods[k - 1]) != lowercase(methods[j]));
    }
}

/// Among methods distinct up to case, `methods[j]` is found at `j`.
proof fn lemma_index_is_itself(methods: Seq<Seq<char>>, j: int, k: int)
    requires
        0 <= j < k <= methods.len(),
        distinct_up_to_case(methods),
    ensures
        first_index_of(methods, methods[j], k) == Some(j),
    decreases k,
{
    if j < k - 1 {
        lemma_index_is_itself(methods, j, k - 1);
    } else {
        lemma_no_index_before(methods, j, j);
    }
}

proof fn lemma_no_index_before(methods: Seq<Seq<char>>, j: int, k: int)
    requires
        0 <= k <= j < methods.len(),
        distinct_up_to_case(methods),
    ensures
        first_index_of(methods, methods[j], k) is None,
    decreases k,
{
    if k > 0 {
        lemma_no_index_before(methods, j, k - 1);
        assert(lowercase(methods[k - 1]) != lowercase(methods[j]));
    }
}

/// The candidates are methods.
proof fn lemma_candidates_listed(methods: Seq<Seq<char>>, t: Seq<char>, k: int)
    requires
        0 <= k <= methods.len(),
    ensures
        forall|i: int|
            0 <= i < candidates(methods, t, k).len() ==> exists|j: int|
                0 <= j < methods.len() && methods[j] == #[trigger] candidates(methods, t, k)[i],
    decreases k,
{
    if k > 0 {
        lemma_candidates_listed(methods, t, k - 1);
        let c = candidates(methods, t, k);
        let c0 = candidates(methods, t, k - 1);
        assert forall|i: int| 0 <= i < c.len() implies exists|j: int|
            0 <= j < methods.len() && methods[j] == #[trigger] c[i] by {
            if i < c0.len() {
                assert(c[i] == c0[i]);
            } else {
                assert(methods[k - 1] == c[i]);
            }
        }
    }
}

/// The best ranked candidate is one of the candidates.
proof fn lemma_best_ranked_listed(cands: Seq<Seq<char>>, t: Seq<char>, k: int)
    requires
        1 <= k <= cands.len(),
    ensures
        exists|i: int| 0 <= i < k && cands[i] == best_ranked(cands, t, k),
    decreases k,
{
    if k > 1 {
        lemma_best_ranked_listed(cands, t, k - 1);
    } else {
        assert(cands[0] == best_ranked(cands, t, 1));
    }
}

/// After a check, the method is one of the known methods or empty.
proof fn lemma_checked_is_listed(s: Seq<char>, methods: Seq<Seq<char>>)
    requires
        methods.len() > 0,
        trim_spec(s).len() > 0,
    ensures
        exists|j: int| 0 <= j < methods.len() && methods[j] == ranked_method_spec(s, methods).1,
{
    let t = trim_spec(s);
    lemma_first_same_case_found(methods, t, methods.len() as int);
    match first_same_case(methods, t, methods.len() as int) {
        Some(i) => {
            assert(methods[i] == ranked_method_spec(s, methods).1);
        },
        None => {
            let c = candidates(methods, t, methods.len() as int);
            if c.len() == 0 {
                assert(methods[0] == ranked_method_spec(s, methods).1);
            } else {
                lemma_best_ranked_listed(c, t, c.len() as int);
                let i = choose|i: int| 0 <= i < c.len() && c[i] == best_ranked(c, t, c.len() as int);
                lemma_candidates_listed(methods, t, methods.len() as int);
                assert(exists|j: int| 0 <= j < methods.len() && methods[j] == c[i]);
            }
        },
    }
}

/// Checking a method that is not blank twice: the second check accepts the
/// method the first one left, when the known methods are trimmed.
pub proof fn lemma_second_check_accepts(s: Seq<char>, methods: Seq<Seq<char>>)
    requires
        methods.len() > 0,
        methods_trimmed(methods),
        trim_spec(s).len() > 0,
    ensures
        ranked_method_spec(ranked_method_spec(s, methods).1, methods).0 is Accepted,
{
    lemma_checked_is_listed(s, methods);
    let r = ranked_method_spec(s, methods).1;
    let j = choose|j: int| 0 <= j < methods.len() && methods[j] == r;
    assert(trim_spec(methods[j]) == methods[j]);
    lemma_same_case_found(methods, r, j, methods.len() as int);
}

/// Stepping a known method up and then down (or down and then up) gives it
/// back, when the known methods are trimmed and distinct up to case.
pub proof fn lemma_method_steps_undo(methods: Seq<Seq<char>>, j: int)
    requires
        methods_trimmed(methods),
        distinct_up_to_case(methods),
        0 <= j < methods.len(),
    ensures
        step_method_spec(methods[j], StepType::StepUp, methods).0 is Ok,
        step_method_spec(methods[j], StepType::StepDown, methods).0 is Ok,
        step_method_spec(
            step_method_spec(methods[j], StepType::StepUp, methods).1,
            StepType::StepDown,
            methods,
        ) == (Ok::<(), SteppingError>(()), methods[j]),
        step_method_spec(
            step_method_spec(methods[j], StepType::StepDown, methods).1,
            StepType::StepUp,
            methods,
        ) == (Ok::<(), SteppingError>(()), methods[j]),
{
    let n = methods.len() as int;
    lemma_cyclic_index(j, n);
    lemma_lands_on(methods, j);
    let up = cyclic_next(j, n);
    let down = cyclic_previous(j, n);
    lemma_lands_on(methods, up);
    lemma_lands_on(methods, down);
}

/// Stepping `methods[j]` moves to the next or previous index.
proof fn lemma_lands_on(methods: Seq<Seq<char>>, j: int)
    requires
        methods_trimmed(methods),
        distinct_up_to_case(methods),
        0 <= j < methods.len(),
    ensures
        step_method_spec(methods[j], StepType::StepUp, methods) == (
            Ok::<(), SteppingError>(()),
            methods[cyclic_next(j, methods.len() as int)],
        ),
        step_method_spec(methods[j], StepType::StepDown, methods) == (
            Ok::<(), SteppingError>(()),
            methods[cyclic_previous(j, methods.len() as int)],
        ),
{
    assert(methods_trimmed(methods));
    assert(trim_spec(methods[j]) == methods[j]);
    assert(methods[j].len() > 0);
    lemma_same_case_is_itself(methods, j, methods.len() as int);
    lemma_index_is_itself(methods, j, methods.len() as int);
}

/// A text that is not empty has at least one byte.
proof fn lemma_bytes_positive(s: Seq<char>)
    requires
        s.len() > 0,
    ensures
        byte_len(s) > 0,
{
}

/// The candidates are methods, so none is empty when no method is.
proof fn lemma_candidates_nonempty(methods: Seq<Seq<char>>, t: Seq<char>, k: int)
    requires
        0 <= k <= methods.len(),
        forall|i: int| 0 <= i < methods.len() ==> #[trigger] methods[i].len() > 0,
    ensures
        forall|j: int|
            0 <= j < candidates(methods, t, k).len() ==> #[trigger] candidates(methods, t, k)[j].len()
                > 0,
    decreases k,
{
    if k > 0 {
        lemma_candidates_nonempty(methods, t, k - 1);
        let prev = candidates(methods, t, k - 1);
        assert(methods[k - 1].len() > 0);
        if has_substring(lowercase(methods[k - 1]), lowercase(t)) {
            let c = prev.push(methods[k - 1]);
            assert(candidates(methods, t, k) == c);
            assert forall|j: int| 0 <= j < c.len() implies #[trigger] c[j].len() > 0 by {
                if j < prev.len() {
                    assert(c[j] == prev[j]);
                }
            }
        }
    }
}

/// No one of the first `k` candidates ranks above the best ranked of them.
proof fn lemma_best_ranked_top(cands: Seq<Seq<char>>, t: Seq<char>, k: int)
    requires
        1 <= k <= cands.len(),
        forall|i: int| 0 <= i < cands.len() ==> #[trigger] byte_len(cands[i]) > 0,
    ensures
        byte_len(best_ranked(cands, t, k)) > 0,
        forall|j: int|
            0 <= j < k ==> !ranks_above(#[trigger] cands[j], best_ranked(cands, t, k), t),
    decreases k,
{
    if k > 1 {
        lemma_best_ranked_top(cands, t, k - 1);
        let prev = best_ranked(cands, t, k - 1);
        let last = cands[k - 1];
        assert(byte_len(last) > 0);
        if ranks_above(last, prev, t) {
            let cn = count_occurrences(lowercase(last), t);
            let bn = byte_len(last);
            let cp = count_occurrences(lowercase(prev), t);
            let bp = byte_len(prev);
            assert forall|j: int| 0 <= j < k implies !ranks_above(
                #[trigger] cands[j],
                best_ranked(cands, t, k),
                t,
            ) by {
                if j < k - 1 {
                    let cj = count_occurrences(lowercase(cands[j]), t);
                    let bj = byte_len(cands[j]);
                    assert(!ranks_above(cands[j], prev, t));
                    assert(cj * bn <= cn * bj) by (nonlinear_arith)
                        requires
                            cj * bp <= cp * bj,
                            cn * bp > cp * bn,
                            bp > 0,
                            bj > 0,
                            bn > 0,
                            cj >= 0,
                            cp >= 0,
                            cn >= 0,
                    ;
                }
            }
        }
    } else {
        assert(byte_len(cands[0]) > 0);
    }
}

/// A typed method that is neither known nor empty is replaced by the method
/// the typed text occurs in most often per byte of the method: among the
/// methods that contain the text (up to case), none has more occurrences of
/// the text per byte than the method chosen. So a short method wins over a
/// long one with the same number of occurrences.
pub proof fn lemma_ranked_method_share(s: Seq<char>, methods: Seq<Seq<char>>)
    requires
        forall|i: int| 0 <= i < methods.len() ==> #[trigger] methods[i].len() > 0,
        trim_spec(s).len() > 0,
        first_same_case(methods, trim_spec(s), methods.len() as int) is None,
        candidates(methods, trim_spec(s), methods.len() as int).len() > 0,
    ensures
        ({
            let t = trim_spec(s);
            let c = candidates(methods, t, methods.len() as int);
            let r = ranked_method_spec(s, methods).1;
            forall|j: int|
                0 <= j < c.len() ==> count_occurrences(lowercase(#[trigger] c[j]), t) * byte_len(r)
                    <= count_occurrences(lowercase(r), t) * byte_len(c[j])
        }),
{
    let t = trim_spec(s);
    let c = candidates(methods, t, methods.len() as int);
    lemma_candidates_nonempty(methods, t, methods.len() as int);
    assert forall|i: int| 0 <= i < c.len() implies #[trigger] byte_len(c[i]) > 0 by {
        lemma_bytes_positive(c[i]);
    }
    lemma_best_ranked_top(c, t, c.len() as int);
    let r = best_ranked(c, t, c.len() as int);
    assert forall|j: int| 0 <= j < c.len() implies count_occurrences(
        lowercase(#[trigger] c[j]),
        t,
    ) * byte_len(r) <= count_occurrences(lowercase(r), t) * byte_len(c[j]) by {
        assert(!ranks_above(c[j], r, t));
    }
}

} // verus!
