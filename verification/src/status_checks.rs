use crate::text::{
    all_ascii, ascii_lower, byte_len, utf8_width, char_count, chars_of, from_chars, lower,
    lowercase, owned, str_eq, string_views, trim, trim_end, trim_spec, trim_start, white_space,
    lemma_trim_end_back, lemma_trim_start_front,
};
use vstd::prelude::*;

verus! {

/// Whether `needle` occurs in `hay` as a run of consecutive characters.
pub open spec fn has_substring(hay: Seq<char>, needle: Seq<char>) -> bool {
    exists|i: int| 0 <= i <= hay.len() - needle.len() && #[trigger] hay.subrange(i, i + needle.len()) == needle
}

/// Whether `needle` occurs in `hay` (as std's `str::contains` with a string).
pub fn contains_text(hay: &str, needle: &str) -> (r: bool)
    ensures
        r == has_substring(hay@, needle@),
{
    let h = chars_of(hay);
    let n = chars_of(needle);
    if n.len() > h.len() {
        return false;
    }
    let mut i: usize = 0;
    while i <= h.len() - n.len()
        invariant
            n@.len() <= h@.len() <= usize::MAX,
            h@ == hay@,
            n@ == needle@,
            i <= h@.len() - n@.len() + 1,
            forall|k: int| 0 <= k < i ==> #[trigger] h@.subrange(k, k + n@.len()) != n@,
        decreases h@.len() - n@.len() + 1 - i,
    {
        let mut j: usize = 0;
        let mut same = true;
        while j < n.len()
            invariant
                h@ == hay@,
                n@ == needle@,
                i + n@.len() <= h@.len() <= usize::MAX,
                j <= n@.len(),
                same == (forall|k: int| 0 <= k < j ==> h@[i + k] == n@[k]),
            decreases n@.len() - j,
        {
            if h[i + j] != n[j] {
                same = false;
            }
            j = j + 1;
        }
        if same {
            assert(h@.subrange(i as int, i + n@.len()) =~= n@);
            return true;
        }
        assert(h@.subrange(i as int, i + n@.len()) != n@) by {
            let k = choose|k: int| 0 <= k < n@.len() && h@[i + k] != n@[k];
            assert(h@.subrange(i as int, i + n@.len())[k] == h@[i + k]);
        }
        i = i + 1;
    }
    assert(!has_substring(hay@, needle@)) by {
        if has_substring(hay@, needle@) {
            let k = choose|k: int| 0 <= k <= hay@.len() - needle@.len() && #[trigger] hay@.subrange(
                k,
                k + needle@.len(),
            ) == needle@;
            assert(h@.subrange(k, k + n@.len()) != n@);
        }
    }
    false
}

/// The number of characters of `method` whose lower case occurs in the lower
/// case of the typed text.
pub open spec fn matching_chars(method: Seq<char>, typed_lower: Seq<char>) -> nat
    decreases method.len(),
{
    if method.len() == 0 {
        0
    } else {
        matching_chars(method.drop_last(), typed_lower) + if has_substring(
            typed_lower,
            lowercase(seq![method.last()]),
        ) {
            1nat
        } else {
            0nat
        }
    }
}

/// The byte length of a text in UTF-8.
pub fn utf8_len(s: &str) -> (r: usize)
    requires
        s@.len() <= usize::MAX / 4,
    ensures
        r == byte_len(s@),
        r <= 4 * s@.len(),
{
    let v = chars_of(s);
    let mut total: usize = 0;
    let mut i: usize = 0;
    while i < v.len()
        invariant
            i <= v@.len() <= usize::MAX / 4,
            v@ == s@,
            total == byte_len(v@.subrange(0, i as int)),
            total <= 4 * i,
        decreases v@.len() - i,
    {
        let c = v[i] as u32;
        let w: usize = if c < 0x80 {
            1
        } else if c < 0x800 {
            2
        } else if c < 0x10000 {
            3
        } else {
            4
        };
        assert(v@.subrange(0, i + 1).drop_last() =~= v@.subrange(0, i as int));
        total = total + w;
        i = i + 1;
    }
    assert(v@.subrange(0, v@.len() as int) =~= v@);
    total
}

/// How well a method matches the typed text, in whole percent of its bytes
/// (integer division).
pub open spec fn match_chance(method: Seq<char>, typed: Seq<char>) -> nat {
    (100 * matching_chars(method, lowercase(typed))) / byte_len(method)
}

/// The best matching method among the first `k` methods, with its chance:
/// the first method is the default with chance 0, and a later (trimmed)
/// method replaces the current best only with a strictly higher chance.
pub open spec fn best_match(methods: Seq<Seq<char>>, typed: Seq<char>, k: int) -> (Seq<char>, nat)
    decreases k,
{
    if k <= 0 {
        (methods[0], 0)
    } else {
        let (best, chance) = best_match(methods, typed, k - 1);
        let m = trim_spec(methods[k - 1]);
        let c = match_chance(m, typed);
        if c > chance {
            (m, c)
        } else {
            (best, chance)
        }
    }
}

/// Whether every method is non-empty once trimmed (and of a length that
/// percentages of it can be computed in a `usize`).
pub open spec fn methods_nonblank(methods: Seq<Seq<char>>) -> bool {
    forall|i: int|
        0 <= i < methods.len() ==> #[trigger] trim_spec(methods[i]).len() > 0 && methods[i].len()
            <= usize::MAX / 400
}

/// What checking a transaction method gives: the status message and the
/// (possibly corrected) method. The text is trimmed; an empty text is left;
/// a known method is accepted; anything else is replaced by the best
/// matching method.
pub open spec fn verify_tx_method_spec(s: Seq<char>, methods: Seq<Seq<char>>) -> (Seq<char>, Seq<char>) {
    let t = trim_spec(s);
    if t.len() == 0 {
        ("TX Method: Nothing to check"@, t)
    } else if methods.contains(t) {
        ("TX Method: Transaction Method Accepted"@, t)
    } else {
        ("TX Method: Transaction Method not found"@, best_match(methods, t, methods.len() as int).0)
    }
}

fn count_matching(method: &str, typed_lower: &str) -> (r: usize)
    ensures
        r == matching_chars(method@, typed_lower@),
{
    let v = chars_of(method);
    let mut total: usize = 0;
    let mut i: usize = 0;
    while i < v.len()
        invariant
            i <= v@.len(),
            v@ == method@,
            total == matching_chars(v@.subrange(0, i as int), typed_lower@),
            total <= i,
        decreases v@.len() - i,
    {
        let one = from_chars(&[v[i]]);
        assert(one@ =~= seq![v@[i as int]]);
        let l = lower(one.as_str());
        assert(v@.subrange(0, i + 1).drop_last() =~= v@.subrange(0, i as int));
        if contains_text(typed_lower, l.as_str()) {
            total = total + 1;
        }
        i = i + 1;
    }
    assert(v@.subrange(0, v@.len() as int) =~= v@);
    total
}

/// Checks a transaction method against the known methods (see
/// `verify_tx_method_spec`) and returns the status message.
#[verifier::loop_isolation(false)]
pub fn verify_tx_method(cu_method: &mut String, all_tx_methods: &Vec<String>) -> (r: String)
    requires
        trim_spec(old(cu_method)@).len() > 0 ==> all_tx_methods@.len() > 0,
        methods_nonblank(string_views(all_tx_methods@)),
    ensures
        (r@, final(cu_method)@) == verify_tx_method_spec(
            old(cu_method)@,
            string_views(all_tx_methods@),
        ),
{
    let ghost ms = string_views(all_tx_methods@);
    *cu_method = trim(cu_method.as_str());
    if char_count(cu_method.as_str()) == 0 {
        return owned("TX Method: Nothing to check");
    }
    let mut k: usize = 0;
    while k < all_tx_methods.len()
        invariant
            k <= all_tx_methods@.len(),
            ms == string_views(all_tx_methods@),
            forall|j: int| 0 <= j < k ==> ms[j] != cu_method@,
        decreases all_tx_methods@.len() - k,
    {
        if str_eq(all_tx_methods[k].as_str(), cu_method.as_str()) {
            assert(ms[k as int] == cu_method@);
            assert(ms.contains(cu_method@));
            return owned("TX Method: Transaction Method Accepted");
        }
        k = k + 1;
    }
    assert(!ms.contains(cu_method@));
    let typed_lower = lower(cu_method.as_str());
    let mut current_match = all_tx_methods[0].clone();
    let mut current_chance: usize = 0;
    let mut k: usize = 0;
    while k < all_tx_methods.len()
        invariant
            k <= all_tx_methods@.len(),
            ms == string_views(all_tx_methods@),
            methods_nonblank(ms),
            typed_lower@ == lowercase(cu_method@),
            (current_match@, current_chance as nat) == best_match(ms, cu_method@, k as int),
            current_chance <= 100,
        decreases all_tx_methods@.len() - k,
    {
        let method = trim(all_tx_methods[k].as_str());
        assert(method@ == trim_spec(ms[k as int]));
        let total = count_matching(method.as_str(), typed_lower.as_str());
        proof {
            lemma_trim_shorter(ms[k as int]);
        }
        let n = utf8_len(method.as_str());
        proof {
            lemma_matching_at_most_bytes(method@, typed_lower@);
            vstd::arithmetic::div_mod::lemma_div_is_ordered(
                (100 * total) as int,
                (100 * n) as int,
                n as int,
            );
            vstd::arithmetic::div_mod::lemma_div_multiples_vanish(100, n as int);
        }
        let chance = (100 * total) / n;
        if chance > current_chance {
            current_match = method;
            current_chance = chance;
        }
        k = k + 1;
    }
    *cu_method = current_match;
    owned("TX Method: Transaction Method not found")
}

/// A text has at least as many bytes as characters.
proof fn lemma_matching_at_most_bytes(method: Seq<char>, typed_lower: Seq<char>)
    ensures
        matching_chars(method, typed_lower) <= method.len(),
        method.len() <= byte_len(method),
    decreases method.len(),
{
    if method.len() > 0 {
        lemma_matching_at_most_bytes(method.drop_last(), typed_lower);
        lemma_bytes_at_least_chars(method);
    }
}

proof fn lemma_bytes_at_least_chars(s: Seq<char>)
    ensures
        s.len() <= byte_len(s),
    decreases s.len(),
{
    if s.len() > 0 {
        lemma_bytes_at_least_chars(s.drop_last());
    }
}

/// The best match is the first method or one of the later methods trimmed.
proof fn lemma_best_match_listed(methods: Seq<Seq<char>>, typed: Seq<char>, k: int)
    requires
        0 <= k <= methods.len(),
        methods.len() > 0,
    ensures
        best_match(methods, typed, k).0 == methods[0] || exists|j: int|
            0 <= j < k && best_match(methods, typed, k).0 == trim_spec(methods[j]),
    decreases k,
{
    if k > 0 {
        lemma_best_match_listed(methods, typed, k - 1);
    }
}

/// Checking a method that is not blank twice: the second check accepts the
/// method the first one left, when the known methods are trimmed.
pub proof fn lemma_second_status_check_accepts(s: Seq<char>, methods: Seq<Seq<char>>)
    requires
        methods.len() > 0,
        forall|i: int| 0 <= i < methods.len() ==> #[trigger] trim_spec(methods[i]) == methods[i],
        trim_spec(s).len() > 0,
        methods_nonblank(methods),
    ensures
        verify_tx_method_spec(verify_tx_method_spec(s, methods).1, methods).0
            == "TX Method: Transaction Method Accepted"@,
{
    let t = trim_spec(s);
    let r = verify_tx_method_spec(s, methods).1;
    if methods.contains(t) {
        let j = choose|j: int| 0 <= j < methods.len() && methods[j] == t;
        assert(trim_spec(methods[j]) == methods[j]);
        assert(trim_spec(r) == r);
        assert(methods.contains(trim_spec(r)));
    } else {
        lemma_best_match_listed(methods, t, methods.len() as int);
        if r == methods[0] {
            assert(trim_spec(methods[0]) == methods[0]);
            assert(methods.contains(trim_spec(r)));
        } else {
            let j = choose|j: int| 0 <= j < methods.len() && r == trim_spec(methods[j]);
            assert(trim_spec(methods[j]) == methods[j]);
            assert(methods.contains(trim_spec(r)));
        }
        assert(methods[0].len() > 0) by {
            assert(trim_spec(methods[0]).len() > 0);
        }
    }
}

/// Trimming never makes a text longer.
pub proof fn lemma_trim_shorter(s: Seq<char>)
    ensures
        trim_spec(s).len() <= s.len(),
{
    lemma_trim_start_shorter(s);
    lemma_trim_end_shorter(crate::text::trim_start(s));
}

proof fn lemma_trim_start_shorter(s: Seq<char>)
    ensures
        crate::text::trim_start(s).len() <= s.len(),
    decreases s.len(),
{
    if s.len() > 0 {
        lemma_trim_start_shorter(s.drop_first());
    }
}

proof fn lemma_trim_end_shorter(s: Seq<char>)
    ensures
        crate::text::trim_end(s).len() <= s.len(),
    decreases s.len(),
{
    if s.len() > 0 {
        lemma_trim_end_shorter(s.drop_last());
    }
}

/// What checking a transaction type gives on the entry pages: the status
/// message and the text. The text is trimmed; when its lower case starts with
/// 'e' or 'i' it becomes "Expense" or "Income"; anything else is kept and
/// reported as not acceptable.
pub open spec fn status_tx_type_spec(s: Seq<char>) -> (Seq<char>, Seq<char>) {
    let t = trim_spec(s);
    if t.len() == 0 {
        ("TX Type: Nothing to check"@, t)
    } else {
        let l = trim_spec(lowercase(t));
        if l.len() > 0 && l[0] == 'e' {
            ("TX Type: Transaction Type Accepted"@, "Expense"@)
        } else if l.len() > 0 && l[0] == 'i' {
            ("TX Type: Transaction Type Accepted"@, "Income"@)
        } else {
            ("TX Type: Transaction Type not acceptable. Values: Expense/Income/E/I"@, t)
        }
    }
}

/// Checks a transaction type on the entry pages (see `status_tx_type_spec`).
pub fn status_verify_tx_type(tx_type: &mut String) -> (r: String)
    ensures
        (r@, final(tx_type)@) == status_tx_type_spec(old(tx_type)@),
{
    *tx_type = trim(tx_type.as_str());
    if char_count(tx_type.as_str()) == 0 {
        return owned("TX Type: Nothing to check");
    }
    let lowered = lower(tx_type.as_str());
    let l = trim(lowered.as_str());
    let lv = chars_of(l.as_str());
    if lv.len() > 0 && lv[0] == 'e' {
        *tx_type = owned("Expense");
        owned("TX Type: Transaction Type Accepted")
    } else if lv.len() > 0 && lv[0] == 'i' {
        *tx_type = owned("Income");
        owned("TX Type: Transaction Type Accepted")
    } else {
        owned("TX Type: Transaction Type not acceptable. Values: Expense/Income/E/I")
    }
}

/// A text whose first character is not white space keeps it first when
/// trimmed.
proof fn lemma_trim_keeps_first(l: Seq<char>)
    requires
        l.len() > 0,
        !white_space(l[0]),
    ensures
        trim_spec(l).len() > 0,
        trim_spec(l)[0] == l[0],
{
    assert(trim_start(l) == l);
    lemma_trim_end_back(l);
}

/// The type check of the entry pages ignores case and the white space around
/// the type: an ASCII type whose first character is 'e' or 'E' is accepted
/// as "Expense", and one whose first character is 'i' or 'I' as "Income".
pub proof fn lemma_status_type_ignores_case(s: Seq<char>)
    requires
        trim_spec(s).len() > 0,
        all_ascii(trim_spec(s)),
    ensures
        trim_spec(s)[0] == 'e' || trim_spec(s)[0] == 'E' ==> status_tx_type_spec(s) == (
            "TX Type: Transaction Type Accepted"@,
            "Expense"@,
        ),
        trim_spec(s)[0] == 'i' || trim_spec(s)[0] == 'I' ==> status_tx_type_spec(s) == (
            "TX Type: Transaction Type Accepted"@,
            "Income"@,
        ),
{
    let t = trim_spec(s);
    let l = lowercase(t);
    assert(l == t.map_values(|c: char| ascii_lower(c)));
    assert(l.len() == t.len());
    assert(l[0] == ascii_lower(t[0]));
    if t[0] == 'e' || t[0] == 'E' {
        assert(l[0] == 'e');
        lemma_trim_keeps_first(l);
    }
    if t[0] == 'i' || t[0] == 'I' {
        assert(l[0] == 'i');
        lemma_trim_keeps_first(l);
    }
}

/// A type the entry pages accept is accepted again, as it is.
pub proof fn lemma_status_type_settles(s: Seq<char>)
    requires
        status_tx_type_spec(s).0 == "TX Type: Transaction Type Accepted"@,
    ensures
        status_tx_type_spec(status_tx_type_spec(s).1) == status_tx_type_spec(s),
{
    reveal_strlit("TX Type: Transaction Type Accepted");
    reveal_strlit("TX Type: Nothing to check");
    reveal_strlit("TX Type: Transaction Type not acceptable. Values: Expense/Income/E/I");
    reveal_strlit("Expense");
    reveal_strlit("Income");
    let r = status_tx_type_spec(s).1;
    assert(r == "Expense"@ || r == "Income"@) by {
        assert("TX Type: Nothing to check"@.len() != "TX Type: Transaction Type Accepted"@.len());
        assert("TX Type: Transaction Type not acceptable. Values: Expense/Income/E/I"@.len()
            != "TX Type: Transaction Type Accepted"@.len());
    }
    assert(!white_space(r[0]) && r.len() > 0);
    assert(trim_start(r) == r);
    assert(!white_space(r.last()));
    assert(trim_end(r) == r);
    assert(trim_spec(r) == r);
    assert(all_ascii(r));
    lemma_status_type_ignores_case(r);
}

/// The best match among the first `k` methods scores at least what it is
/// kept with, and that is at least the score of each of those methods.
proof fn lemma_best_match_highest(methods: Seq<Seq<char>>, typed: Seq<char>, k: int)
    requires
        0 <= k <= methods.len(),
    ensures
        best_match(methods, typed, k).1 <= match_chance(best_match(methods, typed, k).0, typed),
        forall|j: int|
            0 <= j < k ==> #[trigger] match_chance(trim_spec(methods[j]), typed) <= best_match(
                methods,
                typed,
                k,
            ).1,
    decreases k,
{
    if k > 0 {
        lemma_best_match_highest(methods, typed, k - 1);
    }
}

/// A typed method that is not known is replaced by the known method with the
/// largest share of matching characters: for each known method (trimmed),
/// 100 times the number of its characters found in the lower-cased typed
/// text, divided by its length in bytes, is at most that of the method
/// chosen. So a short method with a larger share of matches wins over a
/// longer one with more matches in all.
pub proof fn lemma_best_method_share(s: Seq<char>, methods: Seq<Seq<char>>)
    requires
        methods.len() > 0,
        trim_spec(s).len() > 0,
        !methods.contains(trim_spec(s)),
    ensures
        ({
            let t = trim_spec(s);
            let r = verify_tx_method_spec(s, methods).1;
            forall|j: int|
                0 <= j < methods.len() ==> (100 * matching_chars(
                    #[trigger] trim_spec(methods[j]),
                    lowercase(t),
                )) / byte_len(trim_spec(methods[j])) <= (100 * matching_chars(r, lowercase(t)))
                    / byte_len(r)
        }),
{
    let t = trim_spec(s);
    let r = verify_tx_method_spec(s, methods).1;
    lemma_best_match_highest(methods, t, methods.len() as int);
    assert(r == best_match(methods, t, methods.len() as int).0);
    assert forall|j: int| 0 <= j < methods.len() implies (100 * matching_chars(
        #[trigger] trim_spec(methods[j]),
        lowercase(t),
    )) / byte_len(trim_spec(methods[j])) <= (100 * matching_chars(r, lowercase(t))) / byte_len(
        r,
    ) by {
        assert(match_chance(trim_spec(methods[j]), t) <= best_match(
            methods,
            t,
            methods.len() as int,
        ).1);
    }
}

} // verus!
