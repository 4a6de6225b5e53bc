use crate::outputs::{AType, NAType, SteppingError, VerifyingOutput};
use crate::text::{
    char_count, chars_of, join, join_spec, lemma_split_append, lemma_split_parts_plain,
    lemma_split_plain, lemma_trim_space_front, lemma_trim_twice, lower, lowercase, owned,
    remove_all, remove_char, split_char, split_spec, str_eq, string_views, trim, trim_end,
    trim_spec, trim_start, white_space,
};
use vstd::prelude::*;

verus! {

/// What checking a transaction type gives. Spaces are removed; a text whose
/// lower case starts with 'e' becomes "Expense", with 'i' becomes "Income",
/// anything else is rejected and cleared.
pub open spec fn verify_tx_type_spec(s: Seq<char>) -> (VerifyingOutput, Seq<char>) {
    let t = remove_all(s, ' ');
    if t.len() == 0 {
        (VerifyingOutput::Nothing(AType::TxType), t)
    } else {
        let l = lowercase(t);
        if l.len() > 0 && l[0] == 'e' {
            (VerifyingOutput::Accepted(AType::TxType), "Expense"@)
        } else if l.len() > 0 && l[0] == 'i' {
            (VerifyingOutput::Accepted(AType::TxType), "Income"@)
        } else {
            (VerifyingOutput::NotAccepted(NAType::InvalidTxType), Seq::<char>::empty())
        }
    }
}

/// Checks a transaction type and expands "e"/"i" (in any case, followed by
/// anything) to "Expense"/"Income".
pub fn verify_tx_type(tx_type: &mut String) -> (r: VerifyingOutput)
    ensures
        (r, final(tx_type)@) == verify_tx_type_spec(old(tx_type)@),
        r is Nothing <==> remove_all(old(tx_type)@, ' ').len() == 0,
        remove_all(old(tx_type)@, ' ').len() > 0 ==> lowercase(remove_all(old(tx_type)@, ' ')).len()
            > 0,
{
    let t = remove_char(tx_type.as_str(), ' ');
    *tx_type = t;
    if char_count(tx_type.as_str()) == 0 {
        return VerifyingOutput::Nothing(AType::TxType);
    }
    let lower = lower(tx_type.as_str());
    let l = chars_of(lower.as_str());
    if l.len() > 0 && l[0] == 'e' {
        *tx_type = owned("Expense");
        VerifyingOutput::Accepted(AType::TxType)
    } else if l.len() > 0 && l[0] == 'i' {
        *tx_type = owned("Income");
        VerifyingOutput::Accepted(AType::TxType)
    } else {
        *tx_type = String::new();
        VerifyingOutput::NotAccepted(NAType::InvalidTxType)
    }
}

/// What stepping a transaction type gives: it is checked first; a rejected
/// type cannot be stepped, an empty one becomes "Income", and an accepted one
/// switches between "Income" and "Expense" (both arrow keys do the same, as
/// there are only two types to step through).
pub open spec fn step_tx_type_spec(s: Seq<char>) -> (Result<(), SteppingError>, Seq<char>) {
    let (v, t) = verify_tx_type_spec(s);
    match v {
        VerifyingOutput::NotAccepted(_) => (Err(SteppingError::InvalidTxType), t),
        VerifyingOutput::Nothing(_) => (Ok(()), "Income"@),
        VerifyingOutput::Accepted(_) => (
            Ok(()),
            if t == "Income"@ {
                "Expense"@
            } else {
                "Income"@
            },
        ),
    }
}

/// Steps a transaction type (see `step_tx_type_spec`).
pub fn step_tx_type(user_type: &mut String) -> (r: Result<(), SteppingError>)
    ensures
        (r, final(user_type)@) == step_tx_type_spec(old(user_type)@),
{
    let status = verify_tx_type(user_type);
    match status {
        VerifyingOutput::NotAccepted(_) => Err(SteppingError::InvalidTxType),
        VerifyingOutput::Nothing(_) => {
            *user_type = owned("Income");
            Ok(())
        },
        VerifyingOutput::Accepted(_) => {
            if str_eq(user_type.as_str(), "Income") {
                *user_type = owned("Expense");
            } else {
                *user_type = owned("Income");
            }
            Ok(())
        },
    }
}

/// Stepping an accepted type twice brings it back; a type that was just
/// stepped is accepted again and stays one of the two.
pub proof fn lemma_tx_type_step_twice(s: Seq<char>)
    requires
        step_tx_type_spec(s).0 is Ok,
    ensures
        ({
            let t1 = step_tx_type_spec(s).1;
            &&& t1 == "Income"@ || t1 == "Expense"@
            &&& step_tx_type_spec(t1).0 is Ok
            &&& step_tx_type_spec(step_tx_type_spec(t1).1).1 == t1
        }),
{
    reveal_strlit("Income");
    reveal_strlit("Expense");
    lemma_verify_known_type("Income"@);
    lemma_verify_known_type("Expense"@);
}

/// "Income" and "Expense" are accepted as they are.
proof fn lemma_verify_known_type(t: Seq<char>)
    requires
        t == "Income"@ || t == "Expense"@,
    ensures
        verify_tx_type_spec(t) == (VerifyingOutput::Accepted(AType::TxType), t),
{
    reveal_strlit("Income");
    reveal_strlit("Expense");
    lemma_remove_absent(t, ' ');
    assert(crate::text::all_ascii(t));
    let l = lowercase(t);
    assert(l[0] == crate::text::ascii_lower(t[0]));
}

/// Checking a transaction type twice changes nothing more: an accepted type
/// is accepted again as it is, and a rejected one is left empty.
pub proof fn lemma_tx_type_check_settles(s: Seq<char>)
    ensures
        verify_tx_type_spec(s).0 is Accepted ==> verify_tx_type_spec(verify_tx_type_spec(s).1)
            == verify_tx_type_spec(s),
        verify_tx_type_spec(s).0 is NotAccepted ==> verify_tx_type_spec(s).1.len() == 0
            && verify_tx_type_spec(verify_tx_type_spec(s).1).0 is Nothing,
{
    reveal_strlit("Income");
    reveal_strlit("Expense");
    lemma_verify_known_type("Income"@);
    lemma_verify_known_type("Expense"@);
    assert(remove_all(Seq::<char>::empty(), ' ') == Seq::<char>::empty());
}

/// Removing a character that does not occur leaves the text unchanged.
pub proof fn lemma_remove_absent(s: Seq<char>, c: char)
    requires
        forall|i: int| 0 <= i < s.len() ==> s[i] != c,
    ensures
        remove_all(s, c) == s,
    decreases s.len(),
{
    if s.len() > 0 {
        lemma_remove_absent(s.drop_last(), c);
        assert(s.drop_last().push(s.last()) =~= s);
    }
}

/// The distinct non-empty tags, in the order of their first occurrence.
pub open spec fn distinct_tags(parts: Seq<Seq<char>>) -> Seq<Seq<char>>
    decreases parts.len(),
{
    if parts.len() == 0 {
        parts
    } else {
        let r = distinct_tags(parts.drop_last());
        if parts.last().len() == 0 || r.contains(parts.last()) {
            r
        } else {
            r.push(parts.last())
        }
    }
}

/// The tags text after checking: the comma separated tags, trimmed, without
/// empty or repeated ones, joined with ", ".
pub open spec fn verify_tags_spec(s: Seq<char>) -> Seq<char> {
    join_spec(
        distinct_tags(split_spec(s, ',').map_values(|p: Seq<char>| trim_spec(p))),
        ", "@,
    )
}

/// Tidies a tags field: splits at commas, trims each tag, drops empty and
/// repeated tags and joins them again with ", ".
pub fn verify_tags(tags: &mut String)
    ensures
        final(tags)@ == verify_tags_spec(old(tags)@),
{
    let raw = split_char(tags.as_str(), ',');
    let ghost parts = string_views(raw@).map_values(|p: Seq<char>| trim_spec(p));
    let mut out: Vec<String> = Vec::new();
    let mut k: usize = 0;
    while k < raw.len()
        invariant
            k <= raw@.len(),
            parts == string_views(raw@).map_values(|p: Seq<char>| trim_spec(p)),
            string_views(out@) == distinct_tags(parts.subrange(0, k as int)),
        decreases raw@.len() - k,
    {
        let tag = trim(raw[k].as_str());
        let ghost prefix = parts.subrange(0, k as int);
        assert(parts.subrange(0, k + 1).drop_last() =~= prefix);
        assert(parts.subrange(0, k + 1).last() == tag@);
        let mut seen = false;
        let mut j: usize = 0;
        while j < out.len()
            invariant
                j <= out@.len(),
                seen == (exists|i: int| 0 <= i < j && out@[i]@ == tag@),
            decreases out@.len() - j,
        {
            if str_eq(out[j].as_str(), tag.as_str()) {
                seen = true;
            }
            j = j + 1;
        }
        let ghost before = string_views(out@);
        assert(seen == before.contains(tag@)) by {
            if seen {
                let i = choose|i: int| 0 <= i < out@.len() && out@[i]@ == tag@;
                assert(before[i] == tag@);
            }
            if before.contains(tag@) {
                let i = choose|i: int| 0 <= i < before.len() && before[i] == tag@;
                assert(out@[i]@ == tag@);
            }
        }
        if char_count(tag.as_str()) != 0 && !seen {
            out.push(tag);
            assert(string_views(out@) =~= before.push(tag@));
        }
        k = k + 1;
    }
    assert(parts.subrange(0, raw@.len() as int) =~= parts);
    *tags = join(&out, ", ");
}

/// Splitting at commas tags joined with ", " gives them back, each one after
/// the first with a space in front.
proof fn lemma_split_joined(d: Seq<Seq<char>>)
    requires
        d.len() > 0,
        forall|i: int, j: int| 0 <= i < d.len() && 0 <= j < d[i].len() ==> #[trigger] d[i][j] != ',',
    ensures
        split_spec(join_spec(d, ", "@), ',') == Seq::new(
            d.len(),
            |i: int|
                if i == 0 {
                    d[0]
                } else {
                    seq![' '] + d[i]
                },
        ),
    decreases d.len(),
{
    reveal_strlit(", ");
    if d.len() == 1 {
        assert forall|j: int| 0 <= j < d[0].len() implies #[trigger] d[0][j] != ',' by {
            assert(d[0][j] != ',');
        }
        lemma_split_plain(d[0], ',');
        assert(split_spec(d[0], ',') =~= Seq::new(
            d.len(),
            |i: int|
                if i == 0 {
                    d[0]
                } else {
                    seq![' '] + d[i]
                },
        ));
    } else {
        let d0 = d.drop_last();
        assert forall|i: int, j: int| 0 <= i < d0.len() && 0 <= j < d0[i].len() implies #[trigger] d0[i][j]
            != ',' by {
            assert(d0[i] == d[i]);
        }
        lemma_split_joined(d0);
        let w = seq![' '] + d.last();
        assert forall|j: int| 0 <= j < w.len() implies #[trigger] w[j] != ',' by {
            if j > 0 {
                assert(w[j] == d[d.len() - 1][j - 1]);
            }
        }
        lemma_split_append(join_spec(d0, ", "@), w, ',');
        assert(join_spec(d, ", "@) == join_spec(d0, ", "@) + ", "@ + d.last());
        assert(join_spec(d0, ", "@) + ", "@ + d.last() =~= join_spec(d0, ", "@).push(',') + w);
        assert(split_spec(join_spec(d0, ", "@), ',').push(w) =~= Seq::new(
            d.len(),
            |i: int|
                if i == 0 {
                    d[0]
                } else {
                    seq![' '] + d[i]
                },
        ));
    }
}

/// The tags kept are non-empty, distinct and taken from the parts.
proof fn lemma_distinct_tags_props(parts: Seq<Seq<char>>)
    ensures
        forall|i: int|
            0 <= i < distinct_tags(parts).len() ==> (#[trigger] distinct_tags(parts)[i]).len() > 0
                && parts.contains(distinct_tags(parts)[i]),
        forall|i: int, j: int|
            0 <= i < j < distinct_tags(parts).len() ==> #[trigger] distinct_tags(parts)[i]
                != #[trigger] distinct_tags(parts)[j],
    decreases parts.len(),
{
    if parts.len() > 0 {
        let p0 = parts.drop_last();
        lemma_distinct_tags_props(p0);
        let r = distinct_tags(p0);
        assert forall|i: int| 0 <= i < r.len() implies parts.contains(#[trigger] r[i]) by {
            assert(p0.contains(r[i]));
            let k = choose|k: int| 0 <= k < p0.len() && p0[k] == r[i];
            assert(parts[k] == p0[k]);
        }
        if !(parts.last().len() == 0 || r.contains(parts.last())) {
            let q = r.push(parts.last());
            assert(parts[parts.len() - 1] == parts.last());
            assert forall|i: int, j: int| 0 <= i < j < q.len() implies #[trigger] q[i] != #[trigger] q[j] by {
                if j == q.len() - 1 {
                    assert(q[i] == r[i]);
                    if q[i] == q[j] {
                        assert(r.contains(parts.last()));
                    }
                } else {
                    assert(q[i] == r[i] && q[j] == r[j]);
                }
            }
            assert forall|i: int| 0 <= i < q.len() implies #[trigger] q[i].len() > 0 && parts.contains(q[i]) by {
                if i < r.len() {
                    assert(q[i] == r[i]);
                }
            }
        }
    }
}

/// Distinct non-empty tags are all kept, in order.
proof fn lemma_distinct_tags_keep(d: Seq<Seq<char>>)
    requires
        forall|i: int| 0 <= i < d.len() ==> #[trigger] d[i].len() > 0,
        forall|i: int, j: int| 0 <= i < j < d.len() ==> #[trigger] d[i] != #[trigger] d[j],
    ensures
        distinct_tags(d) == d,
    decreases d.len(),
{
    if d.len() > 0 {
        let d0 = d.drop_last();
        assert forall|i: int, j: int| 0 <= i < j < d0.len() implies #[trigger] d0[i] != #[trigger] d0[j] by {
            assert(d0[i] == d[i] && d0[j] == d[j]);
        }
        assert forall|i: int| 0 <= i < d0.len() implies #[trigger] d0[i].len() > 0 by {
            assert(d0[i] == d[i]);
        }
        lemma_distinct_tags_keep(d0);
        assert(d.last() == d[d.len() - 1]);
        if d0.contains(d.last()) {
            let k = choose|k: int| 0 <= k < d0.len() && d0[k] == d.last();
            assert(d[k] == d[d.len() - 1]);
        }
        assert(d0.push(d.last()) =~= d);
    }
}

/// Checking tags twice changes nothing more.
pub proof fn lemma_tags_check_settles(s: Seq<char>)
    ensures
        verify_tags_spec(verify_tags_spec(s)) == verify_tags_spec(s),
{
    reveal_strlit(", ");
    let parts = split_spec(s, ',').map_values(|p: Seq<char>| trim_spec(p));
    let d = distinct_tags(parts);
    let t = join_spec(d, ", "@);
    lemma_distinct_tags_props(parts);
    lemma_split_parts_plain(s, ',');
    assert forall|i: int| 0 <= i < d.len() implies #[trigger] trim_spec(d[i]) == d[i] && forall|j: int|
        0 <= j < d[i].len() ==> d[i][j] != ',' by {
        assert(parts.contains(d[i]));
        let k = choose|k: int| 0 <= k < parts.len() && parts[k] == d[i];
        assert(parts[k] == trim_spec(split_spec(s, ',')[k]));
        lemma_trim_twice(split_spec(s, ',')[k]);
        assert forall|j: int| 0 <= j < split_spec(s, ',')[k].len() implies split_spec(s, ',')[k][j]
            != ',' by {
            assert(split_spec(s, ',')[k][j] != ',');
        }
        lemma_trim_within(split_spec(s, ',')[k], ',');
    }
    let parts2 = split_spec(t, ',').map_values(|p: Seq<char>| trim_spec(p));
    if d.len() == 0 {
        assert(t == Seq::<char>::empty());
        assert(split_spec(t, ',') == seq![Seq::<char>::empty()]);
        assert(trim_spec(Seq::<char>::empty()) =~= Seq::<char>::empty());
        assert(parts2 =~= seq![Seq::<char>::empty()]);
        assert(parts2.drop_last() =~= Seq::<Seq<char>>::empty());
        assert(distinct_tags(parts2.drop_last()) =~= Seq::<Seq<char>>::empty());
        assert(distinct_tags(parts2) =~= Seq::<Seq<char>>::empty());
    } else {
        assert forall|i: int, j: int| 0 <= i < d.len() && 0 <= j < d[i].len() implies #[trigger] d[i][j]
            != ',' by {
            assert(trim_spec(d[i]) == d[i]);
        }
        lemma_split_joined(d);
        assert forall|i: int| 0 <= i < d.len() implies #[trigger] parts2[i] == d[i] by {
            if i > 0 {
                lemma_trim_space_front(d[i]);
            }
        }
        assert(parts2 =~= d);
        lemma_distinct_tags_keep(d);
    }
}

/// Trimming keeps the characters of a text that has no `c`.
proof fn lemma_trim_within(s: Seq<char>, c: char)
    ensures
        (forall|j: int| 0 <= j < s.len() ==> s[j] != c) ==> forall|j: int|
            0 <= j < trim_spec(s).len() ==> trim_spec(s)[j] != c,
{
    lemma_trim_is_slice(s);
}

/// Trimming keeps a run of the text's characters.
proof fn lemma_trim_is_slice(s: Seq<char>)
    ensures
        exists|a: int, b: int| 0 <= a <= b <= s.len() && trim_spec(s) == s.subrange(a, b),
{
    lemma_trim_start_slice(s);
    let ts = trim_start(s);
    let a = s.len() - ts.len();
    lemma_trim_end_slice(ts);
    let b = trim_end(ts).len();
    assert(trim_spec(s) =~= s.subrange(a, a + b));
}

proof fn lemma_trim_start_slice(s: Seq<char>)
    ensures
        trim_start(s).len() <= s.len(),
        trim_start(s) == s.subrange(s.len() - trim_start(s).len(), s.len() as int),
    decreases s.len(),
{
    if s.len() > 0 && white_space(s[0]) {
        lemma_trim_start_slice(s.drop_first());
        assert(s.drop_first().subrange(
            s.drop_first().len() - trim_start(s.drop_first()).len(),
            s.drop_first().len() as int,
        ) =~= s.subrange(s.len() - trim_start(s).len(), s.len() as int));
    } else {
        assert(s.subrange(0, s.len() as int) =~= s);
    }
}

proof fn lemma_trim_end_slice(s: Seq<char>)
    ensures
        trim_end(s).len() <= s.len(),
        trim_end(s) == s.subrange(0, trim_end(s).len() as int),
    decreases s.len(),
{
    if s.len() > 0 && white_space(s.last()) {
        lemma_trim_end_slice(s.drop_last());
        assert(s.drop_last().subrange(0, trim_end(s).len() as int) =~= s.subrange(
            0,
            trim_end(s).len() as int,
        ));
    } else {
        assert(s.subrange(0, s.len() as int) =~= s);
    }
}

/// The type check ignores case and spaces: an ASCII type whose first
/// character other than a space is 'e' or 'E' is accepted as "Expense", and
/// one whose first such character is 'i' or 'I' as "Income".
pub proof fn lemma_tx_type_ignores_case(s: Seq<char>)
    requires
        remove_all(s, ' ').len() > 0,
        crate::text::all_ascii(remove_all(s, ' ')),
    ensures
        remove_all(s, ' ')[0] == 'e' || remove_all(s, ' ')[0] == 'E' ==> verify_tx_type_spec(s) == (
            VerifyingOutput::Accepted(AType::TxType),
            "Expense"@,
        ),
        remove_all(s, ' ')[0] == 'i' || remove_all(s, ' ')[0] == 'I' ==> verify_tx_type_spec(s) == (
            VerifyingOutput::Accepted(AType::TxType),
            "Income"@,
        ),
{
    let t = remove_all(s, ' ');
    let l = lowercase(t);
    assert(l == t.map_values(|c: char| crate::text::ascii_lower(c)));
    assert(l.len() == t.len());
    assert(l[0] == crate::text::ascii_lower(t[0]));
}

} // verus!
