use vstd::prelude::*;

verus! {

/// Compares two string slices with std's `==` on `str`: equal exactly when
/// they hold the same characters.
#[verifier::external_body]
pub(crate) fn str_eq(a: &str, b: &str) -> (r: bool)
    ensures
        r == (a@ == b@),
{
    a == b
}

/// The characters of a string slice, in order, collected from std's
/// `str::chars` into a vector.
#[verifier::external_body]
pub(crate) fn chars_of(s: &str) -> (r: Vec<char>)
    ensures
        r@ == s@,
{
    s.chars().collect()
}

/// The string made of the given characters in order, collected by std's
/// `FromIterator<&char>` for `String`.
#[verifier::external_body]
pub(crate) fn from_chars(v: &[char]) -> (r: String)
    ensures
        r@ == v@,
{
    v.iter().collect()
}

/// An owned copy of a string slice.
pub fn owned(s: &str) -> (r: String)
    ensures
        r@ == s@,
{
    s.to_owned()
}

/// Appends the second text to the first.
pub fn concat(a: &str, b: &str) -> (r: String)
    ensures
        r@ == a@ + b@,
{
    let mut v = chars_of(a);
    let w = chars_of(b);
    let mut i: usize = 0;
    while i < w.len()
        invariant
            i <= w@.len(),
            v@ == a@ + w@.subrange(0, i as int),
        decreases w@.len() - i,
    {
        v.push(w[i]);
        i = i + 1;
        assert(v@ =~= a@ + w@.subrange(0, i as int));
    }
    assert(w@.subrange(0, w@.len() as int) =~= w@);
    from_chars(&v)
}

/// Whether a character beyond ASCII has the Unicode `White_Space` property,
/// as std's `char::is_whitespace` tells.
pub uninterp spec fn unicode_whitespace(c: char) -> bool;

/// Whether a character is white space for std's `char::is_whitespace` (the
/// Unicode `White_Space` property): among ASCII characters, exactly the
/// space and the controls from tab to carriage return.
pub open spec fn white_space(c: char) -> bool {
    if (c as u32) < 128 {
        c == ' ' || ('\t' <= c && c <= '\r')
    } else {
        unicode_whitespace(c)
    }
}

/// std's `char::is_whitespace`: on ASCII it holds for the space and the
/// controls from tab to carriage return, as the Unicode `White_Space`
/// property lists them; beyond ASCII its result is named by
/// `unicode_whitespace`.
#[verifier::external_body]
pub(crate) fn is_whitespace(c: char) -> (r: bool)
    ensures
        r == white_space(c),
        (c as u32) >= 128 ==> r == unicode_whitespace(c),
{
    c.is_whitespace()
}

/// The ASCII lower case of a character: 'A' to 'Z' become 'a' to 'z', every
/// other character is unchanged.
pub open spec fn ascii_lower(c: char) -> char {
    if 'A' <= c <= 'Z' {
        ((c as u32) + 32) as char
    } else {
        c
    }
}

/// std's `char::to_ascii_lowercase`, whose documented behaviour is `ascii_lower`.
#[verifier::external_body]
pub(crate) fn to_ascii_lowercase(c: char) -> (r: char)
    ensures
        r == ascii_lower(c),
{
    c.to_ascii_lowercase()
}

/// Whether every character is ASCII.
pub open spec fn all_ascii(s: Seq<char>) -> bool {
    forall|i: int| 0 <= i < s.len() ==> (s[i] as u32) < 128
}

/// The Unicode lower case of a text, as computed by std's `str::to_lowercase`.
pub uninterp spec fn unicode_lowercase(s: Seq<char>) -> Seq<char>;

/// The lower case of a text: on ASCII text, the ASCII lower case of each
/// character; otherwise the Unicode lower case.
pub open spec fn lowercase(s: Seq<char>) -> Seq<char> {
    if all_ascii(s) {
        s.map_values(|c: char| ascii_lower(c))
    } else {
        unicode_lowercase(s)
    }
}

/// std's `str::to_lowercase`. The result is named by `unicode_lowercase`; on
/// ASCII text it is the ASCII lower case of each character, which is what the
/// Unicode lower case mapping gives for ASCII letters. Every character maps
/// to one or more characters (std's `char::to_lowercase`), so a text that is
/// not empty stays not empty.
#[verifier::external_body]
pub(crate) fn to_lowercase(s: &str) -> (r: String)
    ensures
        r@ == unicode_lowercase(s@),
        all_ascii(s@) ==> r@ == s@.map_values(|c: char| ascii_lower(c)),
        s@.len() > 0 ==> r@.len() > 0,
{
    s.to_lowercase()
}

/// The text with every occurrence of `c` taken out.
pub open spec fn remove_all(s: Seq<char>, c: char) -> Seq<char>
    decreases s.len(),
{
    if s.len() == 0 {
        s
    } else if s.last() == c {
        remove_all(s.drop_last(), c)
    } else {
        remove_all(s.drop_last(), c).push(s.last())
    }
}

/// Removes every occurrence of a character (as `s.replace(c, "")` does).
pub fn remove_char(s: &str, c: char) -> (r: String)
    ensures
        r@ == remove_all(s@, c),
{
    let v = chars_of(s);
    let mut out: Vec<char> = Vec::new();
    let mut i: usize = 0;
    while i < v.len()
        invariant
            i <= v@.len(),
            v@ == s@,
            out@ == remove_all(v@.subrange(0, i as int), c),
        decreases v@.len() - i,
    {
        let ghost pre = v@.subrange(0, i as int);
        assert(v@.subrange(0, i + 1).drop_last() =~= pre);
        if v[i] != c {
            out.push(v[i]);
        }
        i = i + 1;
    }
    assert(v@.subrange(0, v@.len() as int) =~= v@);
    from_chars(&out)
}

/// The text with the white space at its start taken off.
pub open spec fn trim_start(s: Seq<char>) -> Seq<char>
    decreases s.len(),
{
    if s.len() > 0 && white_space(s[0]) {
        trim_start(s.drop_first())
    } else {
        s
    }
}

/// The text with the white space at its end taken off.
pub open spec fn trim_end(s: Seq<char>) -> Seq<char>
    decreases s.len(),
{
    if s.len() > 0 && white_space(s.last()) {
        trim_end(s.drop_last())
    } else {
        s
    }
}

/// The text with the white space at both ends taken off (as std's `str::trim`).
pub open spec fn trim_spec(s: Seq<char>) -> Seq<char> {
    trim_end(trim_start(s))
}

proof fn lemma_trim_start_skip(s: Seq<char>, k: int)
    requires
        0 <= k <= s.len(),
        forall|j: int| 0 <= j < k ==> white_space(#[trigger] s[j]),
    ensures
        trim_start(s) == trim_start(s.subrange(k, s.len() as int)),
    decreases k,
{
    if k > 0 {
        assert(s.drop_first().subrange(k - 1, s.drop_first().len() as int) =~= s.subrange(
            k,
            s.len() as int,
        ));
        lemma_trim_start_skip(s.drop_first(), k - 1);
    } else {
        assert(s.subrange(0, s.len() as int) =~= s);
    }
}

proof fn lemma_trim_end_skip(s: Seq<char>, k: int)
    requires
        0 <= k <= s.len(),
        forall|j: int| k <= j < s.len() ==> white_space(#[trigger] s[j]),
    ensures
        trim_end(s) == trim_end(s.subrange(0, k)),
    decreases s.len() - k,
{
    if k < s.len() {
        assert(s.drop_last().subrange(0, k) =~= s.subrange(0, k));
        lemma_trim_end_skip(s.drop_last(), k);
    } else {
        assert(s.subrange(0, k) =~= s);
    }
}

/// Removes the white space at both ends (as std's `str::trim`).
pub fn trim(s: &str) -> (r: String)
    ensures
        r@ == trim_spec(s@),
{
    let v = chars_of(s);
    let n = v.len();
    let mut start: usize = 0;
    while start < n && is_whitespace(v[start])
        invariant
            start <= n,
            n == v@.len(),
            forall|j: int| 0 <= j < start ==> white_space(#[trigger] v@[j]),
        decreases n - start,
    {
        start = start + 1;
    }
    proof {
        lemma_trim_start_skip(v@, start as int);
    }
    let ghost rest = v@.subrange(start as int, n as int);
    let mut end: usize = n;
    while end > start && is_whitespace(v[end - 1])
        invariant
            start <= end <= n,
            n == v@.len(),
            rest == v@.subrange(start as int, n as int),
            forall|j: int| end <= j < n ==> white_space(#[trigger] v@[j]),
        decreases end - start,
    {
        end = end - 1;
    }
    proof {
        assert forall|j: int| end - start <= j < rest.len() implies white_space(
            #[trigger] rest[j],
        ) by {
            assert(rest[j] == v@[j + start]);
        }
        lemma_trim_end_skip(rest, end - start);
        assert(rest.subrange(0, end - start) =~= v@.subrange(start as int, end as int));
        if start < n && end == start {
            assert(!white_space(v@[start as int]));
        }
    }
    let mut out: Vec<char> = Vec::new();
    let mut i: usize = start;
    while i < end
        invariant
            start <= i <= end <= n,
            n == v@.len(),
            out@ == v@.subrange(start as int, i as int),
        decreases end - i,
    {
        out.push(v[i]);
        i = i + 1;
        assert(out@ =~= v@.subrange(start as int, i as int));
    }
    from_chars(&out)
}

/// The parts of a text between the occurrences of `sep`, as std's
/// `str::split` with a character pattern gives them (always at least one part).
pub open spec fn split_spec(s: Seq<char>, sep: char) -> Seq<Seq<char>>
    decreases s.len(),
{
    if s.len() == 0 {
        seq![Seq::<char>::empty()]
    } else {
        let rest = split_spec(s.drop_last(), sep);
        if s.last() == sep {
            rest.push(Seq::<char>::empty())
        } else {
            rest.update(rest.len() - 1, rest.last().push(s.last()))
        }
    }
}

/// Splitting always gives at least one part.
pub proof fn lemma_split_nonempty(s: Seq<char>, sep: char)
    ensures
        split_spec(s, sep).len() >= 1,
    decreases s.len(),
{
    if s.len() > 0 {
        lemma_split_nonempty(s.drop_last(), sep);
    }
}

/// Splitting a text without the separator gives the text as the only part.
pub proof fn lemma_split_plain(w: Seq<char>, sep: char)
    requires
        forall|i: int| 0 <= i < w.len() ==> #[trigger] w[i] != sep,
    ensures
        split_spec(w, sep) == seq![w],
    decreases w.len(),
{
    if w.len() > 0 {
        lemma_split_plain(w.drop_last(), sep);
        assert(w.drop_last().push(w.last()) =~= w);
    } else {
        assert(w =~= Seq::<char>::empty());
    }
}

/// Splitting a text, a separator and a text without the separator adds that
/// last text as a part.
pub proof fn lemma_split_append(a: Seq<char>, w: Seq<char>, sep: char)
    requires
        forall|i: int| 0 <= i < w.len() ==> #[trigger] w[i] != sep,
    ensures
        split_spec(a.push(sep) + w, sep) == split_spec(a, sep).push(w),
    decreases w.len(),
{
    lemma_split_nonempty(a, sep);
    if w.len() == 0 {
        assert(w =~= Seq::<char>::empty());
        assert(a.push(sep) + w =~= a.push(sep));
        assert(a.push(sep).drop_last() =~= a);
        assert(split_spec(a, sep).push(Seq::<char>::empty()) =~= split_spec(a, sep).push(w));
    } else {
        let w0 = w.drop_last();
        lemma_split_append(a, w0, sep);
        let s = a.push(sep) + w;
        assert(s.drop_last() =~= a.push(sep) + w0);
        assert(s.last() == w.last());
        let rest = split_spec(a, sep).push(w0);
        assert(rest.update(rest.len() - 1, rest.last().push(w.last())) =~= split_spec(a, sep).push(
            w,
        )) by {
            assert(w0.push(w.last()) =~= w);
        }
    }
}

/// No part of a split holds the separator.
pub proof fn lemma_split_parts_plain(s: Seq<char>, sep: char)
    ensures
        forall|i: int, j: int|
            0 <= i < split_spec(s, sep).len() && 0 <= j < split_spec(s, sep)[i].len() ==> #[trigger] split_spec(
                s,
                sep,
            )[i][j] != sep,
    decreases s.len(),
{
    if s.len() > 0 {
        lemma_split_parts_plain(s.drop_last(), sep);
        lemma_split_nonempty(s.drop_last(), sep);
        let rest = split_spec(s.drop_last(), sep);
        if s.last() != sep {
            let r = rest.update(rest.len() - 1, rest.last().push(s.last()));
            assert forall|i: int, j: int| 0 <= i < r.len() && 0 <= j < r[i].len() implies #[trigger] r[i][j]
                != sep by {
                if i == rest.len() - 1 && j < rest.last().len() {
                    assert(r[i][j] == rest[i][j]);
                } else if i < rest.len() - 1 {
                    assert(r[i] == rest[i]);
                }
            }
        } else {
            let r = rest.push(Seq::<char>::empty());
            assert forall|i: int, j: int| 0 <= i < r.len() && 0 <= j < r[i].len() implies #[trigger] r[i][j]
                != sep by {
                assert(r[i] == rest[i]);
            }
        }
    }
}

/// After trimming the start, the text is empty or starts with a character
/// that is not white space.
pub proof fn lemma_trim_start_front(s: Seq<char>)
    ensures
        trim_start(s).len() == 0 || !white_space(trim_start(s)[0]),
        trim_start(s).len() <= s.len(),
    decreases s.len(),
{
    if s.len() > 0 && white_space(s[0]) {
        lemma_trim_start_front(s.drop_first());
    }
}

/// After trimming the end, the text is empty or ends with a character that
/// is not white space; a first character that is not white space stays.
pub proof fn lemma_trim_end_back(s: Seq<char>)
    ensures
        trim_end(s).len() == 0 || !white_space(trim_end(s).last()),
        s.len() > 0 && !white_space(s[0]) ==> trim_end(s).len() > 0 && trim_end(s)[0] == s[0],
    decreases s.len(),
{
    if s.len() > 0 && white_space(s.last()) {
        lemma_trim_end_back(s.drop_last());
        if !white_space(s[0]) {
            assert(s.len() > 1);
            assert(s.drop_last()[0] == s[0]);
        }
    }
}

/// Trimming a trimmed text changes nothing.
pub proof fn lemma_trim_twice(s: Seq<char>)
    ensures
        trim_spec(trim_spec(s)) == trim_spec(s),
{
    let a = trim_start(s);
    lemma_trim_start_front(s);
    lemma_trim_end_back(a);
    let t = trim_end(a);
    if t.len() > 0 {
        assert(trim_start(t) == t);
        assert(trim_end(t) == t);
    } else {
        assert(trim_start(t) == t);
    }
}

/// A space in front of a text goes with trimming.
pub proof fn lemma_trim_space_front(d: Seq<char>)
    ensures
        trim_spec(seq![' '] + d) == trim_spec(d),
{
    let s = seq![' '] + d;
    assert(white_space(' '));
    assert(s.drop_first() =~= d);
}

/// The views of a sequence of owned strings.
pub open spec fn string_views(v: Seq<String>) -> Seq<Seq<char>> {
    v.map_values(|x: String| x@)
}

/// Splits a text at every occurrence of `sep`.
pub fn split_char(s: &str, sep: char) -> (r: Vec<String>)
    ensures
        string_views(r@) == split_spec(s@, sep),
        r@.len() >= 1,
{
    let v = chars_of(s);
    let mut parts: Vec<Vec<char>> = Vec::new();
    let mut current: Vec<char> = Vec::new();
    let mut i: usize = 0;
    assert(split_spec(v@.subrange(0, 0), sep) =~= seq![Seq::<char>::empty()]);
    while i < v.len()
        invariant
            i <= v@.len(),
            v@ == s@,
            parts@.map_values(|x: Vec<char>| x@).push(current@) == split_spec(
                v@.subrange(0, i as int),
                sep,
            ),
        decreases v@.len() - i,
    {
        let ghost pre = v@.subrange(0, i as int);
        assert(v@.subrange(0, i + 1).drop_last() =~= pre);
        assert(v@.subrange(0, i + 1).last() == v@[i as int]);
        let ghost old_parts = parts@.map_values(|x: Vec<char>| x@);
        let ghost old_current = current@;
        proof {
            lemma_split_nonempty(pre, sep);
        }
        if v[i] == sep {
            let done = current;
            parts.push(done);
            current = Vec::new();
            assert(parts@.map_values(|x: Vec<char>| x@) =~= old_parts.push(old_current));
            assert(parts@.map_values(|x: Vec<char>| x@).push(current@) =~= old_parts.push(
                old_current,
            ).push(Seq::<char>::empty()));
        } else {
            current.push(v[i]);
            assert(parts@.map_values(|x: Vec<char>| x@) =~= old_parts);
            assert(parts@.map_values(|x: Vec<char>| x@).push(current@) =~= old_parts.push(
                old_current,
            ).update(old_parts.len() as int, old_current.push(v@[i as int])));
        }
        i = i + 1;
    }
    assert(v@.subrange(0, v@.len() as int) =~= v@);
    parts.push(current);
    let mut r: Vec<String> = Vec::new();
    let mut k: usize = 0;
    while k < parts.len()
        invariant
            k <= parts@.len(),
            r@.len() == k,
            forall|j: int| 0 <= j < k ==> #[trigger] r@[j]@ == parts@[j]@,
        decreases parts@.len() - k,
    {
        r.push(from_chars(parts[k].as_slice()));
        k = k + 1;
    }
    assert(string_views(r@) =~= parts@.map_values(|x: Vec<char>| x@));
    r
}

/// The parts joined with `sep` between consecutive parts.
pub open spec fn join_spec(parts: Seq<Seq<char>>, sep: Seq<char>) -> Seq<char>
    decreases parts.len(),
{
    if parts.len() == 0 {
        Seq::<char>::empty()
    } else if parts.len() == 1 {
        parts[0]
    } else {
        join_spec(parts.drop_last(), sep) + sep + parts.last()
    }
}

/// Joining the parts of a split with the separator gives the text back.
pub proof fn lemma_split_join(t: Seq<char>, sep: char)
    ensures
        join_spec(split_spec(t, sep), seq![sep]) == t,
    decreases t.len(),
{
    if t.len() == 0 {
        assert(split_spec(t, sep) == seq![Seq::<char>::empty()]);
        assert(t =~= Seq::<char>::empty());
    } else {
        let rest = split_spec(t.drop_last(), sep);
        lemma_split_join(t.drop_last(), sep);
        lemma_split_nonempty(t.drop_last(), sep);
        if t.last() == sep {
            let r = rest.push(Seq::<char>::empty());
            assert(r.drop_last() =~= rest);
            assert(join_spec(r, seq![sep]) == join_spec(rest, seq![sep]) + seq![sep] + Seq::<char>::empty());
            assert(t.drop_last() + seq![sep] + Seq::<char>::empty() =~= t);
        } else {
            let r = rest.update(rest.len() - 1, rest.last().push(t.last()));
            if rest.len() == 1 {
                assert(join_spec(r, seq![sep]) == r[0]);
                assert(join_spec(rest, seq![sep]) == rest[0]);
                assert(r[0] =~= t.drop_last().push(t.last()));
            } else {
                assert(r.drop_last() =~= rest.drop_last());
                assert(join_spec(r, seq![sep]) == join_spec(rest.drop_last(), seq![sep]) + seq![sep]
                    + rest.last().push(t.last()));
                assert(join_spec(rest, seq![sep]) == join_spec(rest.drop_last(), seq![sep]) + seq![
                    sep,
                ] + rest.last());
                assert(join_spec(rest.drop_last(), seq![sep]) + seq![sep] + rest.last().push(
                    t.last(),
                ) =~= (join_spec(rest.drop_last(), seq![sep]) + seq![sep] + rest.last()).push(
                    t.last(),
                ));
            }
            assert(t.drop_last().push(t.last()) =~= t);
        }
    }
}

/// Joins the parts with `sep` between consecutive parts.
pub fn join(parts: &Vec<String>, sep: &str) -> (r: String)
    ensures
        r@ == join_spec(string_views(parts@), sep@),
{
    let mut out: Vec<char> = Vec::new();
    let sv = chars_of(sep);
    let mut k: usize = 0;
    while k < parts.len()
        invariant
            k <= parts@.len(),
            sv@ == sep@,
            out@ == join_spec(string_views(parts@.subrange(0, k as int)), sep@),
        decreases parts@.len() - k,
    {
        let ghost before = out@;
        let pv = chars_of(parts[k].as_str());
        if k > 0 {
            let mut j: usize = 0;
            while j < sv.len()
                invariant
                    j <= sv@.len(),
                    out@ == before + sv@.subrange(0, j as int),
                decreases sv@.len() - j,
            {
                out.push(sv[j]);
                j = j + 1;
                assert(out@ =~= before + sv@.subrange(0, j as int));
            }
            assert(sv@.subrange(0, sv@.len() as int) =~= sv@);
        }
        let ghost mid = out@;
        let mut j: usize = 0;
        while j < pv.len()
            invariant
                j <= pv@.len(),
                out@ == mid + pv@.subrange(0, j as int),
            decreases pv@.len() - j,
        {
            out.push(pv[j]);
            j = j + 1;
            assert(out@ =~= mid + pv@.subrange(0, j as int));
        }
        assert(pv@.subrange(0, pv@.len() as int) =~= pv@);
        let ghost next = string_views(parts@.subrange(0, k + 1));
        assert(next.drop_last() =~= string_views(parts@.subrange(0, k as int)));
        assert(next.last() == parts@[k as int]@);
        if k == 0 {
            assert(next.len() == 1);
        }
        k = k + 1;
    }
    assert(parts@.subrange(0, parts@.len() as int) =~= parts@);
    from_chars(&out)
}

/// The decimal value of a text made of ASCII digits.
pub open spec fn digits_value(s: Seq<char>) -> nat
    decreases s.len(),
{
    if s.len() == 0 {
        0
    } else {
        digits_value(s.drop_last()) * 10 + ((s.last() as u32) - ('0' as u32)) as nat
    }
}

/// Whether a text is a non-empty run of ASCII digits.
pub open spec fn all_digits(s: Seq<char>) -> bool {
    s.len() > 0 && forall|i: int| 0 <= i < s.len() ==> '0' <= #[trigger] s[i] <= '9'
}

/// What std's `str::parse::<u32>` gives: an optional '+', then one or more
/// ASCII digits whose value fits in a `u32`.
pub open spec fn parse_u32_spec(s: Seq<char>) -> Option<u32> {
    let digits = if s.len() > 0 && s[0] == '+' {
        s.drop_first()
    } else {
        s
    };
    if all_digits(digits) && digits_value(digits) <= u32::MAX {
        Some(digits_value(digits) as u32)
    } else {
        None
    }
}

/// std's integer parsing error.
#[verifier::external_type_specification]
#[verifier::external_body]
pub struct ExParseIntError(std::num::ParseIntError);

/// std's `str::parse::<u32>`: it succeeds exactly on the documented grammar
/// stated by `parse_u32_spec`, with that value. The error itself is opaque.
#[verifier::external_body]
pub(crate) fn parse_u32(s: &str) -> (r: Result<u32, std::num::ParseIntError>)
    ensures
        match r {
            Ok(v) => parse_u32_spec(s@) == Some(v),
            Err(_) => parse_u32_spec(s@) is None,
        },
{
    s.parse::<u32>()
}

/// What std's `str::parse::<i32>` gives: an optional '+' or '-', then one or
/// more ASCII digits whose signed value fits in an `i32`.
pub open spec fn parse_i32_spec(s: Seq<char>) -> Option<i32> {
    if s.len() > 0 && s[0] == '-' {
        let digits = s.drop_first();
        if all_digits(digits) && digits_value(digits) <= 0x8000_0000 {
            Some((0 - digits_value(digits)) as i32)
        } else {
            None
        }
    } else {
        let digits = if s.len() > 0 && s[0] == '+' {
            s.drop_first()
        } else {
            s
        };
        if all_digits(digits) && digits_value(digits) <= i32::MAX {
            Some(digits_value(digits) as i32)
        } else {
            None
        }
    }
}

/// std's `str::parse::<i32>`, with the error dropped; the documented grammar is
/// stated by `parse_i32_spec`.
#[verifier::external_body]
pub(crate) fn parse_i32(s: &str) -> (r: Option<i32>)
    ensures
        r == parse_i32_spec(s@),
{
    s.parse::<i32>().ok()
}

/// The decimal digits of a natural number, without leading zeros ("0" for zero).
pub open spec fn decimal(n: nat) -> Seq<char>
    decreases n,
{
    if n < 10 {
        seq![((n + 48) as u32) as char]
    } else {
        decimal(n / 10).push((((n % 10) + 48) as u32) as char)
    }
}

/// The decimal text of a `usize`, as std's `ToString` writes it.
#[verifier::external_body]
pub(crate) fn usize_to_text(n: usize) -> (r: String)
    ensures
        r@ == decimal(n as nat),
{
    n.to_string()
}

/// Whether `s` begins with `prefix`.
pub open spec fn has_prefix(s: Seq<char>, prefix: Seq<char>) -> bool {
    prefix.len() <= s.len() && s.subrange(0, prefix.len() as int) == prefix
}

/// Whether `c` occurs in `s`.
pub open spec fn has_char(s: Seq<char>, c: char) -> bool {
    exists|i: int| 0 <= i < s.len() && s[i] == c
}

/// Whether the character occurs in the text.
pub fn contains_char(s: &str, c: char) -> (r: bool)
    ensures
        r == has_char(s@, c),
{
    let v = chars_of(s);
    let mut i: usize = 0;
    while i < v.len()
        invariant
            i <= v@.len(),
            v@ == s@,
            forall|j: int| 0 <= j < i ==> v@[j] != c,
        decreases v@.len() - i,
    {
        if v[i] == c {
            return true;
        }
        i = i + 1;
    }
    false
}

/// The first `n` characters of a text.
pub fn prefix(s: &str, n: usize) -> (r: String)
    requires
        n <= s@.len(),
    ensures
        r@ == s@.subrange(0, n as int),
{
    let v = chars_of(s);
    let mut out: Vec<char> = Vec::new();
    let mut i: usize = 0;
    while i < n
        invariant
            i <= n <= v@.len(),
            out@ == v@.subrange(0, i as int),
        decreases n - i,
    {
        out.push(v[i]);
        i = i + 1;
        assert(out@ =~= v@.subrange(0, i as int));
    }
    from_chars(&out)
}

/// Number of characters of a text.
pub fn char_count(s: &str) -> (r: usize)
    ensures
        r == s@.len(),
{
    let v = chars_of(s);
    v.len()
}

/// The number of bytes of a character in UTF-8.
pub open spec fn utf8_width(c: char) -> nat {
    if (c as u32) < 0x80 {
        1
    } else if (c as u32) < 0x800 {
        2
    } else if (c as u32) < 0x10000 {
        3
    } else {
        4
    }
}

/// The byte length of a text in UTF-8 (what `str::len` counts).
pub open spec fn byte_len(s: Seq<char>) -> nat
    decreases s.len(),
{
    if s.len() == 0 {
        0
    } else {
        byte_len(s.drop_last()) + utf8_width(s.last())
    }
}

/// The length `str::len` gives for a text: its byte length in UTF-8, as a
/// `usize` (no text held in memory has more bytes than a `usize` counts).
pub open spec fn str_len(s: Seq<char>) -> nat {
    (byte_len(s) as usize) as nat
}

/// The number of bytes of a character in UTF-8 (see `utf8_width`).
pub fn char_width(c: char) -> (r: usize)
    ensures
        r == utf8_width(c),
{
    let u = c as u32;
    if u < 0x80 {
        1
    } else if u < 0x800 {
        2
    } else if u < 0x10000 {
        3
    } else {
        4
    }
}

/// Counting the bytes of a text from its front: the first character's and
/// then the rest's.
pub proof fn lemma_byte_len_front(s: Seq<char>)
    requires
        s.len() > 0,
    ensures
        byte_len(s) == utf8_width(s[0]) + byte_len(s.drop_first()),
    decreases s.len(),
{
    if s.len() == 1 {
        assert(s.drop_last().len() == 0);
        assert(s.drop_first().len() == 0);
        assert(byte_len(s.drop_last()) == 0);
        assert(byte_len(s.drop_first()) == 0);
        assert(s.last() == s[0]);
    } else {
        lemma_byte_len_front(s.drop_last());
        assert(s.drop_last().drop_first() =~= s.drop_first().drop_last());
        assert(s.drop_last()[0] == s[0]);
        assert(s.drop_first().last() == s.last());
        assert(byte_len(s.drop_first()) == byte_len(s.drop_first().drop_last()) + utf8_width(
            s.drop_first().last(),
        ));
    }
}

/// The UTF-8 encoding of a text has `byte_len` bytes.
proof fn lemma_encoded_len(s: Seq<char>)
    ensures
        vstd::utf8::encode_utf8(s).len() == byte_len(s),
    decreases s.len(),
{
    if s.len() > 0 {
        lemma_encoded_len(s.drop_first());
        lemma_byte_len_front(s);
        let c = s[0];
        assert(vstd::utf8::is_scalar(c as u32)) by {
            vstd::utf8::char_is_scalar(c);
        }
        assert(vstd::utf8::encode_scalar(c as u32).len() == utf8_width(c));
    }
}

/// A prefix of a text has no more bytes than the text.
pub proof fn lemma_prefix_bytes(data: Seq<char>, k: int)
    requires
        0 <= k <= data.len(),
    ensures
        byte_len(data.subrange(0, k)) <= byte_len(data),
    decreases data.len() - k,
{
    if k < data.len() {
        assert(data.drop_last().subrange(0, k) =~= data.subrange(0, k));
        lemma_prefix_bytes(data.drop_last(), k);
    } else {
        assert(data.subrange(0, k) =~= data);
    }
}

/// The length of a text as `str::len` gives it (see `str_len`).
pub fn text_len(s: &str) -> (r: usize)
    ensures
        r == str_len(s@),
{
    proof {
        lemma_encoded_len(s@);
    }
    s.len()
}

/// The number of leading characters of a text whose bytes fit in `index`
/// bytes: the character a byte cursor stands at (a cursor inside a character
/// stands at that character).
pub open spec fn chars_within(data: Seq<char>, index: nat) -> nat
    decreases data.len(),
{
    if data.len() == 0 {
        0
    } else if utf8_width(data[0]) <= index {
        1 + chars_within(data.drop_first(), (index - utf8_width(data[0])) as nat)
    } else {
        0
    }
}

/// A cursor at the end of the first `k` characters stands at character `k`.
pub proof fn lemma_chars_within_boundary(data: Seq<char>, k: int)
    requires
        0 <= k <= data.len(),
    ensures
        chars_within(data, byte_len(data.subrange(0, k))) == k,
    decreases k,
{
    if k == 0 {
        assert(data.subrange(0, 0).len() == 0);
    } else {
        let p = data.subrange(0, k);
        lemma_byte_len_front(p);
        assert(p.drop_first() =~= data.drop_first().subrange(0, k - 1));
        lemma_chars_within_boundary(data.drop_first(), k - 1);
    }
}

/// The text and cursor after a key press in an input field, the cursor
/// counting bytes as `str::len` does. A character is inserted at the cursor,
/// which moves past its bytes; `None` (backspace) removes the character
/// before the cursor, which moves back over its bytes. A cursor inside a
/// character stands before it. A cursor beyond the end of the text is first
/// brought back to the end, and the key is then ignored.
pub open spec fn edit_at_cursor(to_add: Option<char>, index: nat, data: Seq<char>) -> (nat, Seq<char>) {
    if index > byte_len(data) {
        (byte_len(data), data)
    } else {
        let k = chars_within(data, index) as int;
        let before = data.subrange(0, k);
        let after = data.subrange(k, data.len() as int);
        match to_add {
            Some(c) => (byte_len(before) + utf8_width(c), before.push(c) + after),
            None => if k > 0 {
                (byte_len(before.drop_last()), before.drop_last() + after)
            } else {
                (index, data)
            },
        }
    }
}

/// Applies a key press to an input field and its cursor (see `edit_at_cursor`).
/// The cursor counts bytes.
pub fn add_char_to(to_add: Option<char>, current_index: &mut usize, current_data: &mut String)
    requires
        byte_len(old(current_data)@) + 4 <= usize::MAX,
    ensures
        (*final(current_index) as nat, final(current_data)@) == edit_at_cursor(
            to_add,
            *old(current_index) as nat,
            old(current_data)@,
        ),
{
    let ghost data = current_data@;
    let n = text_len(current_data.as_str());
    let idx = *current_index;
    if idx > n {
        *current_index = n;
        return;
    }
    let mut v = chars_of(current_data.as_str());
    let mut k: usize = 0;
    let mut acc: usize = 0;
    assert(data.subrange(0, data.len() as int) =~= data);
    assert(v@.subrange(0, 0) =~= Seq::<char>::empty());
    while k < v.len() && char_width(v[k]) <= idx - acc
        invariant
            v@ == data,
            k <= v@.len(),
            acc == byte_len(v@.subrange(0, k as int)),
            acc <= idx,
            chars_within(data, idx as nat) == k + chars_within(
                data.subrange(k as int, data.len() as int),
                (idx - acc) as nat,
            ),
        decreases v@.len() - k,
    {
        let w = char_width(v[k]);
        let ghost rest = data.subrange(k as int, data.len() as int);
        assert(rest[0] == data[k as int]);
        assert(rest.drop_first() =~= data.subrange(k + 1, data.len() as int));
        assert(v@.subrange(0, k + 1).drop_last() =~= v@.subrange(0, k as int));
        acc = acc + w;
        k = k + 1;
    }
    proof {
        let rest = data.subrange(k as int, data.len() as int);
        if k < data.len() {
            assert(rest[0] == data[k as int]);
        }
        assert(chars_within(rest, (idx - acc) as nat) == 0);
    }
    match to_add {
        Some(c) => {
            v.insert(k, c);
            assert(v@ =~= data.subrange(0, k as int).push(c) + data.subrange(
                k as int,
                data.len() as int,
            ));
            *current_data = from_chars(&v);
            *current_index = acc + char_width(c);
        },
        None => {
            if k > 0 {
                let w = char_width(v[k - 1]);
                assert(data.subrange(0, k as int).drop_last() =~= data.subrange(0, k - 1));
                assert(data.subrange(0, k as int).last() == v@[k - 1]);
                v.remove(k - 1);
                assert(v@ =~= data.subrange(0, k - 1) + data.subrange(k as int, data.len() as int));
                *current_data = from_chars(&v);
                *current_index = acc - w;
            }
        },
    }
}

/// Typing a character and then pressing backspace leaves the field and its
/// cursor as they were, wherever between two characters the cursor stood
/// (here after the first `k` characters).
pub proof fn lemma_type_then_backspace(c: char, k: int, data: Seq<char>)
    requires
        0 <= k <= data.len(),
    ensures
        ({
            let index = byte_len(data.subrange(0, k));
            let (i1, d1) = edit_at_cursor(Some(c), index, data);
            edit_at_cursor(None, i1, d1) == (index, data)
        }),
{
    let index = byte_len(data.subrange(0, k));
    lemma_prefix_bytes(data, k);
    lemma_chars_within_boundary(data, k);
    let before = data.subrange(0, k);
    let after = data.subrange(k, data.len() as int);
    let d1 = before.push(c) + after;
    let i1 = byte_len(before) + utf8_width(c);
    assert(edit_at_cursor(Some(c), index, data) == (i1, d1));
    assert(d1.subrange(0, k + 1) =~= before.push(c));
    assert(before.push(c).drop_last() =~= before);
    assert(byte_len(d1.subrange(0, k + 1)) == i1);
    lemma_prefix_bytes(d1, k + 1);
    lemma_chars_within_boundary(d1, k + 1);
    assert(d1.subrange(k + 1, d1.len() as int) =~= after);
    assert(before + after =~= data);
}

/// The lower case of a text (see `lowercase`).
pub fn lower(s: &str) -> (r: String)
    ensures
        r@ == lowercase(s@),
        s@.len() > 0 ==> r@.len() > 0,
{
    to_lowercase(s)
}

} // verus!
