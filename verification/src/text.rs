//! Character-level string operations used by routing and header handling.

use vstd::prelude::*;
use vstd::string::*;

verus! {

/// `pre` is a prefix of `s`.
pub open spec fn has_prefix(s: Seq<char>, pre: Seq<char>) -> bool {
    pre.len() <= s.len() && s.subrange(0, pre.len() as int) == pre
}

/// `part` occurs in `s` starting at position `i`.
pub open spec fn occurs_at(s: Seq<char>, part: Seq<char>, i: int) -> bool {
    0 <= i && i + part.len() <= s.len() && s.subrange(i, i + part.len()) == part
}

/// `part` occurs somewhere in `s`.
pub open spec fn contains_text(s: Seq<char>, part: Seq<char>) -> bool {
    exists|i: int| #[trigger] occurs_at(s, part, i)
}

/// A route segment that captures one path segment under `name`.
pub open spec fn path_param(name: Seq<char>) -> Seq<char> {
    seq![':'] + name
}

/// A route segment that captures the rest of the path, any number of
/// segments, under `name`.
pub open spec fn path_wildcard(name: Seq<char>) -> Seq<char> {
    seq!['*'] + name
}

/// A sequence that differs from `pre` at a position inside both does not
/// begin with `pre`.
pub proof fn lemma_differs_at(s: Seq<char>, pre: Seq<char>, k: int)
    requires
        0 <= k < pre.len(),
        k < s.len(),
        s[k] != pre[k],
    ensures
        !has_prefix(s, pre),
{
    if has_prefix(s, pre) {
        assert(s.subrange(0, pre.len() as int)[k] == s[k]);
    }
}

/// Whether two strings hold the same characters.
pub fn str_equal(a: &str, b: &str) -> (r: bool)
    ensures
        r == (a@ == b@),
{
    let n = a.unicode_len();
    if n != b.unicode_len() {
        return false;
    }
    let mut i: usize = 0;
    while i < n
        invariant
            n == a@.len(),
            n == b@.len(),
            i <= n,
            forall|j: int| 0 <= j < i ==> a@[j] == b@[j],
        decreases n - i,
    {
        if a.get_char(i) != b.get_char(i) {
            return false;
        }
        i += 1;
    }
    assert(a@ =~= b@);
    true
}

/// Whether `s` begins with `pre`.
pub fn starts_with(s: &str, pre: &str) -> (r: bool)
    ensures
        r == has_prefix(s@, pre@),
{
    let n = pre.unicode_len();
    if n > s.unicode_len() {
        return false;
    }
    let mut i: usize = 0;
    while i < n
        invariant
            n == pre@.len(),
            n <= s@.len(),
            i <= n,
            forall|j: int| 0 <= j < i ==> s@[j] == pre@[j],
        decreases n - i,
    {
        if s.get_char(i) != pre.get_char(i) {
            assert(s@.subrange(0, n as int)[i as int] != pre@[i as int]);
            return false;
        }
        i += 1;
    }
    assert(s@.subrange(0, n as int) =~= pre@);
    true
}


/// A decimal digit.
pub open spec fn is_digit(c: char) -> bool {
    '0' <= c && c <= '9'
}

/// Every character of `s` is a decimal digit.
pub open spec fn all_digits(s: Seq<char>) -> bool {
    forall|i: int| 0 <= i < s.len() ==> is_digit(#[trigger] s[i])
}

/// The number written by the decimal digits `s` (most significant first).
pub open spec fn decimal_value(s: Seq<char>) -> int
    decreases s.len(),
{
    if s.len() == 0 {
        0
    } else {
        decimal_value(s.drop_last()) * 10 + ((s.last() as int) - ('0' as int))
    }
}

/// The digits of `s` after an optional leading sign.
pub open spec fn unsigned_part(s: Seq<char>) -> Seq<char> {
    if s.len() > 0 && (s[0] == '+' || s[0] == '-') {
        s.drop_first()
    } else {
        s
    }
}

/// The value of a decimal integer written as an optional `+` or `-`
/// followed by one or more digits, when it fits in an `i64`; `None` for any
/// other text and for values out of range.
pub open spec fn parsed_i64(s: Seq<char>) -> Option<i64> {
    let digits = unsigned_part(s);
    let magnitude = decimal_value(digits);
    let v = if s.len() > 0 && s[0] == '-' { -magnitude } else { magnitude };
    if digits.len() == 0 || !all_digits(digits) {
        None
    } else if i64::MIN <= v && v <= i64::MAX {
        Some(v as i64)
    } else {
        None
    }
}

/// The value of decimal digits is at least the value of any of their
/// prefixes, and never negative.
pub proof fn lemma_decimal_value_prefix(s: Seq<char>, i: int)
    requires
        all_digits(s),
        0 <= i <= s.len(),
    ensures
        0 <= decimal_value(s.subrange(0, i)) <= decimal_value(s),
    decreases s.len(),
{
    if s.len() > 0 {
        let init = s.drop_last();
        assert(all_digits(init)) by {
            assert forall|j: int| 0 <= j < init.len() implies is_digit(#[trigger] init[j]) by {
                assert(init[j] == s[j]);
            }
        }
        assert(is_digit(s[s.len() - 1]));
        if i == s.len() {
            assert(s.subrange(0, i) =~= s);
            lemma_decimal_value_prefix(init, init.len() as int);
            assert(init.subrange(0, init.len() as int) =~= init);
        } else {
            lemma_decimal_value_prefix(init, i);
            assert(init.subrange(0, i) =~= s.subrange(0, i));
            lemma_decimal_value_prefix(init, init.len() as int);
            assert(init.subrange(0, init.len() as int) =~= init);
        }
    } else {
        assert(s.subrange(0, i) =~= s);
    }
}

/// Reading one more digit multiplies the value read so far by ten and adds
/// the digit's own value (`0` is zero, `9` is nine).
pub proof fn lemma_decimal_digit_appended(s: Seq<char>, c: char)
    requires
        is_digit(c),
    ensures
        decimal_value(s.push(c)) == 10 * decimal_value(s) + (c as int - 48),
        0 <= c as int - 48 <= 9,
{
    assert(s.push(c).drop_last() =~= s);
}

/// Decimal digits read as their value, and a sign in front of them keeps
/// (`+`) or negates (`-`) that value.
pub proof fn lemma_parsed_sign(d: Seq<char>)
    requires
        d.len() >= 1,
        all_digits(d),
        decimal_value(d) <= i64::MAX,
    ensures
        parsed_i64(d) == Some(decimal_value(d) as i64),
        parsed_i64(seq!['+'] + d) == Some(decimal_value(d) as i64),
        parsed_i64(seq!['-'] + d) == Some((-decimal_value(d)) as i64),
{
    lemma_decimal_value_prefix(d, 0);
    assert(d.subrange(0, 0) =~= Seq::<char>::empty());
    assert(is_digit(d[0]));
    assert((seq!['+'] + d).drop_first() =~= d);
    assert((seq!['-'] + d).drop_first() =~= d);
}

/// `str::parse::<i64>`: an optional sign followed by decimal digits.
pub fn parse_i64(s: &str) -> (r: Option<i64>)
    ensures
        r == parsed_i64(s@),
{
    let n = s.unicode_len();
    if n == 0 {
        return None;
    }
    let first = s.get_char(0);
    let negative = first == '-';
    let start: usize = if first == '+' || first == '-' { 1 } else { 0 };
    let ghost digits = unsigned_part(s@);
    assert(digits =~= s@.subrange(start as int, n as int));
    if start == n {
        return None;
    }
    let mut acc: i128 = 0;
    let mut i: usize = start;
    while i < n
        invariant
            start <= i <= n,
            n == s@.len(),
            start < n,
            digits == s@.subrange(start as int, n as int),
            digits == unsigned_part(s@),
            negative == (s@[0] == '-'),
            all_digits(s@.subrange(start as int, i as int)),
            acc == (if negative {
                -decimal_value(s@.subrange(start as int, i as int))
            } else {
                decimal_value(s@.subrange(start as int, i as int))
            }),
            i64::MIN <= acc <= i64::MAX,
        decreases n - i,
    {
        let c = s.get_char(i);
        let ghost before = s@.subrange(start as int, i as int);
        let ghost after = s@.subrange(start as int, i + 1);
        assert(after.drop_last() =~= before);
        assert(digits[i - start] == c);
        if !('0' <= c && c <= '9') {
            assert(!is_digit(digits[i - start]));
            return None;
        }
        assert(all_digits(after)) by {
            assert forall|j: int| 0 <= j < after.len() implies is_digit(#[trigger] after[j]) by {
                if j < before.len() {
                    assert(after[j] == before[j]);
                }
            }
        }
        let d = (c as u32 - '0' as u32) as i128;
        let next = if negative { acc * 10 - d } else { acc * 10 + d };
        assert(next == (if negative { -decimal_value(after) } else { decimal_value(after) }));
        if next < i64::MIN as i128 || next > i64::MAX as i128 {
            proof {
                if all_digits(digits) {
                    lemma_decimal_value_prefix(digits, (i + 1 - start) as int);
                    assert(digits.subrange(0, (i + 1 - start) as int) =~= after);
                }
            }
            return None;
        }
        acc = next;
        i += 1;
    }
    assert(s@.subrange(start as int, n as int) =~= digits);
    Some(acc as i64)
}

/// `str::parse::<bool>`: exactly `true` or `false`.
pub fn parse_bool(s: &str) -> (r: Option<bool>)
    ensures
        r == (if s@ == "true"@ {
            Some(true)
        } else if s@ == "false"@ {
            Some(false)
        } else {
            None
        }),
{
    if str_equal(s, "true") {
        Some(true)
    } else if str_equal(s, "false") {
        Some(false)
    } else {
        None
    }
}

/// The pieces of `s` between occurrences of `sep`, in order; an empty
/// string is one empty piece, and every `sep` starts a new piece.
pub open spec fn split_on(s: Seq<char>, sep: char) -> Seq<Seq<char>>
    decreases s.len(),
{
    if s.len() == 0 {
        seq![Seq::empty()]
    } else {
        let init = split_on(s.drop_last(), sep);
        if s.last() == sep {
            init.push(Seq::empty())
        } else {
            init.update(init.len() - 1, init.last().push(s.last()))
        }
    }
}

/// `str::split` on one character: the pieces of `s` between occurrences of
/// `sep`.
pub fn split(s: &str, sep: char) -> (r: Vec<String>)
    ensures
        r@.map_values(|x: String| x@) == split_on(s@, sep),
{
    let n = s.unicode_len();
    let mut r: Vec<String> = Vec::new();
    let mut start: usize = 0;
    let mut i: usize = 0;
    assert(s@.subrange(0, 0) =~= Seq::<char>::empty());
    assert(r@.map_values(|x: String| x@).push(s@.subrange(0, 0)) =~= split_on(
        s@.subrange(0, 0),
        sep,
    ));
    while i < n
        invariant
            n == s@.len(),
            start <= i <= n,
            r@.map_values(|x: String| x@).push(s@.subrange(start as int, i as int)) == split_on(
                s@.subrange(0, i as int),
                sep,
            ),
        decreases n - i,
    {
        let ghost segs = r@.map_values(|x: String| x@);
        let ghost prefix = s@.subrange(0, i + 1);
        assert(prefix.drop_last() =~= s@.subrange(0, i as int));
        let c = s.get_char(i);
        if c == sep {
            let piece = String::from_str(s.substring_char(start, i));
            r.push(piece);
            assert(r@.map_values(|x: String| x@) =~= segs.push(s@.subrange(start as int, i as int)));
            start = i + 1;
            assert(s@.subrange(start as int, i + 1) =~= Seq::<char>::empty());
        } else {
            assert(s@.subrange(start as int, i + 1) =~= s@.subrange(start as int, i as int).push(c));
            assert(segs.push(s@.subrange(start as int, i + 1)) =~= segs.push(
                s@.subrange(start as int, i as int),
            ).update(segs.len() as int, s@.subrange(start as int, i as int).push(c)));
        }
        i += 1;
    }
    let ghost segs = r@.map_values(|x: String| x@);
    let last = String::from_str(s.substring_char(start, n));
    r.push(last);
    assert(r@.map_values(|x: String| x@) =~= segs.push(s@.subrange(start as int, n as int)));
    assert(s@.subrange(0, n as int) =~= s@);
    r
}

/// The pieces `segs` written one after another with `sep` between them.
pub open spec fn join_with(segs: Seq<Seq<char>>, sep: char) -> Seq<char>
    decreases segs.len(),
{
    if segs.len() == 0 {
        Seq::empty()
    } else if segs.len() == 1 {
        segs[0]
    } else {
        join_with(segs.drop_last(), sep) + seq![sep] + segs.last()
    }
}

/// Splitting always gives at least one piece.
pub proof fn lemma_split_nonempty(s: Seq<char>, sep: char)
    ensures
        split_on(s, sep).len() >= 1,
    decreases s.len(),
{
    if s.len() > 0 {
        lemma_split_nonempty(s.drop_last(), sep);
    }
}

/// Joining the pieces of a split with the separator gives back the text.
pub proof fn lemma_join_split(s: Seq<char>, sep: char)
    ensures
        join_with(split_on(s, sep), sep) == s,
    decreases s.len(),
{
    if s.len() > 0 {
        let p = s.drop_last();
        let init = split_on(p, sep);
        lemma_join_split(p, sep);
        lemma_split_nonempty(p, sep);
        let segs = split_on(s, sep);
        if s.last() == sep {
            assert(segs.drop_last() =~= init);
            assert(join_with(segs, sep) =~= s);
        } else {
            let c = s.last();
            if init.len() == 1 {
                assert(segs.len() == 1);
                assert(join_with(init, sep) == init[0]);
                assert(segs[0] == init[0].push(c));
                assert(join_with(segs, sep) == segs[0]);
                assert(s =~= p.push(c));
            } else {
                assert(segs.drop_last() =~= init.drop_last());
                let a = join_with(init.drop_last(), sep) + seq![sep];
                assert(join_with(segs, sep) == a + init.last().push(c));
                assert(join_with(init, sep) == a + init.last());
                assert(s =~= p.push(c));
                assert(a + init.last().push(c) =~= (a + init.last()).push(c));
            }
        }
    }
}

/// `sep` does not occur in `s`.
pub open spec fn free_of(s: Seq<char>, sep: char) -> bool {
    forall|i: int| 0 <= i < s.len() ==> #[trigger] s[i] != sep
}

/// Text without the separator is a single piece.
pub proof fn lemma_split_single(s: Seq<char>, sep: char)
    requires
        free_of(s, sep),
    ensures
        split_on(s, sep) == seq![s],
    decreases s.len(),
{
    if s.len() > 0 {
        let p = s.drop_last();
        assert(free_of(p, sep)) by {
            assert forall|i: int| 0 <= i < p.len() implies #[trigger] p[i] != sep by {
                assert(p[i] == s[i]);
            }
        }
        lemma_split_single(p, sep);
        assert(s.last() != sep) by {
            assert(s[s.len() - 1] != sep);
        }
        assert(p.push(s.last()) =~= s);
        assert(split_on(s, sep) =~= seq![s]);
    } else {
        assert(s =~= Seq::<char>::empty());
        assert(split_on(s, sep) =~= seq![s]);
    }
}

/// Splitting text around one separator splits each side on its own.
pub proof fn lemma_split_around(a: Seq<char>, b: Seq<char>, sep: char)
    ensures
        split_on(a + seq![sep] + b, sep) == split_on(a, sep) + split_on(b, sep),
    decreases b.len(),
{
    let s = a + seq![sep] + b;
    if b.len() == 0 {
        assert(s.drop_last() =~= a);
        assert(split_on(b, sep) =~= seq![Seq::<char>::empty()]);
        assert(split_on(s, sep) =~= split_on(a, sep) + split_on(b, sep));
    } else {
        let b0 = b.drop_last();
        let c = b.last();
        lemma_split_around(a, b0, sep);
        lemma_split_nonempty(b0, sep);
        assert(s.drop_last() =~= a + seq![sep] + b0);
        assert(s.last() == c);
        let left = split_on(a, sep);
        let right = split_on(b0, sep);
        if c == sep {
            assert(split_on(s, sep) =~= (left + right).push(Seq::empty()));
            assert(split_on(b, sep) =~= right.push(Seq::empty()));
            assert((left + right).push(Seq::<char>::empty()) =~= left + right.push(Seq::empty()));
        } else {
            let joined = left + right;
            assert(joined.last() == right.last());
            assert(split_on(b, sep) =~= right.update(right.len() - 1, right.last().push(c)));
            assert(split_on(s, sep) =~= joined.update(joined.len() - 1, joined.last().push(c)));
            assert(joined.update(joined.len() - 1, joined.last().push(c)) =~= left + right.update(
                right.len() - 1,
                right.last().push(c),
            ));
        }
    }
}

/// Splitting pieces that were joined with a separator none of them holds
/// gives the pieces back.
pub proof fn lemma_split_join(segs: Seq<Seq<char>>, sep: char)
    requires
        segs.len() >= 1,
        forall|k: int| 0 <= k < segs.len() ==> free_of(#[trigger] segs[k], sep),
    ensures
        split_on(join_with(segs, sep), sep) == segs,
    decreases segs.len(),
{
    if segs.len() == 1 {
        lemma_split_single(segs[0], sep);
        assert(split_on(join_with(segs, sep), sep) =~= segs);
    } else {
        let init = segs.drop_last();
        assert forall|k: int| 0 <= k < init.len() implies free_of(#[trigger] init[k], sep) by {
            assert(init[k] == segs[k]);
        }
        lemma_split_join(init, sep);
        assert(free_of(segs[segs.len() - 1], sep));
        lemma_split_single(segs.last(), sep);
        lemma_split_around(join_with(init, sep), segs.last(), sep);
        assert(split_on(join_with(segs, sep), sep) =~= segs);
    }
}

/// The position of the last `c` in `s`, or -1 when there is none.
pub open spec fn last_index_of(s: Seq<char>, c: char) -> int
    decreases s.len(),
{
    if s.len() == 0 {
        -1
    } else if s.last() == c {
        s.len() - 1
    } else {
        last_index_of(s.drop_last(), c)
    }
}

/// The last occurrence is an occurrence, and nothing after it is one.
pub proof fn lemma_last_index_of(s: Seq<char>, c: char)
    ensures
        -1 <= last_index_of(s, c) < s.len(),
        last_index_of(s, c) >= 0 ==> s[last_index_of(s, c)] == c,
        forall|j: int| last_index_of(s, c) < j < s.len() ==> s[j] != c,
    decreases s.len(),
{
    if s.len() > 0 && s.last() != c {
        lemma_last_index_of(s.drop_last(), c);
        assert(forall|j: int| 0 <= j < s.len() - 1 ==> s.drop_last()[j] == s[j]);
    }
}

/// Where the last `c` in `s` stands, or `None`.
pub fn last_index(s: &str, c: char) -> (r: Option<usize>)
    ensures
        match r {
            Some(k) => k as int == last_index_of(s@, c),
            None => last_index_of(s@, c) == -1,
        },
{
    let n = s.unicode_len();
    let mut last: Option<usize> = None;
    let mut i: usize = 0;
    while i < n
        invariant
            n == s@.len(),
            i <= n,
            match last {
                Some(k) => k as int == last_index_of(s@.subrange(0, i as int), c),
                None => last_index_of(s@.subrange(0, i as int), c) == -1,
            },
        decreases n - i,
    {
        assert(s@.subrange(0, i + 1).drop_last() =~= s@.subrange(0, i as int));
        if s.get_char(i) == c {
            last = Some(i);
        }
        i += 1;
    }
    assert(s@.subrange(0, n as int) =~= s@);
    last
}

} // verus!
