//! Character-level helpers shared by the parsers of this crate.

use vstd::prelude::*;

verus! {

/// Collects the characters of a string slice.
pub fn chars_of(s: &str) -> (r: Vec<char>)
    ensures
        r@ == s@,
{
    let mut out: Vec<char> = Vec::new();
    for c in it: s.chars()
        invariant
            out@ == it.seq().take(it.index() as int),
            it.seq() == s@,
    {
        out.push(c);
    }
    out
}

/// Appends one character to a string.
#[verifier::external_body]
pub(crate) fn push_char(s: &mut String, c: char)
    ensures
        final(s)@ == old(s)@.push(c),
{
    s.push(c);
}

/// Builds a string from a character sequence.
pub fn string_from_chars(v: &[char]) -> (r: String)
    ensures
        r@ == v@,
{
    let mut out = String::new();
    let mut i: usize = 0;
    while i < v.len()
        invariant
            i <= v.len(),
            out@ == v@.take(i as int),
        decreases v.len() - i,
    {
        push_char(&mut out, v[i]);
        i = i + 1;
        assert(v@.take(i as int) == v@.take(i - 1).push(v@[i - 1]));
    }
    assert(v@.take(v@.len() as int) == v@);
    out
}

/// Character-wise equality of two string slices.
pub fn str_eq(a: &str, b: &str) -> (r: bool)
    ensures
        r == (a@ == b@),
{
    let x = chars_of(a);
    let y = chars_of(b);
    if x.len() != y.len() {
        return false;
    }
    let mut i: usize = 0;
    while i < x.len()
        invariant
            x@ == a@,
            y@ == b@,
            x.len() == y.len(),
            i <= x.len(),
            forall|j: int| 0 <= j < i ==> x@[j] == y@[j],
        decreases x.len() - i,
    {
        if x[i] != y[i] {
            return false;
        }
        i = i + 1;
    }
    assert(x@ =~= y@);
    true
}

} // verus!

verus! {

/// Position of the first occurrence of `d` in `s`, if any.
pub open spec fn first_index_of(s: Seq<char>, d: char) -> Option<int>
    decreases s.len(),
{
    if s.len() == 0 {
        None
    } else if s[0] == d {
        Some(0)
    } else {
        match first_index_of(s.drop_first(), d) {
            Some(i) => Some(i + 1),
            None => None,
        }
    }
}

/// `str::split` on a single character: every piece between delimiters,
/// empty pieces included; a string without the delimiter is one piece.
pub open spec fn split_on(s: Seq<char>, d: char) -> Seq<Seq<char>>
    decreases s.len(),
{
    match first_index_of(s, d) {
        None => seq![s],
        Some(i) => {
            if 0 <= i < s.len() {
                seq![s.take(i)] + split_on(s.skip(i + 1), d)
            } else {
                seq![s]
            }
        },
    }
}

pub proof fn lemma_first_index_of(s: Seq<char>, d: char, i: int)
    requires
        0 <= i <= s.len(),
        forall|j: int| 0 <= j < i ==> s[j] != d,
    ensures
        i < s.len() && s[i] == d ==> first_index_of(s, d) == Some(i),
        i == s.len() ==> first_index_of(s, d) is None,
    decreases i,
{
    if i > 0 {
        lemma_first_index_of(s.drop_first(), d, i - 1);
    }
}

pub proof fn lemma_first_index_of_bounds(s: Seq<char>, d: char)
    ensures
        first_index_of(s, d) matches Some(i) ==> 0 <= i < s.len() && s[i] == d && forall|j: int|
            0 <= j < i ==> s[j] != d,
    decreases s.len(),
{
    if s.len() > 0 {
        lemma_first_index_of_bounds(s.drop_first(), d);
        if s[0] != d {
            if let Some(k) = first_index_of(s.drop_first(), d) {
                assert forall|j: int| 0 <= j < k + 1 implies s[j] != d by {
                    if j > 0 {
                        assert(s[j] == s.drop_first()[j - 1]);
                    }
                }
            }
        }
    }
}

/// Index of the first `d` in `v` at or after `from`, or `v.len()`.
pub fn find_char_from(v: &[char], d: char, from: usize) -> (r: usize)
    requires
        from <= v.len(),
    ensures
        from <= r <= v.len(),
        forall|j: int| from <= j < r ==> v@[j] != d,
        r < v.len() ==> v@[r as int] == d,
{
    let mut i = from;
    while i < v.len()
        invariant
            from <= i <= v.len(),
            forall|j: int| from <= j < i ==> v@[j] != d,
        decreases v.len() - i,
    {
        if v[i] == d {
            return i;
        }
        i = i + 1;
    }
    i
}

/// Copies `v[lo..hi]` into a new vector.
pub fn slice_to_vec(v: &[char], lo: usize, hi: usize) -> (r: Vec<char>)
    requires
        lo <= hi <= v.len(),
    ensures
        r@ == v@.subrange(lo as int, hi as int),
{
    let mut out: Vec<char> = Vec::new();
    let mut i = lo;
    while i < hi
        invariant
            lo <= i <= hi <= v.len(),
            out@ == v@.subrange(lo as int, i as int),
        decreases hi - i,
    {
        out.push(v[i]);
        i = i + 1;
    }
    out
}

/// Splits a string on a character, like `str::split`.
pub fn split_string(s: &str, d: char) -> (r: Vec<String>)
    ensures
        r@.len() == split_on(s@, d).len(),
        forall|i: int| 0 <= i < r@.len() ==> #[trigger] r@[i]@ == split_on(s@, d)[i],
{
    let v = chars_of(s);
    let mut out: Vec<String> = Vec::new();
    let mut start: usize = 0;
    let ghost full = s@;
    assert(full.skip(0) =~= full);
    assert(out@.map_values(|x: String| x@) =~= Seq::<Seq<char>>::empty());
    assert(split_on(full, d) =~= out@.map_values(|x: String| x@) + split_on(full.skip(0), d));
    loop
        invariant_except_break
            split_on(full, d) == out@.map_values(|x: String| x@) + split_on(full.skip(start as int), d),
        invariant
            v@ == full,
            full == s@,
            start <= v.len(),
        ensures
            split_on(full, d) =~= out@.map_values(|x: String| x@),
        decreases v.len() - start,
    {
        let idx = find_char_from(&v, d, start);
        let ghost rest = full.skip(start as int);
        proof {
            lemma_first_index_of(rest, d, (idx - start) as int);
        }
        let piece = slice_to_vec(&v, start, idx);
        let ps = string_from_chars(&piece);
        if idx == v.len() {
            assert(rest.take((idx - start) as int) =~= rest);
            assert(split_on(rest, d) == seq![rest]);
            out.push(ps);
            assert(split_on(full, d) =~= out@.map_values(|x: String| x@));
            break;
        } else {
            assert(rest.take((idx - start) as int) =~= piece@);
            assert(rest.skip((idx - start) as int + 1) =~= full.skip(idx + 1));
            assert(split_on(rest, d) == seq![piece@] + split_on(full.skip(idx + 1), d));
            let ghost old_out = out@;
            out.push(ps);
            assert(out@.map_values(|x: String| x@) =~= old_out.map_values(|x: String| x@).push(piece@));
            assert(split_on(full, d) =~= out@.map_values(|x: String| x@) + split_on(full.skip(idx + 1), d));
            start = idx + 1;
        }
    }
    proof {
        assert(out@.map_values(|x: String| x@).len() == out@.len());
        assert forall|i: int| 0 <= i < out@.len() implies #[trigger] out@[i]@ == split_on(s@, d)[i] by {
            assert(out@.map_values(|x: String| x@)[i] == out@[i]@);
        }
    }
    out
}

} // verus!

verus! {

pub open spec fn is_digit(c: char) -> bool {
    '0' <= c && c <= '9'
}

pub open spec fn digit_val(c: char) -> nat {
    (c as int - '0' as int) as nat
}

pub open spec fn all_digits(s: Seq<char>) -> bool {
    forall|i: int| 0 <= i < s.len() ==> is_digit(#[trigger] s[i])
}

/// Decimal value of a digit string.
pub open spec fn digits_value(s: Seq<char>) -> nat
    decreases s.len(),
{
    if s.len() == 0 {
        0
    } else {
        digits_value(s.drop_last()) * 10 + digit_val(s.last())
    }
}

/// `str::parse::<u64>`: an optional `+`, then one or more decimal digits
/// whose value fits in a `u64`.
pub open spec fn spec_parse_u64(s: Seq<char>) -> Option<u64> {
    let body = if s.len() > 0 && s[0] == '+' { s.drop_first() } else { s };
    if body.len() > 0 && all_digits(body) && digits_value(body) <= u64::MAX {
        Some(digits_value(body) as u64)
    } else {
        None
    }
}

/// `str::parse::<i64>`: an optional sign, then one or more decimal digits
/// whose signed value fits in an `i64`.
pub open spec fn spec_parse_i64(s: Seq<char>) -> Option<i64> {
    let neg = s.len() > 0 && s[0] == '-';
    let body = if s.len() > 0 && (s[0] == '+' || s[0] == '-') { s.drop_first() } else { s };
    if body.len() > 0 && all_digits(body) {
        let v: int = if neg { -(digits_value(body) as int) } else { digits_value(body) as int };
        if i64::MIN <= v <= i64::MAX {
            Some(v as i64)
        } else {
            None
        }
    } else {
        None
    }
}

pub proof fn lemma_digits_value_monotone(s: Seq<char>, i: int)
    requires
        0 <= i <= s.len(),
        all_digits(s),
    ensures
        digits_value(s.take(i)) <= digits_value(s),
    decreases s.len() - i,
{
    if i < s.len() {
        lemma_digits_value_monotone(s, i + 1);
        assert(s.take(i + 1).drop_last() =~= s.take(i));
        assert(digits_value(s.take(i + 1)) == digits_value(s.take(i)) * 10 + digit_val(s[i]));
    } else {
        assert(s.take(i) =~= s);
    }
}

/// Value of the digit string `v[lo..hi]`, or `None` once it exceeds `limit`.
pub fn digits_value_upto(v: &[char], lo: usize, hi: usize, limit: u128) -> (r: Option<u128>)
    requires
        lo <= hi <= v.len(),
        all_digits(v@.subrange(lo as int, hi as int)),
        limit <= u64::MAX as u128 + 1,
    ensures
        r matches Some(x) ==> x == digits_value(v@.subrange(lo as int, hi as int)) && x <= limit,
        r is None ==> digits_value(v@.subrange(lo as int, hi as int)) > limit,
{
    let ghost body = v@.subrange(lo as int, hi as int);
    let mut acc: u128 = 0;
    let mut i = lo;
    while i < hi
        invariant
            lo <= i <= hi <= v.len(),
            body == v@.subrange(lo as int, hi as int),
            all_digits(body),
            acc == digits_value(body.take(i - lo)),
            acc <= limit,
            limit <= u64::MAX as u128 + 1,
        decreases hi - i,
    {
        assert(body.take(i - lo + 1).drop_last() =~= body.take(i - lo));
        assert(body[i - lo] == v@[i as int]);
        assert(is_digit(body[i - lo]));
        let d = (v[i] as u32 - '0' as u32) as u128;
        let next = acc * 10 + d;
        i = i + 1;
        if next > limit {
            proof {
                lemma_digits_value_monotone(body, (i - lo) as int);
            }
            return None;
        }
        acc = next;
    }
    assert(body.take(hi - lo) =~= body);
    Some(acc)
}

/// `str::parse::<u64>` on a character slice.
#[verifier::loop_isolation(false)]
pub fn parse_u64_chars(v: &[char]) -> (r: Option<u64>)
    ensures
        r == spec_parse_u64(v@),
{
    let start: usize = if v.len() > 0 && v[0] == '+' { 1 } else { 0 };
    let ghost body = if v@.len() > 0 && v@[0] == '+' { v@.drop_first() } else { v@ };
    assert(body =~= v@.subrange(start as int, v@.len() as int));
    if start == v.len() {
        return None;
    }
    let mut i = start;
    while i < v.len()
        invariant
            start <= i <= v.len(),
            forall|j: int| start <= j < i ==> is_digit(#[trigger] v@[j]),
        decreases v.len() - i,
    {
        if !(v[i] >= '0' && v[i] <= '9') {
            assert(!is_digit(body[i - start]));
            return None;
        }
        i = i + 1;
    }
    assert(all_digits(body));
    match digits_value_upto(v, start, v.len(), u64::MAX as u128) {
        Some(x) => Some(x as u64),
        None => None,
    }
}

/// `str::parse::<i64>` on a character slice.
#[verifier::loop_isolation(false)]
pub fn parse_i64_chars(v: &[char]) -> (r: Option<i64>)
    ensures
        r == spec_parse_i64(v@),
{
    let neg = v.len() > 0 && v[0] == '-';
    let start: usize = if v.len() > 0 && (v[0] == '+' || v[0] == '-') { 1 } else { 0 };
    let ghost body = if v@.len() > 0 && (v@[0] == '+' || v@[0] == '-') { v@.drop_first() } else { v@ };
    assert(body =~= v@.subrange(start as int, v@.len() as int));
    if start == v.len() {
        return None;
    }
    let mut i = start;
    while i < v.len()
        invariant
            start <= i <= v.len(),
            forall|j: int| start <= j < i ==> is_digit(#[trigger] v@[j]),
        decreases v.len() - i,
    {
        if !(v[i] >= '0' && v[i] <= '9') {
            assert(!is_digit(body[i - start]));
            return None;
        }
        i = i + 1;
    }
    assert(all_digits(body));
    let limit: u128 = if neg { 9223372036854775808 } else { 9223372036854775807 };
    match digits_value_upto(v, start, v.len(), limit) {
        Some(x) => {
            if neg {
                if x == 9223372036854775808 {
                    Some(i64::MIN)
                } else {
                    Some(-(x as i64))
                }
            } else {
                Some(x as i64)
            }
        },
        None => None,
    }
}

/// `str::parse::<i64>`.
pub fn parse_i64(s: &str) -> (r: Option<i64>)
    ensures
        r == spec_parse_i64(s@),
{
    let v = chars_of(s);
    parse_i64_chars(&v)
}

/// Decimal text of a natural number.
pub open spec fn nat_text(n: nat) -> Seq<char>
    decreases n,
{
    if n < 10 {
        seq![(n + '0' as nat) as char]
    } else {
        nat_text(n / 10).push(((n % 10) + '0' as nat) as char)
    }
}

/// Decimal text of an integer, with a leading `-` when negative.
pub open spec fn int_text(x: int) -> Seq<char> {
    if x < 0 {
        seq!['-'] + nat_text((-x) as nat)
    } else {
        nat_text(x as nat)
    }
}

fn digit_char(d: u64) -> (c: char)
    requires
        d < 10,
    ensures
        c == (d + '0' as nat) as char,
{
    if d == 0 { '0' } else if d == 1 { '1' } else if d == 2 { '2' } else if d == 3 { '3' } else if d == 4 { '4' }
    else if d == 5 { '5' } else if d == 6 { '6' } else if d == 7 { '7' } else if d == 8 { '8' } else { '9' }
}

/// Decimal text of a `u64`.
pub fn u64_to_text(n: u64) -> (r: String)
    ensures
        r@ == nat_text(n as nat),
    decreases n,
{
    if n < 10 {
        let mut s = String::new();
        push_char(&mut s, digit_char(n));
        assert(s@ =~= nat_text(n as nat));
        s
    } else {
        let mut s = u64_to_text(n / 10);
        push_char(&mut s, digit_char(n % 10));
        s
    }
}

/// Decimal text of an `i64`.
pub fn i64_to_text(x: i64) -> (r: String)
    ensures
        r@ == int_text(x as int),
{
    if x < 0 {
        let m: u64 = if x == i64::MIN { 9223372036854775808u64 } else { (-x) as u64 };
        let mut s = String::new();
        push_char(&mut s, '-');
        let t = u64_to_text(m);
        s.append(t.as_str());
        assert(s@ =~= int_text(x as int));
        s
    } else {
        u64_to_text(x as u64)
    }
}

} // verus!

verus! {

/// `char::is_whitespace`: the Unicode `White_Space` property.
pub open spec fn is_ws(c: char) -> bool {
    ('\u{9}' <= c && c <= '\u{d}') || c == ' ' || c == '\u{85}' || c == '\u{a0}' || c == '\u{1680}'
        || ('\u{2000}' <= c && c <= '\u{200a}') || c == '\u{2028}' || c == '\u{2029}' || c == '\u{202f}'
        || c == '\u{205f}' || c == '\u{3000}'
}

pub fn is_ws_exec(c: char) -> (r: bool)
    ensures
        r == is_ws(c),
{
    ('\u{9}' <= c && c <= '\u{d}') || c == ' ' || c == '\u{85}' || c == '\u{a0}' || c == '\u{1680}'
        || ('\u{2000}' <= c && c <= '\u{200a}') || c == '\u{2028}' || c == '\u{2029}' || c == '\u{202f}'
        || c == '\u{205f}' || c == '\u{3000}'
}

pub open spec fn trim_start(s: Seq<char>) -> Seq<char>
    decreases s.len(),
{
    if s.len() > 0 && is_ws(s[0]) {
        trim_start(s.drop_first())
    } else {
        s
    }
}

pub open spec fn trim_end(s: Seq<char>) -> Seq<char>
    decreases s.len(),
{
    if s.len() > 0 && is_ws(s.last()) {
        trim_end(s.drop_last())
    } else {
        s
    }
}

/// `str::trim`.
pub open spec fn trim(s: Seq<char>) -> Seq<char> {
    trim_end(trim_start(s))
}

proof fn lemma_trim_start_at(s: Seq<char>, i: int)
    requires
        0 <= i <= s.len(),
        forall|j: int| 0 <= j < i ==> is_ws(s[j]),
        i == s.len() || !is_ws(s[i]),
    ensures
        trim_start(s) == s.skip(i),
    decreases i,
{
    if i > 0 {
        lemma_trim_start_at(s.drop_first(), i - 1);
        assert(s.drop_first().skip(i - 1) =~= s.skip(i));
    } else {
        assert(s.skip(0) =~= s);
    }
}

proof fn lemma_trim_end_at(s: Seq<char>, i: int)
    requires
        0 <= i <= s.len(),
        forall|j: int| i <= j < s.len() ==> is_ws(s[j]),
        i == 0 || !is_ws(s[i - 1]),
    ensures
        trim_end(s) == s.take(i),
    decreases s.len() - i,
{
    if i < s.len() {
        lemma_trim_end_at(s.drop_last(), i);
        assert(s.drop_last().take(i) =~= s.take(i));
    } else {
        assert(s.take(i) =~= s);
    }
}

/// `str::trim` on a character vector.
pub fn trim_chars(v: &Vec<char>) -> (r: Vec<char>)
    ensures
        r@ == trim(v@),
{
    let mut lo: usize = 0;
    while lo < v.len() && is_ws_exec(v[lo])
        invariant
            lo <= v.len(),
            forall|j: int| 0 <= j < lo ==> is_ws(v@[j]),
        decreases v.len() - lo,
    {
        lo = lo + 1;
    }
    proof {
        lemma_trim_start_at(v@, lo as int);
    }
    let mut hi: usize = v.len();
    while hi > lo && is_ws_exec(v[hi - 1])
        invariant
            lo <= hi <= v.len(),
            forall|j: int| hi <= j < v.len() ==> is_ws(v@[j]),
        decreases hi - lo,
    {
        hi = hi - 1;
    }
    let ghost t = v@.skip(lo as int);
    proof {
        assert forall|j: int| hi - lo <= j < t.len() implies is_ws(t[j]) by {
            assert(t[j] == v@[j + lo]);
        }
        if hi > lo {
            assert(t[hi - lo - 1] == v@[hi - 1]);
        }
        lemma_trim_end_at(t, (hi - lo) as int);
        assert(t.take((hi - lo) as int) =~= v@.subrange(lo as int, hi as int));
    }
    slice_to_vec(v, lo, hi)
}

/// Appends a string slice to a string.
pub fn append_str(s: &mut String, t: &str)
    ensures
        final(s)@ == old(s)@ + t@,
{
    s.append(t);
}

} // verus!

verus! {

/// The decimal text of a number is a non-empty run of digits with that
/// value.
pub proof fn lemma_nat_text(n: nat)
    ensures
        nat_text(n).len() > 0,
        all_digits(nat_text(n)),
        digits_value(nat_text(n)) == n,
    decreases n,
{
    if n >= 10 {
        lemma_nat_text(n / 10);
        let t = nat_text(n);
        assert(t.drop_last() =~= nat_text(n / 10));
        assert forall|i: int| 0 <= i < t.len() implies is_digit(#[trigger] t[i]) by {
            if i < t.len() - 1 {
                assert(t[i] == nat_text(n / 10)[i]);
            }
        }
        assert(digit_val(t.last()) == n % 10);
        assert(digits_value(t) == digits_value(nat_text(n / 10)) * 10 + n % 10);
        assert((n / 10) * 10 + n % 10 == n) by (nonlinear_arith);
    } else {
        assert(digit_val(nat_text(n).last()) == n);
        assert(nat_text(n).drop_last() =~= Seq::<char>::empty());
        assert(digits_value(Seq::<char>::empty()) == 0);
        assert(digits_value(nat_text(n)) == digits_value(nat_text(n).drop_last()) * 10 + n);
    }
}

} // verus!

verus! {

/// Lexicographic order on texts by character (the order of `str`'s
/// `Ord`, which compares UTF-8 bytes and so code points).
pub open spec fn lex_le(a: Seq<char>, b: Seq<char>) -> bool
    decreases a.len(),
{
    if a.len() == 0 {
        true
    } else if b.len() == 0 {
        false
    } else if a[0] != b[0] {
        a[0] < b[0]
    } else {
        lex_le(a.drop_first(), b.drop_first())
    }
}

pub proof fn lemma_lex_total(a: Seq<char>, b: Seq<char>)
    ensures
        lex_le(a, b) || lex_le(b, a),
    decreases a.len(),
{
    if a.len() > 0 && b.len() > 0 && a[0] == b[0] {
        lemma_lex_total(a.drop_first(), b.drop_first());
    }
}

pub proof fn lemma_lex_refl(a: Seq<char>)
    ensures
        lex_le(a, a),
    decreases a.len(),
{
    if a.len() > 0 {
        lemma_lex_refl(a.drop_first());
    }
}

pub proof fn lemma_lex_trans(a: Seq<char>, b: Seq<char>, c: Seq<char>)
    requires
        lex_le(a, b),
        lex_le(b, c),
    ensures
        lex_le(a, c),
    decreases a.len(),
{
    if a.len() > 0 && b.len() > 0 && c.len() > 0 && a[0] == b[0] && b[0] == c[0] {
        lemma_lex_trans(a.drop_first(), b.drop_first(), c.drop_first());
    }
}

/// `a <= b` on texts.
pub fn lex_le_exec(a: &str, b: &str) -> (r: bool)
    ensures
        r == lex_le(a@, b@),
{
    let av = chars_of(a);
    let bv = chars_of(b);
    let mut i: usize = 0;
    assert(a@.skip(0) =~= a@);
    assert(b@.skip(0) =~= b@);
    while i < av.len() && i < bv.len() && av[i] == bv[i]
        invariant
            i <= av@.len(),
            i <= bv@.len(),
            av@ == a@,
            bv@ == b@,
            forall|j: int| 0 <= j < i ==> av@[j] == bv@[j],
            lex_le(a@, b@) == lex_le(a@.skip(i as int), b@.skip(i as int)),
        decreases av@.len() - i,
    {
        assert(a@.skip(i as int).drop_first() =~= a@.skip(i + 1));
        assert(b@.skip(i as int).drop_first() =~= b@.skip(i + 1));
        i = i + 1;
    }
    if i == av.len() {
        true
    } else if i == bv.len() {
        false
    } else {
        av[i] < bv[i]
    }
}

pub open spec fn views(v: Seq<String>) -> Seq<Seq<char>> {
    Seq::new(v.len(), |i: int| v[i]@)
}

pub open spec fn lex_sorted(s: Seq<Seq<char>>) -> bool {
    forall|i: int, j: int| 0 <= i < j < s.len() ==> lex_le(s[i], s[j])
}

/// Sorts texts in ascending order.
pub fn sort_strings(v: Vec<String>) -> (r: Vec<String>)
    ensures
        lex_sorted(views(r@)),
        views(r@).to_multiset() == views(v@).to_multiset(),
{
    broadcast use vstd::seq_lib::group_to_multiset_ensures;
    let mut rem = v;
    let mut out: Vec<String> = Vec::new();
    let ghost orig = views(rem@);
    assert(views(out@).to_multiset().add(views(rem@).to_multiset()) =~= orig.to_multiset()) by {
        assert(views(out@) =~= Seq::<Seq<char>>::empty());
    }
    while rem.len() > 0
        invariant
            lex_sorted(views(out@)),
            forall|i: int, j: int| 0 <= i < out@.len() && 0 <= j < rem@.len() ==> lex_le(#[trigger] out@[i]@, #[trigger] rem@[j]@),
            views(out@).to_multiset().add(views(rem@).to_multiset()) == orig.to_multiset(),
        decreases rem@.len(),
    {
        let mut m: usize = 0;
        let mut k: usize = 1;
        proof {
            lemma_lex_refl(rem@[0]@);
        }
        while k < rem.len()
            invariant
                0 <= m < rem@.len(),
                1 <= k <= rem@.len(),
                forall|j: int| 0 <= j < k ==> lex_le(rem@[m as int]@, #[trigger] rem@[j]@),
            decreases rem@.len() - k,
        {
            if !lex_le_exec(rem[m].as_str(), rem[k].as_str()) {
                proof {
                    lemma_lex_total(rem@[m as int]@, rem@[k as int]@);
                    assert forall|j: int| 0 <= j < k + 1 implies lex_le(rem@[k as int]@, #[trigger] rem@[j]@) by {
                        if j < k {
                            lemma_lex_trans(rem@[k as int]@, rem@[m as int]@, rem@[j]@);
                        } else {
                            lemma_lex_total(rem@[k as int]@, rem@[k as int]@);
                        }
                    }
                }
                m = k;
            }
            k = k + 1;
        }
        let ghost before_rem = rem@;
        let ghost before_out = out@;
        let x = rem.remove(m);
        proof {
            assert(views(rem@) =~= views(before_rem).remove(m as int));
            assert(views(before_rem)[m as int] == x@);
        }
        out.push(x);
        proof {
            assert(views(out@) =~= views(before_out).push(x@));
            assert forall|i: int, j: int| 0 <= i < j < views(out@).len() implies lex_le(views(out@)[i], views(out@)[j]) by {
                if j == out@.len() - 1 {
                    assert(before_rem[m as int] == x);
                }
            }
            assert forall|i: int, j: int| 0 <= i < out@.len() && 0 <= j < rem@.len() implies lex_le(#[trigger] out@[i]@, #[trigger] rem@[j]@) by {
                let jj = if j < m { j } else { j + 1 };
                assert(rem@[j] == before_rem[jj]);
                if i == out@.len() - 1 {
                    assert(out@[i] == before_rem[m as int]);
                }
            }
            let vo = views(before_out);
            let vr = views(before_rem);
            vo.to_multiset_ensures();
            vr.to_multiset_ensures();
            assert(vr[m as int] == x@);
            assert(vr.contains(x@));
            assert(vr.to_multiset().count(x@) > 0);
            assert(views(out@).to_multiset() =~= vo.push(x@).to_multiset());
            assert(views(out@).to_multiset() =~= vo.to_multiset().insert(x@));
            assert(views(rem@).to_multiset() =~= vr.remove(m as int).to_multiset());
            assert(views(rem@).to_multiset() =~= vr.to_multiset().remove(x@));
            assert(views(out@).to_multiset().add(views(rem@).to_multiset()) =~= vo.to_multiset().add(vr.to_multiset()));
        }
    }
    assert(views(rem@) =~= Seq::<Seq<char>>::empty());
    assert(views(out@).to_multiset().add(views(rem@).to_multiset()) =~= views(out@).to_multiset());
    out
}

} // verus!

verus! {

/// `t` occurs in `s`.
pub open spec fn contains_sub(s: Seq<char>, t: Seq<char>) -> bool {
    exists|i: int| 0 <= i && i + t.len() <= s.len() && #[trigger] s.subrange(i, i + t.len()) == t
}

/// `str::contains` with a text pattern.
pub fn str_contains(s: &str, t: &str) -> (r: bool)
    ensures
        r == contains_sub(s@, t@),
{
    let sv = chars_of(s);
    let tv = chars_of(t);
    if tv.len() > sv.len() {
        return false;
    }
    let mut i: usize = 0;
    let last = sv.len() - tv.len();
    assert(sv@.len() == sv.len());
    while i <= last
        invariant
            sv@.len() <= usize::MAX,
            sv@ == s@,
            tv@ == t@,
            tv@.len() <= sv@.len(),
            last == sv@.len() - tv@.len(),
            i <= last + 1,
            forall|k: int| 0 <= k < i ==> #[trigger] s@.subrange(k, k + t@.len()) != t@,
        decreases last + 1 - i,
    {
        let mut j: usize = 0;
        while j < tv.len() && sv[i + j] == tv[j]
            invariant
                sv@.len() <= usize::MAX,
                i <= last,
                last == sv@.len() - tv@.len(),
                i + tv@.len() <= sv@.len(),
                j <= tv@.len(),
                sv@ == s@,
                tv@ == t@,
                forall|m: int| 0 <= m < j ==> sv@[i + m] == tv@[m],
            decreases tv@.len() - j,
        {
            j = j + 1;
        }
        if j == tv.len() {
            assert(s@.subrange(i as int, i + t@.len()) =~= t@);
            return true;
        }
        assert(s@.subrange(i as int, i + t@.len())[j as int] != t@[j as int]);
        i = i + 1;
    }
    assert forall|k: int| 0 <= k && k + t@.len() <= s@.len() implies #[trigger] s@.subrange(k, k + t@.len()) != t@ by {
        assert(k < i);
    }
    false
}

} // verus!

verus! {

/// A text without the delimiter has no first occurrence of it.
pub proof fn lemma_first_index_of_none(s: Seq<char>, d: char)
    ensures
        first_index_of(s, d) is None <==> forall|j: int| 0 <= j < s.len() ==> s[j] != d,
    decreases s.len(),
{
    if s.len() > 0 {
        lemma_first_index_of_none(s.drop_first(), d);
        if first_index_of(s, d) is None {
            assert forall|j: int| 0 <= j < s.len() implies s[j] != d by {
                if j > 0 {
                    assert(s[j] == s.drop_first()[j - 1]);
                }
            }
        }
    }
    if forall|j: int| 0 <= j < s.len() ==> s[j] != d {
        lemma_first_index_of(s, d, s.len() as int);
    }
}

/// Splitting at a delimiter placed between two texts splits each side.
pub proof fn lemma_split_concat(q: Seq<char>, r: Seq<char>, d: char)
    ensures
        split_on(q + seq![d] + r, d) == split_on(q, d) + split_on(r, d),
    decreases q.len(),
{
    let s = q + seq![d] + r;
    lemma_first_index_of_bounds(q, d);
    lemma_first_index_of_none(q, d);
    match first_index_of(q, d) {
        None => {
            lemma_first_index_of(s, d, q.len() as int);
            assert(s.take(q.len() as int) =~= q);
            assert(s.skip(q.len() as int + 1) =~= r);
        },
        Some(i) => {
            lemma_first_index_of(s, d, i);
            assert(s.take(i) =~= q.take(i));
            assert(s.skip(i + 1) =~= q.skip(i + 1) + seq![d] + r);
            lemma_split_concat(q.skip(i + 1), r, d);
            assert(seq![q.take(i)] + (split_on(q.skip(i + 1), d) + split_on(r, d)) =~= (seq![q.take(i)] + split_on(q.skip(i + 1), d)) + split_on(r, d));
        },
    }
}

/// A text without the delimiter is one piece.
pub proof fn lemma_split_whole(s: Seq<char>, d: char)
    requires
        forall|j: int| 0 <= j < s.len() ==> s[j] != d,
    ensures
        split_on(s, d) == seq![s],
{
    lemma_first_index_of_none(s, d);
}

/// No piece of a split holds the delimiter.
pub proof fn lemma_split_pieces_free(s: Seq<char>, d: char)
    ensures
        forall|k: int, j: int| 0 <= k < split_on(s, d).len() && 0 <= j < split_on(s, d)[k].len() ==> #[trigger] split_on(s, d)[k][j] != d,
    decreases s.len(),
{
    lemma_first_index_of_bounds(s, d);
    lemma_first_index_of_none(s, d);
    match first_index_of(s, d) {
        None => {},
        Some(i) => {
            lemma_split_pieces_free(s.skip(i + 1), d);
            let rest = split_on(s.skip(i + 1), d);
            assert forall|k: int, j: int| 0 <= k < split_on(s, d).len() && 0 <= j < split_on(s, d)[k].len() implies #[trigger] split_on(s, d)[k][j] != d by {
                if k == 0 {
                    assert(split_on(s, d)[k] == s.take(i));
                } else {
                    assert(split_on(s, d)[k] == rest[k - 1]);
                }
            }
        },
    }
}

proof fn lemma_trim_start_shape(s: Seq<char>)
    ensures
        trim_start(s).len() <= s.len(),
        trim_start(s) =~= s.skip(s.len() - trim_start(s).len()),
        trim_start(s).len() > 0 ==> !is_ws(trim_start(s)[0]),
    decreases s.len(),
{
    if s.len() > 0 && is_ws(s[0]) {
        lemma_trim_start_shape(s.drop_first());
        assert(s.drop_first().skip(s.drop_first().len() - trim_start(s).len()) =~= s.skip(s.len() - trim_start(s).len()));
    } else {
        assert(s.skip(0) =~= s);
    }
}

proof fn lemma_trim_end_shape(s: Seq<char>)
    ensures
        trim_end(s).len() <= s.len(),
        trim_end(s) =~= s.take(trim_end(s).len() as int),
        trim_end(s).len() > 0 ==> !is_ws(trim_end(s).last()),
    decreases s.len(),
{
    if s.len() > 0 && is_ws(s.last()) {
        lemma_trim_end_shape(s.drop_last());
        assert(s.drop_last().take(trim_end(s).len() as int) =~= s.take(trim_end(s).len() as int));
    } else {
        assert(s.take(s.len() as int) =~= s);
    }
}

/// Trimming twice trims once; a trimmed text keeps only characters of
/// the text it came from.
pub proof fn lemma_trim_clean(s: Seq<char>, d: char)
    ensures
        trim(trim(s)) == trim(s),
        (forall|j: int| 0 <= j < s.len() ==> s[j] != d) ==> (forall|j: int| 0 <= j < trim(s).len() ==> trim(s)[j] != d),
{
    let a = trim_start(s);
    lemma_trim_start_shape(s);
    lemma_trim_end_shape(a);
    let t = trim(s);
    if t.len() > 0 {
        assert(t[0] == a[0]);
        assert(trim_start(t) == t);
        assert(trim_end(t) == t);
    } else {
        assert(trim_start(t) == t);
        assert(trim_end(t) == t);
    }
    if forall|j: int| 0 <= j < s.len() ==> s[j] != d {
        assert forall|j: int| 0 <= j < t.len() implies t[j] != d by {
            assert(t[j] == a[j]);
            assert(a[j] == s[j + (s.len() - a.len())]);
        }
    }
}

/// A leading space goes away when trimming.
pub proof fn lemma_trim_space_before(x: Seq<char>)
    ensures
        trim(seq![' '] + x) == trim(x),
{
    let s = seq![' '] + x;
    assert(is_ws(' '));
    assert(s.drop_first() =~= x);
    assert(trim_start(s) == trim_start(x));
}

} // verus!
