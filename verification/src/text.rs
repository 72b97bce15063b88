//! Text helpers on `String`, `&str` and `Vec<char>` with exact specifications.

use vstd::prelude::*;

verus! {

/// The decimal digit character for a digit value below ten.
pub open spec fn digit_char(d: nat) -> char {
    if d == 0 { '0' }
    else if d == 1 { '1' }
    else if d == 2 { '2' }
    else if d == 3 { '3' }
    else if d == 4 { '4' }
    else if d == 5 { '5' }
    else if d == 6 { '6' }
    else if d == 7 { '7' }
    else if d == 8 { '8' }
    else { '9' }
}

/// Decimal notation of a natural number, without leading zeros.
pub open spec fn nat_decimal(n: nat) -> Seq<char>
    decreases n,
{
    if n < 10 {
        seq![digit_char(n)]
    } else {
        nat_decimal(n / 10).push(digit_char(n % 10))
    }
}

/// Decimal notation of an integer, with a leading `-` when negative.
pub open spec fn int_decimal(n: int) -> Seq<char> {
    if n < 0 {
        seq!['-'] + nat_decimal((-n) as nat)
    } else {
        nat_decimal(n as nat)
    }
}

fn digit_of(d: u64) -> (c: char)
    requires
        d < 10,
    ensures
        c == digit_char(d as nat),
{
    if d == 0 { '0' }
    else if d == 1 { '1' }
    else if d == 2 { '2' }
    else if d == 3 { '3' }
    else if d == 4 { '4' }
    else if d == 5 { '5' }
    else if d == 6 { '6' }
    else if d == 7 { '7' }
    else if d == 8 { '8' }
    else { '9' }
}

/// Appends one character to a string.
#[verifier::external_body]
pub(crate) fn push_char(s: &mut String, c: char)
    ensures
        final(s)@ == old(s)@.push(c),
{
    s.push(c);
}

/// Appends the characters of `v` to `s`.
pub fn push_chars(s: &mut String, v: &Vec<char>)
    ensures
        final(s)@ == old(s)@ + v@,
{
    let ghost start = s@;
    let mut i: usize = 0;
    while i < v.len()
        invariant
            i <= v.len(),
            s@ == start + v@.take(i as int),
        decreases v.len() - i,
    {
        push_char(s, v[i]);
        assert(v@.take(i as int).push(v@[i as int]) =~= v@.take(i + 1 as int));
        i = i + 1;
    }
    assert(v@.take(v.len() as int) =~= v@);
}

/// A string holding exactly the characters of `v`.
pub fn string_of(v: &Vec<char>) -> (s: String)
    ensures
        s@ == v@,
{
    let mut s = String::new();
    push_chars(&mut s, v);
    assert(s@ =~= v@);
    s
}

/// The characters of a string slice, in order.
pub fn chars_of(s: &str) -> (v: Vec<char>)
    ensures
        v@ == s@,
{
    let n = s.unicode_len();
    let mut v: Vec<char> = Vec::new();
    let mut i: usize = 0;
    while i < n
        invariant
            n == s@.len(),
            i <= n,
            v@ == s@.take(i as int),
        decreases n - i,
    {
        let c = s.get_char(i);
        v.push(c);
        assert(s@.take(i as int).push(c) =~= s@.take(i + 1 as int));
        i = i + 1;
    }
    assert(s@.take(n as int) =~= s@);
    v
}

/// Decimal digits of an unsigned number.
pub fn u64_digits(n: u64) -> (v: Vec<char>)
    ensures
        v@ == nat_decimal(n as nat),
{
    let mut m = n;
    let mut tail: Vec<char> = Vec::new();
    while m >= 10
        invariant
            nat_decimal(n as nat) == nat_decimal(m as nat) + tail@,
        decreases m,
    {
        let d = digit_of(m % 10);
        let ghost old_tail = tail@;
        tail.insert(0, d);
        assert(nat_decimal(m as nat) == nat_decimal((m / 10) as nat).push(d));
        assert(nat_decimal((m / 10) as nat).push(d) + old_tail =~= nat_decimal((m / 10) as nat) + tail@);
        m = m / 10;
    }
    let d = digit_of(m);
    let ghost old_tail = tail@;
    tail.insert(0, d);
    assert(seq![d] + old_tail =~= tail@);
    tail
}

/// Decimal notation of an unsigned number.
pub fn u64_to_string(n: u64) -> (s: String)
    ensures
        s@ == nat_decimal(n as nat),
{
    string_of(&u64_digits(n))
}

/// Decimal notation of a signed number.
pub fn i64_to_string(n: i64) -> (s: String)
    ensures
        s@ == int_decimal(n as int),
{
    if n < 0 {
        let magnitude: u64 = if n == i64::MIN {
            9223372036854775808u64
        } else {
            (-n) as u64
        };
        let mut s = String::new();
        push_char(&mut s, '-');
        push_chars(&mut s, &u64_digits(magnitude));
        assert(s@ =~= int_decimal(n as int));
        s
    } else {
        u64_to_string(n as u64)
    }
}


/// Appends the characters of `t` to `s`.
pub fn push_str(s: &mut String, t: &str)
    ensures
        final(s)@ == old(s)@ + t@,
{
    let v = chars_of(t);
    push_chars(s, &v);
}

/// An owned copy of a string slice.
pub fn to_owned_string(t: &str) -> (s: String)
    ensures
        s@ == t@,
{
    let mut s = String::new();
    push_str(&mut s, t);
    assert(s@ =~= t@);
    s
}

/// Whether two character sequences are equal.
pub fn chars_eq(a: &Vec<char>, b: &Vec<char>) -> (r: bool)
    ensures
        r == (a@ == b@),
{
    if a.len() != b.len() {
        return false;
    }
    let mut i: usize = 0;
    while i < a.len()
        invariant
            a.len() == b.len(),
            i <= a.len(),
            forall|j: int| 0 <= j < i ==> a@[j] == b@[j],
        decreases a.len() - i,
    {
        if a[i] != b[i] {
            return false;
        }
        i = i + 1;
    }
    assert(a@ =~= b@);
    true
}

/// Whether two string slices hold the same characters.
pub fn str_eq(a: &str, b: &str) -> (r: bool)
    ensures
        r == (a@ == b@),
{
    chars_eq(&chars_of(a), &chars_of(b))
}

/// ASCII lower case of one character; other characters are unchanged.
pub open spec fn lower_char(c: char) -> char {
    if 'A' <= c && c <= 'Z' {
        ((c as u32) + 32) as char
    } else {
        c
    }
}

/// ASCII lower case of a character sequence.
pub open spec fn ascii_lower(s: Seq<char>) -> Seq<char> {
    s.map_values(|c: char| lower_char(c))
}

fn lower_char_exec(c: char) -> (r: char)
    ensures
        r == lower_char(c),
{
    if 'A' <= c && c <= 'Z' {
        let code: u32 = c as u32;
        assert(65 <= code <= 90);
        let lowered: u8 = (code + 32) as u8;
        lowered as char
    } else {
        c
    }
}

/// The characters of `s` with ASCII letters turned to lower case.
pub fn to_ascii_lowercase(s: &str) -> (v: Vec<char>)
    ensures
        v@ == ascii_lower(s@),
{
    let chars = chars_of(s);
    let mut v: Vec<char> = Vec::new();
    let mut i: usize = 0;
    while i < chars.len()
        invariant
            chars@ == s@,
            i <= chars.len(),
            v@ == ascii_lower(s@).take(i as int),
        decreases chars.len() - i,
    {
        let c = lower_char_exec(chars[i]);
        v.push(c);
        assert(ascii_lower(s@).take(i as int).push(c) =~= ascii_lower(s@).take(i + 1 as int));
        i = i + 1;
    }
    assert(ascii_lower(s@).take(chars.len() as int) =~= ascii_lower(s@));
    v
}

/// Index of the first comma in `s`, or its length when it holds none.
pub open spec fn comma_pos(s: Seq<char>) -> int
    decreases s.len(),
{
    if s.len() == 0 {
        0
    } else if s[0] == ',' {
        0
    } else {
        1 + comma_pos(s.drop_first())
    }
}

/// `comma_pos` is the first position of a comma, or the length.
pub proof fn lemma_comma_pos(s: Seq<char>, i: int)
    requires
        0 <= i <= s.len(),
        forall|j: int| 0 <= j < i ==> s[j] != ',',
        i == s.len() || s[i] == ',',
    ensures
        comma_pos(s) == i,
    decreases s.len(),
{
    if s.len() > 0 && s[0] != ',' {
        let t = s.drop_first();
        assert forall|j: int| 0 <= j < i - 1 implies t[j] != ',' by {
            assert(t[j] == s[j + 1]);
        }
        if i - 1 < t.len() {
            assert(t[i - 1] == s[i]);
        }
        lemma_comma_pos(t, i - 1);
    }
}

/// The text before the first comma (all of it when there is none).
pub open spec fn first_segment(s: Seq<char>) -> Seq<char> {
    s.take(comma_pos(s))
}

/// The text after the first comma, when there is one.
pub open spec fn after_first_comma(s: Seq<char>) -> Option<Seq<char>> {
    if comma_pos(s) < s.len() {
        Some(s.skip(comma_pos(s) + 1))
    } else {
        None
    }
}

/// The first two comma-separated pieces of `s`: the first is always present,
/// the second only when `s` holds a comma.
pub open spec fn first_two_segments(s: Seq<char>) -> (Seq<char>, Option<Seq<char>>) {
    (
        first_segment(s),
        match after_first_comma(s) {
            Some(rest) => Some(first_segment(rest)),
            None => None,
        },
    )
}

/// `s` holds no comma.
pub open spec fn no_comma(s: Seq<char>) -> bool {
    forall|i: int| 0 <= i < s.len() ==> #[trigger] s[i] != ','
}

/// The pieces of `a`, and of `a` joined to `b` by a comma, when neither holds
/// a comma.
pub proof fn lemma_segments_of_joined(a: Seq<char>, b: Seq<char>)
    requires
        no_comma(a),
        no_comma(b),
    ensures
        first_two_segments(a) == (a, None::<Seq<char>>),
        first_two_segments(a + seq![','] + b) == (a, Some(b)),
{
    lemma_comma_pos(a, a.len() as int);
    assert(a.take(a.len() as int) =~= a);
    let j = a + seq![','] + b;
    assert forall|k: int| 0 <= k < a.len() implies j[k] != ',' by {
        assert(j[k] == a[k]);
    }
    lemma_comma_pos(j, a.len() as int);
    assert(j.take(a.len() as int) =~= a);
    assert(j.skip(a.len() + 1int) =~= b);
    lemma_comma_pos(b, b.len() as int);
    assert(b.take(b.len() as int) =~= b);
}

/// `s` holds no ASCII capital letter.
pub open spec fn no_capital(s: Seq<char>) -> bool {
    forall|i: int| 0 <= i < s.len() ==> !('A' <= #[trigger] s[i] && s[i] <= 'Z')
}

/// Lower-casing leaves a text without capitals unchanged.
pub proof fn lemma_ascii_lower_unchanged(s: Seq<char>)
    requires
        no_capital(s),
    ensures
        ascii_lower(s) == s,
{
    assert(ascii_lower(s) =~= s);
}

/// Position of the first comma in `v` at or after `from`, or `v.len()`.
fn find_comma(v: &Vec<char>, from: usize) -> (p: usize)
    requires
        from <= v.len(),
    ensures
        from <= p <= v.len(),
        forall|j: int| from <= j < p ==> v@[j] != ',',
        p == v.len() || v@[p as int] == ',',
{
    let mut i = from;
    while i < v.len()
        invariant
            from <= i <= v.len(),
            forall|j: int| from <= j < i ==> v@[j] != ',',
        decreases v.len() - i,
    {
        if v[i] == ',' {
            return i;
        }
        i = i + 1;
    }
    i
}

fn slice_chars(v: &Vec<char>, from: usize, to: usize) -> (r: Vec<char>)
    requires
        from <= to <= v.len(),
    ensures
        r@ == v@.subrange(from as int, to as int),
{
    let mut r: Vec<char> = Vec::new();
    let mut i = from;
    while i < to
        invariant
            from <= i <= to <= v.len(),
            r@ == v@.subrange(from as int, i as int),
        decreases to - i,
    {
        r.push(v[i]);
        assert(v@.subrange(from as int, i as int).push(v@[i as int]) =~= v@.subrange(
            from as int,
            i + 1 as int,
        ));
        i = i + 1;
    }
    r
}

/// Splits `s` at commas and returns its first two pieces.
pub fn split_first_two(s: &str) -> (r: (Vec<char>, Option<Vec<char>>))
    ensures
        r.0@ == first_two_segments(s@).0,
        match (r.1, first_two_segments(s@).1) {
            (Some(a), Some(b)) => a@ == b,
            (None, None) => true,
            _ => false,
        },
{
    let v = chars_of(s);
    let p = find_comma(&v, 0);
    proof {
        lemma_comma_pos(s@, p as int);
    }
    let first = slice_chars(&v, 0, p);
    assert(first@ =~= first_segment(s@));
    if p < v.len() {
        let q = find_comma(&v, p + 1);
        let ghost rest = s@.skip(p + 1);
        proof {
            assert forall|j: int| 0 <= j < q - (p + 1) implies rest[j] != ',' by {
                assert(rest[j] == v@[j + p + 1]);
            }
            if q < v.len() {
                assert(rest[q - (p + 1)] == v@[q as int]);
            }
            lemma_comma_pos(rest, q - (p + 1));
        }
        let second = slice_chars(&v, p + 1, q);
        assert(second@ =~= first_segment(rest));
        (first, Some(second))
    } else {
        (first, None)
    }
}


/// The pieces joined, with `sep` between consecutive pieces.
pub open spec fn seq_join(pieces: Seq<Seq<char>>, sep: Seq<char>) -> Seq<char>
    decreases pieces.len(),
{
    if pieces.len() == 0 {
        Seq::empty()
    } else if pieces.len() == 1 {
        pieces[0]
    } else {
        seq_join(pieces.drop_last(), sep) + sep + pieces.last()
    }
}

/// The views of a list of string slices.
pub open spec fn str_views(v: Seq<&str>) -> Seq<Seq<char>> {
    v.map_values(|s: &str| s@)
}

/// The views of a list of strings.
pub open spec fn string_views(v: Seq<String>) -> Seq<Seq<char>> {
    v.map_values(|s: String| s@)
}

/// Joins strings with a separator, like `[String]::join`.
pub fn join_strings(v: &Vec<String>, sep: &str) -> (s: String)
    ensures
        s@ == seq_join(string_views(v@), sep@),
{
    let mut s = String::new();
    let mut i: usize = 0;
    while i < v.len()
        invariant
            i <= v.len(),
            s@ == seq_join(string_views(v@).take(i as int), sep@),
        decreases v.len() - i,
    {
        let ghost before = s@;
        if i > 0 {
            push_str(&mut s, sep);
        }
        push_str(&mut s, v[i].as_str());
        proof {
            let t = string_views(v@).take(i + 1 as int);
            assert(t.drop_last() =~= string_views(v@).take(i as int));
            assert(t.last() == v@[i as int]@);
            if i == 0 {
                assert(s@ =~= t[0]);
            } else {
                assert(s@ =~= before + sep@ + t.last());
            }
        }
        i = i + 1;
    }
    assert(string_views(v@).take(v.len() as int) =~= string_views(v@));
    s
}


/// Whether every character is an ASCII decimal digit.
pub open spec fn all_digits(s: Seq<char>) -> bool {
    forall|i: int| 0 <= i < s.len() ==> '0' <= #[trigger] s[i] && s[i] <= '9'
}

/// The value of an ASCII decimal digit.
pub open spec fn digit_value(c: char) -> int {
    (c as int) - ('0' as int)
}

/// The number a string of decimal digits denotes.
pub open spec fn digits_value(s: Seq<char>) -> int
    decreases s.len(),
{
    if s.len() == 0 {
        0
    } else {
        digits_value(s.drop_last()) * 10 + digit_value(s.last())
    }
}

/// The number an unsigned decimal text denotes when it is at most `max`, as
/// Rust's `str::parse` reads unsigned integers: an optional `+`, then one or
/// more ASCII digits and nothing else.
pub open spec fn spec_parse_unsigned(s: Seq<char>, max: int) -> Option<int> {
    let body = if s.len() > 0 && s[0] == '+' {
        s.drop_first()
    } else {
        s
    };
    if body.len() > 0 && all_digits(body) && digits_value(body) <= max {
        Some(digits_value(body))
    } else {
        None
    }
}

proof fn lemma_digits_value_grows(s: Seq<char>, i: int)
    requires
        all_digits(s),
        0 <= i <= s.len(),
    ensures
        0 <= digits_value(s.take(i)) <= digits_value(s),
    decreases s.len() - i,
{
    if i < s.len() {
        lemma_digits_value_grows(s, i + 1);
        assert(s.take(i + 1).drop_last() =~= s.take(i));
        assert('0' <= s[i] <= '9');
    } else {
        assert(s.take(i) =~= s);
    }
    lemma_digits_value_nonneg(s.take(i));
}

proof fn lemma_digits_value_nonneg(s: Seq<char>)
    requires
        all_digits(s),
    ensures
        digits_value(s) >= 0,
    decreases s.len(),
{
    if s.len() > 0 {
        assert(all_digits(s.drop_last()));
        lemma_digits_value_nonneg(s.drop_last());
        assert('0' <= s[s.len() - 1] <= '9');
    }
}

proof fn lemma_digit_char_value(d: nat)
    requires
        d < 10,
    ensures
        '0' <= digit_char(d) <= '9',
        digit_value(digit_char(d)) == d,
{
}

proof fn lemma_nat_decimal_digits(n: nat)
    ensures
        nat_decimal(n).len() > 0,
        all_digits(nat_decimal(n)),
        digits_value(nat_decimal(n)) == n,
    decreases n,
{
    if n < 10 {
        lemma_digit_char_value(n);
        assert(nat_decimal(n).drop_last() =~= Seq::<char>::empty());
        assert(digits_value(Seq::<char>::empty()) == 0);
        assert(digits_value(nat_decimal(n)) == digits_value(nat_decimal(n).drop_last()) * 10
            + digit_value(nat_decimal(n).last()));
    } else {
        lemma_nat_decimal_digits(n / 10);
        lemma_digit_char_value(n % 10);
        let d = digit_char(n % 10);
        assert(nat_decimal(n / 10).push(d).drop_last() =~= nat_decimal(n / 10));
        assert(nat_decimal(n) == nat_decimal(n / 10).push(d));
        assert(digits_value(nat_decimal(n)) == digits_value(nat_decimal(n / 10)) * 10 + digit_value(d));
        assert((n / 10) * 10 + n % 10 == n);
        assert(all_digits(nat_decimal(n))) by {
            assert forall|i: int| 0 <= i < nat_decimal(n).len() implies '0' <= #[trigger] nat_decimal(
                n,
            )[i] && nat_decimal(n)[i] <= '9' by {
                if i < nat_decimal(n / 10).len() {
                    assert(nat_decimal(n)[i] == nat_decimal(n / 10)[i]);
                }
            }
        }
    }
}

/// A number written in decimal reads back as itself: `parse_unsigned` undoes
/// `u64_to_string` for every number within the bound.
pub proof fn lemma_decimal_round_trip(n: nat, max: int)
    requires
        n <= max,
    ensures
        spec_parse_unsigned(nat_decimal(n), max) == Some(n as int),
{
    lemma_nat_decimal_digits(n);
    assert('0' <= nat_decimal(n)[0]);
}

/// Lower-casing twice is lower-casing once.
pub proof fn lemma_ascii_lower_idempotent(s: Seq<char>)
    ensures
        ascii_lower(ascii_lower(s)) == ascii_lower(s),
{
    assert forall|i: int| 0 <= i < s.len() implies lower_char(#[trigger] lower_char(s[i])) == lower_char(
        s[i],
    ) by {
        let c = s[i];
        if 'A' <= c && c <= 'Z' {
            assert(65 <= (c as u32) <= 90);
        }
    }
    assert(ascii_lower(ascii_lower(s)) =~= ascii_lower(s));
}

/// Reads an unsigned decimal number that is at most `max`.
pub fn parse_unsigned(s: &str, max: u64) -> (r: Option<u64>)
    ensures
        match (r, spec_parse_unsigned(s@, max as int)) {
            (Some(a), Some(b)) => a as int == b,
            (None, None) => true,
            _ => false,
        },
{
    let v = chars_of(s);
    let start: usize = if v.len() > 0 && v[0] == '+' { 1 } else { 0 };
    let ghost body = if s@.len() > 0 && s@[0] == '+' { s@.drop_first() } else { s@ };
    assert(body =~= v@.skip(start as int));
    if start >= v.len() {
        return None;
    }
    let mut value: u64 = 0;
    let mut i: usize = start;
    while i < v.len()
        invariant
            v@ == s@,
            body == v@.skip(start as int),
            body == (if s@.len() > 0 && s@[0] == '+' { s@.drop_first() } else { s@ }),
            start < v.len(),
            start <= i <= v.len(),
            all_digits(body.take(i - start)),
            value as int == digits_value(body.take(i - start)),
            value <= max,
        decreases v.len() - i,
    {
        let c = v[i];
        if c < '0' || c > '9' {
            assert(body[i - start] == c);
            assert(!all_digits(body));
            return None;
        }
        let d: u64 = (c as u32 - '0' as u32) as u64;
        assert(body.take(i + 1 - start).drop_last() =~= body.take(i - start));
        assert(body.take(i + 1 - start).last() == c);
        assert(all_digits(body.take(i + 1 - start)));
        if d > max || value > (max - d) / 10 {
            proof {
                if d <= max {
                    assert(value * 10 + d > max) by (nonlinear_arith)
                        requires
                            value > (max - d) / 10,
                            d <= max,
                    ;
                }
            }
            // the number only grows with more digits, or a later character is no digit
            proof {
                if all_digits(body) {
                    lemma_digits_value_grows(body, i + 1 - start);
                }
            }
            return None;
        }
        value = value * 10 + d;
        i = i + 1;
    }
    assert(body.take(v.len() - start) =~= body);
    Some(value)
}

} // verus!
