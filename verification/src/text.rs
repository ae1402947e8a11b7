//! Text helpers: decimal rendering and parsing of integers, string comparison
//! and concatenation, with their mathematical specifications.
use vstd::prelude::*;

verus! {

/// The character for the decimal digit `d` (`0 <= d < 10`).
pub open spec fn digit_char(d: int) -> char {
    (48 + d) as char
}

/// Whether `c` is an ASCII decimal digit.
pub open spec fn is_digit(c: char) -> bool {
    '0' <= c && c <= '9'
}

/// The value of the ASCII decimal digit `c`.
pub open spec fn digit_value(c: char) -> int {
    (c as int) - 48
}

/// Decimal rendering of a natural number, without leading zeros.
pub open spec fn nat_decimal(n: nat) -> Seq<char>
    decreases n,
{
    if n < 10 {
        seq![digit_char(n as int)]
    } else {
        nat_decimal(n / 10).push(digit_char((n % 10) as int))
    }
}

/// Decimal rendering of an integer as Rust's `Display` writes it: a `-` in
/// front of negative numbers, no sign otherwise.
pub open spec fn int_decimal(n: int) -> Seq<char> {
    if n < 0 {
        seq!['-'] + nat_decimal((-n) as nat)
    } else {
        nat_decimal(n as nat)
    }
}

/// Every character of `s` is a decimal digit.
pub open spec fn all_digits(s: Seq<char>) -> bool {
    forall|i: int| 0 <= i < s.len() ==> is_digit(#[trigger] s[i])
}

/// The value of a sequence of decimal digits (most significant first).
pub open spec fn digits_value(s: Seq<char>) -> int
    decreases s.len(),
{
    if s.len() == 0 {
        0
    } else {
        digits_value(s.drop_last()) * 10 + digit_value(s.last())
    }
}

/// The unsigned part of a signed number's text: what follows an optional
/// leading `+` or `-`.
pub open spec fn unsigned_part(s: Seq<char>) -> Seq<char> {
    if s.len() > 0 && (s[0] == '-' || s[0] == '+') {
        s.drop_first()
    } else {
        s
    }
}

/// Whether the text of a signed number starts with `-`.
pub open spec fn has_minus(s: Seq<char>) -> bool {
    s.len() > 0 && s[0] == '-'
}

/// What `str::parse::<i32>` gives back: an optional sign followed by at least
/// one decimal digit, whose value fits in an `i32`; `None` for anything else.
pub open spec fn parse_i32_spec(s: Seq<char>) -> Option<int> {
    let body = unsigned_part(s);
    if body.len() == 0 || !all_digits(body) {
        None
    } else {
        let v = if has_minus(s) {
            -digits_value(body)
        } else {
            digits_value(body)
        };
        if i32::MIN <= v <= i32::MAX {
            Some(v)
        } else {
            None
        }
    }
}

/// The part of `s` before its first occurrence of `sep`, or all of `s` when
/// `sep` does not occur (the first item of `str::split`).
pub open spec fn before_first(s: Seq<char>, sep: char) -> Seq<char>
    decreases s.len(),
{
    if s.len() == 0 {
        s
    } else if s[0] == sep {
        Seq::empty()
    } else {
        seq![s[0]] + before_first(s.drop_first(), sep)
    }
}

/// Appends the character `c` to `s` (`String::push`).
#[verifier::external_body]
pub(crate) fn push_char(s: &mut String, c: char)
    ensures
        final(s)@ == old(s)@.push(c),
{
    s.push(c);
}

/// The character of the decimal digit `d`.
fn digit_to_char(d: u64) -> (c: char)
    requires
        d < 10,
    ensures
        c == digit_char(d as int),
        is_digit(c),
{
    let b: u8 = 48u8 + (d as u8);
    b as char
}

/// A natural number's decimal text is a non-empty run of digits worth the number.
pub proof fn lemma_nat_decimal_digits(n: nat)
    ensures
        all_digits(nat_decimal(n)),
        nat_decimal(n).len() > 0,
        digits_value(nat_decimal(n)) == n,
    decreases n,
{
    if n >= 10 {
        lemma_nat_decimal_digits(n / 10);
        let s = nat_decimal(n);
        assert(s.drop_last() =~= nat_decimal(n / 10));
        assert(digit_value(s.last()) == n % 10);
        assert(n == (n / 10) * 10 + n % 10);
    } else {
        assert(nat_decimal(n).drop_last() =~= Seq::<char>::empty());
        assert(digit_value(nat_decimal(n).last()) == n);
        assert(digits_value(nat_decimal(n).drop_last()) == 0);
    }
}

/// Appends the decimal rendering of `n` to `s`.
fn push_nat_decimal(s: &mut String, n: u64)
    ensures
        final(s)@ == old(s)@ + nat_decimal(n as nat),
    decreases n,
{
    if n >= 10 {
        push_nat_decimal(s, n / 10);
    }
    let c = digit_to_char(n % 10);
    push_char(s, c);
    proof {
        if n >= 10 {
            assert(nat_decimal(n as nat) == nat_decimal((n / 10) as nat).push(digit_char(
                (n % 10) as int,
            )));
        }
    }
    assert(final(s)@ =~= old(s)@ + nat_decimal(n as nat));
}

/// Appends the decimal rendering of `n`, as `format!("{}", n)` writes it, to `s`.
pub fn push_i64_decimal(s: &mut String, n: i64)
    ensures
        final(s)@ == old(s)@ + int_decimal(n as int),
{
    if n < 0 {
        push_char(s, '-');
        let magnitude: u64 = ((-(n + 1)) as u64) + 1;
        push_nat_decimal(s, magnitude);
        assert(final(s)@ =~= old(s)@ + int_decimal(n as int));
    } else {
        push_nat_decimal(s, n as u64);
    }
}

/// The decimal rendering of `n`, as `n.to_string()` gives it.
pub fn i64_to_string(n: i64) -> (res: String)
    ensures
        res@ == int_decimal(n as int),
{
    let mut s = String::new();
    push_i64_decimal(&mut s, n);
    assert(s@ =~= int_decimal(n as int));
    s
}

/// The decimal rendering of `n`, as `n.to_string()` gives it.
pub fn i32_to_string(n: i32) -> (res: String)
    ensures
        res@ == int_decimal(n as int),
{
    i64_to_string(n as i64)
}

/// Appends `t` to `s`.
pub fn push_str(s: &mut String, t: &str)
    ensures
        final(s)@ == old(s)@ + t@,
{
    s.append(t);
}

/// `a` followed by `b`.
pub fn concat_str(a: &str, b: &str) -> (res: String)
    ensures
        res@ == a@ + b@,
{
    let mut s = String::from_str(a);
    s.append(b);
    s
}

/// Whether two strings hold the same characters.
pub fn str_eq(a: &str, b: &str) -> (res: bool)
    ensures
        res == (a@ == b@),
{
    let n = a.unicode_len();
    if n != b.unicode_len() {
        return false;
    }
    let mut i: usize = 0;
    while i < n
        invariant
            n == a@.len(),
            n == b@.len(),
            i <= n,
            forall|j: int| 0 <= j < i ==> a@[j] == b@[j],
        decreases n - i,
    {
        if a.get_char(i) != b.get_char(i) {
            return false;
        }
        i = i + 1;
    }
    assert(a@ =~= b@);
    true
}


proof fn lemma_digits_value_nonneg(s: Seq<char>)
    requires
        all_digits(s),
    ensures
        digits_value(s) >= 0,
    decreases s.len(),
{
    if s.len() > 0 {
        assert(all_digits(s.drop_last()));
        lemma_digits_value_nonneg(s.drop_last());
        assert(is_digit(s[s.len() - 1]));
    }
}

proof fn lemma_digits_value_prefix(s: Seq<char>, k: int)
    requires
        all_digits(s),
        0 <= k <= s.len(),
    ensures
        digits_value(s.take(k)) <= digits_value(s),
    decreases s.len(),
{
    if k < s.len() {
        let t = s.drop_last();
        assert(all_digits(t));
        lemma_digits_value_prefix(t, k);
        assert(t.take(k) =~= s.take(k));
        lemma_digits_value_nonneg(t);
        assert(is_digit(s[s.len() - 1]));
    } else {
        assert(s.take(k) =~= s);
    }
}

/// Rendering an `i32` in decimal and parsing it back gives the number back.
pub proof fn lemma_parse_i32_of_decimal(n: int)
    requires
        i32::MIN <= n <= i32::MAX,
    ensures
        parse_i32_spec(int_decimal(n)) == Some(n),
{
    if n < 0 {
        let m = (-n) as nat;
        lemma_nat_decimal_digits(m);
        let s = int_decimal(n);
        assert(s.drop_first() =~= nat_decimal(m));
    } else {
        lemma_nat_decimal_digits(n as nat);
        let s = nat_decimal(n as nat);
        assert(is_digit(s[0]));
    }
}

/// Parses an `i32` as `str::parse::<i32>` does.
pub fn parse_i32(s: &str) -> (res: Option<i32>)
    ensures
        match res {
            Some(v) => parse_i32_spec(s@) == Some(v as int),
            None => parse_i32_spec(s@) is None,
        },
{
    let n = s.unicode_len();
    if n == 0 {
        return None;
    }
    let first = s.get_char(0);
    let neg = first == '-';
    assert(neg == has_minus(s@));
    let start: usize = if first == '-' || first == '+' {
        1
    } else {
        0
    };
    let ghost body = unsigned_part(s@);
    assert(body =~= s@.subrange(start as int, n as int));
    if start == n {
        return None;
    }
    let mut acc: i64 = 0;
    let mut i: usize = start;
    while i < n
        invariant
            start <= i <= n,
            n == s@.len(),
            body == s@.subrange(start as int, n as int),
            body == unsigned_part(s@),
            neg == has_minus(s@),
            all_digits(s@.subrange(start as int, i as int)),
            acc == digits_value(s@.subrange(start as int, i as int)),
            0 <= acc <= 2147483648,
        decreases n - i,
    {
        let c = s.get_char(i);
        if !('0' <= c && c <= '9') {
            assert(!is_digit(body[i - start]));
            return None;
        }
        let d: i64 = ((c as u32) - 48) as i64;
        let ghost prev = s@.subrange(start as int, i as int);
        let ghost next = s@.subrange(start as int, i + 1);
        assert(next.drop_last() =~= prev);
        assert(all_digits(next));
        acc = acc * 10 + d;
        i = i + 1;
        if acc > 2147483648 {
            proof {
                if all_digits(body) {
                    lemma_digits_value_prefix(body, i - start);
                    assert(body.take(i - start) =~= next);
                }
            }
            return None;
        }
    }
    assert(s@.subrange(start as int, i as int) =~= body);
    let v: i64 = if neg {
        -acc
    } else {
        acc
    };
    if v < -2147483648 || v > 2147483647 {
        None
    } else {
        Some(v as i32)
    }
}

proof fn lemma_before_first(s: Seq<char>, sep: char, i: int)
    requires
        0 <= i <= s.len(),
        forall|j: int| 0 <= j < i ==> s[j] != sep,
        i == s.len() || s[i] == sep,
    ensures
        before_first(s, sep) == s.take(i),
    decreases s.len(),
{
    if s.len() == 0 {
        assert(s.take(i) =~= s);
    } else if i == 0 {
        assert(s.take(0) =~= Seq::<char>::empty());
    } else {
        let t = s.drop_first();
        assert forall|j: int| 0 <= j < i - 1 implies t[j] != sep by {
            assert(s[j + 1] != sep);
        }
        lemma_before_first(t, sep, i - 1);
        assert(seq![s[0]] + t.take(i - 1) =~= s.take(i));
    }
}

/// The part before the first separator is a prefix of the text that holds no
/// separator, and it ends where the text ends or where a separator stands.
pub proof fn lemma_before_first_shape(s: Seq<char>, sep: char)
    ensures
        before_first(s, sep).len() <= s.len(),
        before_first(s, sep) =~= s.take(before_first(s, sep).len() as int),
        forall|i: int| 0 <= i < before_first(s, sep).len() ==> #[trigger] before_first(s, sep)[i] != sep,
        before_first(s, sep).len() < s.len() ==> s[before_first(s, sep).len() as int] == sep,
    decreases s.len(),
{
    if s.len() > 0 && s[0] != sep {
        let t = s.drop_first();
        lemma_before_first_shape(t, sep);
        let bt = before_first(t, sep);
        let b = before_first(s, sep);
        assert(b == seq![s[0]] + bt);
        assert forall|i: int| 0 <= i < b.len() implies #[trigger] b[i] != sep by {
            if i > 0 {
                assert(b[i] == bt[i - 1]);
            }
        }
        assert(b =~= s.take(b.len() as int)) by {
            assert forall|i: int| 0 <= i < b.len() implies b[i] == s[i] by {
                if i > 0 {
                    assert(b[i] == bt[i - 1]);
                    assert(bt[i - 1] == t[i - 1]);
                }
            }
        }
        if b.len() < s.len() {
            assert(s[b.len() as int] == t[bt.len() as int]);
        }
    }
}

/// The part of `s` before the first `sep`, or all of `s` (the first item that
/// `s.split(sep)` yields).
pub fn first_segment(s: &str, sep: char) -> (res: String)
    ensures
        res@ == before_first(s@, sep),
{
    let n = s.unicode_len();
    let mut res = String::new();
    let mut i: usize = 0;
    while i < n
        invariant
            n == s@.len(),
            i <= n,
            res@ == s@.take(i as int),
            forall|j: int| 0 <= j < i ==> s@[j] != sep,
        decreases n - i,
    {
        let c = s.get_char(i);
        if c == sep {
            proof {
                lemma_before_first(s@, sep, i as int);
            }
            return res;
        }
        push_char(&mut res, c);
        assert(res@ =~= s@.take(i + 1));
        i = i + 1;
    }
    proof {
        lemma_before_first(s@, sep, i as int);
    }
    res
}

} // verus!
