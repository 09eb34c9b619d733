//! Decimal numerals: printing and reading integers.

use vstd::prelude::*;
use vstd::string::*;

use crate::text::chars_of;

verus! {

/// The character of a decimal digit.
pub open spec fn digit_char(d: nat) -> char {
    (48 + d) as char
}

/// The decimal numeral of a natural number, without leading zeros.
pub open spec fn decimal(n: nat) -> Seq<char>
    decreases n,
{
    if n < 10 {
        seq![digit_char(n)]
    } else {
        decimal(n / 10).push(digit_char(n % 10))
    }
}

/// The decimal numeral of an integer, with a minus sign where it is negative.
pub open spec fn signed_decimal(n: int) -> Seq<char> {
    if n < 0 {
        seq!['-'] + decimal((-n) as nat)
    } else {
        decimal(n as nat)
    }
}

/// A run of `n` zeros.
pub open spec fn zeros(n: nat) -> Seq<char> {
    Seq::new(n, |i: int| '0')
}

/// The decimal numeral of `n`, filled up with leading zeros to at least `width` characters.
pub open spec fn zero_padded(n: nat, width: nat) -> Seq<char> {
    if decimal(n).len() < width {
        zeros((width - decimal(n).len()) as nat) + decimal(n)
    } else {
        decimal(n)
    }
}

/// Appends one decimal digit.
fn push_digit(s: &mut String, d: u64)
    requires
        d < 10,
    ensures
        final(s)@ == old(s)@.push(digit_char(d as nat)),
{
    let c: char = (48u8 + d as u8) as char;
    s.push(c);
}

/// Appends the decimal numeral of `n`.
pub fn push_decimal(s: &mut String, n: u64)
    ensures
        final(s)@ == old(s)@ + decimal(n as nat),
    decreases n,
{
    if n < 10 {
        push_digit(s, n);
    } else {
        push_decimal(s, n / 10);
        push_digit(s, n % 10);
    }
    assert(s@ =~= old(s)@ + decimal(n as nat));
}

/// The decimal numeral of `n`.
pub fn decimal_text(n: u64) -> (s: String)
    ensures
        s@ == decimal(n as nat),
{
    let mut s = String::new();
    push_decimal(&mut s, n);
    assert(s@ =~= decimal(n as nat));
    s
}

/// The decimal numeral of an `i64`.
pub fn signed_text(n: i64) -> (s: String)
    ensures
        s@ == signed_decimal(n as int),
{
    let mut s = String::new();
    if n < 0 {
        s.push('-');
        let magnitude: u64 = (-(n as i128)) as u64;
        push_decimal(&mut s, magnitude);
        assert(s@ =~= seq!['-'] + decimal((-n) as nat));
    } else {
        push_decimal(&mut s, n as u64);
        assert(s@ =~= decimal(n as nat));
    }
    s
}

/// How many digits a numeral has.
pub proof fn lemma_decimal_len(n: nat, width: nat)
    requires
        n < vstd::arithmetic::power::pow(10, width),
        width > 0,
    ensures
        1 <= decimal(n).len() <= width,
    decreases width,
{
    reveal(vstd::arithmetic::power::pow);
    if n >= 10 {
        if width == 1 {
            assert(vstd::arithmetic::power::pow(10, 1) == 10) by {
                vstd::arithmetic::power::lemma_pow1(10);
            }
        }
        let q = n / 10;
        assert(vstd::arithmetic::power::pow(10, width) == 10 * vstd::arithmetic::power::pow(
            10,
            (width - 1) as nat,
        ));
        lemma_decimal_len(q, (width - 1) as nat);
    }
}

/// Every `u64` has at most twenty digits.
pub proof fn lemma_u64_digits(n: u64)
    ensures
        1 <= decimal(n as nat).len() <= 20,
{
    assert(vstd::arithmetic::power::pow(10, 20) > u64::MAX) by {
        reveal_with_fuel(vstd::arithmetic::power::pow, 21);
    }
    lemma_decimal_len(n as nat, 20);
}

/// Appends the numeral of `n` filled up with zeros to twenty characters, enough for every `u64`.
pub fn push_padded(s: &mut String, n: u64)
    ensures
        final(s)@ == old(s)@ + zero_padded(n as nat, 20),
{
    let digits = decimal_text(n);
    proof {
        lemma_u64_digits(n);
    }
    let len: usize = digits.as_str().unicode_len();
    let mut k: usize = len;
    assert(s@ =~= old(s)@ + zeros(0));
    while k < 20
        invariant
            len <= k <= 20,
            s@ == old(s)@ + zeros((k - len) as nat),
        decreases 20 - k,
    {
        s.push('0');
        k += 1;
        assert(s@ =~= old(s)@ + zeros((k - len) as nat));
    }
    s.append(digits.as_str());
    assert(s@ =~= old(s)@ + zero_padded(n as nat, 20));
}

/// The numeral of `n` filled up with zeros to twenty characters.
pub fn padded_text(n: u64) -> (s: String)
    ensures
        s@ == zero_padded(n as nat, 20),
{
    let mut s = String::new();
    push_padded(&mut s, n);
    assert(s@ =~= zero_padded(n as nat, 20));
    s
}

// ---------------------------------------------------------------------------------------------
// Hexadecimal numerals
// ---------------------------------------------------------------------------------------------

/// The lower-case hexadecimal numeral of a natural number, without leading zeros.
pub open spec fn hexadecimal(n: nat) -> Seq<char>
    decreases n,
{
    if n < 16 {
        seq![crate::keys::hex_char(n as int)]
    } else {
        hexadecimal(n / 16).push(crate::keys::hex_char((n % 16) as int))
    }
}

/// The hexadecimal numeral of `n`, filled up with leading zeros to at least `width` characters.
pub open spec fn hex_padded(n: nat, width: nat) -> Seq<char> {
    if hexadecimal(n).len() < width {
        zeros((width - hexadecimal(n).len()) as nat) + hexadecimal(n)
    } else {
        hexadecimal(n)
    }
}

fn push_hexadecimal(s: &mut String, n: u64)
    ensures
        final(s)@ == old(s)@ + hexadecimal(n as nat),
    decreases n,
{
    if n >= 16 {
        push_hexadecimal(s, n / 16);
    }
    let d: u64 = n % 16;
    let c: char = if d < 10 {
        (48u8 + d as u8) as char
    } else {
        (87u8 + d as u8) as char
    };
    s.push(c);
    assert(s@ =~= old(s)@ + hexadecimal(n as nat));
}

/// The hexadecimal numeral of `n`.
pub fn hex_text(n: u64) -> (s: String)
    ensures
        s@ == hexadecimal(n as nat),
{
    let mut s = String::new();
    push_hexadecimal(&mut s, n);
    assert(s@ =~= hexadecimal(n as nat));
    s
}

/// The hexadecimal numeral of `n`, filled up with zeros to `width` characters.
pub fn hex_padded_text(n: u64, width: usize) -> (s: String)
    ensures
        s@ == hex_padded(n as nat, width as nat),
{
    let digits = hex_text(n);
    let len: usize = digits.as_str().unicode_len();
    let mut s = String::new();
    let mut k: usize = len;
    assert(s@ =~= zeros(0));
    while k < width
        invariant
            len <= k,
            k <= width || k == len,
            s@ == zeros((k - len) as nat),
        decreases width - k,
    {
        s.push('0');
        k += 1;
        assert(s@ =~= zeros((k - len) as nat));
    }
    s.append(digits.as_str());
    assert(s@ =~= hex_padded(n as nat, width as nat));
    s
}

// ---------------------------------------------------------------------------------------------
// Reading
// ---------------------------------------------------------------------------------------------

/// Whether a character is an ASCII digit.
pub open spec fn is_digit(c: char) -> bool {
    '0' <= c <= '9'
}

/// Whether the text is made of ASCII digits alone.
pub open spec fn all_digits(s: Seq<char>) -> bool {
    forall|i: int| 0 <= i < s.len() ==> is_digit(#[trigger] s[i])
}

/// The number that a run of ASCII digits denotes.
pub open spec fn digits_value(s: Seq<char>) -> nat
    decreases s.len(),
{
    if s.len() == 0 {
        0
    } else {
        10 * digits_value(s.drop_last()) + (s.last() as nat - 48) as nat
    }
}

/// The digits of a numeral: what follows an optional plus sign.
pub open spec fn numeral_digits(s: Seq<char>) -> Seq<char> {
    if s.len() > 0 && s[0] == '+' {
        s.drop_first()
    } else {
        s
    }
}

/// What a text denotes as an unsigned integer of at most `max`: an optional plus sign and one or
/// more digits. Anything else, or a greater number, denotes nothing.
pub open spec fn parsed_unsigned(s: Seq<char>, max: nat) -> Option<nat> {
    let digits = numeral_digits(s);
    if digits.len() > 0 && all_digits(digits) && digits_value(digits) <= max {
        Some(digits_value(digits))
    } else {
        None
    }
}

proof fn lemma_prefix_value(s: Seq<char>, k: int)
    requires
        0 <= k <= s.len(),
        all_digits(s),
    ensures
        digits_value(s.subrange(0, k)) <= digits_value(s),
    decreases s.len() - k,
{
    if k == s.len() {
        assert(s.subrange(0, k) =~= s);
    } else {
        lemma_prefix_value(s, k + 1);
        assert(s.subrange(0, k + 1).drop_last() =~= s.subrange(0, k));
        assert(is_digit(s[k]));
    }
}

/// Reads a text as an unsigned integer of at most `max`.
pub fn parse_unsigned(s: &str, max: u64) -> (r: Option<u64>)
    ensures
        match r {
            Some(n) => parsed_unsigned(s@, max as nat) == Some(n as nat),
            None => parsed_unsigned(s@, max as nat) is None,
        },
{
    let v = chars_of(s);
    let start: usize = if v.len() > 0 && v[0] == '+' {
        1
    } else {
        0
    };
    let ghost digits = numeral_digits(s@);
    assert(digits =~= v@.subrange(start as int, v@.len() as int));
    if start == v.len() {
        return None;
    }
    let mut i: usize = start;
    let mut value: u64 = 0;
    while i < v.len()
        invariant
            start <= i <= v@.len(),
            v@ == s@,
            digits == numeral_digits(s@),
            digits == v@.subrange(start as int, v@.len() as int),
            forall|k: int| 0 <= k < i - start ==> is_digit(#[trigger] digits[k]),
            value == digits_value(digits.subrange(0, i - start)),
            value <= max,
        decreases v@.len() - i,
    {
        let c = v[i];
        assert(digits[i - start] == c);
        if c < '0' || c > '9' {
            return None;
        }
        let d: u64 = (c as u32 as u64) - 48;
        proof {
            assert(digits.subrange(0, i - start + 1).drop_last() =~= digits.subrange(0, i - start));
            if all_digits(digits) {
                lemma_prefix_value(digits, i - start + 1);
            }
        }
        let wide: u128 = value as u128 * 10 + d as u128;
        if wide > max as u128 {
            return None;
        }
        value = wide as u64;
        i += 1;
    }
    assert(digits.subrange(0, digits.len() as int) =~= digits);
    Some(value)
}

// ---------------------------------------------------------------------------------------------
// Laws
// ---------------------------------------------------------------------------------------------

/// The digits of a numeral are ASCII digits, and they denote the number that was printed.
pub proof fn law_decimal_denotes_its_number(n: nat)
    ensures
        decimal(n).len() > 0,
        all_digits(decimal(n)),
        digits_value(decimal(n)) == n,
    decreases n,
{
    reveal_with_fuel(digits_value, 2);
    if n < 10 {
        assert(decimal(n).drop_last() =~= Seq::<char>::empty());
    } else {
        law_decimal_denotes_its_number(n / 10);
        assert(decimal(n).drop_last() =~= decimal(n / 10));
        assert(decimal(n).last() == digit_char(n % 10));
    }
}

/// Reading back a printed number gives that number, for every number within the bound.
pub proof fn law_printed_numbers_read_back(n: nat, max: nat)
    requires
        n <= max,
    ensures
        parsed_unsigned(decimal(n), max) == Some(n),
{
    law_decimal_denotes_its_number(n);
    assert(is_digit(decimal(n)[0]));
    assert(numeral_digits(decimal(n)) == decimal(n));
}

proof fn lemma_leading_zeros(k: nat, s: Seq<char>)
    requires
        all_digits(s),
    ensures
        all_digits(zeros(k) + s),
        digits_value(zeros(k) + s) == digits_value(s),
    decreases s.len(), k,
{
    let whole = zeros(k) + s;
    assert forall|i: int| 0 <= i < whole.len() implies is_digit(#[trigger] whole[i]) by {
        if i >= k {
            assert(whole[i] == s[i - k]);
        }
    }
    if s.len() > 0 {
        assert(whole.drop_last() =~= zeros(k) + s.drop_last());
        assert(all_digits(s.drop_last())) by {
            assert forall|i: int| 0 <= i < s.drop_last().len() implies is_digit(
                #[trigger] s.drop_last()[i],
            ) by {
                assert(is_digit(s[i]));
            }
        }
        lemma_leading_zeros(k, s.drop_last());
    } else if k > 0 {
        assert(whole.drop_last() =~= zeros((k - 1) as nat) + s);
        lemma_leading_zeros((k - 1) as nat, s);
    } else {
        assert(whole =~= s);
    }
}

/// Filling up with zeros does not change the number that is denoted.
pub proof fn law_padding_keeps_the_number(n: nat, width: nat)
    ensures
        all_digits(zero_padded(n, width)),
        digits_value(zero_padded(n, width)) == n,
{
    law_decimal_denotes_its_number(n);
    if decimal(n).len() < width {
        lemma_leading_zeros((width - decimal(n).len()) as nat, decimal(n));
    }
}

/// The first position at which two texts differ has the smaller character in `a`.
pub open spec fn sorts_before(a: Seq<char>, b: Seq<char>) -> bool {
    exists|k: int|
        0 <= k < a.len() && k < b.len() && a.subrange(0, k) == b.subrange(0, k) && #[trigger] a[k]
            < b[k]
}

proof fn lemma_digits_sort(a: Seq<char>, b: Seq<char>)
    requires
        a.len() == b.len(),
        all_digits(a),
        all_digits(b),
        digits_value(a) < digits_value(b),
    ensures
        sorts_before(a, b),
    decreases a.len(),
{
    if a.len() > 0 {
        let x = a.drop_last();
        let y = b.drop_last();
        assert forall|i: int| 0 <= i < x.len() implies is_digit(#[trigger] x[i]) by {
            assert(is_digit(a[i]));
        }
        assert forall|i: int| 0 <= i < y.len() implies is_digit(#[trigger] y[i]) by {
            assert(is_digit(b[i]));
        }
        assert(is_digit(a[a.len() - 1]) && is_digit(b[b.len() - 1]));
        if digits_value(x) < digits_value(y) {
            lemma_digits_sort(x, y);
            let k = choose|k: int|
                0 <= k < x.len() && k < y.len() && x.subrange(0, k) == y.subrange(0, k)
                    && #[trigger] x[k] < y[k];
            assert(a.subrange(0, k) =~= x.subrange(0, k));
            assert(b.subrange(0, k) =~= y.subrange(0, k));
            assert(a[k] < b[k]);
        } else {
            assert(digits_value(x) == digits_value(y));
            lemma_equal_values(x, y);
            let k = a.len() - 1;
            assert(a.subrange(0, k) =~= x);
            assert(b.subrange(0, k) =~= y);
            assert(a[k] < b[k]);
        }
    }
}

proof fn lemma_equal_values(a: Seq<char>, b: Seq<char>)
    requires
        a.len() == b.len(),
        all_digits(a),
        all_digits(b),
        digits_value(a) == digits_value(b),
    ensures
        a == b,
    decreases a.len(),
{
    if a.len() > 0 {
        let x = a.drop_last();
        let y = b.drop_last();
        assert forall|i: int| 0 <= i < x.len() implies is_digit(#[trigger] x[i]) by {
            assert(is_digit(a[i]));
        }
        assert forall|i: int| 0 <= i < y.len() implies is_digit(#[trigger] y[i]) by {
            assert(is_digit(b[i]));
        }
        assert(is_digit(a[a.len() - 1]) && is_digit(b[b.len() - 1]));
        lemma_equal_values(x, y);
        assert(a =~= x.push(a.last()));
        assert(b =~= y.push(b.last()));
    } else {
        assert(a =~= b);
    }
}

/// Numbers filled up to twenty digits sort as texts in the order of the numbers.
pub proof fn law_padded_numbers_sort_as_numbers(a: u64, b: u64)
    requires
        a < b,
    ensures
        sorts_before(zero_padded(a as nat, 20), zero_padded(b as nat, 20)),
{
    lemma_u64_digits(a);
    lemma_u64_digits(b);
    law_padding_keeps_the_number(a as nat, 20);
    law_padding_keeps_the_number(b as nat, 20);
    lemma_digits_sort(zero_padded(a as nat, 20), zero_padded(b as nat, 20));
}

/// A number is written to ten by its digits: the last one is its remainder by ten, and those before it
/// are the number without that; a single digit stands for itself.
pub proof fn law_numbers_are_written_to_ten(n: u64, r: String, less: u64, rest: String)
    requires
        call_ensures(decimal_text, (n,), r),
        call_ensures(decimal_text, (less,), rest),
    ensures
        r@.len() > 0,
        r@.last() as int == 48 + n % 10,
        n < 10 ==> r@.len() == 1,
        less > 0 && n / 10 == less ==> r@.drop_last() == rest@,
{
    reveal_with_fuel(decimal, 2);
    if less > 0 && n / 10 == less {
        assert(decimal(n as nat).drop_last() =~= decimal((n / 10) as nat));
    }
}

/// A negative number is a minus sign and its amount.
pub proof fn law_negative_numbers_have_a_sign(n: i64, r: String, amount: u64, unsigned: String)
    requires
        call_ensures(signed_text, (n,), r),
        call_ensures(decimal_text, (amount,), unsigned),
    ensures
        n >= 0 && amount == n ==> r@ == unsigned@,
        n < 0 && amount == -n ==> r@ == seq!['-'] + unsigned@,
{
}

/// A padded number has twenty digits, and zeros before those of the number.
pub proof fn law_padded_numbers_have_twenty_digits(n: u64, r: String, plain: String, i: int)
    requires
        call_ensures(padded_text, (n,), r),
        call_ensures(decimal_text, (n,), plain),
    ensures
        r@.len() == 20,
        plain@.len() <= 20,
        0 <= i < 20 - plain@.len() ==> r@[i] == '0',
        20 - plain@.len() <= i < 20 ==> r@[i] == plain@[i - (20 - plain@.len())],
{
    lemma_u64_digits(n);
}

/// A number is written to sixteen by its digits: the last one is its remainder by sixteen, in lower
/// case, and those before it are the number without that; a single digit stands for itself.
pub proof fn law_numbers_are_written_to_sixteen(n: u64, r: String, less: u64, rest: String)
    requires
        call_ensures(hex_text, (n,), r),
        call_ensures(hex_text, (less,), rest),
    ensures
        r@.len() > 0,
        n % 16 < 10 ==> r@.last() as int == 48 + n % 16,
        n % 16 >= 10 ==> r@.last() as int == 87 + n % 16,
        n < 16 ==> r@.len() == 1,
        less > 0 && n / 16 == less ==> r@.drop_last() == rest@,
{
    reveal_with_fuel(hexadecimal, 2);
    if less > 0 && n / 16 == less {
        assert(hexadecimal(n as nat).drop_last() =~= hexadecimal((n / 16) as nat));
    }
}

/// A number to sixteen is padded with zeros to its width, and is written whole where it is longer.
pub proof fn law_hexadecimals_are_padded(n: u64, width: usize, r: String, plain: String, i: int)
    requires
        call_ensures(hex_padded_text, (n, width), r),
        call_ensures(hex_text, (n,), plain),
    ensures
        plain@.len() >= width ==> r@ == plain@,
        plain@.len() < width ==> r@.len() == width,
        plain@.len() < width && 0 <= i < width - plain@.len() ==> r@[i] == '0',
        plain@.len() < width && width - plain@.len() <= i < width ==> r@[i] == plain@[i - (width
            - plain@.len())],
{
}

/// A text is read as a number where it is digits only, behind a plus sign or not, and the number is
/// no more than the greatest allowed. A digit put behind others counts ten times what they do and
/// itself.
pub proof fn law_digits_are_read_to_ten(s: &str, max: u64, r: Option<u64>)
    requires
        call_ensures(parse_unsigned, (s, max), r),
    ensures
        r is Some ==> r->Some_0 <= max,
        s@.len() == 0 ==> r is None,
        s@.len() == 1 && 48 <= s@[0] as int <= 57 && s@[0] as int - 48 <= max ==> r is Some
            && r->Some_0 == s@[0] as int - 48,
        s@.len() == 1 && !(48 <= s@[0] as int <= 57) ==> r is None,
        s@.len() == 2 && s@[0] != '+' && 48 <= s@[0] as int <= 57 && 48 <= s@[1] as int <= 57 && 10
            * (s@[0] as int - 48) + (s@[1] as int - 48) <= max ==> r is Some && r->Some_0 == 10 * (
        s@[0] as int - 48) + (s@[1] as int - 48),
        (exists|i: int|
            0 < i < s@.len() && !(48 <= #[trigger] s@[i] as int <= 57)) ==> r is None,
{
    reveal_with_fuel(digits_value, 3);
    let d = numeral_digits(s@);
    if exists|i: int| 0 < i < s@.len() && !(48 <= #[trigger] s@[i] as int <= 57) {
        let i = choose|i: int| 0 < i < s@.len() && !(48 <= #[trigger] s@[i] as int <= 57);
        if s@[0] == '+' {
            assert(d[i - 1] == s@[i]);
        } else {
            assert(d[i] == s@[i]);
        }
    }
    if s@.len() == 1 && s@[0] != '+' {
        assert(d[0] == s@[0]);
        assert(d.last() == s@[0]);
    }
    if s@.len() == 2 && s@[0] != '+' {
        assert(d.drop_last().last() == s@[0]);
        assert(d.drop_last().drop_last().len() == 0);
    }
}

/// A plus sign in front changes nothing.
pub proof fn law_plus_signs_are_passed_over(
    s: &str,
    signed: &str,
    max: u64,
    r: Option<u64>,
    with_sign: Option<u64>,
)
    requires
        call_ensures(parse_unsigned, (s, max), r),
        call_ensures(parse_unsigned, (signed, max), with_sign),
        signed@ == seq!['+'] + s@,
        s@.len() > 0,
        s@[0] != '+',
    ensures
        r == with_sign,
{
    assert(signed@.drop_first() =~= s@);
}

/// A digit put behind a number's digits counts ten times the number and itself.
pub proof fn law_each_digit_counts_tenfold(
    s: &str,
    longer: &str,
    max: u64,
    r: Option<u64>,
    more: Option<u64>,
    digit: char,
)
    requires
        call_ensures(parse_unsigned, (s, max), r),
        call_ensures(parse_unsigned, (longer, max), more),
        longer@ == s@.push(digit),
        48 <= digit as int <= 57,
        r is Some,
    ensures
        more is Some <==> 10 * r->Some_0 + (digit as int - 48) <= max,
        more is Some ==> more->Some_0 == 10 * r->Some_0 + (digit as int - 48),
{
    let d = numeral_digits(s@);
    let e = numeral_digits(longer@);
    assert(longer@[0] == s@[0]);
    assert(e =~= d.push(digit));
    assert(e.drop_last() =~= d);
    assert forall|i: int| 0 <= i < e.len() implies is_digit(#[trigger] e[i]) by {
        if i < d.len() {
            assert(e[i] == d[i]);
        }
    }
}

} // verus!
