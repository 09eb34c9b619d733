//! Storage keys: their order, their hexadecimal form, and where a scan resumes.

use vstd::prelude::*;
use vstd::string::*;

use crate::text::{chars_of, is_white_space, trim, trim_end, trim_start, trimmed};

verus! {

/// One stored row: its key, and its value as decoded, or why it could not be decoded.
#[derive(Debug)]
pub struct StoredRow<T> {
    pub key: Vec<u8>,
    pub value: Result<T, String>,
}

/// One bounded read of a column family, in key order, and whether rows follow it.
#[derive(Debug)]
pub struct RowChunk<T> {
    pub rows: Vec<StoredRow<T>>,
    pub more: bool,
}

// ---------------------------------------------------------------------------------------------
// Key order
// ---------------------------------------------------------------------------------------------

/// The order of keys in a column family: byte by byte, a prefix before its extensions.
pub open spec fn key_less(a: Seq<u8>, b: Seq<u8>) -> bool
    decreases a.len(),
{
    if b.len() == 0 {
        false
    } else if a.len() == 0 {
        true
    } else if a[0] != b[0] {
        a[0] < b[0]
    } else {
        key_less(a.drop_first(), b.drop_first())
    }
}

/// The key at which a scan resumes behind `key`.
pub fn key_after(key: &[u8]) -> (r: Vec<u8>)
    ensures
        r@ == key@.push(0),
{
    let mut next: Vec<u8> = Vec::new();
    let mut i: usize = 0;
    while i < key.len()
        invariant
            i <= key@.len(),
            next@ == key@.subrange(0, i as int),
        decreases key@.len() - i,
    {
        proof {
            assert(key@.subrange(0, i as int).push(key@[i as int]) =~= key@.subrange(0, i + 1));
        }
        next.push(key[i]);
        i += 1;
    }
    assert(key@.subrange(0, key@.len() as int) =~= key@);
    next.push(0);
    next
}

/// A copy of a key.
pub fn copy_key(key: &[u8]) -> (r: Vec<u8>)
    ensures
        r@ == key@,
{
    let mut next = key_after(key);
    let _ = next.pop();
    assert(next@ =~= key@);
    next
}

/// Whether `name` is the first key of `rows` that equals it, at the given position.
pub open spec fn first_row_with_key<T>(rows: Seq<StoredRow<T>>, key: Seq<u8>, at: int) -> bool {
    &&& 0 <= at < rows.len()
    &&& rows[at].key@ == key
    &&& forall|j: int| 0 <= j < at ==> (#[trigger] rows[j]).key@ != key
}

/// Finds the first row with the given key.
pub fn find_row<T>(rows: &Vec<StoredRow<T>>, key: &[u8]) -> (r: Option<usize>)
    ensures
        match r {
            Some(at) => first_row_with_key(rows@, key@, at as int),
            None => forall|j: int| 0 <= j < rows@.len() ==> (#[trigger] rows@[j]).key@ != key@,
        },
{
    let mut i: usize = 0;
    while i < rows.len()
        invariant
            i <= rows@.len(),
            forall|j: int| 0 <= j < i ==> (#[trigger] rows@[j]).key@ != key@,
        decreases rows@.len() - i,
    {
        if crate::text::bytes_equal(rows[i].key.as_slice(), key) {
            return Some(i);
        }
        i += 1;
    }
    None
}

// ---------------------------------------------------------------------------------------------
// Hexadecimal form
// ---------------------------------------------------------------------------------------------

/// The lower-case hexadecimal digit of a half byte.
pub open spec fn hex_char(nibble: int) -> char {
    if nibble < 10 {
        (48 + nibble) as char
    } else {
        (87 + nibble) as char
    }
}

/// The hexadecimal form of a byte string: two lower-case digits for each byte.
pub open spec fn hex_of(bytes: Seq<u8>) -> Seq<char> {
    Seq::new(
        2 * bytes.len(),
        |i: int|
            if i % 2 == 0 {
                hex_char(bytes[i / 2] as int / 16)
            } else {
                hex_char(bytes[i / 2] as int % 16)
            },
    )
}

/// The value of a hexadecimal digit of either case.
pub open spec fn hex_value(c: char) -> Option<int> {
    if '0' <= c <= '9' {
        Some(c as int - 48)
    } else if 'a' <= c <= 'f' {
        Some(c as int - 87)
    } else if 'A' <= c <= 'F' {
        Some(c as int - 55)
    } else {
        None
    }
}

/// The byte that two hexadecimal digits denote.
pub open spec fn hex_byte(high: char, low: char) -> Option<int> {
    match (hex_value(high), hex_value(low)) {
        (Some(h), Some(l)) => Some(16 * h + l),
        _ => None,
    }
}

/// Whether every pair of characters of the text denotes a byte.
pub open spec fn hex_pairs_valid(text: Seq<char>) -> bool {
    forall|i: int|
        0 <= i < text.len() / 2 ==> (#[trigger] hex_byte(text[2 * i], text[2 * i + 1])) is Some
}

/// The bytes that a hexadecimal text denotes, white space at its ends aside. An empty text, an
/// odd number of characters or a pair that is no byte denotes nothing.
pub open spec fn hex_decoded(raw: Seq<char>) -> Option<Seq<u8>> {
    let text = trimmed(raw);
    if text.len() > 0 && text.len() % 2 == 0 && hex_pairs_valid(text) {
        Some(
            Seq::new(
                text.len() / 2,
                |i: int| (hex_byte(text[2 * i], text[2 * i + 1])->0) as u8,
            ),
        )
    } else {
        None
    }
}

fn push_hex_digit(out: &mut String, nibble: u8)
    requires
        nibble < 16,
    ensures
        final(out)@ == old(out)@.push(hex_char(nibble as int)),
{
    let c: char = if nibble < 10 {
        (48u8 + nibble) as char
    } else {
        (87u8 + nibble) as char
    };
    out.push(c);
}

/// The hexadecimal form of a byte string.
pub fn hex_encode(bytes: &[u8]) -> (r: String)
    ensures
        r@ == hex_of(bytes@),
{
    let mut out = String::new();
    let mut i: usize = 0;
    while i < bytes.len()
        invariant
            i <= bytes@.len(),
            out@ == hex_of(bytes@.subrange(0, i as int)),
        decreases bytes@.len() - i,
    {
        let byte: u8 = bytes[i];
        push_hex_digit(&mut out, byte / 16);
        push_hex_digit(&mut out, byte % 16);
        proof {
            assert(out@ =~= hex_of(bytes@.subrange(0, i + 1)));
        }
        i += 1;
    }
    assert(bytes@.subrange(0, bytes@.len() as int) =~= bytes@);
    out
}

fn digit_value(c: char) -> (r: Option<u8>)
    ensures
        match r {
            Some(v) => hex_value(c) == Some(v as int) && v < 16,
            None => hex_value(c) is None,
        },
{
    if '0' <= c && c <= '9' {
        Some((c as u32 - 48) as u8)
    } else if 'a' <= c && c <= 'f' {
        Some((c as u32 - 87) as u8)
    } else if 'A' <= c && c <= 'F' {
        Some((c as u32 - 55) as u8)
    } else {
        None
    }
}

fn pair_value(high: char, low: char) -> (r: Option<u8>)
    ensures
        match r {
            Some(v) => hex_byte(high, low) == Some(v as int),
            None => hex_byte(high, low) is None,
        },
{
    match (digit_value(high), digit_value(low)) {
        (Some(h), Some(l)) => Some(16 * h + l),
        _ => None,
    }
}

/// Reads a hexadecimal text.
pub fn hex_decode(text: &str) -> (r: Option<Vec<u8>>)
    ensures
        match r {
            Some(bytes) => hex_decoded(text@) == Some(bytes@),
            None => hex_decoded(text@) is None,
        },
{
    let cut = trim(text);
    let v = chars_of(cut.as_str());
    if v.len() == 0 || v.len() % 2 != 0 {
        return None;
    }
    let mut out: Vec<u8> = Vec::new();
    let mut i: usize = 0;
    while i < v.len()
        invariant
            i <= v@.len(),
            v@.len() % 2 == 0,
            i % 2 == 0,
            v@ == trimmed(text@),
            out@.len() == i / 2,
            forall|k: int|
                0 <= k < i / 2 ==> (#[trigger] hex_byte(v@[2 * k], v@[2 * k + 1])) == Some(
                    out@[k] as int,
                ),
        decreases v@.len() - i,
    {
        match pair_value(v[i], v[i + 1]) {
            None => {
                proof {
                    let k = i as int / 2;
                    assert(hex_byte(v@[2 * k], v@[2 * k + 1]) is None);
                }
                return None;
            },
            Some(b) => {
                out.push(b);
            },
        }
        i += 2;
    }
    assert(out@ =~= hex_decoded(text@)->0);
    Some(out)
}

// ---------------------------------------------------------------------------------------------
// Laws
// ---------------------------------------------------------------------------------------------

/// The key behind `key` is its least successor: a row lies at or behind it exactly if it lies
/// strictly behind `key`, so that a resumed scan neither repeats nor misses a row.
pub proof fn law_key_after_is_least_successor(key: Seq<u8>, other: Seq<u8>)
    ensures
        key_less(key, key.push(0)),
        key_less(key, other) <==> !key_less(other, key.push(0)),
    decreases key.len(),
{
    reveal_with_fuel(key_less, 3);
    let next = key.push(0);
    if key.len() == 0 {
        if other.len() > 0 && other[0] == 0 {
            assert(next.drop_first() =~= Seq::<u8>::empty());
        }
    } else {
        assert(next[0] == key[0]);
        assert(next.drop_first() =~= key.drop_first().push(0));
        if other.len() > 0 {
            law_key_after_is_least_successor(key.drop_first(), other.drop_first());
        } else {
            law_key_after_is_least_successor(key.drop_first(), key.drop_first());
        }
    }
}

/// The order of keys is total, and no key lies behind itself.
pub proof fn law_key_order_is_total(a: Seq<u8>, b: Seq<u8>)
    ensures
        !key_less(a, a),
        a == b || key_less(a, b) || key_less(b, a),
        !(key_less(a, b) && key_less(b, a)),
    decreases a.len(),
{
    if a.len() > 0 && b.len() > 0 {
        law_key_order_is_total(a.drop_first(), b.drop_first());
        if a.drop_first() == b.drop_first() && a[0] == b[0] {
            assert(a =~= seq![a[0]] + a.drop_first());
            assert(b =~= seq![b[0]] + b.drop_first());
        }
    } else if a.len() > 0 {
        law_key_order_is_total(a.drop_first(), a.drop_first());
    } else if b.len() == 0 {
        assert(a =~= b);
    }
}

proof fn lemma_hex_untrimmed(bytes: Seq<u8>)
    ensures
        trimmed(hex_of(bytes)) == hex_of(bytes),
{
    let text = hex_of(bytes);
    if text.len() > 0 {
        assert(!is_white_space(text[0]));
        assert(trim_start(text) == text);
        let last = text.len() - 1;
        assert(last % 2 == 1);
        assert(!is_white_space(text[last]));
        assert(trim_end(text) == text);
    }
}

/// Reading the hexadecimal form of a key gives that key back, for every key but the empty one.
pub proof fn law_hex_round_trip(bytes: Seq<u8>)
    requires
        bytes.len() > 0,
    ensures
        hex_decoded(hex_of(bytes)) == Some(bytes),
{
    let text = hex_of(bytes);
    lemma_hex_untrimmed(bytes);
    assert forall|i: int| 0 <= i < text.len() / 2 implies #[trigger] hex_byte(
        text[2 * i],
        text[2 * i + 1],
    ) == Some(bytes[i] as int) by {
        assert((2 * i) / 2 == i && (2 * i) % 2 == 0);
        assert((2 * i + 1) / 2 == i && (2 * i + 1) % 2 == 1);
        let b = bytes[i] as int;
        assert(0 <= b / 16 < 16 && 0 <= b % 16 < 16 && 16 * (b / 16) + b % 16 == b);
    }
    assert(hex_decoded(text)->0 =~= bytes);
}

/// The order of keys is transitive.
pub proof fn law_key_order_is_transitive(a: Seq<u8>, b: Seq<u8>, c: Seq<u8>)
    requires
        key_less(a, b),
        key_less(b, c),
    ensures
        key_less(a, c),
    decreases a.len(),
{
    if a.len() > 0 && b.len() > 0 && c.len() > 0 && a[0] == b[0] && b[0] == c[0] {
        law_key_order_is_transitive(a.drop_first(), b.drop_first(), c.drop_first());
    }
}

/// The keys of a column family: each behind the one before it.
pub open spec fn keys_ascend(keys: Seq<Seq<u8>>) -> bool {
    forall|i: int, j: int| 0 <= i < j < keys.len() ==> key_less(#[trigger] keys[i], #[trigger] keys[j])
}

/// A scan that starts at `start` reads the rows from position `at` on.
pub open spec fn scan_begins_at(keys: Seq<Seq<u8>>, start: Seq<u8>, at: int) -> bool {
    &&& 0 <= at <= keys.len()
    &&& forall|i: int| 0 <= i < at ==> key_less(#[trigger] keys[i], start)
    &&& forall|i: int| at <= i < keys.len() ==> !key_less(#[trigger] keys[i], start)
}

/// A scan that resumes behind the last row it has read begins with the very next row: it repeats
/// none and misses none.
pub proof fn law_scan_resumes_with_the_next_row(keys: Seq<Seq<u8>>, last: int)
    requires
        keys_ascend(keys),
        0 <= last < keys.len(),
    ensures
        scan_begins_at(keys, keys[last].push(0), last + 1),
{
    let start = keys[last].push(0);
    assert forall|i: int| 0 <= i < last + 1 implies key_less(#[trigger] keys[i], start) by {
        law_key_after_is_least_successor(keys[last], keys[i]);
        law_key_order_is_total(keys[last], keys[i]);
        if i < last {
            assert(key_less(keys[i], keys[last]));
        }
    }
    assert forall|i: int| last + 1 <= i < keys.len() implies !key_less(#[trigger] keys[i], start) by {
        assert(key_less(keys[last], keys[i]));
        law_key_after_is_least_successor(keys[last], keys[i]);
    }
}

/// Whether two keys agree before a place and the first has the smaller byte there.
pub open spec fn smaller_first_at(a: Seq<u8>, b: Seq<u8>, k: int) -> bool {
    0 <= k < a.len() && k < b.len() && a.take(k) == b.take(k) && a[k] < b[k]
}

/// One key comes before another exactly if it is a true beginning of it, or if it has the smaller byte
/// at the first place where they differ.
pub proof fn law_keys_are_ordered_by_the_first_difference(a: Seq<u8>, b: Seq<u8>)
    ensures
        key_less(a, b) <==> (a.len() < b.len() && a.is_prefix_of(b)) || exists|k: int| #[trigger]
            smaller_first_at(a, b, k),
    decreases a.len(),
{
    if a.len() == 0 || b.len() == 0 {
        if a.len() == 0 {
            assert(b.take(0) =~= a);
        }
    } else if a[0] != b[0] {
        assert(a.take(0) =~= b.take(0));
        if a[0] < b[0] {
            assert(smaller_first_at(a, b, 0));
        }
        assert forall|k: int| #[trigger] smaller_first_at(a, b, k) implies a[0] < b[0] by {
            if k > 0 {
                assert(a.take(k)[0] == b.take(k)[0]);
            }
        }
        if a.is_prefix_of(b) {
            assert(a[0] == b.take(a.len() as int)[0]);
        }
    } else {
        let x = a.drop_first();
        let y = b.drop_first();
        law_keys_are_ordered_by_the_first_difference(x, y);
        if a.len() < b.len() && a.is_prefix_of(b) {
            assert(y.take(x.len() as int) =~= x);
        }
        if x.len() < y.len() && x.is_prefix_of(y) {
            assert(b.take(a.len() as int) =~= a) by {
                assert forall|i: int| 0 <= i < a.len() implies #[trigger] b.take(a.len() as int)[i] == a[i] by {
                    if i > 0 {
                        assert(y.take(x.len() as int)[i - 1] == x[i - 1]);
                    }
                }
            }
        }
        if exists|k: int| #[trigger] smaller_first_at(a, b, k) {
            let k = choose|k: int| #[trigger] smaller_first_at(a, b, k);
            assert(k > 0);
            assert(x.take(k - 1) =~= y.take(k - 1)) by {
                assert forall|i: int| 0 <= i < k - 1 implies #[trigger] x.take(k - 1)[i] == y.take(k - 1)[i] by {
                    assert(a.take(k)[i + 1] == b.take(k)[i + 1]);
                }
            }
            assert(x[k - 1] < y[k - 1]);
            assert(smaller_first_at(x, y, k - 1));
        }
        if exists|k: int| #[trigger] smaller_first_at(x, y, k) {
            let k = choose|k: int| #[trigger] smaller_first_at(x, y, k);
            assert(a.take(k + 1) =~= b.take(k + 1)) by {
                assert forall|i: int| 0 <= i < k + 1 implies #[trigger] a.take(k + 1)[i] == b.take(k + 1)[i] by {
                    if i > 0 {
                        assert(x.take(k)[i - 1] == y.take(k)[i - 1]);
                    }
                }
            }
            assert(a[k + 1] < b[k + 1]);
            assert(smaller_first_at(a, b, k + 1));
        }
    }
}

/// A row is found by its key, and is the first that has it.
pub proof fn law_rows_are_found_by_their_key<T>(
    rows: &Vec<StoredRow<T>>,
    key: &[u8],
    r: Option<usize>,
)
    requires
        call_ensures(find_row::<T>, (rows, key), r),
        r is Some,
    ensures
        r->Some_0 < rows@.len(),
        rows@[r->Some_0 as int].key@ == key@,
        forall|j: int| 0 <= j < r->Some_0 ==> (#[trigger] rows@[j]).key@ != key@,
{
}

/// In hexadecimal every byte is two digits, the higher half first, in lower case.
pub proof fn law_bytes_are_two_digits_each(bytes: &[u8], r: String, i: int)
    requires
        call_ensures(hex_encode, (bytes,), r),
        0 <= i < bytes@.len(),
    ensures
        r@.len() == 2 * bytes@.len(),
        bytes@[i] < 160 ==> r@[2 * i] as int == 48 + bytes@[i] as int / 16,
        bytes@[i] >= 160 ==> r@[2 * i] as int == 87 + bytes@[i] as int / 16,
        bytes@[i] as int % 16 < 10 ==> r@[2 * i + 1] as int == 48 + bytes@[i] as int % 16,
        bytes@[i] as int % 16 >= 10 ==> r@[2 * i + 1] as int == 87 + bytes@[i] as int % 16,
{
}

/// Two digits are read as one byte, the first as its higher half, in either case; a text is refused
/// where it is blank, has an odd number of characters, or holds one that is no digit.
pub proof fn law_digits_are_read_in_pairs(text: &str, r: Option<Vec<u8>>, i: int)
    requires
        call_ensures(hex_decode, (text,), r),
        0 <= i < trimmed(text@).len(),
    ensures
        trimmed(text@).len() % 2 != 0 ==> r is None,
        !({
            ||| '0' <= trimmed(text@)[i] <= '9'
            ||| 'a' <= trimmed(text@)[i] <= 'f'
            ||| 'A' <= trimmed(text@)[i] <= 'F'
        }) ==> r is None,
        r is Some ==> 2 * r->Some_0@.len() == trimmed(text@).len(),
        r is Some && i % 2 == 0 && '0' <= trimmed(text@)[i] <= '9' ==> r->Some_0@[i / 2] as int / 16
            == trimmed(text@)[i] as int - 48,
        r is Some && i % 2 == 0 && 'a' <= trimmed(text@)[i] <= 'f' ==> r->Some_0@[i / 2] as int / 16
            == trimmed(text@)[i] as int - 87,
        r is Some && i % 2 == 0 && 'A' <= trimmed(text@)[i] <= 'F' ==> r->Some_0@[i / 2] as int / 16
            == trimmed(text@)[i] as int - 55,
        r is Some && i % 2 == 1 && '0' <= trimmed(text@)[i] <= '9' ==> r->Some_0@[i / 2] as int % 16
            == trimmed(text@)[i] as int - 48,
        r is Some && i % 2 == 1 && 'a' <= trimmed(text@)[i] <= 'f' ==> r->Some_0@[i / 2] as int % 16
            == trimmed(text@)[i] as int - 87,
        r is Some && i % 2 == 1 && 'A' <= trimmed(text@)[i] <= 'F' ==> r->Some_0@[i / 2] as int % 16
            == trimmed(text@)[i] as int - 55,
{
    let t = trimmed(text@);
    let k = i / 2;
    if t.len() % 2 == 0 {
        assert(0 <= k < t.len() / 2);
        assert(hex_byte(t[2 * k], t[2 * k + 1]) is Some || hex_byte(t[2 * k], t[2 * k + 1])
            is None);
        assert(i == 2 * k || i == 2 * k + 1);
    }
}

/// A text of digits is read, however many pairs it has; a blank one is not.
pub proof fn law_digits_are_read_wherever_they_can_be(text: &str, r: Option<Vec<u8>>)
    requires
        call_ensures(hex_decode, (text,), r),
    ensures
        trimmed(text@).len() == 0 ==> r is None,
        trimmed(text@).len() > 0 && trimmed(text@).len() % 2 == 0 && (forall|i: int|
            0 <= i < trimmed(text@).len() ==> {
                ||| '0' <= #[trigger] trimmed(text@)[i] <= '9'
                ||| 'a' <= trimmed(text@)[i] <= 'f'
                ||| 'A' <= trimmed(text@)[i] <= 'F'
            }) ==> r is Some,
{
    let t = trimmed(text@);
    if t.len() > 0 && t.len() % 2 == 0 && (forall|i: int|
        0 <= i < t.len() ==> {
            ||| '0' <= #[trigger] t[i] <= '9'
            ||| 'a' <= t[i] <= 'f'
            ||| 'A' <= t[i] <= 'F'
        }) {
        assert forall|i: int| 0 <= i < t.len() / 2 implies (#[trigger] hex_byte(
            t[2 * i],
            t[2 * i + 1],
        )) is Some by {
            assert(hex_value(t[2 * i]) is Some);
            assert(hex_value(t[2 * i + 1]) is Some);
        }
    }
}

} // verus!
