//! Text and byte-string primitives shared by the tool modules.
//!
//! Strings are modelled by their sequence of characters, byte strings by their
//! sequence of bytes.

use vstd::prelude::*;
use vstd::string::*;
use vstd::utf8::*;

verus! {

/// `String::push` appends one character.
pub assume_specification[ String::push ](s: &mut String, ch: char)
    ensures
        final(s)@ == old(s)@.push(ch),
;

/// What `{:?}` prints for a string: the quoted, escaped form.
pub uninterp spec fn debug_quoted(s: Seq<char>) -> Seq<char>;

/// The `Debug` form of a string, as `format!("{s:?}")` of std gives it. The result is a function
/// of the characters alone; the escaping itself is left to std.
#[verifier::external_body]
pub(crate) fn quoted(s: &str) -> (r: String)
    ensures
        r@ == debug_quoted(s@),
{
    format!("{s:?}")
}

/// What `str::to_lowercase` maps a string to.
pub uninterp spec fn lowercase(s: Seq<char>) -> Seq<char>;

/// `str::to_lowercase` of std: the Unicode lowercase mapping, a function of the characters alone.
#[verifier::external_body]
pub(crate) fn to_lowercase(s: &str) -> (r: String)
    ensures
        r@ == lowercase(s@),
{
    s.to_lowercase()
}

/// What `String::from_utf8_lossy` reads out of a byte string.
pub uninterp spec fn utf8_lossy(bytes: Seq<u8>) -> Seq<char>;

/// `String::from_utf8_lossy` of std: the bytes as text, with replacement characters where they
/// are no UTF-8. The result is a function of the bytes alone.
#[verifier::external_body]
pub(crate) fn from_utf8_lossy(bytes: &[u8]) -> (r: String)
    ensures
        r@ == utf8_lossy(bytes@),
{
    String::from_utf8_lossy(bytes).into_owned()
}

// ---------------------------------------------------------------------------------------------
// Concatenation
// ---------------------------------------------------------------------------------------------

/// Joins two pieces.
pub fn cat2(a: &str, b: &str) -> (r: String)
    ensures
        r@ == a@ + b@,
{
    a.to_owned().concat(b)
}

/// Joins three pieces.
pub fn cat3(a: &str, b: &str, c: &str) -> (r: String)
    ensures
        r@ == a@ + b@ + c@,
{
    cat2(a, b).concat(c)
}

/// Joins four pieces.
pub fn cat4(a: &str, b: &str, c: &str, d: &str) -> (r: String)
    ensures
        r@ == a@ + b@ + c@ + d@,
{
    cat3(a, b, c).concat(d)
}

/// Joins five pieces.
pub fn cat5(a: &str, b: &str, c: &str, d: &str, e: &str) -> (r: String)
    ensures
        r@ == a@ + b@ + c@ + d@ + e@,
{
    cat4(a, b, c, d).concat(e)
}

/// Joins six pieces.
pub fn cat6(a: &str, b: &str, c: &str, d: &str, e: &str, f: &str) -> (r: String)
    ensures
        r@ == a@ + b@ + c@ + d@ + e@ + f@,
{
    cat5(a, b, c, d, e).concat(f)
}

/// Joins seven pieces.
pub fn cat7(a: &str, b: &str, c: &str, d: &str, e: &str, f: &str, g: &str) -> (r: String)
    ensures
        r@ == a@ + b@ + c@ + d@ + e@ + f@ + g@,
{
    cat6(a, b, c, d, e, f).concat(g)
}

// ---------------------------------------------------------------------------------------------
// Equality and search
// ---------------------------------------------------------------------------------------------

/// Whether two byte strings are equal.
pub fn bytes_equal(a: &[u8], b: &[u8]) -> (r: bool)
    ensures
        r == (a@ == b@),
{
    if a.len() != b.len() {
        return false;
    }
    let mut i: usize = 0;
    while i < a.len()
        invariant
            i <= a@.len(),
            a@.len() == b@.len(),
            forall|k: int| 0 <= k < i ==> a@[k] == b@[k],
        decreases a@.len() - i,
    {
        if a[i] != b[i] {
            return false;
        }
        i += 1;
    }
    assert(a@ =~= b@);
    true
}

/// Whether the byte string `a` begins with `prefix`.
pub fn bytes_start_with(a: &[u8], prefix: &[u8]) -> (r: bool)
    ensures
        r == prefix@.is_prefix_of(a@),
{
    if a.len() < prefix.len() {
        return false;
    }
    let mut i: usize = 0;
    while i < prefix.len()
        invariant
            i <= prefix@.len() <= a@.len(),
            forall|k: int| 0 <= k < i ==> a@[k] == prefix@[k],
        decreases prefix@.len() - i,
    {
        if a[i] != prefix[i] {
            assert(prefix@[i as int] != a@.subrange(0, prefix@.len() as int)[i as int]);
            return false;
        }
        i += 1;
    }
    assert(prefix@ =~= a@.subrange(0, prefix@.len() as int));
    true
}

/// Two texts with the same UTF-8 bytes are the same text.
pub proof fn lemma_utf8_injective(a: Seq<char>, b: Seq<char>)
    ensures
        encode_utf8(a) == encode_utf8(b) ==> a == b,
{
    encode_utf8_decode_utf8(a);
    encode_utf8_decode_utf8(b);
}

/// Whether two texts are equal.
pub fn text_equal(a: &str, b: &str) -> (r: bool)
    ensures
        r == (a@ == b@),
{
    proof {
        lemma_utf8_injective(a@, b@);
    }
    bytes_equal(a.as_bytes(), b.as_bytes())
}

/// The characters of an optional text.
pub open spec fn optional_view(s: Option<String>) -> Option<Seq<char>> {
    match s {
        Some(text) => Some(text@),
        None => None,
    }
}

/// Whether two optional texts are equal.
pub fn optional_text_equal(a: &Option<String>, b: &Option<String>) -> (r: bool)
    ensures
        r == (optional_view(*a) == optional_view(*b)),
{
    match (a, b) {
        (Some(x), Some(y)) => text_equal(x.as_str(), y.as_str()),
        (None, None) => true,
        _ => false,
    }
}

/// A copy of an optional text.
pub fn clone_optional(a: &Option<String>) -> (r: Option<String>)
    ensures
        r == *a,
{
    match a {
        Some(x) => Some(x.clone()),
        None => None,
    }
}

/// The characters of each text of a list.
pub open spec fn views(v: Seq<String>) -> Seq<Seq<char>> {
    v.map_values(|s: String| s@)
}

/// The characters of a text, in order.
pub fn chars_of(s: &str) -> (v: Vec<char>)
    ensures
        v@ == s@,
{
    let mut v: Vec<char> = Vec::new();
    for c in it: s.chars()
        invariant
            v@ == s@.subrange(0, it.index() as int),
            it.seq() == s@,
    {
        proof {
            assert(s@.subrange(0, it.index() as int).push(s@[it.index() as int])
                =~= s@.subrange(0, it.index() as int + 1));
        }
        v.push(c);
    }
    assert(s@.subrange(0, s@.len() as int) =~= s@);
    v
}

/// The text made of the given characters.
pub fn text_of(v: &[char]) -> (s: String)
    ensures
        s@ == v@,
{
    let mut s = String::new();
    let mut i: usize = 0;
    while i < v.len()
        invariant
            i <= v@.len(),
            s@ == v@.subrange(0, i as int),
        decreases v@.len() - i,
    {
        proof {
            assert(v@.subrange(0, i as int).push(v@[i as int]) =~= v@.subrange(0, i as int + 1));
        }
        s.push(v[i]);
        i += 1;
    }
    assert(v@.subrange(0, v@.len() as int) =~= v@);
    s
}

/// `needle` occurs in `hay` at position `at`.
pub open spec fn occurs_at(hay: Seq<char>, needle: Seq<char>, at: int) -> bool {
    &&& 0 <= at
    &&& at + needle.len() <= hay.len()
    &&& hay.subrange(at, at + needle.len()) == needle
}

/// `needle` occurs somewhere in `hay`.
pub open spec fn text_contains(hay: Seq<char>, needle: Seq<char>) -> bool {
    exists|at: int| #[trigger] occurs_at(hay, needle, at)
}

fn matches_at(hay: &Vec<char>, needle: &Vec<char>, at: usize) -> (r: bool)
    requires
        at + needle.len() <= hay.len(),
    ensures
        r == occurs_at(hay@, needle@, at as int),
{
    let mut k: usize = 0;
    while k < needle.len()
        invariant
            k <= needle@.len(),
            at + needle.len() <= hay.len(),
            forall|j: int| 0 <= j < k ==> hay@[at + j] == needle@[j],
        decreases needle@.len() - k,
    {
        if hay[at + k] != needle[k] {
            assert(hay@.subrange(at as int, at + needle@.len())[k as int] != needle@[k as int]);
            return false;
        }
        k += 1;
    }
    assert(hay@.subrange(at as int, at + needle@.len()) =~= needle@);
    true
}

/// Whether `needle` occurs in `hay`.
pub fn contains_text(hay: &str, needle: &str) -> (r: bool)
    ensures
        r == text_contains(hay@, needle@),
{
    let h = chars_of(hay);
    let n = chars_of(needle);
    if n.len() > h.len() {
        return false;
    }
    let mut at: usize = 0;
    while at <= h.len() - n.len()
        invariant
            h@ == hay@,
            n@ == needle@,
            n@.len() <= h@.len(),
            at <= h@.len() - n@.len() + 1,
            forall|j: int| 0 <= j < at ==> !#[trigger] occurs_at(h@, n@, j),
        decreases h@.len() + 1 - at,
    {
        if matches_at(&h, &n, at) {
            return true;
        }
        if at == h.len() - n.len() {
            assert forall|j: int| !#[trigger] occurs_at(h@, n@, j) by {
                if j < at {
                } else if j > at {
                }
            }
            return false;
        }
        at += 1;
    }
    false
}

/// Whether `s` begins with `prefix`.
pub fn text_starts_with(s: &str, prefix: &str) -> (r: bool)
    ensures
        r == prefix@.is_prefix_of(s@),
{
    let h = chars_of(s);
    let n = chars_of(prefix);
    if n.len() > h.len() {
        return false;
    }
    let r = matches_at(&h, &n, 0);
    assert(prefix@.is_prefix_of(s@) == (prefix@ == s@.subrange(0, prefix@.len() as int)));
    r
}

// ---------------------------------------------------------------------------------------------
// Whitespace
// ---------------------------------------------------------------------------------------------

/// The characters with the Unicode property `White_Space`.
pub open spec fn is_white_space(c: char) -> bool {
    ||| '\u{9}' <= c <= '\u{d}'
    ||| c == '\u{20}'
    ||| c == '\u{85}'
    ||| c == '\u{a0}'
    ||| c == '\u{1680}'
    ||| '\u{2000}' <= c <= '\u{200a}'
    ||| c == '\u{2028}'
    ||| c == '\u{2029}'
    ||| c == '\u{202f}'
    ||| c == '\u{205f}'
    ||| c == '\u{3000}'
}

/// Whether a character is white space.
pub fn white_space(c: char) -> (r: bool)
    ensures
        r == is_white_space(c),
{
    ('\u{9}' <= c && c <= '\u{d}') || c == '\u{20}' || c == '\u{85}' || c == '\u{a0}' || c
        == '\u{1680}' || ('\u{2000}' <= c && c <= '\u{200a}') || c == '\u{2028}' || c == '\u{2029}'
        || c == '\u{202f}' || c == '\u{205f}' || c == '\u{3000}'
}

/// The text without its leading white space.
pub open spec fn trim_start(s: Seq<char>) -> Seq<char>
    decreases s.len(),
{
    if s.len() > 0 && is_white_space(s[0]) {
        trim_start(s.drop_first())
    } else {
        s
    }
}

/// The text without its trailing white space.
pub open spec fn trim_end(s: Seq<char>) -> Seq<char>
    decreases s.len(),
{
    if s.len() > 0 && is_white_space(s.last()) {
        trim_end(s.drop_last())
    } else {
        s
    }
}

/// The text without its leading and trailing white space.
pub open spec fn trimmed(s: Seq<char>) -> Seq<char> {
    trim_end(trim_start(s))
}

/// Cuts white space off both ends.
pub fn trim(s: &str) -> (r: String)
    ensures
        r@ == trimmed(s@),
{
    let v = chars_of(s);
    let mut from: usize = 0;
    assert(v@.subrange(0, v@.len() as int) =~= v@);
    while from < v.len() && white_space(v[from])
        invariant
            from <= v@.len(),
            v@ == s@,
            trim_start(s@) == trim_start(v@.subrange(from as int, v@.len() as int)),
        decreases v@.len() - from,
    {
        proof {
            assert(v@.subrange(from as int, v@.len() as int).drop_first() =~= v@.subrange(
                from + 1,
                v@.len() as int,
            ));
        }
        from += 1;
    }
    let ghost started = v@.subrange(from as int, v@.len() as int);
    assert(trim_start(s@) == started);
    let mut to: usize = v.len();
    while to > from && white_space(v[to - 1])
        invariant
            from <= to <= v@.len(),
            trim_end(started) == trim_end(v@.subrange(from as int, to as int)),
        decreases to,
    {
        proof {
            assert(v@.subrange(from as int, to as int).drop_last() =~= v@.subrange(
                from as int,
                to - 1,
            ));
        }
        to -= 1;
    }
    let kept = vstd::slice::slice_subrange(v.as_slice(), from, to);
    text_of(kept)
}

/// Whether nothing but white space is in the text.
pub open spec fn is_blank(s: Seq<char>) -> bool {
    trimmed(s).len() == 0
}

/// Whether nothing but white space is in the text.
pub fn blank(s: &str) -> (r: bool)
    ensures
        r == is_blank(s@),
{
    let t = trim(s);
    t.as_str().is_empty()
}

// ---------------------------------------------------------------------------------------------
// ASCII case
// ---------------------------------------------------------------------------------------------

/// An ASCII capital in lower case; any other character unchanged.
pub open spec fn ascii_lower_char(c: char) -> char {
    if 'A' <= c <= 'Z' {
        (c as u32 + 32) as char
    } else {
        c
    }
}

/// A text with its ASCII capitals in lower case.
pub open spec fn ascii_lower(s: Seq<char>) -> Seq<char> {
    s.map_values(|c: char| ascii_lower_char(c))
}

fn lower_char(c: char) -> (r: char)
    ensures
        r == ascii_lower_char(c),
{
    if 'A' <= c && c <= 'Z' {
        ((c as u8) + 32) as char
    } else {
        c
    }
}

/// Lowers the ASCII capitals of a text.
pub fn to_ascii_lower(s: &str) -> (r: String)
    ensures
        r@ == ascii_lower(s@),
{
    let v = chars_of(s);
    let mut out: Vec<char> = Vec::new();
    let mut i: usize = 0;
    while i < v.len()
        invariant
            i <= v@.len(),
            v@ == s@,
            out@.len() == i,
            forall|k: int| 0 <= k < i ==> #[trigger] out@[k] == ascii_lower_char(v@[k]),
        decreases v@.len() - i,
    {
        out.push(lower_char(v[i]));
        i += 1;
    }
    assert(out@ =~= ascii_lower(s@));
    text_of(out.as_slice())
}

/// Whether two texts are equal but for the case of ASCII letters.
pub fn equal_ignoring_ascii_case(a: &str, b: &str) -> (r: bool)
    ensures
        r == (ascii_lower(a@) == ascii_lower(b@)),
{
    let x = to_ascii_lower(a);
    let y = to_ascii_lower(b);
    text_equal(x.as_str(), y.as_str())
}

// ---------------------------------------------------------------------------------------------
// Joining lists
// ---------------------------------------------------------------------------------------------

/// The pieces one after another, with a separator between any two.
pub open spec fn joined_with(pieces: Seq<Seq<char>>, separator: Seq<char>) -> Seq<char>
    decreases pieces.len(),
{
    if pieces.len() == 0 {
        Seq::empty()
    } else if pieces.len() == 1 {
        pieces[0]
    } else {
        joined_with(pieces.drop_last(), separator) + separator + pieces.last()
    }
}

/// Joins the pieces, with a separator between any two.
pub fn join_texts(pieces: &Vec<String>, separator: &str) -> (r: String)
    ensures
        r@ == joined_with(views(pieces@), separator@),
{
    let ghost all = views(pieces@);
    let mut out = String::new();
    let mut i: usize = 0;
    assert(out@ =~= joined_with(all.subrange(0, 0), separator@));
    while i < pieces.len()
        invariant
            i <= pieces@.len(),
            all == views(pieces@),
            out@ == joined_with(all.subrange(0, i as int), separator@),
        decreases pieces@.len() - i,
    {
        proof {
            assert(all.subrange(0, i + 1).drop_last() =~= all.subrange(0, i as int));
            assert(all.subrange(0, i + 1).last() == pieces@[i as int]@);
        }
        if i > 0 {
            out = cat3(out.as_str(), separator, pieces[i].as_str());
        } else {
            out = pieces[i].clone();
        }
        i += 1;
    }
    assert(all.subrange(0, all.len() as int) =~= all);
    out
}

/// The pieces between the occurrences of a character.
pub open spec fn split_on(s: Seq<char>, c: char) -> Seq<Seq<char>>
    decreases s.len(),
{
    if s.len() == 0 {
        seq![Seq::<char>::empty()]
    } else {
        let before = split_on(s.drop_last(), c);
        if s.last() == c {
            before.push(Seq::empty())
        } else {
            before.drop_last().push(before.last().push(s.last()))
        }
    }
}

/// Splits a text at the occurrences of a character.
pub fn split_text(s: &str, c: char) -> (r: Vec<String>)
    ensures
        views(r@) == split_on(s@, c),
        r@.len() > 0,
{
    let chars = chars_of(s);
    let mut pieces: Vec<String> = Vec::new();
    let mut piece = String::new();
    let mut i: usize = 0;
    assert(views(pieces@).push(piece@) =~= split_on(s@.subrange(0, 0), c));
    while i < chars.len()
        invariant
            i <= chars@.len(),
            chars@ == s@,
            views(pieces@).push(piece@) == split_on(s@.subrange(0, i as int), c),
        decreases chars@.len() - i,
    {
        let ghost before = views(pieces@).push(piece@);
        proof {
            assert(s@.subrange(0, i + 1).drop_last() =~= s@.subrange(0, i as int));
            assert(s@.subrange(0, i + 1).last() == chars@[i as int]);
            assert(before.drop_last() =~= views(pieces@));
            assert(before.last() == piece@);
        }
        if chars[i] == c {
            pieces.push(piece);
            piece = String::new();
            proof {
                assert(views(pieces@) =~= before);
                assert(piece@ =~= Seq::empty());
            }
        } else {
            piece.push(chars[i]);
        }
        i += 1;
    }
    assert(s@.subrange(0, s@.len() as int) =~= s@);
    pieces.push(piece);
    assert(views(pieces@) =~= split_on(s@, c));
    pieces
}

/// A text contains another exactly if the other's characters stand in it in a row, from some place on.
pub proof fn law_contained_texts_stand_in_a_row(hay: &str, needle: &str, r: bool)
    requires
        call_ensures(contains_text, (hay, needle), r),
    ensures
        r <==> exists|front: Seq<char>, back: Seq<char>| hay@ == #[trigger] (front + needle@ + back),
        needle@.len() == 0 ==> r,
        needle@.len() > hay@.len() ==> !r,
        needle@ == hay@ ==> r,
{
    let h = hay@;
    let n = needle@;
    if r {
        let at = choose|at: int| #[trigger] occurs_at(h, n, at);
        let front = h.subrange(0, at);
        let back = h.subrange(at + n.len(), h.len() as int);
        assert(h =~= front + h.subrange(at, at + n.len()) + back);
        assert(h == front + n + back);
    }
    if exists|front: Seq<char>, back: Seq<char>| h == #[trigger] (front + n + back) {
        let (front, back) = choose|front: Seq<char>, back: Seq<char>|
            h == #[trigger] (front + n + back);
        let at = front.len() as int;
        assert(h.subrange(at, at + n.len()) =~= n);
        assert(occurs_at(h, n, at));
    }
    if n.len() == 0 {
        assert(h.subrange(0, 0) =~= n);
        assert(occurs_at(h, n, 0));
    }
    if n == h {
        assert(h.subrange(0, h.len() as int) =~= n);
        assert(occurs_at(h, n, 0));
    }
}

/// A text begins with another exactly if something can be put behind the other to give the text.
pub proof fn law_texts_begin_with_their_prefixes(s: &str, prefix: &str, r: bool)
    requires
        call_ensures(text_starts_with, (s, prefix), r),
    ensures
        r <==> exists|back: Seq<char>| s@ == #[trigger] (prefix@ + back),
{
    if r {
        let back = s@.subrange(prefix@.len() as int, s@.len() as int);
        assert(s@ =~= prefix@ + back);
    }
    if exists|back: Seq<char>| s@ == #[trigger] (prefix@ + back) {
        let back = choose|back: Seq<char>| s@ == #[trigger] (prefix@ + back);
        assert(s@.subrange(0, prefix@.len() as int) =~= prefix@);
    }
}

/// White space is the tabulator and the line breaks, the blank, and the spaces of Unicode.
pub proof fn law_white_space_is_that_of_unicode(c: char, r: bool)
    requires
        call_ensures(white_space, (c,), r),
    ensures
        c as u32 <= 0x7f ==> (r <==> (9 <= c as u32 <= 13 || c as u32 == 32)),
        0x7f < c as u32 <= 0xff ==> (r <==> (c as u32 == 0x85 || c as u32 == 0xa0)),
        c as u32 > 0xff ==> (r <==> (c as u32 == 0x1680 || 0x2000 <= c as u32 <= 0x200a || c as u32
            == 0x2028 || c as u32 == 0x2029 || c as u32 == 0x202f || c as u32 == 0x205f || c as u32
            == 0x3000)),
{
}

proof fn lemma_trim_start(s: Seq<char>) -> (front: Seq<char>)
    ensures
        s == front + trim_start(s),
        forall|i: int| 0 <= i < front.len() ==> is_white_space(#[trigger] front[i]),
        trim_start(s).len() > 0 ==> !is_white_space(trim_start(s)[0]),
    decreases s.len(),
{
    if s.len() > 0 && is_white_space(s[0]) {
        let rest = lemma_trim_start(s.drop_first());
        let front = seq![s[0]] + rest;
        assert(s =~= seq![s[0]] + s.drop_first());
        assert(s =~= front + trim_start(s));
        front
    } else {
        assert(s =~= Seq::<char>::empty() + s);
        Seq::empty()
    }
}

proof fn lemma_trim_end(s: Seq<char>) -> (back: Seq<char>)
    ensures
        s == trim_end(s) + back,
        forall|i: int| 0 <= i < back.len() ==> is_white_space(#[trigger] back[i]),
        trim_end(s).len() > 0 ==> !is_white_space(trim_end(s).last()),
    decreases s.len(),
{
    if s.len() > 0 && is_white_space(s.last()) {
        let rest = lemma_trim_end(s.drop_last());
        let back = rest.push(s.last());
        assert(s =~= s.drop_last().push(s.last()));
        assert(s =~= trim_end(s) + back);
        back
    } else {
        assert(s =~= s + Seq::<char>::empty());
        Seq::empty()
    }
}

/// Trimming takes white space off both ends, all of it and nothing else: what is left neither begins
/// nor ends with any, and what was taken off is nothing but that.
pub proof fn law_trimming_takes_off_white_space(s: Seq<char>) -> (r: (Seq<char>, Seq<char>))
    ensures
        s == r.0 + trimmed(s) + r.1,
        forall|i: int| 0 <= i < r.0.len() ==> is_white_space(#[trigger] r.0[i]),
        forall|i: int| 0 <= i < r.1.len() ==> is_white_space(#[trigger] r.1[i]),
        trimmed(s).len() > 0 ==> !is_white_space(trimmed(s)[0]) && !is_white_space(
            trimmed(s).last(),
        ),
{
    let front = lemma_trim_start(s);
    let back = lemma_trim_end(trim_start(s));
    assert(s =~= front + trimmed(s) + back);
    if trimmed(s).len() > 0 {
        assert(trim_start(s)[0] == trimmed(s)[0]);
    }
    (front, back)
}

/// A text without white space at its ends is trimmed to itself; so white space inside it stays.
pub proof fn law_trimming_keeps_the_rest(s: &str, r: String)
    requires
        call_ensures(trim, (s,), r),
    ensures
        s@.len() > 0 && !is_white_space(s@[0]) && !is_white_space(s@.last()) ==> r@ == s@,
        r@.len() == 0 <==> forall|i: int| 0 <= i < s@.len() ==> is_white_space(#[trigger] s@[i]),
{
    let t = s@;
    let (front, back) = law_trimming_takes_off_white_space(t);
    assert(r@ == trimmed(t));
    if r@.len() == 0 {
        assert forall|i: int| 0 <= i < t.len() implies is_white_space(#[trigger] t[i]) by {
            if i < front.len() {
                assert(t[i] == front[i]);
            } else {
                assert(t[i] == back[i - front.len()]);
            }
        }
    } else {
        assert(t[front.len() as int] == r@[0]);
        assert(!is_white_space(t[front.len() as int]));
    }
    if t.len() > 0 && !is_white_space(t[0]) && !is_white_space(t.last()) {
        if front.len() > 0 {
            assert(t[0] == front[0]);
        }
        if back.len() > 0 {
            assert(t.last() == back.last());
        }
        assert(r@ =~= t);
    }
}

/// A text is blank exactly if it is white space throughout.
pub proof fn law_blank_texts_are_white_space(s: &str, r: bool)
    requires
        call_ensures(blank, (s,), r),
    ensures
        r <==> forall|i: int| 0 <= i < s@.len() ==> is_white_space(#[trigger] s@[i]),
{
    let t = s@;
    let (front, back) = law_trimming_takes_off_white_space(t);
    if r {
        assert forall|i: int| 0 <= i < t.len() implies is_white_space(#[trigger] t[i]) by {
            if i < front.len() {
                assert(t[i] == front[i]);
            } else {
                assert(t[i] == back[i - front.len()]);
            }
        }
    } else {
        assert(t[front.len() as int] == trimmed(t)[0]);
        assert(!is_white_space(t[front.len() as int]));
    }
}

/// In lower case the letters from A to Z are those from a to z, and every other character is itself.
pub proof fn law_lower_case_changes_capitals(s: &str, r: String, i: int)
    requires
        call_ensures(to_ascii_lower, (s,), r),
        0 <= i < s@.len(),
    ensures
        r@.len() == s@.len(),
        65 <= s@[i] as u32 <= 90 ==> r@[i] as u32 == s@[i] as u32 + 32,
        !(65 <= s@[i] as u32 <= 90) ==> r@[i] == s@[i],
{
}

/// Two texts are equal but for the case exactly if they are of one length and any two characters at
/// one place are the same or the two cases of one letter.
pub proof fn law_texts_are_equal_but_for_the_case(a: &str, b: &str, r: bool)
    requires
        call_ensures(equal_ignoring_ascii_case, (a, b), r),
    ensures
        r <==> a@.len() == b@.len() && forall|i: int|
            0 <= i < a@.len() ==> {
                ||| (#[trigger] a@[i]) == b@[i]
                ||| (65 <= a@[i] as u32 <= 90 && b@[i] as u32 == a@[i] as u32 + 32)
                ||| (65 <= b@[i] as u32 <= 90 && a@[i] as u32 == b@[i] as u32 + 32)
            },
{
    let x = ascii_lower(a@);
    let y = ascii_lower(b@);
    if r {
        assert(x.len() == y.len());
        assert forall|i: int| 0 <= i < a@.len() implies {
            ||| (#[trigger] a@[i]) == b@[i]
            ||| (65 <= a@[i] as u32 <= 90 && b@[i] as u32 == a@[i] as u32 + 32)
            ||| (65 <= b@[i] as u32 <= 90 && a@[i] as u32 == b@[i] as u32 + 32)
        } by {
            assert(x[i] == y[i]);
        }
    }
    if a@.len() == b@.len() && forall|i: int|
        0 <= i < a@.len() ==> {
            ||| (#[trigger] a@[i]) == b@[i]
            ||| (65 <= a@[i] as u32 <= 90 && b@[i] as u32 == a@[i] as u32 + 32)
            ||| (65 <= b@[i] as u32 <= 90 && a@[i] as u32 == b@[i] as u32 + 32)
        } {
        assert forall|i: int| 0 <= i < x.len() implies x[i] == y[i] by {
            let c = a@[i];
            assert(x[i] == ascii_lower_char(c));
            assert(y[i] == ascii_lower_char(b@[i]));
        }
        assert(x =~= y);
    }
}

/// What is split at a character and joined with it again is what it was; none of the pieces holds the
/// character.
pub proof fn law_split_texts_join_again(s: Seq<char>, c: char)
    ensures
        split_on(s, c).len() > 0,
        joined_with(split_on(s, c), seq![c]) == s,
        forall|i: int|
            0 <= i < split_on(s, c).len() ==> !(#[trigger] split_on(s, c)[i]).contains(c),
    decreases s.len(),
{
    if s.len() == 0 {
        assert(joined_with(split_on(s, c), seq![c]) =~= s);
    } else {
        let before = split_on(s.drop_last(), c);
        let pieces = split_on(s, c);
        law_split_texts_join_again(s.drop_last(), c);
        if s.last() == c {
            assert(pieces.drop_last() =~= before);
            assert(joined_with(pieces, seq![c]) =~= joined_with(before, seq![c]) + seq![c]);
            assert(s =~= s.drop_last() + seq![c]);
        } else {
            assert(pieces.drop_last() =~= before.drop_last());
            assert(pieces.last() =~= before.last().push(s.last()));
            assert(joined_with(pieces, seq![c]) =~= joined_with(before, seq![c]).push(s.last()));
            assert(s =~= s.drop_last().push(s.last()));
            assert forall|i: int| 0 <= i < pieces.len() implies !(#[trigger] pieces[i]).contains(
                c,
            ) by {
                if i < pieces.len() - 1 {
                    assert(pieces[i] == before[i]);
                } else if pieces[i].contains(c) {
                    let at = pieces[i].index_of(c);
                    assert(before.last()[at] == c || at == before.last().len());
                    assert(before.last().contains(c));
                    assert(!before[before.len() - 1].contains(c));
                }
            }
        }
    }
}

/// Joined texts are as long as all of them and the separators between them; one text is itself, and
/// a text put behind others stands behind them and one separator.
pub proof fn law_joined_texts_stand_in_order(
    pieces: Seq<Seq<char>>,
    piece: Seq<char>,
    separator: Seq<char>,
)
    ensures
        joined_with(seq![piece], separator) == piece,
        pieces.len() > 0 ==> joined_with(pieces.push(piece), separator) == joined_with(
            pieces,
            separator,
        ) + separator + piece,
{
    assert(pieces.push(piece).drop_last() =~= pieces);
}

} // verus!
