//! JSON values.

use vstd::prelude::*;

use crate::ieee::Real64;
use crate::text::text_equal;

verus! {

/// A JSON number: a non-negative integer, a negative integer, or anything else.
#[derive(Clone, Copy, Debug, PartialEq, Eq, Structural)]
pub enum JsonNumber {
    Unsigned(u64),
    Negative(i64),
    Real(Real64),
}

/// A JSON value. The entries of an object are held in the order of their keys.
#[derive(Debug, PartialEq, Eq)]
pub enum Json {
    Null,
    Bool(bool),
    Number(JsonNumber),
    Text(String),
    Array(Vec<Json>),
    Object(Vec<JsonEntry>),
}

/// One entry of a JSON object.
#[derive(Debug, PartialEq, Eq)]
pub struct JsonEntry {
    pub key: String,
    pub value: Json,
}

/// A JSON value with texts as sequences of characters.
pub enum JsonView {
    Null,
    Bool(bool),
    Number(JsonNumber),
    Text(Seq<char>),
    Array(Seq<JsonView>),
    Object(Seq<(Seq<char>, JsonView)>),
}

impl View for Json {
    type V = JsonView;

    open spec fn view(&self) -> JsonView {
        json_view(*self)
    }
}

/// The mathematical value of a JSON value.
pub open spec fn json_view(j: Json) -> JsonView
    decreases j,
{
    match j {
        Json::Null => JsonView::Null,
        Json::Bool(b) => JsonView::Bool(b),
        Json::Number(n) => JsonView::Number(n),
        Json::Text(s) => JsonView::Text(s@),
        Json::Array(items) => JsonView::Array(
            Seq::new(
                items@.len(),
                |i: int|
                    if 0 <= i < items@.len() {
                        json_view(items@[i])
                    } else {
                        JsonView::Null
                    },
            ),
        ),
        Json::Object(entries) => JsonView::Object(
            Seq::new(
                entries@.len(),
                |i: int|
                    if 0 <= i < entries@.len() {
                        (entries@[i].key@, json_view(entries@[i].value))
                    } else {
                        (Seq::<char>::empty(), JsonView::Null)
                    },
            ),
        ),
    }
}

/// Whether two numbers compare equal: of the same form, and reals as IEEE has it.
pub open spec fn number_same(a: JsonNumber, b: JsonNumber) -> bool {
    match (a, b) {
        (JsonNumber::Unsigned(x), JsonNumber::Unsigned(y)) => x == y,
        (JsonNumber::Negative(x), JsonNumber::Negative(y)) => x == y,
        (JsonNumber::Real(x), JsonNumber::Real(y)) => x.is_same(y),
        _ => false,
    }
}

/// Whether two JSON values compare equal.
pub open spec fn json_same(a: JsonView, b: JsonView) -> bool
    decreases a,
{
    match (a, b) {
        (JsonView::Null, JsonView::Null) => true,
        (JsonView::Bool(x), JsonView::Bool(y)) => x == y,
        (JsonView::Number(x), JsonView::Number(y)) => number_same(x, y),
        (JsonView::Text(x), JsonView::Text(y)) => x == y,
        (JsonView::Array(xs), JsonView::Array(ys)) => {
            &&& xs.len() == ys.len()
            &&& forall|i: int| 0 <= i < xs.len() ==> json_same(#[trigger] xs[i], ys[i])
        },
        (JsonView::Object(xs), JsonView::Object(ys)) => {
            &&& xs.len() == ys.len()
            &&& forall|i: int|
                0 <= i < xs.len() ==> (#[trigger] xs[i]).0 == ys[i].0 && json_same(xs[i].1, ys[i].1)
        },
        _ => false,
    }
}

/// Compares two numbers.
pub fn numbers_equal(a: JsonNumber, b: JsonNumber) -> (r: bool)
    ensures
        r == number_same(a, b),
{
    match (a, b) {
        (JsonNumber::Unsigned(x), JsonNumber::Unsigned(y)) => x == y,
        (JsonNumber::Negative(x), JsonNumber::Negative(y)) => x == y,
        (JsonNumber::Real(x), JsonNumber::Real(y)) => x.same(y),
        _ => false,
    }
}

/// Compares two JSON values.
pub fn json_equal(a: &Json, b: &Json) -> (r: bool)
    ensures
        r == json_same(a@, b@),
    decreases a,
{
    match (a, b) {
        (Json::Null, Json::Null) => true,
        (Json::Bool(x), Json::Bool(y)) => *x == *y,
        (Json::Number(x), Json::Number(y)) => numbers_equal(*x, *y),
        (Json::Text(x), Json::Text(y)) => text_equal(x.as_str(), y.as_str()),
        (Json::Array(xs), Json::Array(ys)) => {
            if xs.len() != ys.len() {
                return false;
            }
            let mut i: usize = 0;
            while i < xs.len()
                invariant
                    i <= xs@.len(),
                    xs@.len() == ys@.len(),
                    *a == Json::Array(*xs),
                    *b == Json::Array(*ys),
                    forall|k: int|
                        0 <= k < i ==> json_same(#[trigger] json_view(xs@[k]), json_view(ys@[k])),
                decreases xs@.len() - i,
            {
                if !json_equal(&xs[i], &ys[i]) {
                    assert(a@->Array_0[i as int] == json_view(xs@[i as int]));
                    assert(b@->Array_0[i as int] == json_view(ys@[i as int]));
                    return false;
                }
                i += 1;
            }
            assert forall|k: int| 0 <= k < xs@.len() implies json_same(
                #[trigger] a@->Array_0[k],
                b@->Array_0[k],
            ) by {
                assert(a@->Array_0[k] == json_view(xs@[k]));
                assert(b@->Array_0[k] == json_view(ys@[k]));
            }
            true
        },
        (Json::Object(xs), Json::Object(ys)) => {
            if xs.len() != ys.len() {
                return false;
            }
            let mut i: usize = 0;
            while i < xs.len()
                invariant
                    i <= xs@.len(),
                    xs@.len() == ys@.len(),
                    *a == Json::Object(*xs),
                    *b == Json::Object(*ys),
                    forall|k: int|
                        0 <= k < i ==> json_same(
                            #[trigger] json_view(xs@[k].value),
                            json_view(ys@[k].value),
                        ) && xs@[k].key@ == ys@[k].key@,
                decreases xs@.len() - i,
            {
                let same_key = text_equal(xs[i].key.as_str(), ys[i].key.as_str());
                if !same_key || !json_equal(&xs[i].value, &ys[i].value) {
                    assert(a@->Object_0[i as int] == (
                        xs@[i as int].key@,
                        json_view(xs@[i as int].value),
                    ));
                    assert(b@->Object_0[i as int] == (
                        ys@[i as int].key@,
                        json_view(ys@[i as int].value),
                    ));
                    return false;
                }
                i += 1;
            }
            assert forall|k: int| 0 <= k < xs@.len() implies (#[trigger] a@->Object_0[k]).0
                == b@->Object_0[k].0 && json_same(a@->Object_0[k].1, b@->Object_0[k].1) by {
                assert(a@->Object_0[k] == (xs@[k].key@, json_view(xs@[k].value)));
                assert(b@->Object_0[k] == (ys@[k].key@, json_view(ys@[k].value)));
            }
            true
        },
        _ => false,
    }
}

/// The object with a single entry.
pub open spec fn object1(key: Seq<char>, value: JsonView) -> JsonView {
    JsonView::Object(seq![(key, value)])
}

/// Builds the object with a single flag.
pub fn flag_object(key: &str, value: bool) -> (r: Json)
    ensures
        r@ == object1(key@, JsonView::Bool(value)),
{
    let mut entries: Vec<JsonEntry> = Vec::new();
    entries.push(JsonEntry { key: key.to_owned(), value: Json::Bool(value) });
    let r = Json::Object(entries);
    proof {
        reveal_with_fuel(json_view, 2);
        assert(r@->Object_0 =~= seq![(key@, JsonView::Bool(value))]);
    }
    r
}

/// Whether a JSON value is free of reals that are not numbers, which no JSON text can denote.
pub open spec fn json_is_numeric(v: JsonView) -> bool
    decreases v,
{
    match v {
        JsonView::Number(JsonNumber::Real(x)) => !x.is_nan(),
        JsonView::Array(xs) => forall|i: int|
            0 <= i < xs.len() ==> json_is_numeric(#[trigger] xs[i]),
        JsonView::Object(xs) => forall|i: int|
            0 <= i < xs.len() ==> json_is_numeric((#[trigger] xs[i]).1),
        _ => true,
    }
}

/// Every JSON value without a not-a-number compares equal to itself.
pub proof fn law_json_equals_itself(v: JsonView)
    requires
        json_is_numeric(v),
    ensures
        json_same(v, v),
    decreases v,
{
    match v {
        JsonView::Array(xs) => {
            assert forall|i: int| 0 <= i < xs.len() implies json_same(#[trigger] xs[i], xs[i]) by {
                law_json_equals_itself(xs[i]);
            }
        },
        JsonView::Object(xs) => {
            assert forall|i: int| 0 <= i < xs.len() implies (#[trigger] xs[i]).0 == xs[i].0
                && json_same(xs[i].1, xs[i].1) by {
                law_json_equals_itself(xs[i].1);
            }
        },
        _ => {},
    }
}

/// An item of an array is smaller than the array.
pub proof fn lemma_item_is_smaller(j: Json, i: int)
    requires
        j is Array,
        0 <= i < j->Array_0@.len(),
    ensures
        decreases_to!(j => j->Array_0@[i]),
{
    let items = j->Array_0;
    assert(decreases_to!(j => j->Array_0));
    assert(decreases_to!(items => items@));
    assert(decreases_to!(items@ => items@[i]));
}

/// The value of an entry is smaller than its object.
pub proof fn lemma_value_is_smaller(j: Json, i: int)
    requires
        j is Object,
        0 <= i < j->Object_0@.len(),
    ensures
        decreases_to!(j => j->Object_0@[i].value),
{
    let entries = j->Object_0;
    assert(decreases_to!(j => j->Object_0));
    assert(decreases_to!(entries => entries@));
    assert(decreases_to!(entries@ => entries@[i]));
    assert(decreases_to!(entries@[i] => entries@[i].value));
}

/// A copy of a JSON value.
pub fn json_copy(j: &Json) -> (r: Json)
    ensures
        r@ == j@,
    decreases j,
{
    match j {
        Json::Null => Json::Null,
        Json::Bool(b) => Json::Bool(*b),
        Json::Number(n) => Json::Number(*n),
        Json::Text(s) => Json::Text(s.clone()),
        Json::Array(items) => {
            let mut out: Vec<Json> = Vec::new();
            let mut i: usize = 0;
            while i < items.len()
                invariant
                    i <= items@.len(),
                    *j == Json::Array(*items),
                    out@.len() == i,
                    forall|k: int| 0 <= k < i ==> json_view(#[trigger] out@[k]) == json_view(items@[k]),
                decreases items@.len() - i,
            {
                proof {
                    lemma_item_is_smaller(*j, i as int);
                }
                out.push(json_copy(&items[i]));
                i += 1;
            }
            let r = Json::Array(out);
            assert(r@->Array_0 =~= j@->Array_0);
            r
        },
        Json::Object(entries) => {
            let mut out: Vec<JsonEntry> = Vec::new();
            let mut i: usize = 0;
            while i < entries.len()
                invariant
                    i <= entries@.len(),
                    *j == Json::Object(*entries),
                    out@.len() == i,
                    forall|k: int|
                        0 <= k < i ==> json_view((#[trigger] out@[k]).value) == json_view(
                            entries@[k].value,
                        ) && out@[k].key@ == entries@[k].key@,
                decreases entries@.len() - i,
            {
                proof {
                    lemma_value_is_smaller(*j, i as int);
                }
                out.push(
                    JsonEntry {
                        key: entries[i].key.clone(),
                        value: json_copy(&entries[i].value),
                    },
                );
                i += 1;
            }
            let r = Json::Object(out);
            assert(r@->Object_0 =~= j@->Object_0);
            r
        },
    }
}

/// An integer as a JSON number.
pub open spec fn json_int(n: int) -> JsonView {
    if n >= 0 {
        JsonView::Number(JsonNumber::Unsigned(n as u64))
    } else {
        JsonView::Number(JsonNumber::Negative(n as i64))
    }
}

/// A `u64` as a JSON value.
pub fn json_u64(n: u64) -> (r: Json)
    ensures
        r@ == json_int(n as int),
{
    Json::Number(JsonNumber::Unsigned(n))
}

/// An `i64` as a JSON value.
pub fn json_i64(n: i64) -> (r: Json)
    ensures
        r@ == json_int(n as int),
{
    if n >= 0 {
        Json::Number(JsonNumber::Unsigned(n as u64))
    } else {
        Json::Number(JsonNumber::Negative(n))
    }
}

/// A text as a JSON value.
pub fn json_text(s: &str) -> (r: Json)
    ensures
        r@ == JsonView::Text(s@),
{
    Json::Text(s.to_owned())
}

/// An optional text as a JSON value: null where it is absent.
pub open spec fn json_optional_text(s: Option<Seq<char>>) -> JsonView {
    match s {
        Some(text) => JsonView::Text(text),
        None => JsonView::Null,
    }
}

/// An optional number as a JSON value: null where it is absent.
pub open spec fn json_optional_int(n: Option<u64>) -> JsonView {
    match n {
        Some(value) => json_int(value as int),
        None => JsonView::Null,
    }
}

/// The entries of an object, with texts as sequences of characters.
pub open spec fn entry_views(entries: Seq<JsonEntry>) -> Seq<(Seq<char>, JsonView)> {
    entries.map_values(|e: JsonEntry| (e.key@, e.value@))
}

/// An object under construction.
pub struct ObjectBuilder {
    pub entries: Vec<JsonEntry>,
}

impl View for ObjectBuilder {
    type V = Seq<(Seq<char>, JsonView)>;

    open spec fn view(&self) -> Seq<(Seq<char>, JsonView)> {
        entry_views(self.entries@)
    }
}

impl ObjectBuilder {
    pub fn new() -> (r: ObjectBuilder)
        ensures
            r@ == Seq::<(Seq<char>, JsonView)>::empty(),
    {
        let r = ObjectBuilder { entries: Vec::new() };
        assert(r@ =~= Seq::empty());
        r
    }

    /// Adds an entry. Entries are added in the order of their keys.
    pub fn with(self, key: &str, value: Json) -> (r: ObjectBuilder)
        ensures
            r@ == self@.push((key@, value@)),
    {
        let mut entries = self.entries;
        entries.push(JsonEntry { key: key.to_owned(), value });
        let r = ObjectBuilder { entries };
        assert(r@ =~= self@.push((key@, value@)));
        r
    }

    /// The finished object.
    pub fn build(self) -> (r: Json)
        ensures
            r@ == JsonView::Object(self@),
    {
        let r = Json::Object(self.entries);
        assert(r@->Object_0 =~= self@);
        r
    }
}

/// Two values are equal where they are of one kind and hold the same: texts by their characters,
/// arrays and objects by their length and item by item, numbers within their own kind.
pub proof fn law_json_is_equal_by_what_it_holds(a: &Json, b: &Json, r: bool)
    requires
        call_ensures(json_equal, (a, b), r),
    ensures
        *a is Null && *b is Null ==> r,
        *a matches Json::Bool(x) ==> (*b matches Json::Bool(y) ==> (r <==> x == y)),
        *a matches Json::Text(x) ==> (*b matches Json::Text(y) ==> (r <==> x@ == y@)),
        *a matches Json::Number(JsonNumber::Unsigned(x)) ==> (*b matches Json::Number(
            JsonNumber::Unsigned(y),
        ) ==> (r <==> x == y)),
        *a matches Json::Number(JsonNumber::Negative(x)) ==> (*b matches Json::Number(
            JsonNumber::Negative(y),
        ) ==> (r <==> x == y)),
        *a matches Json::Number(JsonNumber::Real(x)) ==> (*b matches Json::Number(
            JsonNumber::Real(y),
        ) ==> (r <==> x.is_same(y))),
        *a matches Json::Number(x) ==> (*b matches Json::Number(y) ==> (r ==> (x is Unsigned <==> y
            is Unsigned) && (x is Negative <==> y is Negative))),
        *a matches Json::Array(xs) ==> (*b matches Json::Array(ys) ==> (r ==> xs@.len()
            == ys@.len())),
        *a matches Json::Object(xs) ==> (*b matches Json::Object(ys) ==> (r ==> xs@.len()
            == ys@.len())),
        r ==> (*a is Null <==> *b is Null) && (*a is Bool <==> *b is Bool) && (*a is Number <==> *b
            is Number) && (*a is Text <==> *b is Text) && (*a is Array <==> *b is Array) && (*a
            is Object <==> *b is Object),
{
}

/// Two arrays are equal exactly if they are of one length and their items are equal, one by one.
pub proof fn law_json_is_equal_item_by_item(
    xs: Seq<JsonView>,
    ys: Seq<JsonView>,
    x: JsonView,
    y: JsonView,
)
    ensures
        json_same(JsonView::Array(Seq::empty()), JsonView::Array(Seq::empty())),
        json_same(JsonView::Array(xs.push(x)), JsonView::Array(ys.push(y))) <==> json_same(
            JsonView::Array(xs),
            JsonView::Array(ys),
        ) && json_same(x, y),
{
    let a = xs.push(x);
    let b = ys.push(y);
    if json_same(JsonView::Array(a), JsonView::Array(b)) {
        assert(json_same(a[xs.len() as int], b[xs.len() as int]));
        assert forall|i: int| 0 <= i < xs.len() implies json_same(#[trigger] xs[i], ys[i]) by {
            assert(json_same(a[i], b[i]));
        }
    }
    if json_same(JsonView::Array(xs), JsonView::Array(ys)) && json_same(x, y) {
        assert forall|i: int| 0 <= i < a.len() implies json_same(#[trigger] a[i], b[i]) by {
            if i < xs.len() {
                assert(json_same(xs[i], ys[i]));
            }
        }
    }
}

/// Two objects are equal exactly if they have the same keys in the same order, and equal values under
/// them.
pub proof fn law_json_is_equal_entry_by_entry(
    xs: Seq<(Seq<char>, JsonView)>,
    ys: Seq<(Seq<char>, JsonView)>,
    x: (Seq<char>, JsonView),
    y: (Seq<char>, JsonView),
)
    ensures
        json_same(JsonView::Object(Seq::empty()), JsonView::Object(Seq::empty())),
        json_same(JsonView::Object(xs.push(x)), JsonView::Object(ys.push(y))) <==> json_same(
            JsonView::Object(xs),
            JsonView::Object(ys),
        ) && x.0 == y.0 && json_same(x.1, y.1),
{
    let a = xs.push(x);
    let b = ys.push(y);
    if json_same(JsonView::Object(a), JsonView::Object(b)) {
        assert(a[xs.len() as int].0 == b[xs.len() as int].0);
        assert forall|i: int| 0 <= i < xs.len() implies (#[trigger] xs[i]).0 == ys[i].0
            && json_same(xs[i].1, ys[i].1) by {
            assert(a[i].0 == b[i].0);
        }
    }
    if json_same(JsonView::Object(xs), JsonView::Object(ys)) && x.0 == y.0 && json_same(x.1, y.1) {
        assert forall|i: int| 0 <= i < a.len() implies (#[trigger] a[i]).0 == b[i].0 && json_same(
            a[i].1,
            b[i].1,
        ) by {
            if i < xs.len() {
                assert(xs[i].0 == ys[i].0);
            }
        }
    }
}

/// A number becomes the value that holds it, negative or not; a copy holds what it was made of.
pub proof fn law_json_holds_what_it_is_made_of(
    n: u64,
    m: i64,
    s: &str,
    flag: bool,
    unsigned: Json,
    signed: Json,
    text: Json,
    object: Json,
)
    requires
        call_ensures(json_u64, (n,), unsigned),
        call_ensures(json_i64, (m,), signed),
        call_ensures(json_text, (s,), text),
        call_ensures(flag_object, (s, flag), object),
    ensures
        unsigned@ == JsonView::Number(JsonNumber::Unsigned(n)),
        m >= 0 ==> signed@ == JsonView::Number(JsonNumber::Unsigned(m as u64)),
        m < 0 ==> signed@ == JsonView::Number(JsonNumber::Negative(m)),
        text@ == JsonView::Text(s@),
        object@ matches JsonView::Object(entries) && entries.len() == 1 && entries[0].0 == s@
            && entries[0].1 == JsonView::Bool(flag),
{
}

} // verus!
