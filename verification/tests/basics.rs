use synapse_mcp::clock::{clock_instant, minute_of_day, now_ts_ns};
use synapse_mcp::error::{internal, invalid, mcp_error};
use synapse_mcp::geometry::{rects_overlap, saturating_add32, saturating_sub32, Rect};
use synapse_mcp::ieee::{Real32, Real64};
use synapse_mcp::json::{
    flag_object, json_copy, json_equal, json_i64, json_text, json_u64, numbers_equal, Json,
    JsonEntry, JsonNumber, ObjectBuilder,
};
use synapse_mcp::keys::{copy_key, find_row, hex_decode, hex_encode, key_after, StoredRow};
use synapse_mcp::m3::permissions::{read_and_write, read_only, Permission};
use synapse_mcp::m3::routine_index::{RoutineSet, RoutineTimes};
use synapse_mcp::m3::routines::{retired, to_count32, RoutineLifecycle};
use synapse_mcp::numerals::{
    decimal_text, hex_padded_text, hex_text, padded_text, parse_unsigned, push_decimal,
    push_padded, signed_text,
};
use synapse_mcp::order::descending_order;
use synapse_mcp::text::{
    blank, bytes_equal, bytes_start_with, cat7, contains_text, equal_ignoring_ascii_case,
    join_texts, split_text, text_equal, text_starts_with, to_ascii_lower, trim, white_space,
};

#[test]
fn texts_are_joined_and_split() {
    assert_eq!(cat7("a", "b", "", "ç", "d", "e", "f"), "abçdef");
    let pieces: Vec<String> = ["a", "", "b"].map(str::to_owned).to_vec();
    assert_eq!(join_texts(&pieces, "+"), "a++b");
    assert_eq!(join_texts(&Vec::new(), "+"), "");
    assert_eq!(split_text("a++b", '+'), pieces);
    assert_eq!(split_text("", '+'), [""]);
}

#[test]
fn texts_are_trimmed_as_unicode_says() {
    assert_eq!(trim(" \u{2003}\t a b \u{3000}\n"), "a b");
    assert_eq!(trim("\u{200b}a"), "\u{200b}a");
    assert!(blank("\u{a0} \r\n"));
    assert!(!blank("x"));
    for c in '\u{0}'..='\u{ffff}' {
        assert_eq!(white_space(c), c.is_whitespace(), "{c:?}");
    }
}

#[test]
fn texts_are_compared() {
    assert!(text_equal("é", "é"));
    assert!(!text_equal("é", "e"));
    assert!(contains_text("abcabd", "abd"));
    assert!(contains_text("x", ""));
    assert!(!contains_text("ab", "abc"));
    assert!(text_starts_with("$.a", "$."));
    assert_eq!(to_ascii_lower("ÄBC"), "Äbc");
    assert!(equal_ignoring_ascii_case("DESK", "desk"));
    assert!(!equal_ignoring_ascii_case("ÄB", "äb"));
    assert!(bytes_equal(&[1, 2], &[1, 2]));
    assert!(bytes_start_with(&[1, 2], &[1]));
    assert!(!bytes_start_with(&[1], &[1, 2]));
}

#[test]
fn numbers_are_printed_and_read_back() {
    for n in [0, 7, 10, 1_234, u64::MAX] {
        assert_eq!(decimal_text(n), n.to_string());
        assert_eq!(padded_text(n), format!("{n:020}"));
        assert_eq!(hex_text(n), format!("{n:x}"));
        assert_eq!(parse_unsigned(&decimal_text(n), u64::MAX), Some(n));
        assert_eq!(parse_unsigned(&padded_text(n), u64::MAX), Some(n));
    }
    for n in [0, -1, i64::MIN, i64::MAX] {
        assert_eq!(signed_text(n), n.to_string());
    }
    assert_eq!(hex_padded_text(0x2a, 8), "0000002a");
    assert_eq!(hex_padded_text(0x123, 2), "123");
    let mut s = "n=".to_owned();
    push_decimal(&mut s, 12);
    push_padded(&mut s, 3);
    assert_eq!(s, "n=1200000000000000000003");
    assert!(padded_text(99) < padded_text(100));
}

#[test]
fn numbers_are_read_as_the_standard_library_reads_them() {
    for raw in ["+5", "007", "", "+", "-1", "1 ", "1_0", "18446744073709551616", "٣"] {
        assert_eq!(parse_unsigned(raw, u64::MAX), raw.parse::<u64>().ok(), "{raw:?}");
    }
    assert_eq!(parse_unsigned("256", 255), None);
    assert_eq!(parse_unsigned("255", 255), Some(255));
}

#[test]
fn keys_have_least_successors() {
    assert_eq!(key_after(&[1, 2]), [1, 2, 0]);
    assert_eq!(copy_key(&[1, 2]), [1, 2]);
    assert_eq!(hex_encode(&[0, 0xab, 0xff]), "00abff");
    assert_eq!(hex_decode("00ABff"), Some(vec![0, 0xab, 0xff]));
    assert_eq!(hex_decode("0"), None);
    assert_eq!(hex_decode("0g"), None);
    assert_eq!(hex_decode("+5"), None);
    assert_eq!(hex_decode("00+f"), None);
    assert_eq!(hex_decode("é"), None);
    let rows: Vec<StoredRow<u8>> = vec![
        StoredRow { key: vec![1], value: Ok(1) },
        StoredRow { key: vec![2], value: Ok(2) },
    ];
    assert_eq!(find_row(&rows, &[2]), Some(1));
    assert_eq!(find_row(&rows, &[3]), None);
}

#[test]
fn values_are_compared_and_copied() {
    let value = ObjectBuilder::new()
        .with("a", json_u64(1))
        .with("b", Json::Array(vec![json_i64(-2), json_text("x"), Json::Null]))
        .build();
    assert!(json_equal(&value, &json_copy(&value)));
    assert_eq!(json_copy(&value), value);
    assert!(!json_equal(&value, &flag_object("a", true)));
    assert_eq!(
        flag_object("a", true),
        Json::Object(vec![JsonEntry { key: "a".to_owned(), value: Json::Bool(true) }])
    );
    let real = |x: f64| JsonNumber::Real(Real64::from_bits(x.to_bits()));
    assert!(numbers_equal(real(0.0), real(-0.0)));
    assert!(!numbers_equal(real(1.0), JsonNumber::Unsigned(1)));
    assert_eq!(json_i64(5), json_u64(5));
}

#[test]
fn floats_are_compared_by_their_bits() {
    let samples = [0.0, -0.0, 1.0, -1.0, 0.5, f64::MIN_POSITIVE, f64::INFINITY, f64::NAN, -3e9];
    for a in samples {
        let x = Real64::from_bits(a.to_bits());
        assert_eq!(x.nan(), a.is_nan());
        assert_eq!(x.finite(), a.is_finite());
        for b in samples {
            let y = Real64::from_bits(b.to_bits());
            assert_eq!(x.less(y), a < b, "{a} {b}");
            assert_eq!(x.at_most(y), a <= b, "{a} {b}");
            assert_eq!(x.same(y), a == b, "{a} {b}");
            let (p, q) = (a as f32, b as f32);
            let (v, w) = (Real32::from_bits(p.to_bits()), Real32::from_bits(q.to_bits()));
            assert_eq!(v.less(w), p < q, "{p} {q}");
            assert_eq!(
                v.total_rank_of().cmp(&w.total_rank_of()),
                p.total_cmp(&q),
                "{p} {q}"
            );
        }
    }
}

#[test]
fn orders_are_descending_and_stable() {
    assert_eq!(descending_order(&vec![1, 3, 2, 3]), [1, 3, 2, 0]);
    assert!(descending_order(&Vec::new()).is_empty());
}

#[test]
fn rectangles_overlap_in_a_point() {
    let rect = |x, y, w, h| Rect { x, y, w, h };
    assert!(rects_overlap(rect(0, 0, 10, 10), rect(9, 9, 5, 5)));
    assert!(!rects_overlap(rect(0, 0, 10, 10), rect(10, 0, 5, 5)));
    assert!(rect(0, 0, 1, 1).non_empty());
    assert!(!rect(0, 0, 0, 1).non_empty());
    assert_eq!(saturating_add32(i32::MAX, 1), i32::MAX);
    assert_eq!(saturating_sub32(i32::MIN, 1), i32::MIN);
    assert_eq!(saturating_sub32(5, 7), -2);
}

#[test]
fn clocks_are_read() {
    assert_eq!(minute_of_day(23, 59), 1439);
    assert_eq!(clock_instant(Some(5)), 5);
    assert_eq!(clock_instant(Some(-5)), 0);
    assert!(now_ts_ns() > 1_600_000_000_000_000_000);
}

#[test]
fn errors_carry_their_codes() {
    assert_eq!(invalid("m".to_owned()).code, "TOOL_PARAMS_INVALID");
    assert_eq!(internal("m".to_owned()).code, "TOOL_INTERNAL_ERROR");
    let error = mcp_error("X", "m".to_owned());
    assert_eq!((error.code.as_str(), error.message.as_str()), ("X", "m"));
}

#[test]
fn routines_are_indexed() {
    let mut set = RoutineSet::new();
    assert!(!set.contains("a"));
    set.insert("a".to_owned());
    set.insert("a".to_owned());
    assert!(set.contains("a"));
    let mut times = RoutineTimes::new();
    assert_eq!(times.get("a"), None);
    times.insert("a".to_owned(), 1);
    times.insert("a".to_owned(), 2);
    times.insert("b".to_owned(), 3);
    assert_eq!(times.get("a"), Some(2));
    assert_eq!(times.get("b"), Some(3));
    assert!(retired(RoutineLifecycle::Archived));
    assert!(!retired(RoutineLifecycle::Candidate));
    assert_eq!(to_count32(usize::MAX), u32::MAX);
    assert_eq!(read_only().permissions, [Permission::ReadStorage]);
    assert_eq!(
        read_and_write().permissions,
        [Permission::ReadStorage, Permission::WriteStorage]
    );
}
