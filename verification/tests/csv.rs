use line_follower_sim::blocking_api::{col, named, nv, C_I16, C_U8, PAD_8};
use line_follower_sim::csv::{CsvColumn, CsvColumnKind, CvsLineHandler, ValueKind};
use line_follower_sim::text::{decimal_len, push_decimal, push_zero_padded, signed_decimal_string};
use std::collections::BTreeMap;

fn schema() -> Vec<CsvColumn> {
    vec![
        col("i8", ValueKind::Int8),
        col("i16", ValueKind::Int16),
        col("i32", ValueKind::Int32),
        col("pad", ValueKind::Pad8),
        col("u8", ValueKind::Uint8),
        col("u16", ValueKind::Uint16),
        col("u32", ValueKind::Uint32),
        col("gap", ValueKind::Pad16),
        col("state", named(vec![nv("idle", 0), nv("run", 1), nv("stop", 255), nv("late", 1)])),
    ]
}

#[test]
fn sizes() {
    assert_eq!(CsvColumnKind::Int8.size(), 1);
    assert_eq!(CsvColumnKind::Int16.size(), 2);
    assert_eq!(CsvColumnKind::Int32.size(), 4);
    assert_eq!(CsvColumnKind::Uint8.size(), 1);
    assert_eq!(CsvColumnKind::Uint16.size(), 2);
    assert_eq!(CsvColumnKind::Uint32.size(), 4);
    assert_eq!(CsvColumnKind::NamedUint8(BTreeMap::new()).size(), 1);
    assert_eq!(CsvColumnKind::IgnoreU8.size(), 1);
    assert_eq!(CsvColumnKind::IgnoreU16.size(), 2);
}

#[test]
fn values_are_little_endian() {
    let buf = [0x00u8, 0xFE, 0xFF, 0xFF, 0xFF, 0x80, 0x01];
    assert_eq!(CsvColumnKind::Int8.get_value(&buf, 1), -2);
    assert_eq!(CsvColumnKind::Uint8.get_value(&buf, 1), 254);
    assert_eq!(CsvColumnKind::Int16.get_value(&buf, 1), -2);
    assert_eq!(CsvColumnKind::Uint16.get_value(&buf, 1), 65_534);
    assert_eq!(CsvColumnKind::Int16.get_value(&buf, 5), 0x0180);
    assert_eq!(CsvColumnKind::Int32.get_value(&buf, 1), -2);
    assert_eq!(CsvColumnKind::Uint32.get_value(&buf, 1), 4_294_967_294);
    assert_eq!(CsvColumnKind::Int32.get_value(&buf, 2), -2_130_706_433);
    assert_eq!(CsvColumnKind::Uint32.get_value(&buf, 2), 0x80FF_FFFF);
    assert_eq!(CsvColumnKind::IgnoreU8.get_value(&buf, 1), 0);
    assert_eq!(CsvColumnKind::IgnoreU16.get_value(&buf, 1), 0);
    assert_eq!(CsvColumnKind::NamedUint8(BTreeMap::new()).get_value(&buf, 1), -2);
}

#[test]
fn value_text() {
    let buf = [7u8, 0x80, 0xFF];
    let mut names = BTreeMap::new();
    names.insert(7u8, "seven".to_string());
    names.insert(255u8, "last".to_string());
    let kind = CsvColumnKind::NamedUint8(names);
    assert_eq!(kind.get_value_text(&buf, 0), "seven");
    assert_eq!(kind.get_value_text(&buf, 1), "-128");
    assert_eq!(kind.get_value_text(&buf, 2), "last");
    assert_eq!(CsvColumnKind::Int8.get_value_text(&buf, 1), "-128");
    assert_eq!(CsvColumnKind::Uint8.get_value_text(&buf, 1), "128");
    assert_eq!(CsvColumnKind::Uint16.get_value_text(&buf, 1), "65408");
    assert_eq!(CsvColumnKind::IgnoreU8.get_value_text(&buf, 1), "0");
}

#[test]
fn layout_follows_the_schema() {
    let handler = CvsLineHandler::new(&schema());
    assert_eq!(handler.size, 18);
    let starts: Vec<usize> = handler.columns.iter().map(|c| c.start).collect();
    assert_eq!(starts, vec![0, 1, 3, 7, 8, 9, 11, 15, 17]);
    assert_eq!(handler.columns[8].name, "state");
    match &handler.columns[8].kind {
        CsvColumnKind::NamedUint8(names) => {
            assert_eq!(names.len(), 3);
            assert_eq!(names[&1], "late");
            assert_eq!(names[&255], "stop");
        }
        _ => panic!("named column expected"),
    }
}

#[test]
fn named_values_are_keyed_by_their_low_byte() {
    let handler = CvsLineHandler::new(&vec![col("n", named(vec![nv("a", 256), nv("b", -1)]))]);
    assert_eq!(handler.build_line(&[0]), "a\n");
    assert_eq!(handler.build_line(&[255]), "b\n");
    assert_eq!(handler.build_line(&[1]), "1\n");
    assert_eq!(handler.build_line(&[254]), "-2\n");
}

#[test]
fn header() {
    assert_eq!(CvsLineHandler::new(&schema()).build_header(), "i8,i16,i32,pad,u8,u16,u32,gap,state\n");
    assert_eq!(CvsLineHandler::new(&vec![col("only", ValueKind::Uint8)]).build_header(), "only\n");
    assert_eq!(CvsLineHandler::new(&Vec::new()).build_header(), "\n");
}

#[test]
fn line() {
    let handler = CvsLineHandler::new(&schema());
    let record = [
        0xFFu8, 0x00, 0x80, 0xFE, 0xFF, 0xFF, 0xFF, 0xAA, 200, 0x10, 0x27, 0x00, 0xCA, 0x9A, 0x3B,
        0xBB, 0xCC, 1,
    ];
    assert_eq!(handler.build_line(&record), "-1,-32768,-2,0,200,10000,1000000000,0,late\n");
    let mut longer = record.to_vec();
    longer.extend_from_slice(&[1, 2, 3]);
    assert_eq!(handler.build_line(&longer), "-1,-32768,-2,0,200,10000,1000000000,0,late\n");
    let mut two = vec![9u8; 18];
    two.extend_from_slice(&record);
    assert_eq!(handler.build_line_at(&two, 18), "-1,-32768,-2,0,200,10000,1000000000,0,late\n");
}

#[test]
fn text_takes_whole_records_only() {
    let handler = CvsLineHandler::new(&vec![col("x", ValueKind::Uint16), col("y", ValueKind::Int8)]);
    assert_eq!(handler.size, 3);
    assert_eq!(handler.build_text(&[]), "x,y\n");
    assert_eq!(handler.build_text(&[1, 0]), "x,y\n");
    assert_eq!(handler.build_text(&[1, 0, 255]), "x,y\n1,-1\n");
    assert_eq!(handler.build_text(&[1, 0, 255, 2, 1, 3, 9, 9]), "x,y\n1,-1\n258,3\n");
}

#[test]
fn decimal_text() {
    assert_eq!(signed_decimal_string(0), "0");
    assert_eq!(signed_decimal_string(7), "7");
    assert_eq!(signed_decimal_string(10), "10");
    assert_eq!(signed_decimal_string(-10), "-10");
    assert_eq!(signed_decimal_string(1_234_567_890), "1234567890");
    assert_eq!(signed_decimal_string(i64::MAX), "9223372036854775807");
    assert_eq!(signed_decimal_string(i64::MIN), "-9223372036854775808");
    assert_eq!(decimal_len(0), 1);
    assert_eq!(decimal_len(9), 1);
    assert_eq!(decimal_len(10), 2);
    assert_eq!(decimal_len(u64::MAX), 20);
}

#[test]
fn padded_decimal_text() {
    let mut s = String::from("t=");
    push_zero_padded(&mut s, 7, 3);
    s.push('/');
    push_zero_padded(&mut s, 1234, 3);
    s.push('/');
    push_zero_padded(&mut s, 0, 0);
    s.push('/');
    push_decimal(&mut s, 42);
    assert_eq!(s, "t=007/1234/0/42");
}

#[test]
fn schema_builders() {
    let c = col("speed", ValueKind::Int16);
    assert_eq!(c.name, "speed");
    assert!(matches!(c.kind, ValueKind::Int16));
    let n = nv("idle", 3);
    assert_eq!((n.name.as_str(), n.value), ("idle", 3));
    match named(vec![n]) {
        ValueKind::Named(values) => assert_eq!(values.len(), 1),
        _ => panic!("named kind expected"),
    }
}

#[test]
fn telemetry_schema() {
    let data: Vec<u8> = (0..=255u8).collect();
    let spec = vec![
        col("u1", C_U8),
        col("u2", C_U8),
        col(".", PAD_8),
        col("u3", C_U8),
        col("s1", C_I16),
        col("s2", C_I16),
    ];
    let handler = CvsLineHandler::new(&spec);
    assert_eq!(handler.size, 8);
    let text = handler.build_text(&data);
    let lines: Vec<&str> = text.lines().collect();
    assert_eq!(lines.len(), 33);
    assert_eq!(lines[0], "u1,u2,.,u3,s1,s2");
    assert_eq!(lines[1], "0,1,0,3,1284,1798");
    assert_eq!(lines[32], "248,249,0,251,-516,-2");
}
