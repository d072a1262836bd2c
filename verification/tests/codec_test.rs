use fixmsg::calendar::CalendarTime;
use fixmsg::decimal::{decimal_to_i32, decimal_to_u32, i32_to_decimal, u32_to_decimal};
use fixmsg::error::FixError;
use fixmsg::field::{FieldValueReader, FieldValueWriter};
use fixmsg::fix_utc_timestamp::FIXUTCTimestamp;
use fixmsg::text::ascii_to_string;

fn time_of(year: i32, mon: i32, mday: i32, hour: i32, min: i32, sec: i32, nsec: i32) -> CalendarTime {
    let mut time = CalendarTime::empty();
    time.tm_year = year;
    time.tm_mon = mon;
    time.tm_mday = mday;
    time.tm_hour = hour;
    time.tm_min = min;
    time.tm_sec = sec;
    time.tm_nsec = nsec;
    time
}

#[test]
fn boolean_decodes_y_and_n() {
    let mut value = false;
    value.read(b"Y").unwrap();
    assert_eq!(true, value);
    value.read(b"N").unwrap();
    assert_eq!(false, value);
}

#[test]
fn boolean_rejects_other_text() {
    for text in ["X", "", "y", "n", "YN", "YY", "true", " Y"] {
        let mut value = true;
        match value.read(text.as_bytes()) {
            Err(FixError::BooleanParseError(e)) => {
                assert_eq!(text, e.value_parsed());
                assert_eq!(format!("Boolean could not be parsed:{}", text), e.description());
                assert_eq!(format!("(Boolean could not be parsed:{})", text), e.to_string());
            },
            _ => panic!("{} was read as a boolean", text),
        }
        assert_eq!(true, value);
    }
}

#[test]
fn boolean_rejects_invalid_utf8() {
    let mut value = false;
    assert!(matches!(value.read(&[0x59, 0xff]), Err(FixError::FromUtf8Error(_))));
    assert!(matches!(value.read(&[0xc3]), Err(FixError::FromUtf8Error(_))));
    assert_eq!(false, value);
}

#[test]
fn boolean_encodes_y_and_n() {
    assert_eq!(b"Y".to_vec(), true.write());
    assert_eq!(b"N".to_vec(), false.write());
}

#[test]
fn boolean_round_trip() {
    for v in [true, false] {
        let mut read = !v;
        read.read(&v.write()).unwrap();
        assert_eq!(v, read);
    }
}

#[test]
fn integer_minus_two_both_ways() {
    assert_eq!(b"-2".to_vec(), (-2i32).write());
    let mut value = 0;
    value.read(b"-2").unwrap();
    assert_eq!(-2, value);
}

#[test]
fn integer_decodes_as_std_does() {
    let texts = [
        "0", "-0", "+0", "7", "+7", "-7", "007", "-007", "2147483647", "-2147483648",
        "2147483648", "-2147483649", "+2147483647", "00000000002147483647", "99999999999",
        "", "+", "-", "--1", "+-1", "1-", "1 ", " 1", "1.0", "1e3", "0x10", "1_000", "abc",
        "12a", "\u{663}", "١٢",
    ];
    for text in texts {
        let mut value = 77;
        let expected = text.parse::<i32>();
        match value.read(text.as_bytes()) {
            Ok(()) => assert_eq!(expected, Ok(value)),
            Err(FixError::IntError(e)) => {
                assert!(expected.is_err());
                assert_eq!(text, e.value_parsed());
                assert_eq!(format!("Integer could not be parsed:{}", text), e.description());
                assert_eq!(format!("(Integer could not be parsed:{})", text), e.to_string());
                assert_eq!(77, value);
            },
            Err(_) => panic!("{} gave another error", text),
        }
    }
}

#[test]
fn integer_rejects_invalid_utf8() {
    let mut value = 5;
    assert!(matches!(value.read(&[0x31, 0x80]), Err(FixError::FromUtf8Error(_))));
    assert_eq!(5, value);
}

#[test]
fn integer_encodes_as_std_does() {
    for v in [0, 1, -1, 9, 10, 11, -10, 99, 100, 12345, -98765, i32::MAX, i32::MIN, i32::MIN + 1] {
        assert_eq!(v.to_string().into_bytes(), v.write());
        assert_eq!(v.to_string().into_bytes(), i32_to_decimal(v));
    }
}

#[test]
fn integer_round_trip() {
    for v in [0, 1, -1, 10, -10, 1000000007, i32::MAX, i32::MIN] {
        let mut read = 3;
        read.read(&v.write()).unwrap();
        assert_eq!(v, read);
    }
}

#[test]
fn unsigned_decimal_as_std_does() {
    for v in [0u32, 1, 9, 10, 35, 1156, 4294967295] {
        assert_eq!(v.to_string().into_bytes(), u32_to_decimal(v));
        assert_eq!(Some(v), decimal_to_u32(&u32_to_decimal(v)));
    }
    for text in ["0", "+0", "-0", "35", "+35", "-35", "035", "4294967295", "4294967296", "", "+",
        "-", "3 5", "35=", "99999999999999999999"] {
        assert_eq!(text.parse::<u32>().ok(), decimal_to_u32(text.as_bytes()));
    }
    for text in ["-2147483648", "-2147483649", "2147483647", "2147483648", "+12", "12+"] {
        assert_eq!(text.parse::<i32>().ok(), decimal_to_i32(text.as_bytes()));
    }
}

#[test]
fn string_decodes_utf8() {
    let mut value = String::from("before");
    value.read("Sender1".as_bytes()).unwrap();
    assert_eq!("Sender1", value);
    value.read("Zürich €".as_bytes()).unwrap();
    assert_eq!("Zürich €", value);
    value.read(b"").unwrap();
    assert_eq!("", value);
}

#[test]
fn string_rejects_invalid_utf8() {
    let mut value = String::from("before");
    assert!(matches!(value.read(&[0x41, 0xff]), Err(FixError::FromUtf8Error(_))));
    assert!(matches!(value.read(&[0xed, 0xa0, 0x80]), Err(FixError::FromUtf8Error(_))));
    assert_eq!("before", value);
}

#[test]
fn string_encodes_its_bytes_unchanged() {
    assert_eq!(b"Receiver1".to_vec(), String::from("Receiver1").write());
    assert_eq!("Zürich €".as_bytes().to_vec(), String::from("Zürich €").write());
    assert!(String::new().write().is_empty());
}

#[test]
fn string_round_trip() {
    for v in ["", "a", "a=b", "Zürich €", "\u{1}"] {
        let mut read = String::from("x");
        read.read(&String::from(v).write()).unwrap();
        assert_eq!(v, read);
    }
}

#[test]
fn timestamp_without_milliseconds_round_trip() {
    let mut value = FIXUTCTimestamp::empty();
    value.read(b"2024-01-01 10:00:00").unwrap();
    assert_eq!(b"2024-01-01 10:00:00".to_vec(), value.write());
    assert_eq!(time_of(124, 0, 1, 10, 0, 0, 0), value.into());
}

#[test]
fn timestamp_with_fraction_round_trip() {
    let mut value = FIXUTCTimestamp::empty();
    value.read(b"2024-02-29 23:59:58.123456").unwrap();
    assert_eq!(b"2024-02-29 23:59:58.123456000".to_vec(), value.write());
    assert_eq!(time_of(124, 1, 29, 23, 59, 58, 123456000), value.into());
}

#[test]
fn timestamp_records_presence_of_fraction_on_each_read() {
    let mut value = FIXUTCTimestamp::empty();
    value.read(b"2024-01-01 10:00:00").unwrap();
    value.read(b"2024-01-01 10:00:01.5").unwrap();
    assert_eq!(b"2024-01-01 10:00:01.500000000".to_vec(), value.write());
    value.read(b"2024-01-01 10:00:02").unwrap();
    assert_eq!(b"2024-01-01 10:00:02".to_vec(), value.write());
}

#[test]
fn timestamp_rejects_other_text() {
    for text in ["", "2024-01-01", "2024-01-01T10:00:00", "24-01-01 10:00:00",
        "2024-13-01 10:00:00", "2024-01-32 10:00:00", "2024-01-01 24:00:00", "abc"] {
        let mut value = FIXUTCTimestamp::new(time_of(99, 11, 31, 1, 2, 3, 4));
        assert!(matches!(value.read(text.as_bytes()), Err(FixError::TimeParseError(_))));
        assert_eq!(b"1999-12-31 01:02:03.000000004".to_vec(), value.write());
    }
}

#[test]
fn timestamp_rejects_invalid_utf8() {
    let mut value = FIXUTCTimestamp::empty();
    assert!(matches!(value.read(&[0x32, 0xff]), Err(FixError::FromUtf8Error(_))));
    assert_eq!(CalendarTime::empty(), value.into());
}

#[test]
fn timestamp_encodes_by_its_layout() {
    let time = time_of(124, 5, 7, 8, 9, 10, 11);
    assert_eq!(b"2024-06-07 08:09:10.000000011".to_vec(), FIXUTCTimestamp::new(time).write());
    assert_eq!(
        b"2024-06-07 08:09:10.000000011".to_vec(),
        FIXUTCTimestamp::new_no_millis(time, false).write()
    );
    assert_eq!(
        b"2024-06-07 08:09:10".to_vec(),
        FIXUTCTimestamp::new_no_millis(time, true).write()
    );
    assert_eq!(b"1900-01-00 00:00:00.000000000".to_vec(), FIXUTCTimestamp::empty().write());
    assert_eq!(time, FIXUTCTimestamp::new(time).into());
}

#[test]
fn calendar_time_renderable_bounds() {
    assert!(CalendarTime::empty().is_renderable());
    let mut time = CalendarTime::empty();
    time.tm_wday = 6;
    time.tm_mon = 11;
    time.tm_year = i32::MAX - 1900;
    assert!(time.is_renderable());
    time.tm_year = i32::MAX - 1899;
    assert!(!time.is_renderable());
    time.tm_year = i32::MIN;
    assert!(time.is_renderable());
    time.tm_mon = 12;
    assert!(!time.is_renderable());
    time.tm_mon = -1;
    assert!(!time.is_renderable());
    time.tm_mon = 0;
    time.tm_wday = 7;
    assert!(!time.is_renderable());
    time.tm_wday = -1;
    assert!(!time.is_renderable());
}

#[test]
fn ascii_bytes_become_text() {
    assert_eq!("35=A", ascii_to_string(b"35=A".to_vec()));
    assert_eq!("", ascii_to_string(Vec::new()));
    assert_eq!("\u{7f}\u{0}", ascii_to_string(vec![0x7f, 0]));
}

#[test]
fn timestamp_takes_over_a_parsed_time() {
    let time = time_of(124, 0, 1, 10, 0, 0, 0);
    let mut value = FIXUTCTimestamp::empty();
    value.take_parsed(Ok(time), true).unwrap();
    assert_eq!(b"2024-01-01 10:00:00".to_vec(), value.write());
    value.take_parsed(Ok(time), false).unwrap();
    assert_eq!(b"2024-01-01 10:00:00.000000000".to_vec(), value.write());
    match value.take_parsed(Err(time::ParseError::InvalidYear), true) {
        Err(FixError::TimeParseError(e)) => assert_eq!(time::ParseError::InvalidYear, e),
        _ => panic!("the error was not handed on"),
    }
    assert_eq!(b"2024-01-01 10:00:00.000000000".to_vec(), value.write());
}
