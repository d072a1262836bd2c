use fixmsg::calendar::CalendarTime;
use fixmsg::error::{FixError, Reject};
use fixmsg::field::{FieldInterface, FieldValueReader, FieldValueWriter, FieldWriter};
use fixmsg::field_map::{Field, FieldMap, NormalFieldOrder, TagOrder};
use fixmsg::tag::Tags;
use fixmsg::tag_value::TagValue;

fn to_calendar(tm: time::Tm) -> CalendarTime {
    CalendarTime {
        tm_sec: tm.tm_sec,
        tm_min: tm.tm_min,
        tm_hour: tm.tm_hour,
        tm_mday: tm.tm_mday,
        tm_mon: tm.tm_mon,
        tm_year: tm.tm_year,
        tm_wday: tm.tm_wday,
        tm_yday: tm.tm_yday,
        tm_isdst: tm.tm_isdst,
        tm_utcoff: tm.tm_utcoff,
        tm_nsec: tm.tm_nsec,
    }
}

fn to_tm(t: CalendarTime) -> time::Tm {
    time::Tm {
        tm_sec: t.tm_sec,
        tm_min: t.tm_min,
        tm_hour: t.tm_hour,
        tm_mday: t.tm_mday,
        tm_mon: t.tm_mon,
        tm_year: t.tm_year,
        tm_wday: t.tm_wday,
        tm_yday: t.tm_yday,
        tm_isdst: t.tm_isdst,
        tm_utcoff: t.tm_utcoff,
        tm_nsec: t.tm_nsec,
    }
}

fn order_of(field_map: &FieldMap<impl TagOrder>) -> Vec<u32> {
    field_map.tags().iter().map(|f| f.field_tag()).collect()
}

#[test]
fn add_test() {
    let mut field_map = FieldMap::new();
    let expected_value = "blahblah".as_bytes();
    let tag_value = TagValue::new(Tags::BeginString.into(), expected_value);
    field_map.add(Field::with_tag_value(tag_value));
    let field_count = field_map.tags().len();
    assert_eq!(1, field_count);
}

#[test]
fn get_string_test() {
    let mut field_map = FieldMap::new();
    let expected_value = "blahblah".as_bytes();
    let tag_value = TagValue::new(Tags::BeginString.into(), expected_value);
    field_map.add(Field::with_tag_value(tag_value));
    assert_eq!("blahblah", field_map.get_string(Tags::BeginString.into()).unwrap());
}

#[test]
fn get_string_true_test() {
    let mut field_map = FieldMap::new();
    let expected_value = "Y".as_bytes();
    let tag_value = TagValue::new(Tags::PossDupFlag.into(), expected_value);
    field_map.add(Field::with_tag_value(tag_value));
    assert_eq!(true, field_map.get_bool(Tags::PossDupFlag.into()).unwrap());
}

#[test]
fn get_string_false_test() {
    let mut field_map = FieldMap::new();
    let expected_value = "N".as_bytes();
    let tag_value = TagValue::new(Tags::PossDupFlag.to_num(), expected_value);
    field_map.add(Field::with_tag_value(tag_value));
    assert_eq!(false, field_map.get_bool(Tags::PossDupFlag.to_num()).unwrap());
}

#[test]
fn get_int_test() {
    let mut field_map = FieldMap::new();
    let expected_value = "11".as_bytes();
    let tag_value = TagValue::new(Tags::MsgSeqNum.to_num(), expected_value);
    field_map.add(Field::with_tag_value(tag_value));
    assert_eq!(11, field_map.get_int(Tags::MsgSeqNum.to_num()).unwrap());
}

#[test]
fn set_bool_test() {
    let mut field_map = FieldMap::new();
    let expected_value = true;
    field_map.set_bool(Tags::PossDupFlag.to_num(), expected_value);
    assert_eq!(expected_value, field_map.get_bool(Tags::PossDupFlag.to_num()).unwrap());
}

#[test]
fn set_time_test() {
    let expected_value = time::now_utc();
    let mut field_map = FieldMap::new();
    field_map.set_time(Tags::SendingTime.to_num(), to_calendar(expected_value));
    assert_eq!(
        expected_value.to_timespec(),
        to_tm(field_map.get_time(Tags::SendingTime.to_num()).unwrap()).to_timespec()
    );
}

#[test]
fn get_negative_int_test() {
    let mut field_map = FieldMap::new();
    let expected_value = "-2".as_bytes();
    let tag_value = TagValue::new(Tags::MsgSeqNum.to_num(), expected_value);
    field_map.add(Field::with_tag_value(tag_value));
    assert_eq!(-2, field_map.get_int(Tags::MsgSeqNum.to_num()).unwrap());
}

#[test]
fn typed_set_and_get() {
    let mut field_map = FieldMap::new();

    let expected_string_1 = "Sender1";
    let expected_string_2 = "Receiver1";
    field_map.set_string(Tags::SenderCompID.to_num(), expected_string_1);
    field_map.set_string(Tags::TargetCompID.to_num(), expected_string_2);

    assert_eq!(expected_string_1, field_map.get_string(Tags::SenderCompID.to_num()).unwrap());
    assert_eq!(expected_string_2, field_map.get_string(Tags::TargetCompID.to_num()).unwrap());
    let result = field_map.get_string(Tags::BodyLength.to_num());
    assert!(result.is_err() == true);
}

struct Direction {
    descending: bool,
}

impl TagOrder for Direction {
    fn precedes(&self, i: u32, j: u32) -> bool {
        self.less(i, j)
    }

    fn less(&self, i: u32, j: u32) -> bool {
        if self.descending {
            i > j
        } else {
            i < j
        }
    }
}

struct MsgSeqNumField {
    value: i32,
}

impl FieldValueWriter for MsgSeqNumField {
    fn written(&self) -> vstd::seq::Seq<u8> {
        unreachable!()
    }

    fn write(&self) -> Vec<u8> {
        self.value.write()
    }
}

impl FieldValueReader for MsgSeqNumField {
    fn accepts(&self, _bytes: vstd::seq::Seq<u8>) -> bool {
        unreachable!()
    }

    fn holds_read(&self, _bytes: vstd::seq::Seq<u8>, _after: &Self) -> bool {
        unreachable!()
    }

    fn read(&mut self, value: &[u8]) -> Result<(), FixError> {
        self.value.read(value)
    }
}

impl FieldWriter for MsgSeqNumField {
    fn spec_tag(&self) -> u32 {
        self.tag()
    }

    fn tag(&self) -> u32 {
        Tags::MsgSeqNum.to_num()
    }
}

impl FieldInterface for MsgSeqNumField {
}

#[test]
fn new_map_is_empty() {
    let field_map = FieldMap::new();
    assert!(field_map.tags().is_empty());
    assert!(field_map.lookup_field(8).is_none());
    assert!(FieldMap::normal_field_order(1, 2));
    assert!(!FieldMap::normal_field_order(2, 2));
    assert!(!FieldMap::normal_field_order(3, 2));
    assert!(NormalFieldOrder.less(1, 2));
    assert!(!NormalFieldOrder.less(2, 1));
}

#[test]
fn add_same_tag_twice_keeps_one_entry_with_later_value() {
    let mut field_map = FieldMap::new();
    field_map.add(Field::with_tag_value(TagValue::new(58, b"first")));
    field_map.add(Field::with_tag_value(TagValue::new(35, b"A")));
    field_map.add(Field::with_tag_value(TagValue::new(58, b"second")));
    assert_eq!(vec![58, 35], order_of(&field_map));
    assert_eq!("second", field_map.get_string(58).unwrap());
    assert_eq!(b"58=second", field_map.lookup_field(58).unwrap().tag_value().bytes());
    assert_eq!("A", field_map.get_string(35).unwrap());
}

#[test]
fn tags_follow_insertion_order() {
    let mut field_map = FieldMap::new();
    field_map.set_string(56, "T");
    field_map.set_int(34, 7);
    field_map.set_bool(43, false);
    field_map.set_string(8, "FIX.4.2");
    field_map.set_int(34, 8);
    assert_eq!(vec![56, 34, 43, 8], order_of(&field_map));
    let fields = field_map.tags();
    assert_eq!(b"56=T", fields[0].tag_value().bytes());
    assert_eq!(b"34=8", fields[1].tag_value().bytes());
    assert_eq!(b"43=N", fields[2].tag_value().bytes());
    assert_eq!(b"8=FIX.4.2", fields[3].tag_value().bytes());
}

#[test]
fn get_string_of_missing_tag_is_reject() {
    let mut field_map = FieldMap::new();
    field_map.set_string(49, "Sender1");
    let reject = field_map.get_string(58).unwrap_err();
    assert_eq!(Reject::ConditionallyRequiredFieldMissing, reject.reject_reason());
    assert_eq!(6, reject.reject_reason().code());
    assert_eq!(58, *reject.ref_tag_id());
    assert!(!reject.is_business_reject());
    assert_eq!("Conditionally Required Field Missing 58", reject.description());
    assert_eq!("(Conditionally Required Field Missing 58)", reject.to_string());
}

#[test]
fn missing_tag_is_reject_for_every_getter() {
    let field_map = FieldMap::new();
    let tag = 4294967295;
    let text = "Conditionally Required Field Missing 4294967295";
    assert_eq!(text, field_map.get_bool(tag).unwrap_err().description());
    assert_eq!(text, field_map.get_int(tag).unwrap_err().description());
    assert_eq!(text, field_map.get_time(tag).unwrap_err().description());
    assert_eq!(text, field_map.get_bytes(tag).unwrap_err().description());
    assert_eq!(text, field_map.get_string(tag).unwrap_err().description());
    let mut parser = 5;
    let reject = field_map.get_field(tag, &mut parser).unwrap_err();
    assert_eq!(Reject::ConditionallyRequiredFieldMissing, reject.reject_reason());
    assert_eq!(tag, *reject.ref_tag_id());
    assert_eq!(5, parser);
}

#[test]
fn get_int_of_malformed_value_is_reject() {
    let mut field_map = FieldMap::new();
    field_map.add(Field::with_tag_value(TagValue::new(Tags::MsgSeqNum.to_num(), b"abc")));
    let reject = field_map.get_int(34).unwrap_err();
    assert_eq!(Reject::IncorrectDataFormatForValue, reject.reject_reason());
    assert_eq!(7, reject.reject_reason().code());
    assert_eq!(34, *reject.ref_tag_id());
    assert!(!reject.is_business_reject());
    assert_eq!("Incorrect data format for value", reject.description());
}

#[test]
fn malformed_values_are_rejects_for_every_getter() {
    let mut field_map = FieldMap::new();
    field_map.set_bytes(1, &[0xff, 0xfe]);
    field_map.set_bytes(2, b"yes");
    field_map.set_bytes(3, b"2024-01-01");
    for reject in [
        field_map.get_string(1).unwrap_err(),
        field_map.get_bool(1).unwrap_err(),
        field_map.get_bool(2).unwrap_err(),
        field_map.get_int(1).unwrap_err(),
        field_map.get_int(2).unwrap_err(),
        field_map.get_time(1).unwrap_err(),
        field_map.get_time(3).unwrap_err(),
    ] {
        assert_eq!(Reject::IncorrectDataFormatForValue, reject.reject_reason());
        assert_eq!("Incorrect data format for value", reject.description());
    }
    assert_eq!(3, *field_map.get_time(3).unwrap_err().ref_tag_id());
    assert_eq!(&[0xff, 0xfe], field_map.get_bytes(1).unwrap());
}

#[test]
fn get_or_create_makes_an_unset_field_once() {
    let mut field_map = FieldMap::new();
    {
        let field = field_map.get_or_create(58);
        assert_eq!(0, field.field_tag());
        assert!(field.tag_value().bytes().is_empty());
        field.init_field(58, b"text");
    }
    {
        let field = field_map.get_or_create(58);
        assert_eq!(58, field.field_tag());
        assert_eq!(b"text", field.tag_value().value());
    }
    assert_eq!(vec![58], order_of(&field_map));
    assert_eq!(b"58=text", field_map.lookup_field(58).unwrap().tag_value().bytes());
}

#[test]
fn set_bytes_and_get_bytes() {
    let mut field_map = FieldMap::new();
    field_map.set_bytes(95, &[0, 1, 2, 61]);
    assert_eq!(&[0, 1, 2, 61], field_map.get_bytes(95).unwrap());
    field_map.set_bytes(95, b"");
    assert_eq!(b"", field_map.get_bytes(95).unwrap());
    assert_eq!(b"95=", field_map.lookup_field(95).unwrap().tag_value().bytes());
}

#[test]
fn set_int_writes_decimal_text() {
    let mut field_map = FieldMap::new();
    field_map.set_int(34, -2147483648);
    assert_eq!(b"-2147483648", field_map.get_bytes(34).unwrap());
    assert_eq!(-2147483648, field_map.get_int(34).unwrap());
    field_map.set_int(34, 0);
    assert_eq!(b"34=0", field_map.lookup_field(34).unwrap().tag_value().bytes());
    field_map.set_int(34, 2147483647);
    assert_eq!(2147483647, field_map.get_int(34).unwrap());
}

#[test]
fn set_bool_writes_y_and_n() {
    let mut field_map = FieldMap::new();
    field_map.set_bool(43, true);
    field_map.set_bool(97, false);
    assert_eq!(b"Y", field_map.get_bytes(43).unwrap());
    assert_eq!(b"N", field_map.get_bytes(97).unwrap());
    assert_eq!(false, field_map.get_bool(97).unwrap());
}

#[test]
fn set_field_and_get_with_typed_field() {
    let mut field_map = FieldMap::new();
    field_map.set_field(34, MsgSeqNumField { value: 12 });
    assert_eq!(b"34=12", field_map.lookup_field(34).unwrap().tag_value().bytes());
    let mut parser = MsgSeqNumField { value: 0 };
    field_map.get(&mut parser).unwrap();
    assert_eq!(12, parser.value);

    field_map.set_field(34, String::from("abc"));
    let reject = field_map.get(&mut parser).unwrap_err();
    assert_eq!(Reject::IncorrectDataFormatForValue, reject.reject_reason());
    assert_eq!(34, *reject.ref_tag_id());
    assert_eq!(12, parser.value);

    let empty = FieldMap::new();
    let reject = empty.get(&mut parser).unwrap_err();
    assert_eq!(Reject::ConditionallyRequiredFieldMissing, reject.reject_reason());
    assert_eq!(34, *reject.ref_tag_id());
}

#[test]
fn get_field_reads_into_the_parser() {
    let mut field_map = FieldMap::new();
    field_map.set_bytes(1, b"Y");
    let mut flag = false;
    field_map.get_field(1, &mut flag).unwrap();
    assert!(flag);
    let mut text = String::from("before");
    field_map.get_field(1, &mut text).unwrap();
    assert_eq!("Y", text);
    let mut number = 9;
    assert!(field_map.get_field(1, &mut number).is_err());
    assert_eq!(9, number);
}

#[test]
fn set_time_writes_the_timestamp_with_fraction() {
    let mut time = CalendarTime::empty();
    time.tm_year = 124;
    time.tm_mon = 0;
    time.tm_mday = 1;
    time.tm_hour = 10;
    time.tm_nsec = 123000000;
    let mut field_map = FieldMap::new();
    field_map.set_time(52, time);
    assert_eq!(b"2024-01-01 10:00:00.123000000", field_map.get_bytes(52).unwrap());
    assert_eq!(time, field_map.get_time(52).unwrap());
}

#[test]
fn get_time_reads_both_layouts() {
    let mut field_map = FieldMap::new();
    field_map.set_string(52, "2024-01-01 10:00:00");
    field_map.set_string(122, "2023-12-31 23:59:60.5");
    let plain = field_map.get_time(52).unwrap();
    assert_eq!((124, 0, 1, 10, 0, 0, 0), (
        plain.tm_year, plain.tm_mon, plain.tm_mday, plain.tm_hour, plain.tm_min, plain.tm_sec,
        plain.tm_nsec,
    ));
    let fraction = field_map.get_time(122).unwrap();
    assert_eq!((123, 11, 31, 23, 59, 60, 500000000), (
        fraction.tm_year, fraction.tm_mon, fraction.tm_mday, fraction.tm_hour, fraction.tm_min,
        fraction.tm_sec, fraction.tm_nsec,
    ));
    assert!(plain.is_renderable());
}

#[test]
fn descending_policy_changes_order_not_tags() {
    let mut field_map = FieldMap::with_ordering(Direction { descending: false });
    for tag in [56u32, 34, 1156, 8, 49] {
        field_map.set_int(tag, 1);
    }
    assert_eq!(vec![56, 34, 1156, 8, 49], order_of(&field_map));

    field_map.init_with_ordering(Direction { descending: true });
    assert_eq!(vec![1156, 56, 49, 34, 8], order_of(&field_map));
    for tag in [56u32, 34, 1156, 8, 49] {
        assert_eq!(1, field_map.get_int(tag).unwrap());
    }

    field_map.init_with_ordering(Direction { descending: false });
    assert_eq!(vec![8, 34, 49, 56, 1156], order_of(&field_map));
    assert_eq!(5, field_map.tags().len());
}

#[test]
fn init_sorts_ascending_and_keeps_fields() {
    let mut field_map = FieldMap::new();
    field_map.set_string(58, "text");
    field_map.set_string(8, "FIX.4.2");
    field_map.set_string(35, "A");
    assert_eq!(vec![58, 8, 35], order_of(&field_map));
    field_map.init();
    assert_eq!(vec![8, 35, 58], order_of(&field_map));
    assert_eq!("text", field_map.get_string(58).unwrap());
    field_map.set_string(9, "12");
    assert_eq!(vec![8, 35, 58, 9], order_of(&field_map));
}

#[test]
fn inconsistent_policy_still_keeps_every_tag() {
    struct Always;
    impl TagOrder for Always {
        fn precedes(&self, _i: u32, _j: u32) -> bool {
            true
        }

        fn less(&self, _i: u32, _j: u32) -> bool {
            true
        }
    }
    let mut field_map = FieldMap::with_ordering(Always);
    for tag in [3u32, 1, 2] {
        field_map.set_int(tag, 0);
    }
    field_map.init_with_ordering(Always);
    let mut order = order_of(&field_map);
    order.sort();
    assert_eq!(vec![1, 2, 3], order);
}
