//! The message-representation core of a FIX engine: the tag registry, the
//! `tag=value` wire unit, the typed field codecs, the ordered field map and
//! the reject taxonomy.

pub mod decimal;
pub mod text;
pub mod error;
pub mod calendar;
pub mod tag;
pub mod tag_value;
pub mod field;
pub mod fix_boolean;
pub mod fix_int;
pub mod fix_string;
pub mod fix_utc_timestamp;
pub mod field_map;
