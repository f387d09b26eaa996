
pub mod cgats;
pub mod compare;
pub mod config;
pub mod data_map;
pub mod data_vec;
pub mod de_report;
pub mod error;
pub mod field;
pub mod numeric;
pub mod round_trip;
pub mod strutil;
pub mod vendor;
