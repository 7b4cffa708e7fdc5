//! FlatBuffers support: the schema's records and the conversions between
//! them and the task types.
pub mod conversion;
pub mod schema;
