//! Conversions between the task types and the schema records.
use vstd::prelude::*;
pub use crate::flatbuffers::conversion::error::ConversionError;
use crate::flatbuffers::schema::UnionValue;

pub mod config;
pub mod error;
pub mod event;
pub mod state;

verus! {

/// Conversion from a schema record back to a task type.
pub trait FromFlatbuffers<T>: Sized {
    /// Converts the record; fails on codes the schema does not define and on
    /// missing required fields.
    fn from_flatbuffers(fb_data: T) -> Result<Self, ConversionError>;
}

/// Conversion from a task type to its schema record.
pub trait ToFlatbuffers {
    /// The record produced.
    type Output;

    /// Converts the value to its record.
    fn to_flatbuffers(&self) -> Self::Output;
}

/// Conversion from a task type to a union member: the union's type code and
/// the table it refers to.
pub trait ToFlatbuffersUnion<Discriminant> {
    /// Converts the value to its union type code and table.
    fn to_flatbuffers_union(&self) -> (Discriminant, UnionValue);
}

} // verus!
