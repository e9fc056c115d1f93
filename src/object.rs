use vstd::prelude::*;

verus! {

/// The number of object type codes the engine reports.
pub const OBJECT_TYPE_CODES: u32 = 13;

/// Types of the PDF objects
#[derive(Debug, Clone, Copy, PartialEq, Eq, Structural, PartialOrd, Hash)]
pub enum QPdfObjectType {
    Uninitialized,
    Reserved,
    Null,
    Boolean,
    Integer,
    Real,
    String,
    Name,
    Array,
    Dictionary,
    Stream,
    Operator,
    InlineImage,
}

/// The engine's type code of each object type, in the engine's order.
pub open spec fn type_code(t: QPdfObjectType) -> u32 {
    match t {
        QPdfObjectType::Uninitialized => 0,
        QPdfObjectType::Reserved => 1,
        QPdfObjectType::Null => 2,
        QPdfObjectType::Boolean => 3,
        QPdfObjectType::Integer => 4,
        QPdfObjectType::Real => 5,
        QPdfObjectType::String => 6,
        QPdfObjectType::Name => 7,
        QPdfObjectType::Array => 8,
        QPdfObjectType::Dictionary => 9,
        QPdfObjectType::Stream => 10,
        QPdfObjectType::Operator => 11,
        QPdfObjectType::InlineImage => 12,
    }
}

/// Whether a lookup that found an object of this type has found nothing:
/// an absent entry and an explicit null are both reported as missing.
pub open spec fn is_missing(t: QPdfObjectType) -> bool {
    t == QPdfObjectType::Uninitialized || t == QPdfObjectType::Null
}

impl QPdfObjectType {
    /// The object type for an engine type code
    pub fn from_qpdf_enum(code: u32) -> (r: Self)
        requires
            code < OBJECT_TYPE_CODES,
        ensures
            type_code(r) == code,
    {
        match code {
            0 => QPdfObjectType::Uninitialized,
            1 => QPdfObjectType::Reserved,
            2 => QPdfObjectType::Null,
            3 => QPdfObjectType::Boolean,
            4 => QPdfObjectType::Integer,
            5 => QPdfObjectType::Real,
            6 => QPdfObjectType::String,
            7 => QPdfObjectType::Name,
            8 => QPdfObjectType::Array,
            9 => QPdfObjectType::Dictionary,
            10 => QPdfObjectType::Stream,
            11 => QPdfObjectType::Operator,
            _ => QPdfObjectType::InlineImage,
        }
    }

    /// The engine type code of this object type
    pub fn as_qpdf_enum(&self) -> (r: u32)
        ensures
            r == type_code(*self),
            r < OBJECT_TYPE_CODES,
    {
        match self {
            QPdfObjectType::Uninitialized => 0,
            QPdfObjectType::Reserved => 1,
            QPdfObjectType::Null => 2,
            QPdfObjectType::Boolean => 3,
            QPdfObjectType::Integer => 4,
            QPdfObjectType::Real => 5,
            QPdfObjectType::String => 6,
            QPdfObjectType::Name => 7,
            QPdfObjectType::Array => 8,
            QPdfObjectType::Dictionary => 9,
            QPdfObjectType::Stream => 10,
            QPdfObjectType::Operator => 11,
            QPdfObjectType::InlineImage => 12,
        }
    }

    /// Whether a keyed, indexed or by-id lookup that returned an object of
    /// this type has found nothing. One rule serves every lookup: an absent
    /// entry (uninitialized) and an explicit null both count as missing.
    pub fn is_missing(&self) -> (r: bool)
        ensures
            r == is_missing(*self),
    {
        match self {
            QPdfObjectType::Uninitialized | QPdfObjectType::Null => true,
            _ => false,
        }
    }
}

} // verus!
