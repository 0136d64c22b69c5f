//! Named-feature values and metadata: the closed set of value kinds a device
//! feature can carry, and the per-feature information the driver reports.

use vstd::prelude::*;

verus! {

/// Driver code for a feature of unknown type.
pub const FEATURE_DATA_UNKNOWN: u32 = 0;
/// Driver code for a 64-bit integer feature.
pub const FEATURE_DATA_INT: u32 = 1;
/// Driver code for a floating-point feature.
pub const FEATURE_DATA_FLOAT: u32 = 2;
/// Driver code for an enumeration feature.
pub const FEATURE_DATA_ENUM: u32 = 3;
/// Driver code for a string feature.
pub const FEATURE_DATA_STRING: u32 = 4;
/// Driver code for a boolean feature.
pub const FEATURE_DATA_BOOL: u32 = 5;
/// Driver code for a command feature.
pub const FEATURE_DATA_COMMAND: u32 = 6;
/// Driver code for a raw-bytes feature.
pub const FEATURE_DATA_RAW: u32 = 7;
/// Driver code for a feature with no data.
pub const FEATURE_DATA_NONE: u32 = 8;

/// The type of a named device feature.
#[derive(Clone, Copy, Debug, PartialEq, Eq, Hash, Structural)]
pub enum FeatureType {
    Int,
    Float,
    Enum,
    String,
    Bool,
    Command,
    Raw,
    NoData,
}

/// The feature type a given driver type code stands for, or `None` when the
/// code is not one the driver documents.
pub open spec fn spec_feature_type_of_code(code: int) -> Option<FeatureType> {
    if code == FEATURE_DATA_INT {
        Some(FeatureType::Int)
    } else if code == FEATURE_DATA_FLOAT {
        Some(FeatureType::Float)
    } else if code == FEATURE_DATA_ENUM {
        Some(FeatureType::Enum)
    } else if code == FEATURE_DATA_STRING {
        Some(FeatureType::String)
    } else if code == FEATURE_DATA_BOOL {
        Some(FeatureType::Bool)
    } else if code == FEATURE_DATA_COMMAND {
        Some(FeatureType::Command)
    } else if code == FEATURE_DATA_RAW {
        Some(FeatureType::Raw)
    } else if code == FEATURE_DATA_NONE {
        Some(FeatureType::NoData)
    } else {
        None
    }
}

impl FeatureType {
    /// The feature type for a driver type code, or `None` for an
    /// undocumented code.
    pub fn from_code(code: u32) -> (r: Option<FeatureType>)
        ensures
            r == spec_feature_type_of_code(code as int),
    {
        match code {
            FEATURE_DATA_INT => Some(FeatureType::Int),
            FEATURE_DATA_FLOAT => Some(FeatureType::Float),
            FEATURE_DATA_ENUM => Some(FeatureType::Enum),
            FEATURE_DATA_STRING => Some(FeatureType::String),
            FEATURE_DATA_BOOL => Some(FeatureType::Bool),
            FEATURE_DATA_COMMAND => Some(FeatureType::Command),
            FEATURE_DATA_RAW => Some(FeatureType::Raw),
            FEATURE_DATA_NONE => Some(FeatureType::NoData),
            _ => None,
        }
    }
}

/// The value of a named device feature: the closed variant of value kinds the
/// device control interface carries. A floating-point value is held as its
/// IEEE 754 bit pattern, so that the logic that routes it stays over plain
/// integers; converting to and from `f64` is the caller's concern.
#[derive(Clone, Debug, PartialEq)]
pub enum FeatureValue {
    /// A 64-bit integer value.
    Int(i64),
    /// The bit pattern of a 64-bit IEEE 754 floating-point value.
    Float(u64),
    /// The symbolic name of an enumeration entry.
    Enum(String),
    /// A text value.
    String(String),
    /// A boolean value.
    Bool(bool),
    /// Raw bytes.
    Raw(Vec<u8>),
}

impl FeatureValue {
    /// The feature type this value belongs to.
    pub fn feature_type(&self) -> (r: FeatureType)
        ensures
            r == self.spec_feature_type(),
    {
        match self {
            FeatureValue::Int(_) => FeatureType::Int,
            FeatureValue::Float(_) => FeatureType::Float,
            FeatureValue::Enum(_) => FeatureType::Enum,
            FeatureValue::String(_) => FeatureType::String,
            FeatureValue::Bool(_) => FeatureType::Bool,
            FeatureValue::Raw(_) => FeatureType::Raw,
        }
    }

    /// What `feature_type` returns, variant by variant.
    pub open spec fn spec_feature_type(&self) -> FeatureType {
        match self {
            FeatureValue::Int(_) => FeatureType::Int,
            FeatureValue::Float(_) => FeatureType::Float,
            FeatureValue::Enum(_) => FeatureType::Enum,
            FeatureValue::String(_) => FeatureType::String,
            FeatureValue::Bool(_) => FeatureType::Bool,
            FeatureValue::Raw(_) => FeatureType::Raw,
        }
    }

    /// The integer inside an `Int` value, or `None` for any other variant.
    pub fn into_int(self) -> (r: Option<i64>)
        ensures
            r == (match self {
                FeatureValue::Int(v) => Some(v),
                _ => None::<i64>,
            }),
    {
        match self {
            FeatureValue::Int(v) => Some(v),
            _ => None,
        }
    }

    /// The bit pattern inside a `Float` value, or `None` for any other
    /// variant.
    pub fn into_float_bits(self) -> (r: Option<u64>)
        ensures
            r == (match self {
                FeatureValue::Float(v) => Some(v),
                _ => None::<u64>,
            }),
    {
        match self {
            FeatureValue::Float(v) => Some(v),
            _ => None,
        }
    }

    /// The entry name inside an `Enum` value, or `None` for any other
    /// variant.
    pub fn into_enum(self) -> (r: Option<String>)
        ensures
            r == (match self {
                FeatureValue::Enum(v) => Some(v),
                _ => None::<String>,
            }),
    {
        match self {
            FeatureValue::Enum(v) => Some(v),
            _ => None,
        }
    }

    /// The text inside a `String` value, or `None` for any other variant.
    pub fn into_string(self) -> (r: Option<String>)
        ensures
            r == (match self {
                FeatureValue::String(v) => Some(v),
                _ => None::<String>,
            }),
    {
        match self {
            FeatureValue::String(v) => Some(v),
            _ => None,
        }
    }

    /// The boolean inside a `Bool` value, or `None` for any other variant.
    pub fn into_bool(self) -> (r: Option<bool>)
        ensures
            r == (match self {
                FeatureValue::Bool(v) => Some(v),
                _ => None::<bool>,
            }),
    {
        match self {
            FeatureValue::Bool(v) => Some(v),
            _ => None,
        }
    }

    /// The bytes inside a `Raw` value, or `None` for any other variant.
    pub fn into_raw(self) -> (r: Option<Vec<u8>>)
        ensures
            r == (match self {
                FeatureValue::Raw(v) => Some(v),
                _ => None::<Vec<u8>>,
            }),
    {
        match self {
            FeatureValue::Raw(v) => Some(v),
            _ => None,
        }
    }
}

/// Flag reported for a feature that carries no access information.
pub const FEATURE_FLAG_NONE: u32 = 0;
/// Flag reported for a readable feature.
pub const FEATURE_FLAG_READ: u32 = 1;
/// Flag reported for a writable feature.
pub const FEATURE_FLAG_WRITE: u32 = 2;
/// Flag reported for a feature that may change at any time.
pub const FEATURE_FLAG_VOLATILE: u32 = 8;
/// Flag reported for a feature whose value may change on write.
pub const FEATURE_FLAG_MODIFY_WRITE: u32 = 16;

/// The mask of all documented feature flags.
pub const FEATURE_FLAG_MASK: u32 = 27;

/// The set of access flags of a named feature, as a bit set over the
/// documented flag bits.
#[derive(Clone, Copy, Debug, PartialEq, Eq, Hash, Structural)]
pub struct FeatureFlag {
    /// The raw flag bits.
    pub bits: u32,
}

impl FeatureFlag {
    /// The flag set for a raw driver value, with undocumented bits dropped.
    pub fn from_bits_truncate(bits: u32) -> (r: FeatureFlag)
        ensures
            r.bits == bits & FEATURE_FLAG_MASK,
    {
        FeatureFlag { bits: bits & FEATURE_FLAG_MASK }
    }

    /// Whether every flag in `other` is also set in `self`.
    pub fn contains(&self, other: FeatureFlag) -> (r: bool)
        ensures
            r == (self.bits & other.bits == other.bits),
    {
        self.bits & other.bits == other.bits
    }
}

/// What the driver reports about one named feature.
#[derive(Debug, Clone)]
pub struct FeatureInfo {
    /// The feature's name.
    pub name: String,
    /// The type of the feature's value.
    pub data_type: FeatureType,
    /// The feature's access flags.
    pub flags: FeatureFlag,
}

} // verus!
