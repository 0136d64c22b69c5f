use vimba::error::{error_code_to_result, CODE_SUCCESS, CODE_TIMEOUT};
use vimba::feature::{FeatureFlag, FeatureType, FeatureValue};
use vimba::Error;

#[test]
fn error_from_code_maps_every_documented_code() {
    let table = [
        (-1, Error::InternalFault),
        (-2, Error::ApiNotStarted),
        (-3, Error::NotFound),
        (-4, Error::BadHandle),
        (-5, Error::DeviceNotOpen),
        (-6, Error::InvalidAccess),
        (-7, Error::BadParameter),
        (-8, Error::StructSize),
        (-9, Error::MoreData),
        (-10, Error::WrongType),
        (-11, Error::InvalidValue),
        (-12, Error::Timeout),
        (-13, Error::Other),
        (-14, Error::Resources),
        (-15, Error::InvalidCall),
        (-16, Error::NoTL),
        (-17, Error::NotImplemented),
        (-18, Error::NotSupported),
        (-19, Error::Incomplete),
        (-20, Error::IO),
    ];
    for (code, err) in table {
        assert_eq!(Error::from_code(code), Some(err));
    }
}

#[test]
fn error_from_code_rejects_unknown() {
    assert_eq!(Error::from_code(0), None);
    assert_eq!(Error::from_code(-21), None);
    assert_eq!(Error::from_code(5), None);
}

#[test]
fn error_code_to_result_success_and_fault() {
    assert_eq!(error_code_to_result(CODE_SUCCESS), Ok(()));
    assert_eq!(error_code_to_result(CODE_TIMEOUT), Err(Error::Timeout));
}

#[test]
fn error_messages() {
    assert_eq!(Error::DeviceBusy.message(), "device busy");
    assert_eq!(Error::Timeout.message(), "timed out");
    assert_eq!(Error::WrongType.message(), "incorrect feature type");
}

#[test]
fn feature_type_from_code() {
    assert_eq!(FeatureType::from_code(1), Some(FeatureType::Int));
    assert_eq!(FeatureType::from_code(2), Some(FeatureType::Float));
    assert_eq!(FeatureType::from_code(3), Some(FeatureType::Enum));
    assert_eq!(FeatureType::from_code(4), Some(FeatureType::String));
    assert_eq!(FeatureType::from_code(5), Some(FeatureType::Bool));
    assert_eq!(FeatureType::from_code(6), Some(FeatureType::Command));
    assert_eq!(FeatureType::from_code(7), Some(FeatureType::Raw));
    assert_eq!(FeatureType::from_code(8), Some(FeatureType::NoData));
    assert_eq!(FeatureType::from_code(0), None);
    assert_eq!(FeatureType::from_code(9), None);
}

#[test]
fn feature_value_types() {
    assert_eq!(FeatureValue::Int(3).feature_type(), FeatureType::Int);
    assert_eq!(FeatureValue::Float(0x3FF0_0000_0000_0000).feature_type(), FeatureType::Float);
    assert_eq!(FeatureValue::Enum("On".to_string()).feature_type(), FeatureType::Enum);
    assert_eq!(FeatureValue::String("x".to_string()).feature_type(), FeatureType::String);
    assert_eq!(FeatureValue::Bool(true).feature_type(), FeatureType::Bool);
    assert_eq!(FeatureValue::Raw(vec![1, 2]).feature_type(), FeatureType::Raw);
}

#[test]
fn feature_value_accessors() {
    assert_eq!(FeatureValue::Int(-7).into_int(), Some(-7));
    assert_eq!(FeatureValue::Bool(true).into_int(), None);
    assert_eq!(FeatureValue::Float(42).into_float_bits(), Some(42));
    assert_eq!(FeatureValue::Int(42).into_float_bits(), None);
    assert_eq!(FeatureValue::Enum("Continuous".to_string()).into_enum(), Some("Continuous".to_string()));
    assert_eq!(FeatureValue::Int(1).into_enum(), None);
    assert_eq!(FeatureValue::String("hi".to_string()).into_string(), Some("hi".to_string()));
    assert_eq!(FeatureValue::Bool(false).into_bool(), Some(false));
    assert_eq!(FeatureValue::Raw(vec![9]).into_raw(), Some(vec![9]));
    assert_eq!(FeatureValue::Raw(vec![9]).into_bool(), None);
}

#[test]
fn feature_flags_truncate_and_contain() {
    let f = FeatureFlag::from_bits_truncate(0xFF);
    assert_eq!(f.bits, 27);
    assert!(f.contains(FeatureFlag::from_bits_truncate(1)));
    assert!(f.contains(FeatureFlag::from_bits_truncate(2)));
    let read_only = FeatureFlag::from_bits_truncate(1);
    assert!(!read_only.contains(FeatureFlag::from_bits_truncate(2)));
}
