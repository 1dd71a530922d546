use glide_ffi::apihandle::CommandParameter;
use glide_ffi::data::Utf8OrEmptyError;
use glide_ffi::helpers::{grab_str, grab_str_not_null, grab_vec, to_cstr_or_null};
use glide_ffi::parameter::{
    to_command_parameters, EParameterKind, KeyParameterPair, Parameter, ParameterValue,
};

fn scalar(kind: EParameterKind, value: ParameterValue) -> Parameter {
    Parameter { kind, value, value_length: 0 }
}

fn string(bytes: Option<&[u8]>) -> Parameter {
    Parameter {
        kind: EParameterKind::String,
        value: ParameterValue::String(bytes.map(|b| b.to_vec())),
        value_length: bytes.map(|b| b.len() as u32).unwrap_or(0),
    }
}

#[test]
fn grab_str_null_is_none() {
    assert_eq!(grab_str(None), Ok(None));
}

#[test]
fn grab_str_copies_utf8() {
    assert_eq!(grab_str(Some("héllo".as_bytes())), Ok(Some("héllo".to_string())));
    assert_eq!(grab_str(Some(b"")), Ok(Some(String::new())));
}

#[test]
fn grab_str_rejects_invalid_utf8() {
    let err = grab_str(Some(&[b'a', 0xff, b'b'])).unwrap_err();
    assert_eq!(err.valid_up_to(), 1);
    assert_eq!(err.error_len(), Some(1));
    assert_eq!(err, std::str::from_utf8(&[b'a', 0xff, b'b']).unwrap_err());
    assert_eq!(grab_str(Some(&[b'a', 0xff, b'b'])), Err(err));
    let cut_short = grab_str(Some(&[b'a', b'b', 0xe2, 0x82])).unwrap_err();
    assert_eq!(cut_short.valid_up_to(), 2);
    assert_eq!(cut_short.error_len(), None);
}

#[test]
fn grab_str_not_null_reports_empty_and_utf8() {
    assert_eq!(grab_str_not_null(None), Err(Utf8OrEmptyError::Empty));
    assert!(matches!(
        grab_str_not_null(Some(&[0xc3, 0x28])),
        Err(Utf8OrEmptyError::Utf8Error(_))
    ));
    assert_eq!(grab_str_not_null(Some(b"key")), Ok("key".to_string()));
}

#[test]
fn grab_vec_reads_exactly_len_elements() {
    let input = [1u8, 2, 3, 4];
    let out: Result<Vec<u16>, ()> = grab_vec(&input, 3, |x: &u8| Ok(*x as u16 * 10));
    assert_eq!(out, Ok(vec![10, 20, 30]));
    let none: Result<Vec<u16>, ()> = grab_vec(&input, 0, |x: &u8| Ok(*x as u16));
    assert_eq!(none, Ok(vec![]));
}

#[test]
fn grab_vec_stops_at_first_error() {
    let input = [1i32, -2, 3, -4];
    let out: Result<Vec<i32>, i32> =
        grab_vec(&input, 4, |x: &i32| if *x < 0 { Err(*x) } else { Ok(*x) });
    assert_eq!(out, Err(-2));
}

#[test]
fn c_string_framing() {
    assert_eq!(to_cstr_or_null("ab"), Some(vec![b'a', b'b', 0]));
    assert_eq!(to_cstr_or_null(""), Some(vec![0]));
    assert_eq!(to_cstr_or_null("a\0b"), None);
}

#[test]
fn decodes_every_primitive_kind() {
    let cases = vec![
        (scalar(EParameterKind::Bool, ParameterValue::Flag(0)), CommandParameter::Bool(false)),
        (scalar(EParameterKind::Bool, ParameterValue::Flag(1)), CommandParameter::Bool(true)),
        (scalar(EParameterKind::Bool, ParameterValue::Flag(-3)), CommandParameter::Bool(true)),
        (scalar(EParameterKind::Int8, ParameterValue::I8(-128)), CommandParameter::Int8(-128)),
        (scalar(EParameterKind::Uint8, ParameterValue::U8(255)), CommandParameter::Uint8(255)),
        (scalar(EParameterKind::Int16, ParameterValue::I16(-7)), CommandParameter::Int16(-7)),
        (scalar(EParameterKind::Uint16, ParameterValue::U16(65535)), CommandParameter::Uint16(65535)),
        (scalar(EParameterKind::Int32, ParameterValue::I32(i32::MIN)), CommandParameter::Int32(i32::MIN)),
        (scalar(EParameterKind::Uint32, ParameterValue::U32(u32::MAX)), CommandParameter::Uint32(u32::MAX)),
        (scalar(EParameterKind::Int64, ParameterValue::I64(i64::MIN)), CommandParameter::Int64(i64::MIN)),
        (scalar(EParameterKind::Uint64, ParameterValue::U64(u64::MAX)), CommandParameter::Uint64(u64::MAX)),
        (
            scalar(EParameterKind::Float32, ParameterValue::F32(1.5f32.to_bits())),
            CommandParameter::Float32(1.5f32.to_bits()),
        ),
        (
            scalar(EParameterKind::Float64, ParameterValue::F64((-0.25f64).to_bits())),
            CommandParameter::Float64((-0.25f64).to_bits()),
        ),
    ];
    for (param, expected) in cases {
        assert!(param.is_well_formed());
        assert_eq!(param.to_command_parameter(), Ok(expected));
    }
}

#[test]
fn decodes_arrays_to_their_declared_length() {
    let flags = Parameter {
        kind: EParameterKind::BoolArray,
        value: ParameterValue::FlagArray(vec![0, 1, 2]),
        value_length: 3,
    };
    assert_eq!(
        flags.to_command_parameter(),
        Ok(CommandParameter::BoolArray(vec![false, true, true]))
    );
    let ints = Parameter {
        kind: EParameterKind::Int32Array,
        value: ParameterValue::I32Array(vec![5, -6, 7]),
        value_length: 3,
    };
    assert_eq!(ints.to_command_parameter(), Ok(CommandParameter::Int32Array(vec![5, -6, 7])));
    let bytes = Parameter {
        kind: EParameterKind::Uint8Array,
        value: ParameterValue::U8Array(vec![]),
        value_length: 0,
    };
    assert_eq!(bytes.to_command_parameter(), Ok(CommandParameter::Uint8Array(vec![])));
    let doubles = Parameter {
        kind: EParameterKind::Float64Array,
        value: ParameterValue::F64Array(vec![2.5f64.to_bits(), f64::NAN.to_bits()]),
        value_length: 2,
    };
    assert_eq!(
        doubles.to_command_parameter(),
        Ok(CommandParameter::Float64Array(vec![2.5f64.to_bits(), f64::NAN.to_bits()]))
    );
}

#[test]
fn well_formedness_is_told_apart() {
    let wrong_field = scalar(EParameterKind::Int32, ParameterValue::U8(1));
    assert!(!wrong_field.is_well_formed());
    let wrong_length = Parameter {
        kind: EParameterKind::Int8Array,
        value: ParameterValue::I8Array(vec![1, 2]),
        value_length: 3,
    };
    assert!(!wrong_length.is_well_formed());
    let nested = Parameter {
        kind: EParameterKind::KeyValueArray,
        value: ParameterValue::KeyParameterArray(vec![KeyParameterPair {
            key: Some(b"k".to_vec()),
            key_length: 1,
            value: wrong_field,
        }]),
        value_length: 1,
    };
    assert!(!nested.is_well_formed());
}

#[test]
fn decodes_strings() {
    assert_eq!(
        string(Some("grüße".as_bytes())).to_command_parameter(),
        Ok(CommandParameter::String("grüße".to_string()))
    );
    assert_eq!(string(None).to_command_parameter(), Err(Utf8OrEmptyError::Empty));
    assert_eq!(
        string(Some(&[0x80])).to_command_parameter(),
        Err(Utf8OrEmptyError::Utf8Error(std::str::from_utf8(&[0x80]).unwrap_err()))
    );
    match string(Some(&[b'a', 0xff])).to_command_parameter() {
        Err(Utf8OrEmptyError::Utf8Error(e)) => {
            assert_eq!(e.valid_up_to(), 1);
            assert_eq!(e.error_len(), Some(1));
        }
        other => panic!("unexpected result {:?}", other),
    }
}

fn pair(key: Option<&[u8]>, value: Parameter) -> KeyParameterPair {
    KeyParameterPair {
        key: key.map(|k| k.to_vec()),
        key_length: key.map(|k| k.len() as u32).unwrap_or(0),
        value,
    }
}

fn key_values(pairs: Vec<KeyParameterPair>) -> Parameter {
    let value_length = pairs.len() as u32;
    Parameter {
        kind: EParameterKind::KeyValueArray,
        value: ParameterValue::KeyParameterArray(pairs),
        value_length,
    }
}

#[test]
fn decodes_key_value_arrays_recursively() {
    let inner = key_values(vec![pair(Some(b"x"), scalar(EParameterKind::Bool, ParameterValue::Flag(1)))]);
    let param = key_values(vec![
        pair(Some(b"a"), scalar(EParameterKind::Int16, ParameterValue::I16(3))),
        pair(Some(b"b"), inner),
    ]);
    assert!(param.is_well_formed());
    assert_eq!(
        param.to_command_parameter(),
        Ok(CommandParameter::KeyValueArray(vec![
            ("a".to_string(), CommandParameter::Int16(3)),
            (
                "b".to_string(),
                CommandParameter::KeyValueArray(vec![("x".to_string(), CommandParameter::Bool(true))])
            ),
        ]))
    );
}

#[test]
fn key_value_array_fails_with_first_bad_entry() {
    let null_key_first = key_values(vec![
        pair(Some(b"ok"), scalar(EParameterKind::Int8, ParameterValue::I8(1))),
        pair(None, scalar(EParameterKind::Int8, ParameterValue::I8(2))),
        pair(Some(&[0xff]), scalar(EParameterKind::Int8, ParameterValue::I8(3))),
    ]);
    assert_eq!(null_key_first.to_command_parameter(), Err(Utf8OrEmptyError::Empty));
    let bad_value_first = key_values(vec![
        pair(Some(b"ok"), string(Some(&[0xff]))),
        pair(None, scalar(EParameterKind::Int8, ParameterValue::I8(2))),
    ]);
    assert_eq!(
        bad_value_first.to_command_parameter(),
        Err(Utf8OrEmptyError::Utf8Error(std::str::from_utf8(&[0xff]).unwrap_err()))
    );
    let key_before_value = key_values(vec![pair(None, string(Some(&[0xff])))]);
    assert_eq!(key_before_value.to_command_parameter(), Err(Utf8OrEmptyError::Empty));
}

#[test]
fn parameter_lists_decode_in_order_or_not_at_all() {
    let good = vec![
        scalar(EParameterKind::Uint8, ParameterValue::U8(9)),
        string(Some(b"name")),
    ];
    assert_eq!(
        to_command_parameters(&good),
        Ok(vec![CommandParameter::Uint8(9), CommandParameter::String("name".to_string())])
    );
    let bad = vec![
        scalar(EParameterKind::Uint8, ParameterValue::U8(9)),
        string(None),
        string(Some(&[0xff])),
    ];
    assert_eq!(to_command_parameters(&bad), Err(Utf8OrEmptyError::Empty));
    assert_eq!(to_command_parameters(&[]), Ok(vec![]));
}

#[test]
fn decoding_then_encoding_gives_the_parameter_back() {
    let params = vec![
        scalar(EParameterKind::Bool, ParameterValue::Flag(1)),
        scalar(EParameterKind::Bool, ParameterValue::Flag(0)),
        scalar(EParameterKind::Int8, ParameterValue::I8(-1)),
        scalar(EParameterKind::Uint8, ParameterValue::U8(200)),
        scalar(EParameterKind::Int16, ParameterValue::I16(-300)),
        scalar(EParameterKind::Uint16, ParameterValue::U16(60000)),
        scalar(EParameterKind::Int32, ParameterValue::I32(-70000)),
        scalar(EParameterKind::Uint32, ParameterValue::U32(4000000000)),
        scalar(EParameterKind::Int64, ParameterValue::I64(i64::MIN)),
        scalar(EParameterKind::Uint64, ParameterValue::U64(u64::MAX)),
        scalar(EParameterKind::Float32, ParameterValue::F32(f32::INFINITY.to_bits())),
        scalar(EParameterKind::Float64, ParameterValue::F64(f64::NAN.to_bits())),
        Parameter {
            kind: EParameterKind::BoolArray,
            value: ParameterValue::FlagArray(vec![1, 0, 1]),
            value_length: 3,
        },
        Parameter {
            kind: EParameterKind::Int8Array,
            value: ParameterValue::I8Array(vec![-1, 1]),
            value_length: 2,
        },
        Parameter {
            kind: EParameterKind::Uint8Array,
            value: ParameterValue::U8Array(vec![0, 255]),
            value_length: 2,
        },
        Parameter {
            kind: EParameterKind::Int16Array,
            value: ParameterValue::I16Array(vec![-2]),
            value_length: 1,
        },
        Parameter {
            kind: EParameterKind::Uint16Array,
            value: ParameterValue::U16Array(vec![2, 3]),
            value_length: 2,
        },
        Parameter {
            kind: EParameterKind::Int32Array,
            value: ParameterValue::I32Array(vec![]),
            value_length: 0,
        },
        Parameter {
            kind: EParameterKind::Uint32Array,
            value: ParameterValue::U32Array(vec![7]),
            value_length: 1,
        },
        Parameter {
            kind: EParameterKind::Int64Array,
            value: ParameterValue::I64Array(vec![i64::MAX, i64::MIN]),
            value_length: 2,
        },
        Parameter {
            kind: EParameterKind::Uint64Array,
            value: ParameterValue::U64Array(vec![u64::MAX]),
            value_length: 1,
        },
        Parameter {
            kind: EParameterKind::Float32Array,
            value: ParameterValue::F32Array(vec![0.5f32.to_bits()]),
            value_length: 1,
        },
        Parameter {
            kind: EParameterKind::Float64Array,
            value: ParameterValue::F64Array(vec![0.5f64.to_bits(), (-0.0f64).to_bits()]),
            value_length: 2,
        },
    ];
    for param in params {
        let decoded = param.to_command_parameter().unwrap();
        let encoded = Parameter::from_command_parameter(&decoded).unwrap();
        assert_eq!(encoded, param);
        assert_eq!(encoded.to_command_parameter(), Ok(decoded));
    }
}

#[test]
fn a_flag_byte_other_than_one_comes_back_as_one() {
    let param = scalar(EParameterKind::Bool, ParameterValue::Flag(2));
    let decoded = param.to_command_parameter().unwrap();
    let encoded = Parameter::from_command_parameter(&decoded).unwrap();
    assert_eq!(encoded, scalar(EParameterKind::Bool, ParameterValue::Flag(1)));
}

#[test]
fn encoding_strings_and_key_values() {
    let arg = CommandParameter::KeyValueArray(vec![
        ("k".to_string(), CommandParameter::String("vé".to_string())),
        ("l".to_string(), CommandParameter::Uint8Array(vec![1, 2])),
    ]);
    let encoded = Parameter::from_command_parameter(&arg).unwrap();
    assert!(encoded.is_well_formed());
    assert_eq!(encoded.value_length, 2);
    match &encoded.value {
        ParameterValue::KeyParameterArray(pairs) => {
            assert_eq!(pairs[0].key, Some(b"k".to_vec()));
            assert_eq!(pairs[0].key_length, 1);
            assert_eq!(pairs[0].value.value, ParameterValue::String(Some("vé".as_bytes().to_vec())));
            assert_eq!(pairs[0].value.value_length, 3);
            assert_eq!(pairs[1].value.kind, EParameterKind::Uint8Array);
        }
        other => panic!("unexpected value {:?}", other),
    }
    assert_eq!(encoded.to_command_parameter(), Ok(arg));
}
