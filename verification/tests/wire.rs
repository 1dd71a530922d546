use glide_ffi::apihandle::{append_argument, command_with_arguments, CommandParameter};
use redis::ToRedisArgs;

fn written(arg: &CommandParameter) -> Vec<Vec<u8>> {
    let mut out = vec![b"before".to_vec()];
    assert!(arg.has_wire_form());
    arg.write_redis_args(&mut out);
    assert_eq!(out[0], b"before".to_vec());
    out.split_off(1)
}

fn args_of(cmd: &redis::Cmd) -> Vec<Vec<u8>> {
    cmd.args_iter()
        .map(|arg| match arg {
            redis::Arg::Simple(bytes) => bytes.to_vec(),
            _ => panic!("unexpected argument"),
        })
        .collect()
}

#[test]
fn flags_are_written_as_digits() {
    assert_eq!(written(&CommandParameter::Bool(true)), vec![b"1".to_vec()]);
    assert_eq!(written(&CommandParameter::Bool(false)), vec![b"0".to_vec()]);
    assert_eq!(
        written(&CommandParameter::BoolArray(vec![true, false, true])),
        vec![b"1".to_vec(), b"0".to_vec(), b"1".to_vec()]
    );
}

#[test]
fn integers_are_written_in_base_ten() {
    assert_eq!(written(&CommandParameter::Int8(-128)), vec![b"-128".to_vec()]);
    assert_eq!(written(&CommandParameter::Uint8(0)), vec![b"0".to_vec()]);
    assert_eq!(written(&CommandParameter::Int16(-7)), vec![b"-7".to_vec()]);
    assert_eq!(written(&CommandParameter::Uint16(65535)), vec![b"65535".to_vec()]);
    assert_eq!(written(&CommandParameter::Int32(100)), vec![b"100".to_vec()]);
    assert_eq!(written(&CommandParameter::Uint32(4294967295)), vec![b"4294967295".to_vec()]);
    assert_eq!(
        written(&CommandParameter::Int64(i64::MIN)),
        vec![b"-9223372036854775808".to_vec()]
    );
    assert_eq!(
        written(&CommandParameter::Uint64(u64::MAX)),
        vec![b"18446744073709551615".to_vec()]
    );
}

#[test]
fn strings_and_bytes_are_one_argument() {
    assert_eq!(
        written(&CommandParameter::String("hällo".to_string())),
        vec!["hällo".as_bytes().to_vec()]
    );
    assert_eq!(written(&CommandParameter::String(String::new())), vec![Vec::<u8>::new()]);
    assert_eq!(written(&CommandParameter::Uint8Array(vec![1, 2, 3])), vec![vec![1u8, 2, 3]]);
    assert_eq!(written(&CommandParameter::Uint8Array(vec![])), vec![Vec::<u8>::new()]);
}

#[test]
fn integer_arrays_are_one_argument_for_each_element() {
    assert_eq!(
        written(&CommandParameter::Int16Array(vec![-1, 20, 300])),
        vec![b"-1".to_vec(), b"20".to_vec(), b"300".to_vec()]
    );
    assert_eq!(written(&CommandParameter::Uint64Array(vec![])), Vec::<Vec<u8>>::new());
}

#[test]
fn wire_form_agrees_with_the_client_library() {
    assert_eq!(written(&CommandParameter::Int8Array(vec![-5, 6])), vec![-5i8, 6].to_redis_args());
    assert_eq!(written(&CommandParameter::Uint16Array(vec![5, 6])), vec![5u16, 6].to_redis_args());
    assert_eq!(written(&CommandParameter::Int32Array(vec![-5])), vec![-5i32].to_redis_args());
    assert_eq!(written(&CommandParameter::Uint32Array(vec![7, 8])), vec![7u32, 8].to_redis_args());
    assert_eq!(
        written(&CommandParameter::Int64Array(vec![i64::MAX, 0])),
        vec![i64::MAX, 0].to_redis_args()
    );
    assert_eq!(written(&CommandParameter::Uint8Array(vec![9, 9])), vec![9u8, 9].to_redis_args());
    assert_eq!(written(&CommandParameter::BoolArray(vec![true])), vec![true].to_redis_args());
    assert_eq!(written(&CommandParameter::Uint8(77)), 77u8.to_redis_args());
    assert_eq!(
        written(&CommandParameter::String("x y".to_string())),
        "x y".to_string().to_redis_args()
    );
}

#[test]
fn floats_have_no_wire_form_here() {
    assert!(!CommandParameter::Float32(0).has_wire_form());
    assert!(!CommandParameter::Float64(0).has_wire_form());
    assert!(!CommandParameter::Float32Array(vec![]).has_wire_form());
    assert!(!CommandParameter::Float64Array(vec![]).has_wire_form());
    assert!(!CommandParameter::KeyValueArray(vec![
        ("a".to_string(), CommandParameter::Int8(1)),
        ("b".to_string(), CommandParameter::Float64(0)),
    ])
    .has_wire_form());
    assert!(!CommandParameter::KeyValueArray(vec![(
        "outer".to_string(),
        CommandParameter::KeyValueArray(vec![("inner".to_string(), CommandParameter::Float32(0))])
    )])
    .has_wire_form());
}

#[test]
fn key_values_are_written_key_then_value() {
    assert_eq!(
        written(&CommandParameter::KeyValueArray(vec![(
            "k".to_string(),
            CommandParameter::Int32(1)
        )])),
        vec![b"k".to_vec(), b"1".to_vec()]
    );
    assert_eq!(written(&CommandParameter::KeyValueArray(vec![])), Vec::<Vec<u8>>::new());
    assert_eq!(
        written(&CommandParameter::KeyValueArray(vec![
            ("field".to_string(), CommandParameter::String("value".to_string())),
            ("list".to_string(), CommandParameter::Int16Array(vec![1, -2])),
            ("none".to_string(), CommandParameter::Uint64Array(vec![])),
            (
                "nested".to_string(),
                CommandParameter::KeyValueArray(vec![
                    ("x".to_string(), CommandParameter::Bool(true)),
                    ("y".to_string(), CommandParameter::Uint8Array(vec![7, 8])),
                ])
            ),
            ("last".to_string(), CommandParameter::Uint8(9)),
        ])),
        vec![
            b"field".to_vec(),
            b"value".to_vec(),
            b"list".to_vec(),
            b"1".to_vec(),
            b"-2".to_vec(),
            b"none".to_vec(),
            b"nested".to_vec(),
            b"x".to_vec(),
            b"1".to_vec(),
            b"y".to_vec(),
            vec![7u8, 8],
            b"last".to_vec(),
            b"9".to_vec(),
        ]
    );
}

#[test]
fn key_values_are_appended_to_a_command() {
    let mut cmd = redis::cmd("HSET");
    append_argument(&mut cmd, &CommandParameter::String("hash".to_string()));
    append_argument(
        &mut cmd,
        &CommandParameter::KeyValueArray(vec![
            ("a".to_string(), CommandParameter::Int32(1)),
            ("b".to_string(), CommandParameter::String("two".to_string())),
        ]),
    );
    assert_eq!(
        args_of(&cmd),
        vec![
            b"HSET".to_vec(),
            b"hash".to_vec(),
            b"a".to_vec(),
            b"1".to_vec(),
            b"b".to_vec(),
            b"two".to_vec()
        ]
    );
}

#[test]
fn arguments_are_appended_to_a_command_in_order() {
    let mut cmd = redis::cmd("SET");
    append_argument(&mut cmd, &CommandParameter::String("key".to_string()));
    append_argument(&mut cmd, &CommandParameter::Int32(-12));
    assert_eq!(args_of(&cmd), vec![b"SET".to_vec(), b"key".to_vec(), b"-12".to_vec()]);

    let args = vec![
        CommandParameter::String("list".to_string()),
        CommandParameter::Int16Array(vec![1, 2]),
        CommandParameter::Uint8Array(vec![b'a', b'b']),
        CommandParameter::Bool(true),
    ];
    let cmd = command_with_arguments(redis::cmd("RPUSH"), &args);
    assert_eq!(
        args_of(&cmd),
        vec![
            b"RPUSH".to_vec(),
            b"list".to_vec(),
            b"1".to_vec(),
            b"2".to_vec(),
            b"ab".to_vec(),
            b"1".to_vec()
        ]
    );
    let same = command_with_arguments(redis::cmd("PING"), &[]);
    assert_eq!(args_of(&same), vec![b"PING".to_vec()]);
}
