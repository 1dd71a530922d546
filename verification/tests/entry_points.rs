use glide_ffi::apihandle::CommandParameter;
use glide_ffi::conreq::{ConnectionRequest, ConnectionSettings};
use glide_ffi::data::{
    CommandResult, CreateClientHandleResult, ECreateClientHandleCode, Utf8OrEmptyError,
};
use glide_ffi::logging::{csharp_set_logging_hooks, hook_targets, HookBridge, LogRecord, LoggingHooks};
use glide_ffi::parameter::{EParameterKind, Parameter, ParameterValue};
use glide_ffi::routing::{Route, RoutingInfo};
use glide_ffi::value::{EncodedValue, ReplyValue, Value, ValueKind};
use glide_core::client::ConnectionError;
use glide_core::request_type::RequestType;
use glide_ffi::{
    blocking_command_result, callback_guard, command_completed, connection_failed,
    create_client_handle_result, csharp_command, csharp_command_blocking,
    csharp_create_client_handle, csharp_free_value, dispatch_blocking_command, dispatch_command,
    BlockingCommandResult, CallbackArguments, ConnectionFailure, CreateEvent,
};

fn c_string(text: &str) -> Option<Vec<u8>> {
    let mut bytes = text.as_bytes().to_vec();
    bytes.push(0);
    Some(bytes)
}

fn request(host: Option<&[u8]>) -> ConnectionRequest {
    ConnectionRequest { host: host.map(|h| h.to_vec()), port: 6379, use_tls: true, cluster_mode: false }
}

fn int_param(v: i32) -> Parameter {
    Parameter { kind: EParameterKind::Int32, value: ParameterValue::I32(v), value_length: 0 }
}

fn string_param(bytes: Option<&[u8]>) -> Parameter {
    Parameter {
        kind: EParameterKind::String,
        value: ParameterValue::String(bytes.map(|b| b.to_vec())),
        value_length: 0,
    }
}

fn args_of(cmd: &redis::Cmd) -> Vec<Vec<u8>> {
    cmd.args_iter()
        .map(|arg| match arg {
            redis::Arg::Simple(bytes) => bytes.to_vec(),
            _ => panic!("unexpected argument"),
        })
        .collect()
}

#[test]
fn a_configuration_with_a_host_is_taken_over() {
    assert_eq!(
        request(Some(b"localhost")).to_redis(),
        Ok(ConnectionSettings {
            host: "localhost".to_string(),
            port: 6379,
            use_tls: true,
            cluster_mode: false
        })
    );
    assert_eq!(
        csharp_create_client_handle(&request(Some(b"example.org"))).unwrap().host,
        "example.org"
    );
}

#[test]
fn a_null_host_is_a_parameter_error() {
    assert_eq!(request(None).to_redis(), Err(Utf8OrEmptyError::Empty));
    assert_eq!(
        csharp_create_client_handle(&request(None)),
        Err(CreateClientHandleResult {
            result: ECreateClientHandleCode::ParameterError,
            client_handle: None,
            error_string: c_string("Null value passed for host"),
        })
    );
}

#[test]
fn an_empty_host_is_a_parameter_error() {
    assert_eq!(request(Some(b"")).to_redis(), Err(Utf8OrEmptyError::Empty));
    let result = csharp_create_client_handle(&request(Some(b""))).unwrap_err();
    assert_eq!(result.result, ECreateClientHandleCode::ParameterError);
    assert_eq!(result.client_handle, None);
    assert_eq!(result.error_string, c_string("Null value passed for host"));
}

#[test]
fn a_host_that_is_not_utf8_is_a_parameter_error() {
    assert!(matches!(
        request(Some(&[0xff, 0xfe])).to_redis(),
        Err(Utf8OrEmptyError::Utf8Error(_))
    ));
    let result = csharp_create_client_handle(&request(Some(&[0xff, 0xfe]))).unwrap_err();
    assert_eq!(result.result, ECreateClientHandleCode::ParameterError);
    assert_eq!(result.client_handle, None);
    let words = std::str::from_utf8(&[0xff, 0xfe]).unwrap_err().to_string();
    assert_eq!(result.error_string, c_string(&words));
}

#[test]
fn each_failure_of_creation_has_its_code() {
    let cases = vec![
        (
            CreateEvent::ThreadCreationFailed("no threads".to_string()),
            ECreateClientHandleCode::ThreadCreationError,
            "no threads",
        ),
        (
            CreateEvent::ConnectionFailed(ConnectionFailure::Standalone, "refused".to_string()),
            ECreateClientHandleCode::ConnectionToFailedError,
            "refused",
        ),
        (
            CreateEvent::ConnectionFailed(ConnectionFailure::Cluster, "no nodes".to_string()),
            ECreateClientHandleCode::ConnectionToClusterFailed,
            "no nodes",
        ),
        (
            CreateEvent::ConnectionFailed(ConnectionFailure::Timeout, "timed out".to_string()),
            ECreateClientHandleCode::ConnectionTimedOutError,
            "timed out",
        ),
        (
            CreateEvent::ConnectionFailed(ConnectionFailure::IoError, "broken pipe".to_string()),
            ECreateClientHandleCode::ConnectionIoError,
            "broken pipe",
        ),
        (
            CreateEvent::ConnectionFailed(ConnectionFailure::Configuration, "bad name".to_string()),
            ECreateClientHandleCode::ParameterError,
            "bad name",
        ),
        (
            CreateEvent::ConnectionFailed(ConnectionFailure::Authentication, "denied".to_string()),
            ECreateClientHandleCode::ConnectionToFailedError,
            "denied",
        ),
    ];
    for (event, code, text) in cases {
        assert_eq!(
            create_client_handle_result(event),
            CreateClientHandleResult { result: code, client_handle: None, error_string: c_string(text) }
        );
    }
    assert_eq!(
        create_client_handle_result(CreateEvent::ThreadCreationFailed("a\0b".to_string()))
            .error_string,
        None
    );
}

#[test]
fn a_connected_client_is_a_success_with_its_handle() {
    assert_eq!(
        create_client_handle_result(CreateEvent::Connected(0x1000)),
        CreateClientHandleResult {
            result: ECreateClientHandleCode::Success,
            client_handle: Some(0x1000),
            error_string: None
        }
    );
}

#[test]
fn a_null_handle_rejects_the_command() {
    let dispatch = dispatch_command(None, Some(redis::cmd("GET")), None, &[int_param(1)]);
    assert_eq!(
        dispatch.result,
        CommandResult { success: false, error_string: c_string("Null handle passed") }
    );
    assert!(dispatch.task.is_none());
}

#[test]
fn a_bad_parameter_rejects_the_command() {
    let dispatch = dispatch_command(
        Some(1),
        Some(redis::cmd("GET")),
        None,
        &[int_param(1), string_param(None)],
    );
    assert_eq!(
        dispatch.result,
        CommandResult { success: false, error_string: c_string("Null value passed for host") }
    );
    assert!(dispatch.task.is_none());
    let dispatch = dispatch_command(Some(1), Some(redis::cmd("GET")), None, &[string_param(Some(&[0xff]))]);
    assert!(!dispatch.result.success);
    let words = std::str::from_utf8(&[0xff]).unwrap_err().to_string();
    assert_eq!(dispatch.result.error_string, c_string(&words));
    assert!(dispatch.task.is_none());
}

#[test]
fn an_unknown_request_type_rejects_the_command() {
    let dispatch = dispatch_command(Some(1), None, None, &[int_param(1)]);
    assert_eq!(
        dispatch.result,
        CommandResult { success: false, error_string: c_string("Unknown request type") }
    );
    assert!(dispatch.task.is_none());
}

#[test]
fn a_bad_routing_directive_rejects_the_command() {
    let routing = RoutingInfo::ByAddress { host: None, port: 1 };
    let dispatch = dispatch_command(Some(1), Some(redis::cmd("GET")), Some(&routing), &[]);
    assert_eq!(
        dispatch.result,
        CommandResult {
            success: false,
            error_string: c_string("Routing info incomplete, null value passed in string")
        }
    );
    assert!(dispatch.task.is_none());
    let routing = RoutingInfo::ByAddress { host: Some(vec![0xc0]), port: 1 };
    let dispatch = dispatch_command(Some(1), Some(redis::cmd("GET")), Some(&routing), &[]);
    assert!(!dispatch.result.success);
    let words = std::str::from_utf8(&[0xc0]).unwrap_err().to_string();
    assert_eq!(dispatch.result.error_string, c_string(&words));
    assert!(dispatch.task.is_none());
}

#[test]
fn the_checks_run_in_order() {
    let routing = RoutingInfo::ByAddress { host: None, port: 1 };
    let dispatch = dispatch_command(None, None, Some(&routing), &[string_param(None)]);
    assert_eq!(dispatch.result.error_string, c_string("Null handle passed"));
    let dispatch = dispatch_command(Some(1), None, Some(&routing), &[string_param(None)]);
    assert_eq!(dispatch.result.error_string, c_string("Null value passed for host"));
    let dispatch = dispatch_command(Some(1), None, Some(&routing), &[]);
    assert_eq!(dispatch.result.error_string, c_string("Unknown request type"));
}

#[test]
fn an_accepted_command_has_its_task() {
    let routing = RoutingInfo::ByAddress { host: Some(b"node-1".to_vec()), port: 7000 };
    let dispatch = dispatch_command(
        Some(1),
        Some(redis::cmd("SET")),
        Some(&routing),
        &[string_param(Some(b"key")), int_param(-3)],
    );
    assert_eq!(dispatch.result, CommandResult { success: true, error_string: None });
    let task = dispatch.task.unwrap();
    assert_eq!(args_of(&task.cmd), vec![b"SET".to_vec()]);
    assert_eq!(
        task.args,
        vec![CommandParameter::String("key".to_string()), CommandParameter::Int32(-3)]
    );
    assert_eq!(task.routing, Some(Route::ByAddress { host: "node-1".to_string(), port: 7000 }));
    let dispatch = dispatch_command(Some(1), Some(redis::cmd("PING")), None, &[]);
    assert!(dispatch.result.success);
    let task = dispatch.task.unwrap();
    assert!(task.args.is_empty());
    assert_eq!(task.routing, None);
}

#[test]
fn routing_directives_are_taken_over() {
    assert_eq!(RoutingInfo::Random.to_redis(), Ok(Route::Random));
    assert_eq!(RoutingInfo::RandomPrimary.to_redis(), Ok(Route::RandomPrimary));
    assert_eq!(RoutingInfo::AllNodes.to_redis(), Ok(Route::AllNodes));
    assert_eq!(RoutingInfo::AllPrimaries.to_redis(), Ok(Route::AllPrimaries));
    assert_eq!(
        RoutingInfo::Slot { slot: 12, replica: true }.to_redis(),
        Ok(Route::Slot { slot: 12, replica: true })
    );
    assert_eq!(
        RoutingInfo::ByAddress { host: None, port: 1 }.to_redis(),
        Err(Utf8OrEmptyError::Empty)
    );
}

#[test]
fn a_reply_completes_with_success() {
    assert_eq!(
        command_completed(Ok(ReplyValue::BulkString(b"v".to_vec()))),
        CallbackArguments {
            success: true,
            value: EncodedValue {
                value: Value { kind: ValueKind::BulkString, data: 0, length: 1 },
                buffer: b"v".to_vec()
            }
        }
    );
}

#[test]
fn an_error_completes_with_failure_and_its_text() {
    assert_eq!(
        command_completed(Err("WRONGTYPE".to_string())),
        CallbackArguments {
            success: false,
            value: EncodedValue {
                value: Value { kind: ValueKind::SimpleString, data: 0, length: 9 },
                buffer: b"WRONGTYPE\0".to_vec()
            }
        }
    );
}

#[test]
fn each_of_two_commands_completes_with_its_own_outcome() {
    let first = command_completed(Err("first failed".to_string()));
    let second = command_completed(Ok(ReplyValue::Int(2)));
    assert!(!first.success);
    assert!(second.success);
    assert_eq!(second.value.value, Value { kind: ValueKind::Int, data: 2, length: 0 });
    assert_eq!(first.value.buffer, b"first failed\0".to_vec());
}

#[test]
fn a_callback_that_unwinds_gives_one_log_entry() {
    assert_eq!(callback_guard(None), None);
    assert_eq!(
        callback_guard(Some("boom")),
        Some(LogRecord {
            target: "csharp_ffi".to_string(),
            message: "Exception in C# callback: boom".to_string()
        })
    );
}

#[test]
fn the_first_logging_hooks_win() {
    let first = LoggingHooks {
        data: 1,
        is_enabled_callback: 2,
        new_spawn_callback: 3,
        record_callback: 4,
        event_callback: 5,
        enter_callback: 6,
        exit_callback: 7,
    };
    let second = LoggingHooks { data: 9, ..first };
    let mut bridge = HookBridge::new();
    assert_eq!(bridge.hooks(), None);
    assert!(csharp_set_logging_hooks(&mut bridge, first, || true));
    assert_eq!(bridge.hooks(), Some(first));
    let mut wired_again = false;
    assert!(!csharp_set_logging_hooks(&mut bridge, second, || {
        wired_again = true;
        true
    }));
    assert!(!wired_again);
    assert_eq!(bridge.hooks(), Some(first));
}

#[test]
fn hooks_that_could_not_be_wired_are_not_installed() {
    let hooks = LoggingHooks {
        data: 1,
        is_enabled_callback: 2,
        new_spawn_callback: 3,
        record_callback: 4,
        event_callback: 5,
        enter_callback: 6,
        exit_callback: 7,
    };
    let mut bridge = HookBridge::new();
    assert!(!csharp_set_logging_hooks(&mut bridge, hooks, || false));
    assert_eq!(bridge.hooks(), None);
    assert!(csharp_set_logging_hooks(&mut bridge, hooks, || true));
    assert_eq!(bridge.hooks(), Some(hooks));
}

#[test]
fn the_hooks_see_the_own_namespaces() {
    assert_eq!(hook_targets("glide_ffi"), vec!["glide", "redis", "logger_core", "glide_ffi"]);
}

#[test]
fn freeing_a_value_takes_it() {
    csharp_free_value(Value::simple_string_with_null("x"));
}

#[test]
fn a_blocking_command_is_checked_like_any_other() {
    let args = vec![Some(b"key".to_vec()), Some(b"value".to_vec())];
    let task = match dispatch_blocking_command(Some(1), Some(redis::cmd("SET")), &args) {
        Ok(task) => task,
        Err(result) => panic!("rejected: {:?}", result),
    };
    assert_eq!(args_of(&task.cmd), vec![b"SET".to_vec()]);
    assert_eq!(
        task.args,
        vec![
            CommandParameter::String("key".to_string()),
            CommandParameter::String("value".to_string())
        ]
    );
    assert_eq!(task.routing, None);

    let rejected = |result: Result<glide_ffi::CommandTask, BlockingCommandResult>| match result {
        Ok(_) => panic!("accepted"),
        Err(result) => result,
    };
    assert_eq!(
        rejected(dispatch_blocking_command(None, Some(redis::cmd("SET")), &args)),
        BlockingCommandResult {
            success: false,
            value: None,
            error_string: c_string("Null handle passed")
        }
    );
    assert_eq!(
        rejected(dispatch_blocking_command(Some(1), None, &args)).error_string,
        c_string("Unknown request type")
    );
    assert_eq!(
        rejected(dispatch_blocking_command(Some(1), None, &[Some(b"k".to_vec()), None])).error_string,
        c_string("Null value passed for host")
    );
}

#[test]
fn a_blocking_command_ends_in_a_value_or_an_error_string() {
    assert_eq!(
        blocking_command_result(Ok(ReplyValue::Okay)),
        BlockingCommandResult {
            success: true,
            value: Some(EncodedValue {
                value: Value { kind: ValueKind::Okay, data: 0, length: 0 },
                buffer: vec![]
            }),
            error_string: None
        }
    );
    assert_eq!(
        blocking_command_result(Err("ERR unknown".to_string())),
        BlockingCommandResult { success: false, value: None, error_string: c_string("ERR unknown") }
    );
}

#[test]
fn a_failed_connect_is_sorted_by_its_category() {
    assert_eq!(
        connection_failed(ConnectionError::Timeout),
        CreateClientHandleResult {
            result: ECreateClientHandleCode::ConnectionTimedOutError,
            client_handle: None,
            error_string: c_string("connection attempt timed out"),
        }
    );
    assert_eq!(
        connection_failed(ConnectionError::IoError(std::io::Error::new(
            std::io::ErrorKind::Other,
            "broken pipe"
        ))),
        CreateClientHandleResult {
            result: ECreateClientHandleCode::ConnectionIoError,
            client_handle: None,
            error_string: c_string("broken pipe"),
        }
    );
    assert_eq!(
        connection_failed(ConnectionError::Configuration("bad name".to_string())),
        CreateClientHandleResult {
            result: ECreateClientHandleCode::ParameterError,
            client_handle: None,
            error_string: c_string("configuration error: bad name"),
        }
    );
    assert_eq!(
        connection_failed(ConnectionError::IAMError("denied".to_string())).result,
        ECreateClientHandleCode::ConnectionToFailedError
    );
    let cluster = connection_failed(ConnectionError::Cluster(redis::RedisError::from((
        redis::ErrorKind::ClientError,
        "no nodes",
    ))));
    assert_eq!(cluster.result, ECreateClientHandleCode::ConnectionToClusterFailed);
    assert_eq!(cluster.client_handle, None);
    assert!(cluster.error_string.is_some());
}

#[test]
fn a_request_type_is_looked_up() {
    let dispatch = csharp_command(Some(1), RequestType::Get, None, &[string_param(Some(b"key"))]);
    assert_eq!(dispatch.result, CommandResult { success: true, error_string: None });
    let task = dispatch.task.unwrap();
    assert_eq!(args_of(&task.cmd), vec![b"GET".to_vec()]);
    assert_eq!(task.args, vec![CommandParameter::String("key".to_string())]);

    let dispatch = csharp_command(Some(1), RequestType::InvalidRequest, None, &[]);
    assert_eq!(
        dispatch.result,
        CommandResult { success: false, error_string: c_string("Unknown request type") }
    );
    assert!(dispatch.task.is_none());

    let dispatch = csharp_command(None, RequestType::Get, None, &[]);
    assert_eq!(dispatch.result.error_string, c_string("Null handle passed"));
    assert!(dispatch.task.is_none());
}

#[test]
fn a_blocking_request_type_is_looked_up() {
    let args = vec![Some(b"key".to_vec())];
    match csharp_command_blocking(Some(1), RequestType::Get, &args) {
        Ok(task) => {
            assert_eq!(args_of(&task.cmd), vec![b"GET".to_vec()]);
            assert_eq!(task.args, vec![CommandParameter::String("key".to_string())]);
        }
        Err(result) => panic!("rejected: {:?}", result),
    }
    match csharp_command_blocking(Some(1), RequestType::InvalidRequest, &args) {
        Ok(_) => panic!("accepted"),
        Err(result) => assert_eq!(result.error_string, c_string("Unknown request type")),
    }
}
