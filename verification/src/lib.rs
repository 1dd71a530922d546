//! Verified core of a foreign-function bridge between a host runtime and an
//! in-process data-store client.
//!
//! The bridge takes caller-owned, C-layout arguments, turns them into owned
//! command arguments, decides whether a command is dispatched, and lays a
//! nested reply out in one buffer whose size is found by a dry run. Everything
//! here works on plain values; reading foreign memory, running tasks and
//! calling back into the host are left to the code around this crate.

pub mod apihandle;
pub mod buffering;
pub mod conreq;
pub mod data;
pub mod helpers;
pub mod logging;
pub mod parameter;
pub mod routing;
pub mod value;

pub use crate::logging::csharp_set_logging_hooks;

use crate::apihandle::{args_view, CommandParameter};
use crate::conreq::{host_fault, ConnectionRequest, ConnectionSettings};
use crate::data::{
    c_string_of, CommandResult, CreateClientHandleResult, ECreateClientHandleCode,
    Utf8OrEmptyError,
};
use crate::helpers::to_cstr_or_null;
use crate::logging::LogRecord;
use crate::parameter::{
    bytes_view, parameters_decoded, parameters_failure, parameters_view, to_command_parameters,
    Parameter,
};
use crate::routing::{Route, RoutingInfo};
use crate::value::{EncodedValue, ReplyValue, Value, ValueKind};
use core::str::Utf8Error;
use glide_core::client::ConnectionError;
use glide_core::request_type::RequestType;
use vstd::prelude::*;
use vstd::string::{to_string_from_display_ensures, StringExecFns};
use vstd::utf8::encode_utf8;

verus! {

#[verifier::external_type_specification]
#[verifier::external_body]
pub struct ExRequestType(glide_core::request_type::RequestType);

#[verifier::external_type_specification]
#[verifier::external_body]
pub struct ExConnectionError(glide_core::client::ConnectionError);

/// The arguments of the command that a request type names, `None` where it
/// names none.
pub uninterp spec fn named_command(request_type: RequestType) -> Option<Seq<Seq<u8>>>;

/// The category of a connect error.
pub uninterp spec fn failure_kind(e: ConnectionError) -> ConnectionFailure;

/// `glide_core::request_type::RequestType::get_command`: the command that a
/// request type names, or `None` where it names none. Which command that is
/// depends on the request type alone.
#[verifier::external_body]
fn get_command(request_type: RequestType) -> (res: Option<redis::Cmd>)
    ensures
        match res {
            Some(cmd) => named_command(request_type) == Some(crate::apihandle::cmd_args(cmd)),
            None => named_command(request_type) is None,
        },
{
    request_type.get_command()
}

/// Tells the variants of `glide_core::client::ConnectionError` apart, one
/// category for each. The category depends on the error alone.
#[verifier::external_body]
fn connection_failure_of(e: &ConnectionError) -> (res: ConnectionFailure)
    ensures
        res == failure_kind(*e),
{
    match e {
        ConnectionError::Standalone(_) => ConnectionFailure::Standalone,
        ConnectionError::Cluster(_) => ConnectionFailure::Cluster,
        ConnectionError::Timeout => ConnectionFailure::Timeout,
        ConnectionError::IoError(_) => ConnectionFailure::IoError,
        ConnectionError::Configuration(_) => ConnectionFailure::Configuration,
        ConnectionError::IAMError(_) => ConnectionFailure::Authentication,
    }
}

/// The category of a connect that failed.
#[derive(Clone, Copy, Debug, PartialEq, Eq, Structural)]
pub enum ConnectionFailure {
    /// The connect to a standalone server failed.
    Standalone,
    /// The connect to a cluster failed.
    Cluster,
    /// The connect timed out.
    Timeout,
    /// The connect ended in an I/O error.
    IoError,
    /// The client refused the configuration before it connected.
    Configuration,
    /// The client could not authenticate.
    Authentication,
}

/// What came of the creation of a handle once the configuration was accepted.
#[derive(Debug, PartialEq, Eq)]
pub enum CreateEvent {
    /// The runtime could not be built; the text says why.
    ThreadCreationFailed(String),
    /// The connect failed; the text says why.
    ConnectionFailed(ConnectionFailure, String),
    /// The client is connected; the token stands for the new handle.
    Connected(usize),
}

/// A command that was accepted: what the task that runs it needs.
pub struct CommandTask {
    pub cmd: redis::Cmd,
    pub args: Vec<CommandParameter>,
    pub routing: Option<Route>,
}

/// The answer to a submitted command, and the task to run where it was
/// accepted.
pub struct CommandDispatch {
    pub result: CommandResult,
    pub task: Option<CommandTask>,
}

/// Why a submitted command is rejected.
pub enum Rejection {
    NullHandle,
    BadParameter(Utf8OrEmptyError),
    UnknownRequestType,
    BadRouting(Utf8OrEmptyError),
}

/// What the completion callback is called with.
#[derive(Debug, PartialEq, Eq)]
pub struct CallbackArguments {
    pub success: bool,
    pub value: EncodedValue,
}

/// True where an optional C string carries `text`: it is the text with a
/// closing NUL, or it is null because the text holds a NUL itself.
pub open spec fn carries(error_string: Option<Vec<u8>>, text: Seq<u8>) -> bool {
    bytes_view(error_string) == c_string_of(text)
}

/// The result code for each category of failed connect.
pub open spec fn failure_code(kind: ConnectionFailure) -> ECreateClientHandleCode {
    match kind {
        ConnectionFailure::Standalone => ECreateClientHandleCode::ConnectionToFailedError,
        ConnectionFailure::Cluster => ECreateClientHandleCode::ConnectionToClusterFailed,
        ConnectionFailure::Timeout => ECreateClientHandleCode::ConnectionTimedOutError,
        ConnectionFailure::IoError => ECreateClientHandleCode::ConnectionIoError,
        ConnectionFailure::Configuration => ECreateClientHandleCode::ParameterError,
        ConnectionFailure::Authentication => ECreateClientHandleCode::ConnectionToFailedError,
    }
}

/// The first reason, in the order of the checks, for which a submitted
/// command is rejected: a null handle, a parameter that cannot be decoded, a
/// command identifier that names no command, a routing directive that cannot
/// be decoded. `None` where the command is accepted.
pub open spec fn rejection_of(
    client: Option<usize>,
    command_known: bool,
    routing: Option<&RoutingInfo>,
    params: Seq<Parameter>,
) -> Option<Rejection> {
    if client is None {
        Some(Rejection::NullHandle)
    } else {
        match parameters_failure(parameters_view(params), 0) {
            Some(fault) => Some(Rejection::BadParameter(fault)),
            None => if !command_known {
                Some(Rejection::UnknownRequestType)
            } else {
                match routing {
                    Some(info) => match info.failure() {
                        Some(fault) => Some(Rejection::BadRouting(fault)),
                        None => None,
                    },
                    None => None,
                }
            },
        }
    }
}

/// True where an optional C string says the error of a string: it carries
/// `missing` for a string that was not there, and the words in which the
/// decoding error displays itself for bytes that are not UTF-8.
pub open spec fn says(
    error_string: Option<Vec<u8>>,
    e: Utf8OrEmptyError,
    missing: Seq<char>,
) -> bool {
    match e {
        Utf8OrEmptyError::Empty => carries(error_string, encode_utf8(missing)),
        Utf8OrEmptyError::Utf8Error(inner) => exists|text: String|
            #[trigger] to_string_from_display_ensures::<Utf8Error>(&inner, text) && carries(
                error_string,
                encode_utf8(text@),
            ),
    }
}

/// True where an optional C string is the one that a rejection is answered
/// with.
pub open spec fn rejection_said(rejection: Rejection, error_string: Option<Vec<u8>>) -> bool {
    match rejection {
        Rejection::NullHandle => carries(error_string, encode_utf8("Null handle passed"@)),
        Rejection::BadParameter(e) => says(error_string, e, "Null value passed for host"@),
        Rejection::UnknownRequestType => carries(
            error_string,
            encode_utf8("Unknown request type"@),
        ),
        Rejection::BadRouting(e) => says(
            error_string,
            e,
            "Routing info incomplete, null value passed in string"@,
        ),
    }
}

/// True of the encoded value that carries an error text: a simple string of
/// the text, with a closing NUL behind it.
pub open spec fn is_error_value(encoded: EncodedValue, text: Seq<char>) -> bool {
    &&& encoded.value == Value {
        kind: ValueKind::SimpleString,
        data: 0,
        length: encode_utf8(text).len() as u64,
    }
    &&& encoded.buffer@ == encode_utf8(text).push(0u8)
}

/// The words for an error of a string: those of the decoding error, or
/// `missing` where the string was not there.
fn error_text(e: &Utf8OrEmptyError, missing: &str) -> (res: String)
    ensures
        match *e {
            Utf8OrEmptyError::Utf8Error(inner) => to_string_from_display_ensures::<Utf8Error>(
                &inner,
                res,
            ),
            Utf8OrEmptyError::Empty => res@ == missing@,
        },
{
    match e {
        Utf8OrEmptyError::Utf8Error(e) => e.to_string(),
        Utf8OrEmptyError::Empty => missing.to_owned(),
    }
}

/// The answer that rejects a command with `text`.
fn rejected(text: &str) -> (res: CommandDispatch)
    ensures
        res.result.wf(),
        !res.result.success,
        res.task is None,
        carries(res.result.error_string, encode_utf8(text@)),
{
    CommandDispatch { result: CommandResult::new_error(to_cstr_or_null(text)), task: None }
}

/// The answer that rejects a command for the error of a string.
fn rejected_for(e: &Utf8OrEmptyError, missing: &str) -> (res: CommandDispatch)
    ensures
        res.result.wf(),
        !res.result.success,
        res.task is None,
        says(res.result.error_string, *e, missing@),
{
    let text = error_text(e, missing);
    rejected(text.as_str())
}

/// The first step of creating a client handle: the configuration is checked.
///
/// A configuration that passes is handed back, taken over, for the runtime to
/// be built and the client to be connected with it. One that does not pass
/// ends the creation: the result is a parameter error with no handle and an
/// error string. For a null or empty host the error string is there and says
/// that the host is missing; for a host that is not UTF-8 it carries the
/// words of the decoding error.
pub fn csharp_create_client_handle(request: &ConnectionRequest) -> (res: Result<
    ConnectionSettings,
    CreateClientHandleResult,
>)
    ensures
        match res {
            Ok(settings) => {
                &&& host_fault(bytes_view(request.host)) is None
                &&& settings.host@ == vstd::utf8::decode_utf8(request.host.unwrap()@)
                &&& settings.port == request.port
                &&& settings.use_tls == request.use_tls
                &&& settings.cluster_mode == request.cluster_mode
            },
            Err(result) => {
                &&& host_fault(bytes_view(request.host)) matches Some(e)
                &&& says(result.error_string, e, "Null value passed for host"@)
                &&& e is Empty ==> result.error_string is Some
                &&& result.wf()
                &&& result.result == ECreateClientHandleCode::ParameterError
                &&& result.client_handle is None
            },
        },
{
    match request.to_redis() {
        Ok(settings) => Ok(settings),
        Err(e) => {
            let text = error_text(&e, "Null value passed for host");
            proof {
                lemma_missing_host_text();
            }
            Err(
                CreateClientHandleResult::new_error(
                    ECreateClientHandleCode::ParameterError,
                    to_cstr_or_null(text.as_str()),
                ),
            )
        },
    }
}

/// The text for a missing host holds no NUL, so it has a C string.
proof fn lemma_missing_host_text()
    ensures
        c_string_of(encode_utf8("Null value passed for host"@)) is Some,
{
    let text = "Null value passed for host";
    reveal_strlit("Null value passed for host");
    assert(vstd::string::is_ascii(text)) by {
        reveal(vstd::utf8::is_ascii_chars);
    }
    vstd::string::is_ascii_spec_bytes(text);
    let bytes = encode_utf8(text@);
    assert(bytes =~= Seq::new(text@.len(), |i: int| text@.index(i) as u8));
    assert(!bytes.contains(0u8)) by {
        if bytes.contains(0u8) {
            let k = choose|k: int| 0 <= k < bytes.len() && bytes[k] == 0u8;
            assert(bytes[k] == text@.index(k) as u8);
        }
    }
}

/// The last step of creating a client handle: what came of building the
/// runtime and connecting becomes the result for the caller. Each failure has
/// the code of its category, no handle, and the text of the failure as error
/// string; a connected client is a success with its handle and no error
/// string. A configuration that the client refuses counts as a parameter
/// error, a failed authentication as a failed connect.
pub fn create_client_handle_result(event: CreateEvent) -> (res: CreateClientHandleResult)
    ensures
        res.wf(),
        match event {
            CreateEvent::ThreadCreationFailed(text) => {
                &&& res.result == ECreateClientHandleCode::ThreadCreationError
                &&& res.client_handle is None
                &&& carries(res.error_string, encode_utf8(text@))
            },
            CreateEvent::ConnectionFailed(kind, text) => {
                &&& res.result == failure_code(kind)
                &&& res.client_handle is None
                &&& carries(res.error_string, encode_utf8(text@))
            },
            CreateEvent::Connected(handle) => {
                &&& res.result == ECreateClientHandleCode::Success
                &&& res.client_handle == Some(handle)
                &&& res.error_string is None
            },
        },
{
    match event {
        CreateEvent::ThreadCreationFailed(text) => CreateClientHandleResult::new_error(
            ECreateClientHandleCode::ThreadCreationError,
            to_cstr_or_null(text.as_str()),
        ),
        CreateEvent::ConnectionFailed(kind, text) => {
            let code = match kind {
                ConnectionFailure::Standalone => ECreateClientHandleCode::ConnectionToFailedError,
                ConnectionFailure::Cluster => ECreateClientHandleCode::ConnectionToClusterFailed,
                ConnectionFailure::Timeout => ECreateClientHandleCode::ConnectionTimedOutError,
                ConnectionFailure::IoError => ECreateClientHandleCode::ConnectionIoError,
                ConnectionFailure::Configuration => ECreateClientHandleCode::ParameterError,
                ConnectionFailure::Authentication => ECreateClientHandleCode::ConnectionToFailedError,
            };
            CreateClientHandleResult::new_error(code, to_cstr_or_null(text.as_str()))
        },
        CreateEvent::Connected(handle) => CreateClientHandleResult::new_success(handle),
    }
}

/// The result of a creation whose connect failed with `e`: the code of the
/// category of `e`, no handle, and the words in which `e` displays itself as
/// error string.
pub fn connection_failed(e: ConnectionError) -> (res: CreateClientHandleResult)
    ensures
        res.wf(),
        res.client_handle is None,
        res.result == failure_code(failure_kind(e)),
        exists|text: String|
            #[trigger] to_string_from_display_ensures::<ConnectionError>(&e, text) && carries(
                res.error_string,
                encode_utf8(text@),
            ),
{
    let kind = connection_failure_of(&e);
    let text = e.to_string();
    create_client_handle_result(CreateEvent::ConnectionFailed(kind, text))
}

/// True where `res` answers a submitted command as `rejection` asks: a
/// rejected command gets a failure with its error string and no task, an
/// accepted one a success without error string and a task that holds the
/// decoded arguments, in order, and the decoded route.
pub open spec fn answers(
    res: CommandDispatch,
    rejection: Option<Rejection>,
    routing: Option<&RoutingInfo>,
    params: Seq<Parameter>,
) -> bool {
    match rejection {
        None => {
            &&& res.result.success
            &&& res.task matches Some(task)
            &&& args_view(task.args@) == parameters_decoded(parameters_view(params))
            &&& match routing {
                Some(info) => task.routing matches Some(route) && route@ == info.decoded(),
                None => task.routing is None,
            }
        },
        Some(rejection) => {
            &&& !res.result.success
            &&& res.task is None
            &&& rejection_said(rejection, res.result.error_string)
        },
    }
}

/// Decides what becomes of a submitted command.
///
/// The command is looked up by its request type and the decision is that of
/// [`dispatch_command`] on what the lookup gives. The command of an accepted
/// task is the one that the request type names.
pub fn csharp_command(
    client: Option<usize>,
    request_type: RequestType,
    routing: Option<&RoutingInfo>,
    args: &[Parameter],
) -> (res: CommandDispatch)
    requires
        forall|i: int| 0 <= i < args@.len() ==> (#[trigger] args@[i])@.wf(),
    ensures
        res.result.wf(),
        answers(
            res,
            rejection_of(client, named_command(request_type) is Some, routing, args@),
            routing,
            args@,
        ),
        res.task matches Some(task) ==> named_command(request_type) == Some(
            crate::apihandle::cmd_args(task.cmd),
        ),
{
    dispatch_command(client, get_command(request_type), routing, args)
}

/// Decides what becomes of a submitted command, given what its request type
/// names.
///
/// `client` is the handle of the caller (`None` for a null handle), `command`
/// the command that the request type names (`None` where it names none),
/// `routing` the routing directive if one was given, `args` the parameters.
///
/// The checks run in this order: the handle, the parameters, the command,
/// the routing directive. The first that fails rejects the command: the
/// answer is a failure with an error string, and there is no task, so nothing
/// runs and no callback is ever called. Where all pass, the answer is a
/// success without error string, and the task holds the command, the decoded
/// arguments in order and the decoded route.
pub fn dispatch_command(
    client: Option<usize>,
    command: Option<redis::Cmd>,
    routing: Option<&RoutingInfo>,
    args: &[Parameter],
) -> (res: CommandDispatch)
    requires
        forall|i: int| 0 <= i < args@.len() ==> (#[trigger] args@[i])@.wf(),
    ensures
        res.result.wf(),
        answers(res, rejection_of(client, command is Some, routing, args@), routing, args@),
        res.task matches Some(task) ==> task.cmd == command.unwrap(),
{
    if client.is_none() {
        return rejected("Null handle passed");
    }
    let args = match to_command_parameters(args) {
        Ok(d) => d,
        Err(e) => {
            return rejected_for(&e, "Null value passed for host");
        },
    };
    let cmd = match command {
        None => {
            return rejected("Unknown request type");
        },
        Some(d) => d,
    };
    let routing_info = match routing {
        None => None,
        Some(info) => match info.to_redis() {
            Ok(d) => Some(d),
            Err(e) => {
                return rejected_for(&e, "Routing info incomplete, null value passed in string");
            },
        },
    };
    CommandDispatch {
        result: CommandResult::new_success(),
        task: Some(CommandTask { cmd, args, routing: routing_info }),
    }
}

/// Turns the end of a command into what the callback is called with.
///
/// A reply is encoded, and the callback gets success with the encoded value.
/// An error of the command, given by its text, and a reply that cannot be
/// encoded both give failure with the text as an encoded simple string with a
/// closing NUL.
pub fn command_completed(outcome: Result<ReplyValue, String>) -> (res: CallbackArguments)
    ensures
        match outcome {
            Ok(reply) => if reply.payload_size() <= usize::MAX {
                &&& res.success
                &&& res.value.value == reply.record(0)
                &&& res.value.buffer@ == reply.payload(0)
            } else {
                &&& !res.success
                &&& is_error_value(res.value, "reply does not fit into one buffer"@)
            },
            Err(text) => !res.success && is_error_value(res.value, text@),
        },
{
    match outcome {
        Ok(reply) => match Value::encode(&reply) {
            Ok(value) => CallbackArguments { success: true, value },
            Err(e) => {
                let text = e.to_string();
                CallbackArguments {
                    success: false,
                    value: Value::simple_string_with_null(text.as_str()),
                }
            },
        },
        Err(text) => CallbackArguments {
            success: false,
            value: Value::simple_string_with_null(text.as_str()),
        },
    }
}

/// Decides what is logged after the callback was called. `unwound` holds the
/// words of the failure where the callback did not return but unwound. Such
/// a failure ends here: it gives exactly one entry for the error log, and a
/// callback that returned gives none.
pub fn callback_guard(unwound: Option<&str>) -> (res: Option<LogRecord>)
    ensures
        match unwound {
            Some(failure) => res matches Some(record) && record.target@ == "csharp_ffi"@
                && record.message@ == "Exception in C# callback: "@ + failure@,
            None => res is None,
        },
{
    match unwound {
        Some(failure) => Some(
            LogRecord {
                target: String::from_str("csharp_ffi"),
                message: String::from_str("Exception in C# callback: ").concat(failure),
            },
        ),
        None => None,
    }
}

/// Takes back an encoded value from the caller. The value owns its buffer,
/// which goes with it.
pub fn csharp_free_value(_input: EncodedValue) {
}

/// The result of a command that was run to its end on the calling thread:
/// success with the encoded reply, or failure with an error string.
#[derive(Debug, PartialEq, Eq)]
pub struct BlockingCommandResult {
    pub success: bool,
    pub value: Option<EncodedValue>,
    pub error_string: Option<Vec<u8>>,
}

impl BlockingCommandResult {
    /// A value exactly on success, and never a value beside an error string.
    pub open spec fn wf(&self) -> bool {
        &&& self.success <==> self.value is Some
        &&& self.value is Some ==> self.error_string is None
        &&& self.error_string matches Some(s) ==> crate::data::is_c_string(s@)
    }
}

/// The parameters that stand for the string arguments of a blocking command.
pub open spec fn string_parameters(args: Seq<Option<Vec<u8>>>) -> Seq<
    crate::parameter::ParameterView,
> {
    Seq::new(args.len(), |i: int| crate::parameter::string_parameter(bytes_view(args[i])))
}

/// The first reason, in the order of the checks, for which a blocking command
/// is rejected: a null handle, an argument that is no string, a command
/// identifier that names no command. `None` where the command is run.
pub open spec fn blocking_rejection_of(
    client: Option<usize>,
    command_known: bool,
    args: Seq<Option<Vec<u8>>>,
) -> Option<Rejection> {
    if client is None {
        Some(Rejection::NullHandle)
    } else {
        match parameters_failure(string_parameters(args), 0) {
            Some(fault) => Some(Rejection::BadParameter(fault)),
            None => if !command_known {
                Some(Rejection::UnknownRequestType)
            } else {
                None
            },
        }
    }
}

/// The result that rejects a blocking command with `text`.
fn blocking_rejected(text: &str) -> (res: BlockingCommandResult)
    ensures
        res.wf(),
        !res.success,
        carries(res.error_string, encode_utf8(text@)),
{
    BlockingCommandResult { success: false, value: None, error_string: to_cstr_or_null(text) }
}

/// True where `res` answers a blocking command as `rejection` asks: a
/// rejected command gets a failure with its error string, an accepted one a
/// task without route that holds the arguments, each as a string argument,
/// in order.
pub open spec fn answers_blocking(
    res: Result<CommandTask, BlockingCommandResult>,
    rejection: Option<Rejection>,
    args: Seq<Option<Vec<u8>>>,
) -> bool {
    match res {
        Ok(task) => {
            &&& rejection is None
            &&& task.routing is None
            &&& args_view(task.args@) == parameters_decoded(string_parameters(args))
        },
        Err(result) => {
            &&& result.wf()
            &&& !result.success
            &&& rejection matches Some(rejection)
            &&& rejection_said(rejection, result.error_string)
        },
    }
}

/// Decides whether a blocking command is run.
///
/// The command is looked up by its request type and the decision is that of
/// [`dispatch_blocking_command`] on what the lookup gives.
pub fn csharp_command_blocking(
    client: Option<usize>,
    request_type: RequestType,
    args: &[Option<Vec<u8>>],
) -> (res: Result<CommandTask, BlockingCommandResult>)
    ensures
        answers_blocking(
            res,
            blocking_rejection_of(client, named_command(request_type) is Some, args@),
            args@,
        ),
        res matches Ok(task) ==> named_command(request_type) == Some(
            crate::apihandle::cmd_args(task.cmd),
        ),
{
    dispatch_blocking_command(client, get_command(request_type), args)
}

/// Decides whether a blocking command is run, given what its request type
/// names.
///
/// The arguments are strings of the caller, each its bytes or `None` for a
/// null pointer. The checks are those of [`dispatch_command`], without a
/// routing directive: the handle, the arguments, the command. The first that
/// fails ends the call with a failure and its error string. Where all pass,
/// the task holds the command and the arguments, each as a string argument,
/// in order.
pub fn dispatch_blocking_command(
    client: Option<usize>,
    command: Option<redis::Cmd>,
    args: &[Option<Vec<u8>>],
) -> (res: Result<CommandTask, BlockingCommandResult>)
    ensures
        answers_blocking(res, blocking_rejection_of(client, command is Some, args@), args@),
        res matches Ok(task) ==> task.cmd == command.unwrap(),
{
    if client.is_none() {
        return Err(blocking_rejected("Null handle passed"));
    }
    let mut params: Vec<Parameter> = Vec::with_capacity(args.len());
    let mut i: usize = 0;
    while i < args.len()
        invariant
            i <= args@.len(),
            params@.len() == i,
            forall|j: int|
                0 <= j < i ==> (#[trigger] params@[j])@ == crate::parameter::string_parameter(
                    bytes_view(args@[j]),
                ),
        decreases args@.len() - i,
    {
        let param = match &args[i] {
            Some(bytes) => Parameter::string(Some(bytes.as_slice())),
            None => Parameter::string(None),
        };
        params.push(param);
        i += 1;
    }
    assert(parameters_view(params@) =~= string_parameters(args@));
    let args = match to_command_parameters(params.as_slice()) {
        Ok(d) => d,
        Err(e) => {
            let text = error_text(&e, "Null value passed for host");
            return Err(blocking_rejected(text.as_str()));
        },
    };
    match command {
        Some(cmd) => Ok(CommandTask { cmd, args, routing: None }),
        None => Err(blocking_rejected("Unknown request type")),
    }
}

/// Turns the end of a blocking command into the result for the caller.
///
/// A reply is encoded and handed back as a success. An error of the command,
/// given by its text, and a reply that cannot be encoded both give a failure
/// with the text as error string.
pub fn blocking_command_result(outcome: Result<ReplyValue, String>) -> (res:
    BlockingCommandResult)
    ensures
        res.wf(),
        match outcome {
            Ok(reply) => if reply.payload_size() <= usize::MAX {
                &&& res.success
                &&& res.value matches Some(encoded)
                &&& encoded.value == reply.record(0)
                &&& encoded.buffer@ == reply.payload(0)
            } else {
                &&& !res.success
                &&& carries(res.error_string, encode_utf8("reply does not fit into one buffer"@))
            },
            Err(text) => !res.success && carries(res.error_string, encode_utf8(text@)),
        },
{
    match outcome {
        Ok(reply) => match Value::encode(&reply) {
            Ok(value) => BlockingCommandResult {
                success: true,
                value: Some(value),
                error_string: None,
            },
            Err(e) => {
                let text = e.to_string();
                blocking_rejected(text.as_str())
            },
        },
        Err(text) => blocking_rejected(text.as_str()),
    }
}

} // verus!
