//! The client-side operation coordinator: every read or write call is run
//! under a timeout, and its three-level outcome (transport fault, protocol
//! exception, timeout) is folded into one normalized result, together with
//! the log line the caller is expected to print.

use vstd::prelude::*;
use vstd::string::StringExecFns;

use crate::decimal::{spec_decimal, u64_to_decimal};
use crate::dispatch::ExceptionCode;

verus! {

/// What the protocol library reported for one call that did complete:
/// a value, an exception response from the remote unit, or a fault of the
/// transport itself (described as text).
#[derive(Clone, PartialEq, Debug)]
pub enum OperationOutcome<T> {
    Success(T),
    ProtocolException(ExceptionCode),
    TransportFailure(String),
}

/// One call as seen from under the operation timeout: it completed with some
/// outcome, or the timeout elapsed first.
#[derive(Clone, PartialEq, Debug)]
pub enum TimedResult<T> {
    Completed(OperationOutcome<T>),
    Elapsed,
}

/// The single normalized failure of a coordinated call.
#[derive(Clone, PartialEq, Debug)]
pub enum ClientError {
    ModbusException(ExceptionCode),
    TransportError(String),
    OperationTimeout,
}

/// The name of an exception code, as written in reports.
pub open spec fn spec_exception_name(code: ExceptionCode) -> Seq<char> {
    match code {
        ExceptionCode::IllegalFunction => "IllegalFunction"@,
        ExceptionCode::IllegalDataAddress => "IllegalDataAddress"@,
        ExceptionCode::IllegalDataValue => "IllegalDataValue"@,
        ExceptionCode::ServerDeviceFailure => "ServerDeviceFailure"@,
        ExceptionCode::Acknowledge => "Acknowledge"@,
        ExceptionCode::ServerDeviceBusy => "ServerDeviceBusy"@,
        ExceptionCode::MemoryParityError => "MemoryParityError"@,
        ExceptionCode::GatewayPathUnavailable => "GatewayPathUnavailable"@,
        ExceptionCode::GatewayTargetDevice => "GatewayTargetDevice"@,
        ExceptionCode::Custom(value) => "Custom("@ + spec_decimal(value as nat) + ")"@,
    }
}

/// Render the name of an exception code.
pub fn exception_name(code: ExceptionCode) -> (r: String)
    ensures
        r@ == spec_exception_name(code),
{
    match code {
        ExceptionCode::IllegalFunction => String::from_str("IllegalFunction"),
        ExceptionCode::IllegalDataAddress => String::from_str("IllegalDataAddress"),
        ExceptionCode::IllegalDataValue => String::from_str("IllegalDataValue"),
        ExceptionCode::ServerDeviceFailure => String::from_str("ServerDeviceFailure"),
        ExceptionCode::Acknowledge => String::from_str("Acknowledge"),
        ExceptionCode::ServerDeviceBusy => String::from_str("ServerDeviceBusy"),
        ExceptionCode::MemoryParityError => String::from_str("MemoryParityError"),
        ExceptionCode::GatewayPathUnavailable => String::from_str("GatewayPathUnavailable"),
        ExceptionCode::GatewayTargetDevice => String::from_str("GatewayTargetDevice"),
        ExceptionCode::Custom(value) => {
            let digits = u64_to_decimal(value as u64);
            let mut m = String::from_str("Custom(");
            m.append(digits.as_str());
            m.append(")");
            m
        },
    }
}

/// The text a normalized failure carries.
pub open spec fn spec_error_message(e: ClientError) -> Seq<char> {
    match e {
        ClientError::ModbusException(code) => "Modbus exception: "@ + spec_exception_name(code),
        ClientError::TransportError(cause) => cause@,
        ClientError::OperationTimeout => "Operation timeout"@,
    }
}

impl ClientError {
    /// Render this failure as text.
    pub fn message(&self) -> (r: String)
        ensures
            r@ == spec_error_message(*self),
    {
        match self {
            ClientError::ModbusException(code) => {
                let name = exception_name(*code);
                let mut m = String::from_str("Modbus exception: ");
                m.append(name.as_str());
                m
            },
            ClientError::TransportError(cause) => cause.clone(),
            ClientError::OperationTimeout => String::from_str("Operation timeout"),
        }
    }
}

/// The log line for an exception response.
pub open spec fn exception_log_line(code: ExceptionCode) -> Seq<char> {
    "Modbus exception response: "@ + spec_exception_name(code)
}

/// The log line for a transport fault during the named operation.
pub open spec fn transport_log_line(operation: Seq<char>, cause: Seq<char>) -> Seq<char> {
    "Failed to "@ + operation + ": "@ + cause
}

/// The log line for an operation timeout.
pub open spec fn timeout_log_line(operation: Seq<char>, timeout_secs: u64) -> Seq<char> {
    "Operation '"@ + operation + "' timed out after "@ + spec_decimal(timeout_secs as nat)
        + " seconds"@
}

/// Normalize the outcome of one timed protocol call: pass a success through,
/// fold an exception response, a transport fault or an elapsed timeout into
/// the one failure value, and say what is to be logged.
pub fn handle_modbus_response_with_timeout<T>(
    result: TimedResult<T>,
    operation: &str,
    timeout_secs: u64,
) -> (r: (Result<T, ClientError>, Option<String>))
    ensures
        result matches TimedResult::Completed(OperationOutcome::Success(value)) ==> r.0 == Ok::<
            T,
            ClientError,
        >(value) && r.1 == None::<String>,
        result matches TimedResult::Completed(OperationOutcome::ProtocolException(code)) ==> r.0
            == Err::<T, ClientError>(ClientError::ModbusException(code)) && (r.1 matches Some(m)
            && m@ == exception_log_line(code)),
        result matches TimedResult::Completed(OperationOutcome::TransportFailure(cause)) ==> (r.0
            matches Err(ClientError::TransportError(carried)) && carried@ == cause@) && (r.1
            matches Some(m) && m@ == transport_log_line(operation@, cause@)),
        result matches TimedResult::Elapsed ==> r.0 == Err::<T, ClientError>(
            ClientError::OperationTimeout,
        ) && (r.1 matches Some(m) && m@ == timeout_log_line(operation@, timeout_secs)),
{
    match result {
        TimedResult::Completed(outcome) => match outcome {
            OperationOutcome::Success(value) => (Ok(value), Option::None),
            OperationOutcome::ProtocolException(code) => {
                let name = exception_name(code);
                let mut m = String::from_str("Modbus exception response: ");
                m.append(name.as_str());
                (Err(ClientError::ModbusException(code)), Option::Some(m))
            },
            OperationOutcome::TransportFailure(cause) => {
                let mut m = String::from_str("Failed to ");
                m.append(operation);
                m.append(": ");
                m.append(cause.as_str());
                (Err(ClientError::TransportError(cause)), Option::Some(m))
            },
        },
        TimedResult::Elapsed => {
            let digits = u64_to_decimal(timeout_secs);
            let mut m = String::from_str("Operation '");
            m.append(operation);
            m.append("' timed out after ");
            m.append(digits.as_str());
            m.append(" seconds");
            (Err(ClientError::OperationTimeout), Option::Some(m))
        },
    }
}

} // verus!
