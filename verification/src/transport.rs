//! The client-side transport connector's decisions: which endpoint a given
//! configuration selects (TCP or serial RTU, never both, never neither), and
//! how the outcome of a timed connect attempt is classified.
//!
//! The caller owns the sockets and serial lines; it feeds the selected
//! endpoint into its connect primitive and hands the outcome back here.

use vstd::prelude::*;
use vstd::string::StringExecFns;

use crate::cli::{DataBits, Parity, StopBits};
use crate::decimal::{spec_decimal, u64_to_decimal};

verus! {

/// A fully selected transport endpoint.
#[derive(Clone, PartialEq, Debug)]
pub enum TransportEndpoint {
    /// Modbus TCP: a host address (textual) and a port.
    Tcp { address: String, port: u16 },
    /// Modbus serial RTU: a device path and the line parameters.
    Rtu { device: String, baud: u32, parity: Parity, stop_bits: StopBits, data_bits: DataBits },
}

/// A configuration that selects no usable endpoint. Raised before any
/// connection attempt.
#[derive(Clone, Copy, PartialEq, Eq, Structural, Debug)]
pub enum ConfigError {
    /// Both an address and a serial device were supplied.
    BothSelected,
    /// Neither an address nor a serial device was supplied.
    NeitherSelected,
}

/// What a timed connect attempt came back with: a live handle, a transport
/// fault (described as text), or nothing before the timeout elapsed.
#[derive(Clone, PartialEq, Debug)]
pub enum ConnectOutcome<T> {
    Connected(T),
    Failed(String),
    Elapsed,
}

/// The failure of a connect attempt: a transport-level fault, or the
/// distinct case that the connect-phase timeout elapsed first.
#[derive(Clone, PartialEq, Debug)]
pub enum ConnectError {
    ConnectFailed(String),
    ConnectTimeout,
}

/// The text a connect failure carries.
pub open spec fn spec_connect_error_message(e: ConnectError) -> Seq<char> {
    match e {
        ConnectError::ConnectFailed(cause) => cause@,
        ConnectError::ConnectTimeout => "Connection timeout"@,
    }
}

impl ConnectError {
    /// Render this failure as text.
    pub fn message(&self) -> (r: String)
        ensures
            r@ == spec_connect_error_message(*self),
    {
        match self {
            ConnectError::ConnectFailed(cause) => cause.clone(),
            ConnectError::ConnectTimeout => String::from_str("Connection timeout"),
        }
    }
}

/// Select the client's endpoint: exactly one of `{ip, device}` must be
/// given; both or neither is a configuration error, raised here, before any
/// connection attempt.
pub fn select_transport(
    ip: Option<String>,
    port: u16,
    device: Option<String>,
    baud: u32,
    parity: Parity,
    stop_bits: StopBits,
    data_bits: DataBits,
) -> (r: Result<TransportEndpoint, ConfigError>)
    ensures
        ip matches Some(a) ==> device is None ==> (r matches Ok(e) && e matches
            TransportEndpoint::Tcp { address, port: p } && address@ == a@ && p == port),
        device matches Some(d) ==> ip is None ==> (r matches Ok(e) && e matches
            TransportEndpoint::Rtu { device: dev, baud: b, parity: pa, stop_bits: sb, data_bits: db }
            && dev@ == d@ && b == baud && pa == parity && sb == stop_bits && db == data_bits),
        ip is None && device is None ==> r == Err::<TransportEndpoint, _>(
            ConfigError::NeitherSelected,
        ),
        ip is Some && device is Some ==> r == Err::<TransportEndpoint, _>(
            ConfigError::BothSelected,
        ),
{
    match (ip, device) {
        (Option::Some(address), Option::None) => Ok(TransportEndpoint::Tcp { address, port }),
        (Option::None, Option::Some(device)) => Ok(
            TransportEndpoint::Rtu { device, baud, parity, stop_bits, data_bits },
        ),
        (Option::None, Option::None) => Err(ConfigError::NeitherSelected),
        (Option::Some(_), Option::Some(_)) => Err(ConfigError::BothSelected),
    }
}

/// Select the server's endpoint. As for the client, both an address and a
/// device is a configuration error; but a server given neither listens on
/// TCP at the wildcard address.
pub fn select_server_endpoint(
    ip: Option<String>,
    port: u16,
    device: Option<String>,
    baud: u32,
    parity: Parity,
    stop_bits: StopBits,
    data_bits: DataBits,
) -> (r: Result<TransportEndpoint, ConfigError>)
    ensures
        ip matches Some(a) ==> device is None ==> (r matches Ok(e) && e matches
            TransportEndpoint::Tcp { address, port: p } && address@ == a@ && p == port),
        device matches Some(d) ==> ip is None ==> (r matches Ok(e) && e matches
            TransportEndpoint::Rtu { device: dev, baud: b, parity: pa, stop_bits: sb, data_bits: db }
            && dev@ == d@ && b == baud && pa == parity && sb == stop_bits && db == data_bits),
        ip is None && device is None ==> (r matches Ok(e) && e matches TransportEndpoint::Tcp {
            address, port: p } && address@ == "0.0.0.0"@ && p == port),
        ip is Some && device is Some ==> r == Err::<TransportEndpoint, _>(
            ConfigError::BothSelected,
        ),
{
    match (ip, device) {
        (Option::Some(address), Option::None) => Ok(TransportEndpoint::Tcp { address, port }),
        (Option::None, Option::Some(device)) => Ok(
            TransportEndpoint::Rtu { device, baud, parity, stop_bits, data_bits },
        ),
        (Option::None, Option::None) => Ok(
            TransportEndpoint::Tcp { address: String::from_str("0.0.0.0"), port },
        ),
        (Option::Some(_), Option::Some(_)) => Err(ConfigError::BothSelected),
    }
}

/// The log line for a failed connect attempt to the named target.
pub open spec fn connect_failed_log_line(target: Seq<char>, cause: Seq<char>) -> Seq<char> {
    "Failed to connect to "@ + target + " - Error: "@ + cause
}

/// The log line for a connect attempt that outran its timeout.
pub open spec fn connect_timeout_log_line(target: Seq<char>, timeout_secs: u64) -> Seq<char> {
    "Connection to "@ + target + " timed out after "@ + spec_decimal(timeout_secs as nat)
        + " seconds"@
}

/// Classify the outcome of one timed connect attempt: pass a live handle
/// through, and keep a transport fault distinguishable from the
/// connect-phase timeout; say what is to be logged, annotated with the
/// target that was dialed.
pub fn classify_connect<T>(outcome: ConnectOutcome<T>, target: &str, timeout_secs: u64) -> (r: (
    Result<T, ConnectError>,
    Option<String>,
))
    ensures
        outcome matches ConnectOutcome::Connected(handle) ==> r.0 == Ok::<T, ConnectError>(handle)
            && r.1 == None::<String>,
        outcome matches ConnectOutcome::Failed(cause) ==> (r.0 matches Err(
            ConnectError::ConnectFailed(carried),
        ) && carried@ == cause@) && (r.1 matches Some(m) && m@ == connect_failed_log_line(
            target@,
            cause@,
        )),
        outcome matches ConnectOutcome::Elapsed ==> r.0 == Err::<T, ConnectError>(
            ConnectError::ConnectTimeout,
        ) && (r.1 matches Some(m) && m@ == connect_timeout_log_line(target@, timeout_secs)),
{
    match outcome {
        ConnectOutcome::Connected(handle) => (Ok(handle), Option::None),
        ConnectOutcome::Failed(cause) => {
            let mut m = String::from_str("Failed to connect to ");
            m.append(target);
            m.append(" - Error: ");
            m.append(cause.as_str());
            (Err(ConnectError::ConnectFailed(cause)), Option::Some(m))
        },
        ConnectOutcome::Elapsed => {
            let digits = u64_to_decimal(timeout_secs);
            let mut m = String::from_str("Connection to ");
            m.append(target);
            m.append(" timed out after ");
            m.append(digits.as_str());
            m.append(" seconds");
            (Err(ConnectError::ConnectTimeout), Option::Some(m))
        },
    }
}

} // verus!
