//! Core logic of a Modbus client/server pair: the server-side register store
//! with its function-code dispatcher, and the client-side helpers that select
//! a transport endpoint and classify the outcome of each protocol call.
//!
//! Everything here is plain computation; the surrounding binary owns the
//! sockets, serial lines and timers and feeds their results into these types.

pub mod cli;
pub mod client;
pub mod decimal;
pub mod dispatch;
pub mod store;
pub mod transport;

pub use cli::{validate_coil_qty, validate_register_qty, DataBits, Parity, StopBits};
pub use dispatch::{dispatch, ExceptionCode, Request, Response};
pub use store::ModbusData;
pub use client::{handle_modbus_response_with_timeout, ClientError, OperationOutcome, TimedResult};
pub use transport::{classify_connect, select_server_endpoint, select_transport, ConfigError, ConnectError, ConnectOutcome, TransportEndpoint};

