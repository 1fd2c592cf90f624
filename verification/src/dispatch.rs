//! The function-code dispatcher: maps one parsed protocol request onto one
//! register-store operation and turns the store's outcome into a protocol
//! response or exception.

use vstd::prelude::*;

use crate::store::{
    bit_bank, spec_read_bits, spec_read_words, spec_write_bit, spec_write_bits, spec_write_word,
    spec_write_words, word_bank, BitKind, ModbusData, StoreError, StoreModel, WordKind,
};

verus! {

/// A Modbus exception code, as carried in an exception response.
#[derive(Clone, Copy, PartialEq, Eq, Structural, Debug)]
pub enum ExceptionCode {
    IllegalFunction,
    IllegalDataAddress,
    IllegalDataValue,
    ServerDeviceFailure,
    Acknowledge,
    ServerDeviceBusy,
    MemoryParityError,
    GatewayPathUnavailable,
    GatewayTargetDevice,
    Custom(u8),
}

/// The eight requests this server carries out, plus a catch-all for every
/// other function code, which is always rejected.
#[derive(Clone, PartialEq, Debug)]
pub enum Request {
    /// Read `qty` coils starting at `addr`.
    ReadCoils(u16, u16),
    /// Read `qty` discrete inputs starting at `addr`.
    ReadDiscreteInputs(u16, u16),
    /// Read `qty` holding registers starting at `addr`.
    ReadHoldingRegisters(u16, u16),
    /// Read `qty` input registers starting at `addr`.
    ReadInputRegisters(u16, u16),
    /// Set the coil at `addr` to the given value.
    WriteSingleCoil(u16, bool),
    /// Set the holding register at `addr` to the given value.
    WriteSingleRegister(u16, u16),
    /// Set the coils starting at `addr` to the given values.
    WriteMultipleCoils(u16, Vec<bool>),
    /// Set the holding registers starting at `addr` to the given values.
    WriteMultipleRegisters(u16, Vec<u16>),
    /// Any request with a function code outside the eight above.
    Unsupported,
}

/// The successful responses, one per supported request.
#[derive(Clone, PartialEq, Debug)]
pub enum Response {
    ReadCoils(Vec<bool>),
    ReadDiscreteInputs(Vec<bool>),
    ReadHoldingRegisters(Vec<u16>),
    ReadInputRegisters(Vec<u16>),
    WriteSingleCoil(u16, bool),
    WriteSingleRegister(u16, u16),
    /// Echoes the start address and how many coils were written.
    WriteMultipleCoils(u16, u16),
    /// Echoes the start address and how many registers were written.
    WriteMultipleRegisters(u16, u16),
}

/// Mathematical model of a request.
pub enum ReqModel {
    ReadCoils(u16, u16),
    ReadDiscreteInputs(u16, u16),
    ReadHoldingRegisters(u16, u16),
    ReadInputRegisters(u16, u16),
    WriteSingleCoil(u16, bool),
    WriteSingleRegister(u16, u16),
    WriteMultipleCoils(u16, Seq<bool>),
    WriteMultipleRegisters(u16, Seq<u16>),
    Unsupported,
}

/// Mathematical model of a response.
pub enum RespModel {
    ReadCoils(Seq<bool>),
    ReadDiscreteInputs(Seq<bool>),
    ReadHoldingRegisters(Seq<u16>),
    ReadInputRegisters(Seq<u16>),
    WriteSingleCoil(u16, bool),
    WriteSingleRegister(u16, u16),
    WriteMultipleCoils(u16, u16),
    WriteMultipleRegisters(u16, u16),
}

impl View for Request {
    type V = ReqModel;

    open spec fn view(&self) -> ReqModel {
        match self {
            Request::ReadCoils(addr, qty) => ReqModel::ReadCoils(*addr, *qty),
            Request::ReadDiscreteInputs(addr, qty) => ReqModel::ReadDiscreteInputs(*addr, *qty),
            Request::ReadHoldingRegisters(addr, qty) => ReqModel::ReadHoldingRegisters(*addr, *qty),
            Request::ReadInputRegisters(addr, qty) => ReqModel::ReadInputRegisters(*addr, *qty),
            Request::WriteSingleCoil(addr, value) => ReqModel::WriteSingleCoil(*addr, *value),
            Request::WriteSingleRegister(addr, value) => ReqModel::WriteSingleRegister(
                *addr,
                *value,
            ),
            Request::WriteMultipleCoils(addr, values) => ReqModel::WriteMultipleCoils(
                *addr,
                values@,
            ),
            Request::WriteMultipleRegisters(addr, values) => ReqModel::WriteMultipleRegisters(
                *addr,
                values@,
            ),
            Request::Unsupported => ReqModel::Unsupported,
        }
    }
}

impl View for Response {
    type V = RespModel;

    open spec fn view(&self) -> RespModel {
        match self {
            Response::ReadCoils(values) => RespModel::ReadCoils(values@),
            Response::ReadDiscreteInputs(values) => RespModel::ReadDiscreteInputs(values@),
            Response::ReadHoldingRegisters(values) => RespModel::ReadHoldingRegisters(values@),
            Response::ReadInputRegisters(values) => RespModel::ReadInputRegisters(values@),
            Response::WriteSingleCoil(addr, value) => RespModel::WriteSingleCoil(*addr, *value),
            Response::WriteSingleRegister(addr, value) => RespModel::WriteSingleRegister(
                *addr,
                *value,
            ),
            Response::WriteMultipleCoils(addr, qty) => RespModel::WriteMultipleCoils(*addr, *qty),
            Response::WriteMultipleRegisters(addr, qty) => RespModel::WriteMultipleRegisters(
                *addr,
                *qty,
            ),
        }
    }
}

/// A store whose banks all fit the 16-bit address space, as fixed at
/// construction.
pub open spec fn wf_store(s: StoreModel) -> bool {
    &&& s.coils.len() <= u16::MAX
    &&& s.discrete_inputs.len() <= u16::MAX
    &&& s.holding_registers.len() <= u16::MAX
    &&& s.input_registers.len() <= u16::MAX
}

/// The model of a dispatch result: the response's model on success, the
/// exception code otherwise.
pub open spec fn resp_model(r: Result<Response, ExceptionCode>) -> Result<RespModel, ExceptionCode> {
    match r {
        Ok(resp) => Ok(resp@),
        Err(code) => Err(code),
    }
}

/// What one dispatched request does: the store afterwards, and the response
/// or exception returned. Reads and writes that overrun the targeted bank
/// yield `IllegalDataAddress` and leave the store untouched; a function code
/// outside the supported eight yields `IllegalFunction` whatever the store
/// holds.
pub open spec fn spec_dispatch(s: StoreModel, req: ReqModel) -> (StoreModel, Result<
    RespModel,
    ExceptionCode,
>) {
    match req {
        ReqModel::ReadCoils(addr, qty) => (
            s,
            match spec_read_bits(s, BitKind::Coils, addr, qty) {
                Ok(values) => Ok(RespModel::ReadCoils(values)),
                Err(_) => Err(ExceptionCode::IllegalDataAddress),
            },
        ),
        ReqModel::ReadDiscreteInputs(addr, qty) => (
            s,
            match spec_read_bits(s, BitKind::DiscreteInputs, addr, qty) {
                Ok(values) => Ok(RespModel::ReadDiscreteInputs(values)),
                Err(_) => Err(ExceptionCode::IllegalDataAddress),
            },
        ),
        ReqModel::ReadHoldingRegisters(addr, qty) => (
            s,
            match spec_read_words(s, WordKind::Holding, addr, qty) {
                Ok(values) => Ok(RespModel::ReadHoldingRegisters(values)),
                Err(_) => Err(ExceptionCode::IllegalDataAddress),
            },
        ),
        ReqModel::ReadInputRegisters(addr, qty) => (
            s,
            match spec_read_words(s, WordKind::Input, addr, qty) {
                Ok(values) => Ok(RespModel::ReadInputRegisters(values)),
                Err(_) => Err(ExceptionCode::IllegalDataAddress),
            },
        ),
        ReqModel::WriteSingleCoil(addr, value) => if addr < s.coils.len() {
            (
                spec_write_bit(s, BitKind::Coils, addr, value),
                Ok(RespModel::WriteSingleCoil(addr, value)),
            )
        } else {
            (s, Err(ExceptionCode::IllegalDataAddress))
        },
        ReqModel::WriteSingleRegister(addr, value) => if addr < s.holding_registers.len() {
            (
                spec_write_word(s, WordKind::Holding, addr, value),
                Ok(RespModel::WriteSingleRegister(addr, value)),
            )
        } else {
            (s, Err(ExceptionCode::IllegalDataAddress))
        },
        ReqModel::WriteMultipleCoils(addr, values) => if addr + values.len() <= s.coils.len() {
            (
                spec_write_bits(s, BitKind::Coils, addr, values),
                Ok(RespModel::WriteMultipleCoils(addr, values.len() as u16)),
            )
        } else {
            (s, Err(ExceptionCode::IllegalDataAddress))
        },
        ReqModel::WriteMultipleRegisters(addr, values) => if addr + values.len()
            <= s.holding_registers.len() {
            (
                spec_write_words(s, WordKind::Holding, addr, values),
                Ok(RespModel::WriteMultipleRegisters(addr, values.len() as u16)),
            )
        } else {
            (s, Err(ExceptionCode::IllegalDataAddress))
        },
        ReqModel::Unsupported => (s, Err(ExceptionCode::IllegalFunction)),
    }
}

/// Carry out one request against the store. The store afterwards and the
/// returned response or exception are exactly those of `spec_dispatch`.
pub fn dispatch(store: &mut ModbusData, req: Request) -> (r: Result<Response, ExceptionCode>)
    requires
        wf_store(old(store)@),
    ensures
        wf_store(final(store)@),
        final(store)@ == spec_dispatch(old(store)@, req@).0,
        resp_model(r) == spec_dispatch(old(store)@, req@).1,
{
    match req {
        Request::ReadCoils(addr, qty) => match store.read_bits(BitKind::Coils, addr, qty) {
            Ok(values) => Ok(Response::ReadCoils(values)),
            Err(StoreError::OutOfRange) => Err(ExceptionCode::IllegalDataAddress),
        },
        Request::ReadDiscreteInputs(addr, qty) => match store.read_bits(
            BitKind::DiscreteInputs,
            addr,
            qty,
        ) {
            Ok(values) => Ok(Response::ReadDiscreteInputs(values)),
            Err(StoreError::OutOfRange) => Err(ExceptionCode::IllegalDataAddress),
        },
        Request::ReadHoldingRegisters(addr, qty) => match store.read_words(
            WordKind::Holding,
            addr,
            qty,
        ) {
            Ok(values) => Ok(Response::ReadHoldingRegisters(values)),
            Err(StoreError::OutOfRange) => Err(ExceptionCode::IllegalDataAddress),
        },
        Request::ReadInputRegisters(addr, qty) => match store.read_words(
            WordKind::Input,
            addr,
            qty,
        ) {
            Ok(values) => Ok(Response::ReadInputRegisters(values)),
            Err(StoreError::OutOfRange) => Err(ExceptionCode::IllegalDataAddress),
        },
        Request::WriteSingleCoil(addr, value) => match store.write_bit(
            BitKind::Coils,
            addr,
            value,
        ) {
            Ok(()) => Ok(Response::WriteSingleCoil(addr, value)),
            Err(StoreError::OutOfRange) => Err(ExceptionCode::IllegalDataAddress),
        },
        Request::WriteSingleRegister(addr, value) => match store.write_word(
            WordKind::Holding,
            addr,
            value,
        ) {
            Ok(()) => Ok(Response::WriteSingleRegister(addr, value)),
            Err(StoreError::OutOfRange) => Err(ExceptionCode::IllegalDataAddress),
        },
        Request::WriteMultipleCoils(addr, values) => {
            if values.len() > store.coils.len() {
                return Err(ExceptionCode::IllegalDataAddress);
            }
            let qty: u16 = values.len() as u16;
            match store.write_bits(BitKind::Coils, addr, &values) {
                Ok(()) => Ok(Response::WriteMultipleCoils(addr, qty)),
                Err(StoreError::OutOfRange) => Err(ExceptionCode::IllegalDataAddress),
            }
        },
        Request::WriteMultipleRegisters(addr, values) => {
            if values.len() > store.holding_registers.len() {
                return Err(ExceptionCode::IllegalDataAddress);
            }
            let qty: u16 = values.len() as u16;
            match store.write_words(WordKind::Holding, addr, &values) {
                Ok(()) => Ok(Response::WriteMultipleRegisters(addr, qty)),
                Err(StoreError::OutOfRange) => Err(ExceptionCode::IllegalDataAddress),
            }
        },
        Request::Unsupported => Err(ExceptionCode::IllegalFunction),
    }
}

/// A function code outside the supported eight always yields
/// `IllegalFunction` and never touches the store, whatever the store holds.
pub proof fn lemma_unsupported_yields_illegal_function(s: StoreModel)
    ensures
        spec_dispatch(s, ReqModel::Unsupported) == (
            s,
            Err::<RespModel, ExceptionCode>(ExceptionCode::IllegalFunction),
        ),
{
}

/// Dispatching a single-coil write at an in-range address confirms the
/// written address and value, and a following one-coil read at that address
/// returns exactly the written value.
pub proof fn lemma_dispatch_coil_round_trip(s: StoreModel, addr: u16, value: bool)
    requires
        addr < s.coils.len(),
    ensures
        ({
            let (s1, r1) = spec_dispatch(s, ReqModel::WriteSingleCoil(addr, value));
            let (s2, r2) = spec_dispatch(s1, ReqModel::ReadCoils(addr, 1));
            &&& r1 == Ok::<RespModel, ExceptionCode>(RespModel::WriteSingleCoil(addr, value))
            &&& s2 == s1
            &&& r2 == Ok::<RespModel, ExceptionCode>(RespModel::ReadCoils(seq![value]))
        }),
{
    crate::store::lemma_write_then_read_bit(s, BitKind::Coils, addr, value);
}

/// Dispatching a single-register write at an in-range address confirms the
/// written address and value, and a following one-register read at that
/// address returns exactly the written value.
pub proof fn lemma_dispatch_register_round_trip(s: StoreModel, addr: u16, value: u16)
    requires
        addr < s.holding_registers.len(),
    ensures
        ({
            let (s1, r1) = spec_dispatch(s, ReqModel::WriteSingleRegister(addr, value));
            let (s2, r2) = spec_dispatch(s1, ReqModel::ReadHoldingRegisters(addr, 1));
            &&& r1 == Ok::<RespModel, ExceptionCode>(RespModel::WriteSingleRegister(addr, value))
            &&& s2 == s1
            &&& r2 == Ok::<RespModel, ExceptionCode>(RespModel::ReadHoldingRegisters(seq![value]))
        }),
{
    crate::store::lemma_write_then_read_word(s, WordKind::Holding, addr, value);
}

} // verus!
