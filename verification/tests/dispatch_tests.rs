use modbus_core::dispatch::{dispatch, ExceptionCode, Request, Response};
use modbus_core::store::ModbusData;

#[test]
fn test_modbus_service_read_coils_valid() {
    let mut data = ModbusData::new(10, 10, 10, 10);

    // Set some coil values for testing
    data.coils[0] = true;
    data.coils[2] = true;

    let request = Request::ReadCoils(0, 3);

    let result = dispatch(&mut data, request);
    assert!(result.is_ok());

    if let Ok(Response::ReadCoils(coils)) = result {
        assert_eq!(coils.len(), 3);
        assert!(coils[0]);
        assert!(!coils[1]);
        assert!(coils[2]);
    } else {
        panic!("Expected ReadCoils response");
    }
}

#[test]
fn test_modbus_service_read_coils_out_of_bounds() {
    let mut data = ModbusData::new(5, 5, 5, 5);

    // Try to read beyond available coils
    let request = Request::ReadCoils(3, 5); // starts at 3, wants 5 coils = addresses 3,4,5,6,7 but only 0-4 exist

    let result = dispatch(&mut data, request);
    assert!(result.is_err());
    assert_eq!(result.unwrap_err(), ExceptionCode::IllegalDataAddress);
}

#[test]
fn test_modbus_service_read_holding_registers() {
    let mut data = ModbusData::new(10, 10, 10, 10);

    let request = Request::ReadHoldingRegisters(5, 3);

    let result = dispatch(&mut data, request);
    assert!(result.is_ok());

    if let Ok(Response::ReadHoldingRegisters(registers)) = result {
        assert_eq!(registers.len(), 3);
        assert_eq!(registers[0], 5); // address 5 = value 5
        assert_eq!(registers[1], 6); // address 6 = value 6
        assert_eq!(registers[2], 7); // address 7 = value 7
    } else {
        panic!("Expected ReadHoldingRegisters response");
    }
}

#[test]
fn test_modbus_service_write_single_coil() {
    let mut data = ModbusData::new(10, 10, 10, 10);

    let request = Request::WriteSingleCoil(3, true);

    let result = dispatch(&mut data, request);
    assert!(result.is_ok());

    if let Ok(Response::WriteSingleCoil(addr, value)) = result {
        assert_eq!(addr, 3);
        assert!(value);
    } else {
        panic!("Expected WriteSingleCoil response");
    }

    // Verify the coil was actually set
    assert!(data.coils[3]);
}

#[test]
fn test_modbus_service_write_single_register() {
    let mut data = ModbusData::new(10, 10, 10, 10);

    let request = Request::WriteSingleRegister(2, 12345);

    let result = dispatch(&mut data, request);
    assert!(result.is_ok());

    if let Ok(Response::WriteSingleRegister(addr, value)) = result {
        assert_eq!(addr, 2);
        assert_eq!(value, 12345);
    } else {
        panic!("Expected WriteSingleRegister response");
    }

    // Verify the register was actually set
    assert_eq!(data.holding_registers[2], 12345);
}

#[test]
fn test_modbus_service_write_multiple_coils() {
    let mut data = ModbusData::new(10, 10, 10, 10);

    let values = [true, false, true];
    let request = Request::WriteMultipleCoils(1, values.to_vec());

    let result = dispatch(&mut data, request);
    assert!(result.is_ok());

    if let Ok(Response::WriteMultipleCoils(addr, qty)) = result {
        assert_eq!(addr, 1);
        assert_eq!(qty, 3);
    } else {
        panic!("Expected WriteMultipleCoils response");
    }

    // Verify the coils were actually set
    assert!(data.coils[1]);
    assert!(!data.coils[2]);
    assert!(data.coils[3]);
}

#[test]
fn test_dispatch_write_multiple_coils_read_back() {
    // Writing three coils at address 1 confirms (addr=1, qty=3), and reading
    // back [1, 4) returns exactly the written values.
    let mut data = ModbusData::new(10, 10, 10, 10);

    let result = dispatch(&mut data, Request::WriteMultipleCoils(1, vec![true, false, true]));
    assert_eq!(result, Ok(Response::WriteMultipleCoils(1, 3)));

    let result = dispatch(&mut data, Request::ReadCoils(1, 3));
    assert_eq!(result, Ok(Response::ReadCoils(vec![true, false, true])));
}

#[test]
fn test_dispatch_write_multiple_registers() {
    let mut data = ModbusData::new(10, 10, 10, 10);

    let result = dispatch(&mut data, Request::WriteMultipleRegisters(4, vec![400, 500]));
    assert_eq!(result, Ok(Response::WriteMultipleRegisters(4, 2)));

    let result = dispatch(&mut data, Request::ReadHoldingRegisters(3, 4));
    assert_eq!(
        result,
        Ok(Response::ReadHoldingRegisters(vec![3, 400, 500, 6]))
    );

    let result = dispatch(&mut data, Request::WriteMultipleRegisters(9, vec![1, 2]));
    assert_eq!(result, Err(ExceptionCode::IllegalDataAddress));
}

#[test]
fn test_dispatch_scenario_fresh_store() {
    // A store created with (C=10, D=10, H=10, I=10).
    let mut data = ModbusData::new(10, 10, 10, 10);

    // ReadHoldingRegisters(5, 3) returns [5, 6, 7].
    let result = dispatch(&mut data, Request::ReadHoldingRegisters(5, 3));
    assert_eq!(result, Ok(Response::ReadHoldingRegisters(vec![5, 6, 7])));

    // WriteSingleCoil(3, true) confirms (3, true); ReadCoils(0, 10) then
    // shows index 3 set and everything else clear.
    let result = dispatch(&mut data, Request::WriteSingleCoil(3, true));
    assert_eq!(result, Ok(Response::WriteSingleCoil(3, true)));

    let result = dispatch(&mut data, Request::ReadCoils(0, 10));
    let mut expected = vec![false; 10];
    expected[3] = true;
    assert_eq!(result, Ok(Response::ReadCoils(expected)));

    // ReadCoils(3, 5) on a store with only 5 coils is out of range (3+5=8 > 5).
    let mut small = ModbusData::new(5, 5, 5, 5);
    let result = dispatch(&mut small, Request::ReadCoils(3, 5));
    assert_eq!(result, Err(ExceptionCode::IllegalDataAddress));
}

#[test]
fn test_dispatch_unsupported_is_illegal_function() {
    // An unsupported function code yields IllegalFunction whatever the store
    // holds, and leaves the store as it was.
    let mut data = ModbusData::new(10, 10, 10, 10);
    assert_eq!(
        dispatch(&mut data, Request::Unsupported),
        Err(ExceptionCode::IllegalFunction)
    );

    let mut empty = ModbusData::new(0, 0, 0, 0);
    assert_eq!(
        dispatch(&mut empty, Request::Unsupported),
        Err(ExceptionCode::IllegalFunction)
    );

    assert_eq!(
        dispatch(&mut data, Request::ReadCoils(0, 10)),
        Ok(Response::ReadCoils(vec![false; 10]))
    );
}

#[test]
fn test_dispatch_read_discrete_inputs_and_input_registers() {
    let mut data = ModbusData::new(4, 4, 4, 4);

    assert_eq!(
        dispatch(&mut data, Request::ReadDiscreteInputs(0, 4)),
        Ok(Response::ReadDiscreteInputs(vec![false; 4]))
    );
    assert_eq!(
        dispatch(&mut data, Request::ReadInputRegisters(1, 2)),
        Ok(Response::ReadInputRegisters(vec![1, 2]))
    );
    assert_eq!(
        dispatch(&mut data, Request::ReadDiscreteInputs(2, 3)),
        Err(ExceptionCode::IllegalDataAddress)
    );
    assert_eq!(
        dispatch(&mut data, Request::ReadInputRegisters(65535, 65535)),
        Err(ExceptionCode::IllegalDataAddress)
    );
}
