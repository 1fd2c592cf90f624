use modbus_core::store::{BitKind, ModbusData, StoreError, WordKind};

#[test]
fn test_modbus_data_new() {
    let data = ModbusData::new(100, 200, 300, 400);

    assert_eq!(data.coils.len(), 100);
    assert_eq!(data.discrete_inputs.len(), 200);
    assert_eq!(data.holding_registers.len(), 300);
    assert_eq!(data.input_registers.len(), 400);

    // All coils and discrete inputs should be false initially
    assert!(data.coils.iter().all(|&x| !x));
    assert!(data.discrete_inputs.iter().all(|&x| !x));

    // Holding and input registers should be initialized with address = value
    for (addr, &value) in data.holding_registers.iter().enumerate() {
        assert_eq!(addr as u16, value);
    }
    for (addr, &value) in data.input_registers.iter().enumerate() {
        assert_eq!(addr as u16, value);
    }
}

#[test]
fn test_modbus_data_small_sizes() {
    let data = ModbusData::new(1, 2, 3, 4);

    assert_eq!(data.coils.len(), 1);
    assert_eq!(data.discrete_inputs.len(), 2);
    assert_eq!(data.holding_registers.len(), 3);
    assert_eq!(data.input_registers.len(), 4);

    assert_eq!(data.holding_registers, [0, 1, 2]);
    assert_eq!(data.input_registers, [0, 1, 2, 3]);
}

#[test]
fn test_modbus_data_zero_sizes() {
    let data = ModbusData::new(0, 0, 0, 0);

    assert!(data.coils.is_empty());
    assert!(data.discrete_inputs.is_empty());
    assert!(data.holding_registers.is_empty());
    assert!(data.input_registers.is_empty());
}

#[test]
fn test_store_read_bounds() {
    let data = ModbusData::new(10, 10, 10, 10);

    // In range: exactly qty values, in address order, starting at start.
    assert_eq!(
        data.read_words(WordKind::Holding, 5, 3),
        Ok(vec![5, 6, 7])
    );
    assert_eq!(data.read_bits(BitKind::Coils, 0, 10), Ok(vec![false; 10]));
    // Zero-length reads are in range even at the end of the bank.
    assert_eq!(data.read_bits(BitKind::Coils, 10, 0), Ok(vec![]));

    // One past the end is out of range.
    assert_eq!(
        data.read_words(WordKind::Input, 8, 3),
        Err(StoreError::OutOfRange)
    );
    assert_eq!(
        data.read_bits(BitKind::DiscreteInputs, 11, 0),
        Err(StoreError::OutOfRange)
    );
}

#[test]
fn test_store_read_sum_overflow() {
    // start + qty overflows a 16-bit sum; the store must treat the range as
    // out of bounds rather than let the sum wrap.
    let data = ModbusData::new(10, 10, 10, 10);
    assert_eq!(
        data.read_bits(BitKind::Coils, 65535, 65535),
        Err(StoreError::OutOfRange)
    );
    assert_eq!(
        data.read_words(WordKind::Holding, 65535, 2),
        Err(StoreError::OutOfRange)
    );
}

#[test]
fn test_store_write_then_read_every_bank() {
    // Write-then-read round trip for each of the four banks.
    let mut data = ModbusData::new(10, 10, 10, 10);

    assert_eq!(data.write_bit(BitKind::Coils, 3, true), Ok(()));
    assert_eq!(data.read_bits(BitKind::Coils, 3, 1), Ok(vec![true]));

    assert_eq!(data.write_bit(BitKind::DiscreteInputs, 9, true), Ok(()));
    assert_eq!(data.read_bits(BitKind::DiscreteInputs, 9, 1), Ok(vec![true]));

    assert_eq!(data.write_word(WordKind::Holding, 2, 12345), Ok(()));
    assert_eq!(data.read_words(WordKind::Holding, 2, 1), Ok(vec![12345]));

    assert_eq!(data.write_word(WordKind::Input, 0, 999), Ok(()));
    assert_eq!(data.read_words(WordKind::Input, 0, 1), Ok(vec![999]));
}

#[test]
fn test_store_write_out_of_range_leaves_store_unchanged() {
    let mut data = ModbusData::new(5, 5, 5, 5);

    assert_eq!(
        data.write_bit(BitKind::Coils, 5, true),
        Err(StoreError::OutOfRange)
    );
    assert_eq!(
        data.write_words(WordKind::Holding, 4, &[7, 8]),
        Err(StoreError::OutOfRange)
    );

    assert_eq!(data.read_bits(BitKind::Coils, 0, 5), Ok(vec![false; 5]));
    assert_eq!(
        data.read_words(WordKind::Holding, 0, 5),
        Ok(vec![0, 1, 2, 3, 4])
    );
}

#[test]
fn test_store_write_many() {
    let mut data = ModbusData::new(10, 10, 10, 10);

    assert_eq!(
        data.write_bits(BitKind::Coils, 1, &[true, false, true]),
        Ok(())
    );
    assert_eq!(
        data.read_bits(BitKind::Coils, 0, 5),
        Ok(vec![false, true, false, true, false])
    );

    assert_eq!(data.write_words(WordKind::Holding, 7, &[70, 80, 90]), Ok(()));
    assert_eq!(
        data.read_words(WordKind::Holding, 6, 4),
        Ok(vec![6, 70, 80, 90])
    );
}
