// Address arithmetic as the table printer performs it: display addresses are
// the requested start address plus the row index.

#[test]
fn test_register_addressing() {
    let registers = [100, 200, 300];
    let start_addr = 50;

    // Verify that addresses would be calculated correctly
    for (i, _) in registers.iter().enumerate() {
        let expected_addr = start_addr + i as u16;
        assert_eq!(expected_addr, start_addr + i as u16);
    }
}

#[test]
fn test_coil_addressing() {
    let coils = [true, false, true];
    let start_addr = 1000;

    // Verify that addresses would be calculated correctly
    for (i, _) in coils.iter().enumerate() {
        let expected_addr = start_addr + i as u16;
        assert_eq!(expected_addr, start_addr + i as u16);
    }
}
