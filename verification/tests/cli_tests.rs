use modbus_core::cli::{validate_coil_qty, validate_register_qty};

#[test]
fn test_validate_coil_qty_valid() {
    assert_eq!(validate_coil_qty("1"), Ok(1));
    assert_eq!(validate_coil_qty("1000"), Ok(1000));
    assert_eq!(validate_coil_qty("2000"), Ok(2000));
}

#[test]
fn test_validate_coil_qty_invalid() {
    assert!(validate_coil_qty("0").is_err());
    assert!(validate_coil_qty("2001").is_err());
    assert!(validate_coil_qty("abc").is_err());
    assert!(validate_coil_qty("").is_err());
}

#[test]
fn test_validate_coil_qty_error_messages() {
    let result = validate_coil_qty("0");
    assert!(result.is_err());
    let error_msg = result.unwrap_err();
    assert!(error_msg.contains("1-2000"));
    assert!(error_msg.contains("FC 01/05/15"));

    let result = validate_coil_qty("abc");
    assert!(result.is_err());
    assert!(result.unwrap_err().contains("must be a number"));
}

#[test]
fn test_validate_register_qty_valid() {
    assert_eq!(validate_register_qty("1"), Ok(1));
    assert_eq!(validate_register_qty("100"), Ok(100));
    assert_eq!(validate_register_qty("125"), Ok(125));
}

#[test]
fn test_validate_register_qty_invalid() {
    assert!(validate_register_qty("0").is_err());
    assert!(validate_register_qty("126").is_err());
    assert!(validate_register_qty("xyz").is_err());
    assert!(validate_register_qty("").is_err());
}

#[test]
fn test_validate_register_qty_error_messages() {
    let result = validate_register_qty("0");
    assert!(result.is_err());
    let error_msg = result.unwrap_err();
    assert!(error_msg.contains("1-125"));
    assert!(error_msg.contains("FC 03/04/06/16"));

    let result = validate_register_qty("xyz");
    assert!(result.is_err());
    assert!(result.unwrap_err().contains("must be a number"));
}

#[test]
fn test_validate_qty_exact_messages() {
    assert_eq!(
        validate_coil_qty("abc").unwrap_err(),
        "Invalid quantity 'abc': must be a number"
    );
    assert_eq!(
        validate_coil_qty("2001").unwrap_err(),
        "Invalid quantity 2001: Modbus specification limits coil operations to 1-2000 coils per request (FC 01/05/15)"
    );
    assert_eq!(
        validate_register_qty("126").unwrap_err(),
        "Invalid quantity 126: Modbus specification limits register operations to 1-125 registers per request (FC 03/04/06/16)"
    );
}

#[test]
fn test_validate_qty_plus_sign_and_overflow() {
    // A leading plus sign is accepted, as it is by integer parsing.
    assert_eq!(validate_coil_qty("+8"), Ok(8));
    // A value above 16 bits is not a number of the expected width.
    assert!(validate_coil_qty("65536").unwrap_err().contains("must be a number"));
    assert!(validate_coil_qty("+").unwrap_err().contains("must be a number"));
}
