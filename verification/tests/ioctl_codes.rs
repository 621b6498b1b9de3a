use win_kernel_driver::ioctl::{decode_control_code, io_control_code, Access, ControlFields, Method, DEVICE_TYPE_LIMIT, FUNCTION_LIMIT};
use win_kernel_driver::table::{DEVICE_TYPE, IOCTL};

#[test]
fn control_code_packs_the_four_fields() {
    assert_eq!(io_control_code(0x22, 0x800, Method::BUFFERED, Access::READ), 0x0022_6000);
    assert_eq!(io_control_code(40000, 0x821, Method::BUFFERED, Access::ANY), 0x9C40_2084);
    assert_eq!(io_control_code(0, 0, Method::BUFFERED, Access::ANY), 0);
    assert_eq!(io_control_code(0, 0, Method::NEITHER, Access::ANY), 3);
    assert_eq!(io_control_code(0, 0, Method::INDIRECT, Access::WRITE), 0x8001);
    assert_eq!(io_control_code(0, 1, Method::OUTDIRECT, Access::ANY), 6);
    assert_eq!(io_control_code(1, 0, Method::BUFFERED, Access::ANY), 0x1_0000);
    assert_eq!(io_control_code(0xFFFF, 0xFFF, Method::NEITHER, Access::WRITE), 0xFFFF_BFFF);
}

#[test]
fn control_code_drops_bits_that_do_not_fit() {
    assert_eq!(io_control_code(0x1_2345, 0x1FFF, Method::NEITHER, Access::WRITE), 0x2345_FFFF);
    assert_eq!(io_control_code(0x1_0000, 0, Method::BUFFERED, Access::ANY), 0);
    assert_eq!(io_control_code(u32::MAX, u32::MAX, Method::BUFFERED, Access::ANY), 0xFFFF_FFFC);
}

#[test]
fn method_and_access_numbers() {
    assert_eq!(Method::BUFFERED.to_bits(), 0);
    assert_eq!(Method::INDIRECT.to_bits(), 1);
    assert_eq!(Method::OUTDIRECT.to_bits(), 2);
    assert_eq!(Method::NEITHER.to_bits(), 3);
    assert_eq!(Access::ANY.to_bits(), 0);
    assert_eq!(Access::READ.to_bits(), 1);
    assert_eq!(Access::WRITE.to_bits(), 2);
    assert_eq!(Method::from_bits(2), Some(Method::OUTDIRECT));
    assert_eq!(Method::from_bits(4), None);
    assert_eq!(Access::from_bits(2), Some(Access::WRITE));
    assert_eq!(Access::from_bits(3), None);
}

#[test]
fn decoding_gives_the_fields_back() {
    let methods = [Method::BUFFERED, Method::INDIRECT, Method::OUTDIRECT, Method::NEITHER];
    let accesses = [Access::ANY, Access::READ, Access::WRITE];
    let device_types = [0u32, 1, 0x22, 40000, DEVICE_TYPE_LIMIT - 1];
    let functions = [0u32, 1, 0x800, 0x821, 0x852, FUNCTION_LIMIT - 1];
    for &device_type in device_types.iter() {
        for &function in functions.iter() {
            for &method in methods.iter() {
                for &access in accesses.iter() {
                    let code = io_control_code(device_type, function, method, access);
                    assert_eq!(
                        decode_control_code(code),
                        Some(ControlFields { device_type, function, method, access })
                    );
                }
            }
        }
    }
}

#[test]
fn decoding_refuses_an_access_of_three() {
    assert_eq!(decode_control_code(0xC000), None);
    assert_eq!(decode_control_code(u32::MAX), None);
    assert_eq!(
        decode_control_code(0x9C40_2084),
        Some(ControlFields { device_type: 40000, function: 0x821, method: Method::BUFFERED, access: Access::ANY })
    );
}

#[test]
fn decoding_and_packing_again_gives_the_code_back() {
    let codes = [0u32, 1, 0x8001, 0x9C40_2084, 0x9C40_A0E0, 0xFFFF_BFFF, 0x1234_5678, 0x7FFF_7FFF];
    for &code in codes.iter() {
        let fields = decode_control_code(code).unwrap();
        assert_eq!(io_control_code(fields.device_type, fields.function, fields.method, fields.access), code);
    }
}

#[test]
fn table_holds_the_codes_of_the_driver() {
    assert_eq!(DEVICE_TYPE, 40000);
    assert_eq!(IOCTL::OLS_GET_DRIVER_VERSION.code(), 0x9C402000);
    assert_eq!(IOCTL::OLS_GET_REFCOUNT.code(), 0x9C402004);
    assert_eq!(IOCTL::OLS_READ_MSR.code(), 0x9C402084);
    assert_eq!(IOCTL::OLS_WRITE_MSR.code(), 0x9C402088);
    assert_eq!(IOCTL::OLS_READ_PMC.code(), 0x9C40208C);
    assert_eq!(IOCTL::OLS_HALT.code(), 0x9C402090);
    assert_eq!(IOCTL::OLS_READ_IO_PORT.code(), 0x9C4060C4);
    assert_eq!(IOCTL::OLS_WRITE_IO_PORT.code(), 0x9C40A0C8);
    assert_eq!(IOCTL::OLS_READ_IO_PORT_BYTE.code(), 0x9C4060CC);
    assert_eq!(IOCTL::OLS_READ_IO_PORT_WORD.code(), 0x9C4060D0);
    assert_eq!(IOCTL::OLS_READ_IO_PORT_DWORD.code(), 0x9C4060D4);
    assert_eq!(IOCTL::OLS_WRITE_IO_PORT_BYTE.code(), 0x9C40A0D8);
    assert_eq!(IOCTL::OLS_WRITE_IO_PORT_WORD.code(), 0x9C40A0DC);
    assert_eq!(IOCTL::OLS_WRITE_IO_PORT_DWORD.code(), 0x9C40A0E0);
    assert_eq!(IOCTL::OLD_READ_MEMORY.code(), 0x9C406104);
    assert_eq!(IOCTL::OLS_WRITE_MEMORY.code(), 0x9C40A108);
    assert_eq!(IOCTL::OLS_READ_PCI_CONFIG.code(), 0x9C406144);
    assert_eq!(IOCTL::OLS_WRITE_PCI_CONFIG.code(), 0x9C406148);
}

#[test]
fn table_entries_decode_to_their_own_fields() {
    let ops = IOCTL::all();
    assert_eq!(ops.len(), 18);
    for &op in ops.iter() {
        assert_eq!(
            decode_control_code(op.code()),
            Some(ControlFields {
                device_type: DEVICE_TYPE,
                function: op.function_code(),
                method: op.transfer_method(),
                access: op.access_mode(),
            })
        );
        assert_eq!(op.transfer_method(), Method::BUFFERED);
        assert_eq!(op.code(), io_control_code(DEVICE_TYPE, op.function_code(), Method::BUFFERED, op.access_mode()));
    }
}

#[test]
fn table_has_no_two_entries_with_one_code() {
    let ops = IOCTL::all();
    for i in 0..ops.len() {
        for j in 0..ops.len() {
            if i != j {
                assert_ne!(ops[i], ops[j]);
                assert_ne!(ops[i].code(), ops[j].code());
            }
        }
    }
}

#[test]
fn table_finds_an_operation_by_its_code() {
    for &op in IOCTL::all().iter() {
        assert_eq!(IOCTL::from_code(op.code()), Some(op));
    }
    assert_eq!(IOCTL::from_code(0x9C40_2084), Some(IOCTL::OLS_READ_MSR));
    assert_eq!(IOCTL::from_code(0), None);
    assert_eq!(IOCTL::from_code(0x9C40_2085), None);
    assert_eq!(IOCTL::from_code(0x9C40_6084), None);
    assert_eq!(IOCTL::from_code(0x0022_2084), None);
    assert_eq!(IOCTL::from_code(0x9C40_A148), None);
}
