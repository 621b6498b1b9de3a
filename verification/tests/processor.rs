use win_kernel_driver::cpu::{get_cpu, CPUDevice, CpuError, CpuUpdateTypes, VendorCpu, CPU};
use win_kernel_driver::driver::{DeviceHandle, IoReply, OpenReply};
use win_kernel_driver::error::{DeviceOperation, DriverError};
use win_kernel_driver::intel::{IntelCPU, MSR_TEMPERATURE_TARGET};
use win_kernel_driver::win_ring0::{Architecture, WinRing0};

const KINDS: [CpuUpdateTypes; 4] =
    [CpuUpdateTypes::Frequency, CpuUpdateTypes::Temperature, CpuUpdateTypes::Load, CpuUpdateTypes::All];

fn closed_ring0() -> WinRing0 {
    WinRing0::new(Architecture::X64, vec![1], vec![2], "T:\\").unwrap()
}

fn open_ring0() -> WinRing0 {
    let mut ring0 = closed_ring0();
    ring0.open(OpenReply { handle: 0x50, last_error: 0 }).unwrap();
    ring0
}

fn answer(value: u64) -> IoReply {
    IoReply { succeeded: true, output: value.to_le_bytes().to_vec(), last_error: 0 }
}

#[test]
fn new_processor_knows_nothing() {
    let cpu = IntelCPU::new();
    assert_eq!(cpu.tj_max(), 0);
    assert_eq!(cpu.cores(), 0);
    assert_eq!(cpu.family_id(), 0);
    assert_eq!(IntelCPU::with_family(6).family_id(), 6);
}

#[test]
fn update_without_a_driver_is_an_error_where_hardware_is_needed() {
    let mut cpu = IntelCPU::new();
    let reply = answer(0x0064_0000);
    for &kind in [CpuUpdateTypes::Temperature, CpuUpdateTypes::All].iter() {
        assert_eq!(cpu.update_request(kind), Err(CpuError::Unbound));
        assert_eq!(cpu.update(kind, Some(&reply)), Err(CpuError::Unbound));
        assert_eq!(cpu.update(kind, None), Err(CpuError::Unbound));
    }
    assert_eq!(cpu.tjmax_request().err(), Some(CpuError::Unbound));
    assert_eq!(cpu.update_tjmax(&reply), Err(CpuError::Unbound));
    assert_eq!(cpu.tj_max(), 0);
}

#[test]
fn update_of_an_unimplemented_kind_does_nothing() {
    let ring0 = open_ring0();
    let reply = answer(0x0064_0000);
    let mut unbound = IntelCPU::new();
    let mut bound = IntelCPU::new();
    bound.set_driver(&ring0);
    for &kind in [CpuUpdateTypes::Frequency, CpuUpdateTypes::Load].iter() {
        assert_eq!(unbound.update_request(kind), Ok(None));
        assert_eq!(unbound.update(kind, None), Ok(()));
        assert_eq!(bound.update_request(kind), Ok(None));
        assert_eq!(bound.update(kind, Some(&reply)), Ok(()));
        assert_eq!(bound.update(kind, None), Ok(()));
    }
    assert_eq!(bound.tj_max(), 0);
    assert_eq!(unbound.tj_max(), 0);
}

#[test]
fn update_asks_for_the_temperature_target_register() {
    assert_eq!(MSR_TEMPERATURE_TARGET, 0x1A2);
    let ring0 = open_ring0();
    let mut cpu = IntelCPU::new();
    cpu.set_driver(&ring0);
    for &kind in [CpuUpdateTypes::Temperature, CpuUpdateTypes::All].iter() {
        let request = cpu.update_request(kind).unwrap().unwrap();
        assert_eq!(request.handle, DeviceHandle { raw: 0x50 });
        assert_eq!(request.ioctl_code, 0x9C40_2084);
        assert_eq!(request.input, [0x00, 0x00, 0x01, 0xA2]);
        assert_eq!(request.output_len, 8);
    }
    assert_eq!(cpu.tjmax_request().unwrap().input, 0x1A2u32.to_be_bytes());
}

#[test]
fn update_takes_the_temperature_target() {
    let ring0 = open_ring0();
    let mut cpu = IntelCPU::new();
    cpu.set_driver(&ring0);
    assert_eq!(cpu.update(CpuUpdateTypes::Temperature, Some(&answer(0x0000_0000_0083_0000))), Ok(()));
    assert_eq!(cpu.tj_max(), 0x83);
    assert_eq!(cpu.update(CpuUpdateTypes::All, Some(&answer(0xFFFF_FFFF_FF64_FFFF))), Ok(()));
    assert_eq!(cpu.tj_max(), 100);
    assert_eq!(cpu.update_tjmax(&answer(0x005A_0000)), Ok(90));
    assert_eq!(cpu.tj_max(), 90);
    assert_eq!(cpu.cores(), 0);
}

#[test]
fn update_that_fails_changes_nothing() {
    let ring0 = open_ring0();
    let mut cpu = IntelCPU::new();
    cpu.set_driver(&ring0);
    cpu.update(CpuUpdateTypes::Temperature, Some(&answer(0x0064_0000))).unwrap();
    assert_eq!(cpu.update(CpuUpdateTypes::Temperature, None), Err(CpuError::MissingReply));
    let failed = IoReply { succeeded: false, output: vec![], last_error: 1 };
    assert_eq!(
        cpu.update(CpuUpdateTypes::All, Some(&failed)),
        Err(CpuError::Driver(DriverError::Device { operation: DeviceOperation::Control(0x9C40_2084), code: 1 }))
    );
    let short = IoReply { succeeded: true, output: vec![0; 4], last_error: 0 };
    assert_eq!(
        cpu.update(CpuUpdateTypes::All, Some(&short)),
        Err(CpuError::Driver(DriverError::Protocol { ioctl_code: 0x9C40_2084, code: 0, received: 4 }))
    );
    assert_eq!(cpu.tj_max(), 100);
}

#[test]
fn update_through_a_closed_channel_is_an_error() {
    let ring0 = closed_ring0();
    let mut cpu = IntelCPU::new();
    cpu.set_driver(&ring0);
    assert_eq!(cpu.update_request(CpuUpdateTypes::All), Err(CpuError::Driver(DriverError::NotOpen)));
    assert_eq!(
        cpu.update(CpuUpdateTypes::All, Some(&answer(0x0064_0000))),
        Err(CpuError::Driver(DriverError::NotOpen))
    );
    assert_eq!(cpu.tj_max(), 0);
}

#[test]
fn intel_is_selected_by_its_vendor_string() {
    let ring0 = open_ring0();
    let mut device = CPUDevice::new();
    assert!(device.cpu().is_none());
    device.set_driver(&ring0);
    assert_eq!(device.init_with("GenuineIntel", 6), Ok(()));
    let mut cpu = device.into_cpu().unwrap();
    match &cpu {
        VendorCpu::Intel(intel) => {
            assert_eq!(intel.family_id(), 6);
            assert_eq!(intel.tj_max(), 0);
        }
    }
    assert_eq!(cpu.cores(), 0);
    assert!(cpu.update_request(CpuUpdateTypes::Temperature).unwrap().is_some());
    assert_eq!(cpu.update(CpuUpdateTypes::All, Some(&answer(0x0069_0000))), Ok(()));
    match &cpu {
        VendorCpu::Intel(intel) => assert_eq!(intel.tj_max(), 105),
    }
}

#[test]
fn a_device_without_driver_selects_an_unbound_processor() {
    let mut device = CPUDevice::new();
    assert_eq!(device.init_with("GenuineIntel", 15), Ok(()));
    let mut cpu = device.into_cpu().unwrap();
    for &kind in KINDS.iter() {
        let needs = kind == CpuUpdateTypes::Temperature || kind == CpuUpdateTypes::All;
        assert_eq!(cpu.update_request(kind), if needs { Err(CpuError::Unbound) } else { Ok(None) });
        assert_eq!(cpu.update(kind, None), if needs { Err(CpuError::Unbound) } else { Ok(()) });
    }
    let ring0 = open_ring0();
    cpu.set_driver(&ring0);
    assert!(cpu.update_request(CpuUpdateTypes::All).unwrap().is_some());
}

#[test]
fn another_vendor_is_an_error_that_names_it() {
    let mut device = CPUDevice::new();
    for vendor in ["AuthenticAMD", "", "genuineintel", "GenuineIntel ", "GenuineInte", "HygonGenuine"].iter() {
        assert_eq!(device.init_with(vendor, 23), Err(CpuError::UnsupportedVendor(vendor.to_string())));
        assert!(device.cpu().is_none());
    }
    assert_eq!(device.init_with("GenuineIntel", 6), Ok(()));
    assert_eq!(device.init_with("AuthenticAMD", 23), Err(CpuError::UnsupportedVendor("AuthenticAMD".to_string())));
    assert!(device.cpu().is_some());
}

#[test]
fn the_processor_at_hand_is_found_or_named() {
    let ring0 = open_ring0();
    let mut device = CPUDevice::new();
    device.set_driver(&ring0);
    match device.init() {
        Ok(()) => {
            let cpu = device.into_cpu().unwrap();
            assert!(cpu.update_request(CpuUpdateTypes::Temperature).unwrap().is_some());
        }
        Err(CpuError::UnsupportedVendor(vendor)) => {
            assert_ne!(vendor, "GenuineIntel");
            assert!(device.cpu().is_none());
        }
        Err(CpuError::Unidentified) => assert!(device.cpu().is_none()),
        Err(other) => panic!("{:?}", other),
    }
    match get_cpu(&ring0) {
        Ok(cpu) => assert_eq!(cpu.cores(), 0),
        Err(CpuError::UnsupportedVendor(vendor)) => assert_ne!(vendor, "GenuineIntel"),
        Err(CpuError::Unidentified) => {}
        Err(other) => panic!("{:?}", other),
    }
}
