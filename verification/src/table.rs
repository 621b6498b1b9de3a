//! The operations of the WinRing0 driver and their control codes.

use crate::ioctl::{control_code, control_fields, fields_fit, io_control_code, lemma_unpack_pack, Access, ControlFields, Method};
use vstd::prelude::*;

verus! {

/// The device type that the WinRing0 driver registers its control codes under.
pub const DEVICE_TYPE: u32 = 40000;

/// The operations that the WinRing0 driver answers. Each stands for one
/// control code: see [`IOCTL::code`].
#[allow(non_camel_case_types)]
#[derive(Clone, Copy, Debug, PartialEq, Eq, Structural)]
pub enum IOCTL {
    /// Reads the driver's version number.
    OLS_GET_DRIVER_VERSION,
    /// Reads how many handles to the driver are open.
    OLS_GET_REFCOUNT,
    /// Reads a model-specific register.
    OLS_READ_MSR,
    /// Writes a model-specific register.
    OLS_WRITE_MSR,
    /// Reads a performance-monitoring counter.
    OLS_READ_PMC,
    /// Halts the processor until the next interrupt.
    OLS_HALT,
    /// Reads an I/O port.
    OLS_READ_IO_PORT,
    /// Writes an I/O port.
    OLS_WRITE_IO_PORT,
    /// Reads one byte from an I/O port.
    OLS_READ_IO_PORT_BYTE,
    /// Reads a 16-bit word from an I/O port.
    OLS_READ_IO_PORT_WORD,
    /// Reads a 32-bit word from an I/O port.
    OLS_READ_IO_PORT_DWORD,
    /// Writes one byte to an I/O port.
    OLS_WRITE_IO_PORT_BYTE,
    /// Writes a 16-bit word to an I/O port.
    OLS_WRITE_IO_PORT_WORD,
    /// Writes a 32-bit word to an I/O port.
    OLS_WRITE_IO_PORT_DWORD,
    /// Reads physical memory.
    OLD_READ_MEMORY,
    /// Writes physical memory.
    OLS_WRITE_MEMORY,
    /// Reads PCI configuration space.
    OLS_READ_PCI_CONFIG,
    /// Writes PCI configuration space.
    OLS_WRITE_PCI_CONFIG,
}

impl IOCTL {
    /// The function code of this operation.
    pub open spec fn function(self) -> u32 {
        match self {
            IOCTL::OLS_GET_DRIVER_VERSION => 0x800,
            IOCTL::OLS_GET_REFCOUNT => 0x801,
            IOCTL::OLS_READ_MSR => 0x821,
            IOCTL::OLS_WRITE_MSR => 0x822,
            IOCTL::OLS_READ_PMC => 0x823,
            IOCTL::OLS_HALT => 0x824,
            IOCTL::OLS_READ_IO_PORT => 0x831,
            IOCTL::OLS_WRITE_IO_PORT => 0x832,
            IOCTL::OLS_READ_IO_PORT_BYTE => 0x833,
            IOCTL::OLS_READ_IO_PORT_WORD => 0x834,
            IOCTL::OLS_READ_IO_PORT_DWORD => 0x835,
            IOCTL::OLS_WRITE_IO_PORT_BYTE => 0x836,
            IOCTL::OLS_WRITE_IO_PORT_WORD => 0x837,
            IOCTL::OLS_WRITE_IO_PORT_DWORD => 0x838,
            IOCTL::OLD_READ_MEMORY => 0x841,
            IOCTL::OLS_WRITE_MEMORY => 0x842,
            IOCTL::OLS_READ_PCI_CONFIG => 0x851,
            IOCTL::OLS_WRITE_PCI_CONFIG => 0x852,
        }
    }

    /// The access mode that this operation asks for.
    pub open spec fn access(self) -> Access {
        match self {
            IOCTL::OLS_GET_DRIVER_VERSION => Access::ANY,
            IOCTL::OLS_GET_REFCOUNT => Access::ANY,
            IOCTL::OLS_READ_MSR => Access::ANY,
            IOCTL::OLS_WRITE_MSR => Access::ANY,
            IOCTL::OLS_READ_PMC => Access::ANY,
            IOCTL::OLS_HALT => Access::ANY,
            IOCTL::OLS_READ_IO_PORT => Access::READ,
            IOCTL::OLS_WRITE_IO_PORT => Access::WRITE,
            IOCTL::OLS_READ_IO_PORT_BYTE => Access::READ,
            IOCTL::OLS_READ_IO_PORT_WORD => Access::READ,
            IOCTL::OLS_READ_IO_PORT_DWORD => Access::READ,
            IOCTL::OLS_WRITE_IO_PORT_BYTE => Access::WRITE,
            IOCTL::OLS_WRITE_IO_PORT_WORD => Access::WRITE,
            IOCTL::OLS_WRITE_IO_PORT_DWORD => Access::WRITE,
            IOCTL::OLD_READ_MEMORY => Access::READ,
            IOCTL::OLS_WRITE_MEMORY => Access::WRITE,
            IOCTL::OLS_READ_PCI_CONFIG => Access::READ,
            IOCTL::OLS_WRITE_PCI_CONFIG => Access::READ,
        }
    }

    /// The transfer method of this operation: every one is buffered.
    pub open spec fn method(self) -> Method {
        Method::BUFFERED
    }

    /// The control code of this operation: its fields packed under
    /// [`DEVICE_TYPE`].
    pub open spec fn control_code(self) -> u32 {
        control_code(DEVICE_TYPE, self.function(), self.method(), self.access())
    }

    /// The function code of this operation.
    pub fn function_code(self) -> (r: u32)
        ensures
            r == self.function(),
            fields_fit(DEVICE_TYPE, r),
    {
        match self {
            IOCTL::OLS_GET_DRIVER_VERSION => 0x800,
            IOCTL::OLS_GET_REFCOUNT => 0x801,
            IOCTL::OLS_READ_MSR => 0x821,
            IOCTL::OLS_WRITE_MSR => 0x822,
            IOCTL::OLS_READ_PMC => 0x823,
            IOCTL::OLS_HALT => 0x824,
            IOCTL::OLS_READ_IO_PORT => 0x831,
            IOCTL::OLS_WRITE_IO_PORT => 0x832,
            IOCTL::OLS_READ_IO_PORT_BYTE => 0x833,
            IOCTL::OLS_READ_IO_PORT_WORD => 0x834,
            IOCTL::OLS_READ_IO_PORT_DWORD => 0x835,
            IOCTL::OLS_WRITE_IO_PORT_BYTE => 0x836,
            IOCTL::OLS_WRITE_IO_PORT_WORD => 0x837,
            IOCTL::OLS_WRITE_IO_PORT_DWORD => 0x838,
            IOCTL::OLD_READ_MEMORY => 0x841,
            IOCTL::OLS_WRITE_MEMORY => 0x842,
            IOCTL::OLS_READ_PCI_CONFIG => 0x851,
            IOCTL::OLS_WRITE_PCI_CONFIG => 0x852,
        }
    }

    /// The access mode that this operation asks for.
    pub fn access_mode(self) -> (r: Access)
        ensures
            r == self.access(),
    {
        match self {
            IOCTL::OLS_GET_DRIVER_VERSION => Access::ANY,
            IOCTL::OLS_GET_REFCOUNT => Access::ANY,
            IOCTL::OLS_READ_MSR => Access::ANY,
            IOCTL::OLS_WRITE_MSR => Access::ANY,
            IOCTL::OLS_READ_PMC => Access::ANY,
            IOCTL::OLS_HALT => Access::ANY,
            IOCTL::OLS_READ_IO_PORT => Access::READ,
            IOCTL::OLS_WRITE_IO_PORT => Access::WRITE,
            IOCTL::OLS_READ_IO_PORT_BYTE => Access::READ,
            IOCTL::OLS_READ_IO_PORT_WORD => Access::READ,
            IOCTL::OLS_READ_IO_PORT_DWORD => Access::READ,
            IOCTL::OLS_WRITE_IO_PORT_BYTE => Access::WRITE,
            IOCTL::OLS_WRITE_IO_PORT_WORD => Access::WRITE,
            IOCTL::OLS_WRITE_IO_PORT_DWORD => Access::WRITE,
            IOCTL::OLD_READ_MEMORY => Access::READ,
            IOCTL::OLS_WRITE_MEMORY => Access::WRITE,
            IOCTL::OLS_READ_PCI_CONFIG => Access::READ,
            IOCTL::OLS_WRITE_PCI_CONFIG => Access::READ,
        }
    }

    /// The transfer method of this operation.
    pub fn transfer_method(self) -> (r: Method)
        ensures
            r == self.method(),
    {
        Method::BUFFERED
    }

    /// The control code to send for this operation. Unpacking it gives the
    /// operation's own fields back.
    pub fn code(self) -> (code: u32)
        ensures
            code == self.control_code(),
            control_fields(code) == Some(
                ControlFields {
                    device_type: DEVICE_TYPE,
                    function: self.function(),
                    method: self.method(),
                    access: self.access(),
                },
            ),
    {
        io_control_code(DEVICE_TYPE, self.function_code(), self.transfer_method(), self.access_mode())
    }

    /// The operation that a control code stands for: the one whose code it
    /// is, if there is one.
    pub fn from_code(code: u32) -> (op: Option<IOCTL>)
        ensures
            op matches Some(o) ==> o.control_code() == code,
            op is None ==> forall|o: IOCTL| o.control_code() != code,
    {
        let function = (code >> 2) & 0xfff;
        let candidate = if function == 0x800 {
            IOCTL::OLS_GET_DRIVER_VERSION
        } else if function == 0x801 {
            IOCTL::OLS_GET_REFCOUNT
        } else if function == 0x821 {
            IOCTL::OLS_READ_MSR
        } else if function == 0x822 {
            IOCTL::OLS_WRITE_MSR
        } else if function == 0x823 {
            IOCTL::OLS_READ_PMC
        } else if function == 0x824 {
            IOCTL::OLS_HALT
        } else if function == 0x831 {
            IOCTL::OLS_READ_IO_PORT
        } else if function == 0x832 {
            IOCTL::OLS_WRITE_IO_PORT
        } else if function == 0x833 {
            IOCTL::OLS_READ_IO_PORT_BYTE
        } else if function == 0x834 {
            IOCTL::OLS_READ_IO_PORT_WORD
        } else if function == 0x835 {
            IOCTL::OLS_READ_IO_PORT_DWORD
        } else if function == 0x836 {
            IOCTL::OLS_WRITE_IO_PORT_BYTE
        } else if function == 0x837 {
            IOCTL::OLS_WRITE_IO_PORT_WORD
        } else if function == 0x838 {
            IOCTL::OLS_WRITE_IO_PORT_DWORD
        } else if function == 0x841 {
            IOCTL::OLD_READ_MEMORY
        } else if function == 0x842 {
            IOCTL::OLS_WRITE_MEMORY
        } else if function == 0x851 {
            IOCTL::OLS_READ_PCI_CONFIG
        } else if function == 0x852 {
            IOCTL::OLS_WRITE_PCI_CONFIG
        } else {
            proof {
                assert forall|o: IOCTL| o.control_code() != code by {
                    lemma_table_unpacks(o);
                }
            }
            return None;
        };
        if candidate.code() == code {
            Some(candidate)
        } else {
            proof {
                assert forall|o: IOCTL| o.control_code() != code by {
                    lemma_table_unpacks(o);
                }
            }
            None
        }
    }

    /// Every operation of the table, in the order of their function codes.
    pub fn all() -> (ops: Vec<IOCTL>)
        ensures
            ops@.len() == 18,
            forall|o: IOCTL| ops@.contains(o),
            forall|i: int, j: int| 0 <= i < j < ops@.len() ==> ops@[i].function() < ops@[j].function(),
    {
        let mut ops: Vec<IOCTL> = Vec::new();
        ops.push(IOCTL::OLS_GET_DRIVER_VERSION);
        ops.push(IOCTL::OLS_GET_REFCOUNT);
        ops.push(IOCTL::OLS_READ_MSR);
        ops.push(IOCTL::OLS_WRITE_MSR);
        ops.push(IOCTL::OLS_READ_PMC);
        ops.push(IOCTL::OLS_HALT);
        ops.push(IOCTL::OLS_READ_IO_PORT);
        ops.push(IOCTL::OLS_WRITE_IO_PORT);
        ops.push(IOCTL::OLS_READ_IO_PORT_BYTE);
        ops.push(IOCTL::OLS_READ_IO_PORT_WORD);
        ops.push(IOCTL::OLS_READ_IO_PORT_DWORD);
        ops.push(IOCTL::OLS_WRITE_IO_PORT_BYTE);
        ops.push(IOCTL::OLS_WRITE_IO_PORT_WORD);
        ops.push(IOCTL::OLS_WRITE_IO_PORT_DWORD);
        ops.push(IOCTL::OLD_READ_MEMORY);
        ops.push(IOCTL::OLS_WRITE_MEMORY);
        ops.push(IOCTL::OLS_READ_PCI_CONFIG);
        ops.push(IOCTL::OLS_WRITE_PCI_CONFIG);
        proof {
            assert forall|o: IOCTL| ops@.contains(o) by {
                match o {
                    IOCTL::OLS_GET_DRIVER_VERSION => { assert(ops@[0] == o); },
                    IOCTL::OLS_GET_REFCOUNT => { assert(ops@[1] == o); },
                    IOCTL::OLS_READ_MSR => { assert(ops@[2] == o); },
                    IOCTL::OLS_WRITE_MSR => { assert(ops@[3] == o); },
                    IOCTL::OLS_READ_PMC => { assert(ops@[4] == o); },
                    IOCTL::OLS_HALT => { assert(ops@[5] == o); },
                    IOCTL::OLS_READ_IO_PORT => { assert(ops@[6] == o); },
                    IOCTL::OLS_WRITE_IO_PORT => { assert(ops@[7] == o); },
                    IOCTL::OLS_READ_IO_PORT_BYTE => { assert(ops@[8] == o); },
                    IOCTL::OLS_READ_IO_PORT_WORD => { assert(ops@[9] == o); },
                    IOCTL::OLS_READ_IO_PORT_DWORD => { assert(ops@[10] == o); },
                    IOCTL::OLS_WRITE_IO_PORT_BYTE => { assert(ops@[11] == o); },
                    IOCTL::OLS_WRITE_IO_PORT_WORD => { assert(ops@[12] == o); },
                    IOCTL::OLS_WRITE_IO_PORT_DWORD => { assert(ops@[13] == o); },
                    IOCTL::OLD_READ_MEMORY => { assert(ops@[14] == o); },
                    IOCTL::OLS_WRITE_MEMORY => { assert(ops@[15] == o); },
                    IOCTL::OLS_READ_PCI_CONFIG => { assert(ops@[16] == o); },
                    IOCTL::OLS_WRITE_PCI_CONFIG => { assert(ops@[17] == o); },
                }
            }
        }
        ops
    }
}

/// Unpacking the control code of any operation of the table gives the
/// operation's own device type, function code, method and access mode back.
pub proof fn lemma_table_unpacks(op: IOCTL)
    ensures
        fields_fit(DEVICE_TYPE, op.function()),
        control_fields(op.control_code()) == Some(
            ControlFields {
                device_type: DEVICE_TYPE,
                function: op.function(),
                method: op.method(),
                access: op.access(),
            },
        ),
{
    lemma_unpack_pack(DEVICE_TYPE, op.function(), op.method(), op.access());
}

/// No two operations of the table share a control code.
pub proof fn lemma_table_collision_free(a: IOCTL, b: IOCTL)
    requires
        a.control_code() == b.control_code(),
    ensures
        a == b,
{
    lemma_table_unpacks(a);
    lemma_table_unpacks(b);
}

} // verus!
