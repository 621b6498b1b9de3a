//! Packing and unpacking of I/O control codes.
//!
//! A control code is one 32-bit number that holds four fields:
//!
//! | bits    | field       |
//! |---------|-------------|
//! | 16..=31 | device type |
//! | 14..=15 | access mode |
//! | 2..=13  | function    |
//! | 0..=1   | method      |

use vstd::prelude::*;

verus! {

/// How buffers are handed to the driver: the two lowest bits of a control code.
#[allow(non_camel_case_types)]
#[derive(Clone, Copy, Debug, PartialEq, Eq, Structural)]
pub enum Method {
    BUFFERED,
    INDIRECT,
    OUTDIRECT,
    NEITHER,
}

/// The access that a control code asks for: bits 14 and 15 of a control code.
#[allow(non_camel_case_types)]
#[derive(Clone, Copy, Debug, PartialEq, Eq, Structural)]
pub enum Access {
    ANY,
    READ,
    WRITE,
}

/// The four fields of a control code.
#[derive(Clone, Copy, Debug, PartialEq, Eq, Structural)]
pub struct ControlFields {
    pub device_type: u32,
    pub function: u32,
    pub method: Method,
    pub access: Access,
}

/// The first device type that no longer fits into its sixteen bits.
pub const DEVICE_TYPE_LIMIT: u32 = 0x1_0000;

/// The first function code that no longer fits into its twelve bits.
pub const FUNCTION_LIMIT: u32 = 0x1000;

impl Method {
    /// The two-bit number that stands for this method.
    pub open spec fn bits(self) -> u32 {
        match self {
            Method::BUFFERED => 0,
            Method::INDIRECT => 1,
            Method::OUTDIRECT => 2,
            Method::NEITHER => 3,
        }
    }

    /// The method that a two-bit number stands for.
    pub open spec fn of_bits(bits: u32) -> Option<Method> {
        if bits == 0 {
            Some(Method::BUFFERED)
        } else if bits == 1 {
            Some(Method::INDIRECT)
        } else if bits == 2 {
            Some(Method::OUTDIRECT)
        } else if bits == 3 {
            Some(Method::NEITHER)
        } else {
            None
        }
    }

    /// The two-bit number that stands for this method.
    pub fn to_bits(self) -> (r: u32)
        ensures
            r == self.bits(),
            r < 4,
    {
        match self {
            Method::BUFFERED => 0,
            Method::INDIRECT => 1,
            Method::OUTDIRECT => 2,
            Method::NEITHER => 3,
        }
    }

    /// The method that `bits` stands for, if it is one of the four.
    pub fn from_bits(bits: u32) -> (r: Option<Method>)
        ensures
            r == Method::of_bits(bits),
            r is Some <==> bits < 4,
            r matches Some(m) ==> m.bits() == bits,
    {
        if bits == 0 {
            Some(Method::BUFFERED)
        } else if bits == 1 {
            Some(Method::INDIRECT)
        } else if bits == 2 {
            Some(Method::OUTDIRECT)
        } else if bits == 3 {
            Some(Method::NEITHER)
        } else {
            None
        }
    }
}

impl Access {
    /// The two-bit number that stands for this access mode.
    pub open spec fn bits(self) -> u32 {
        match self {
            Access::ANY => 0,
            Access::READ => 1,
            Access::WRITE => 2,
        }
    }

    /// The access mode that a two-bit number stands for.
    pub open spec fn of_bits(bits: u32) -> Option<Access> {
        if bits == 0 {
            Some(Access::ANY)
        } else if bits == 1 {
            Some(Access::READ)
        } else if bits == 2 {
            Some(Access::WRITE)
        } else {
            None
        }
    }

    /// The two-bit number that stands for this access mode.
    pub fn to_bits(self) -> (r: u32)
        ensures
            r == self.bits(),
            r < 3,
    {
        match self {
            Access::ANY => 0,
            Access::READ => 1,
            Access::WRITE => 2,
        }
    }

    /// The access mode that `bits` stands for, if it is one of the three.
    pub fn from_bits(bits: u32) -> (r: Option<Access>)
        ensures
            r == Access::of_bits(bits),
            r is Some <==> bits < 3,
            r matches Some(a) ==> a.bits() == bits,
    {
        if bits == 0 {
            Some(Access::ANY)
        } else if bits == 1 {
            Some(Access::READ)
        } else if bits == 2 {
            Some(Access::WRITE)
        } else {
            None
        }
    }
}

/// The control code that packs the four fields: the device type from bit 16
/// up, the access mode in bits 14 and 15, the function code from bit 2 up, and
/// the method in bits 0 and 1. Bits that are shifted past bit 31 are lost.
pub open spec fn control_code(device_type: u32, function: u32, method: Method, access: Access) -> u32 {
    (device_type << 16) | (access.bits() << 14) | (function << 2) | method.bits()
}

/// Whether a device type and a function code fit into their bit-fields, so
/// that packing them loses nothing.
pub open spec fn fields_fit(device_type: u32, function: u32) -> bool {
    device_type < DEVICE_TYPE_LIMIT && function < FUNCTION_LIMIT
}

/// The fields that a control code holds; `None` where bits 14 and 15 are both
/// set, which stands for no access mode.
pub open spec fn control_fields(code: u32) -> Option<ControlFields> {
    match Access::of_bits((code >> 14) & 3) {
        Some(access) => Some(
            ControlFields {
                device_type: code >> 16,
                function: (code >> 2) & 0xfff,
                method: Method::of_bits(code & 3).unwrap(),
                access,
            },
        ),
        None => None,
    }
}

/// Creates an I/O control code from a device type, a function code, a transfer
/// method and an access mode.
pub fn io_control_code(device_type: u32, function: u32, method: Method, access: Access) -> (code: u32)
    ensures
        code == control_code(device_type, function, method, access),
        fields_fit(device_type, function) ==> control_fields(code) == Some(
            ControlFields { device_type, function, method, access },
        ),
{
    proof {
        if fields_fit(device_type, function) {
            lemma_unpack_pack(device_type, function, method, access);
        }
    }
    (device_type << 16) | (access.to_bits() << 14) | (function << 2) | method.to_bits()
}

/// Splits a control code into its four fields. Fails only on a code whose
/// access bits are both set.
pub fn decode_control_code(code: u32) -> (fields: Option<ControlFields>)
    ensures
        fields == control_fields(code),
        fields is Some <==> (code >> 14) & 3 != 3,
        fields matches Some(f) ==> fields_fit(f.device_type, f.function) && control_code(
            f.device_type,
            f.function,
            f.method,
            f.access,
        ) == code,
{
    proof {
        assert((code >> 14) & 3 < 4 && code & 3 < 4) by (bit_vector);
        lemma_pack_unpack(code);
    }
    let access = match Access::from_bits((code >> 14) & 3) {
        Some(access) => access,
        None => { return None; },
    };
    let method = match Method::from_bits(code & 3) {
        Some(method) => method,
        None => { return None; },
    };
    Some(ControlFields { device_type: code >> 16, function: (code >> 2) & 0xfff, method, access })
}

/// Unpacking what was packed gives the four fields back, whenever the device
/// type and the function code fit into their bit-fields.
pub proof fn lemma_unpack_pack(device_type: u32, function: u32, method: Method, access: Access)
    requires
        fields_fit(device_type, function),
    ensures
        control_fields(control_code(device_type, function, method, access)) == Some(
            ControlFields { device_type, function, method, access },
        ),
{
    let m = method.bits();
    let a = access.bits();
    let code = control_code(device_type, function, method, access);
    assert(code == (device_type << 16) | (a << 14) | (function << 2) | m);
    assert(device_type < 0x1_0000 && function < 0x1000 && m < 4 && a < 4 ==> {
        let c = (device_type << 16) | (a << 14) | (function << 2) | m;
        c >> 16 == device_type && (c >> 14) & 3 == a && (c >> 2) & 0xfff == function && c & 3 == m
    }) by (bit_vector);
}

/// Packing the fields of a control code gives the code back, and the fields
/// of any code fit into their bit-fields.
pub proof fn lemma_pack_unpack(code: u32)
    ensures
        control_fields(code) matches Some(f) ==> fields_fit(f.device_type, f.function)
            && control_code(f.device_type, f.function, f.method, f.access) == code,
{
    assert(code >> 16 < 0x1_0000 && (code >> 2) & 0xfff < 0x1000 && (code >> 14) & 3 < 4 && code & 3
        < 4) by (bit_vector);
    assert(((code >> 16) << 16) | (((code >> 14) & 3) << 14) | (((code >> 2) & 0xfff) << 2) | (code
        & 3) == code) by (bit_vector);
}

/// No two different tuples pack to one code: where the device types and
/// function codes fit, equal codes come from equal fields.
pub proof fn lemma_control_code_injective(
    device_type: u32,
    function: u32,
    method: Method,
    access: Access,
    other_device_type: u32,
    other_function: u32,
    other_method: Method,
    other_access: Access,
)
    requires
        fields_fit(device_type, function),
        fields_fit(other_device_type, other_function),
        control_code(device_type, function, method, access) == control_code(
            other_device_type,
            other_function,
            other_method,
            other_access,
        ),
    ensures
        device_type == other_device_type,
        function == other_function,
        method == other_method,
        access == other_access,
{
    lemma_unpack_pack(device_type, function, method, access);
    lemma_unpack_pack(other_device_type, other_function, other_method, other_access);
}

} // verus!
