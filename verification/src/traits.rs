//! The host-type to device-type name mapping.
//!
//! Build options always embed the element type as a compile-time macro, so a
//! built kernel artifact is valid for exactly one element type. Each host
//! numeric type has one canonical device-side spelling. The trait
//! `HasOpenclString` gives the spelling of a host type; `ElemType` enumerates
//! every supported element type, including the floating-point ones whose host
//! types cannot appear in verified code, so the cache layer can speak of all
//! of them uniformly.

use vstd::prelude::*;

verus! {

/// Marker for host types that can be elements of device buffers.
pub trait OpenclNum {}

impl OpenclNum for i8 {}

impl OpenclNum for i16 {}

impl OpenclNum for i32 {}

impl OpenclNum for i64 {}

impl OpenclNum for u8 {}

impl OpenclNum for u16 {}

impl OpenclNum for u32 {}

impl OpenclNum for u64 {}

/// Host types with a canonical device-side type name. Every spelling is
/// free of NUL characters, so it can be embedded in the null-terminated
/// build-options string.
pub trait HasOpenclString {
    /// The canonical device-side spelling of this host type.
    spec fn spec_opencl_string() -> Seq<char>;

    /// Returns the canonical device-side spelling of this host type.
    fn as_opencl_string() -> (r: &'static str)
        ensures
            r@ == Self::spec_opencl_string(),
            crate::nul_free(r@),
    ;
}

impl HasOpenclString for i8 {
    open spec fn spec_opencl_string() -> Seq<char> {
        "char"@
    }

    fn as_opencl_string() -> (r: &'static str) {
        proof {
            reveal_strlit("char");
        }
        "char"
    }
}

impl HasOpenclString for i16 {
    open spec fn spec_opencl_string() -> Seq<char> {
        "short"@
    }

    fn as_opencl_string() -> (r: &'static str) {
        proof {
            reveal_strlit("short");
        }
        "short"
    }
}

impl HasOpenclString for i32 {
    open spec fn spec_opencl_string() -> Seq<char> {
        "int"@
    }

    fn as_opencl_string() -> (r: &'static str) {
        proof {
            reveal_strlit("int");
        }
        "int"
    }
}

impl HasOpenclString for i64 {
    open spec fn spec_opencl_string() -> Seq<char> {
        "long"@
    }

    fn as_opencl_string() -> (r: &'static str) {
        proof {
            reveal_strlit("long");
        }
        "long"
    }
}

impl HasOpenclString for u8 {
    open spec fn spec_opencl_string() -> Seq<char> {
        "uchar"@
    }

    fn as_opencl_string() -> (r: &'static str) {
        proof {
            reveal_strlit("uchar");
        }
        "uchar"
    }
}

impl HasOpenclString for u16 {
    open spec fn spec_opencl_string() -> Seq<char> {
        "ushort"@
    }

    fn as_opencl_string() -> (r: &'static str) {
        proof {
            reveal_strlit("ushort");
        }
        "ushort"
    }
}

impl HasOpenclString for u32 {
    open spec fn spec_opencl_string() -> Seq<char> {
        "uint"@
    }

    fn as_opencl_string() -> (r: &'static str) {
        proof {
            reveal_strlit("uint");
        }
        "uint"
    }
}

impl HasOpenclString for u64 {
    open spec fn spec_opencl_string() -> Seq<char> {
        "ulong"@
    }

    fn as_opencl_string() -> (r: &'static str) {
        proof {
            reveal_strlit("ulong");
        }
        "ulong"
    }
}

impl HasOpenclString for bool {
    open spec fn spec_opencl_string() -> Seq<char> {
        "bool"@
    }

    fn as_opencl_string() -> (r: &'static str) {
        proof {
            reveal_strlit("bool");
        }
        "bool"
    }
}

impl HasOpenclString for char {
    open spec fn spec_opencl_string() -> Seq<char> {
        "char"@
    }

    fn as_opencl_string() -> (r: &'static str) {
        proof {
            reveal_strlit("char");
        }
        "char"
    }
}

/// Every element type a kernel can be built for. The floating-point entries
/// stand for the host types `half::f16`, `f32` and `f64`, which verified
/// code cannot hold directly; the embedding program converts.
#[derive(Clone, Copy, PartialEq, Eq, Structural, Debug)]
pub enum ElemType {
    I8,
    I16,
    I32,
    I64,
    U8,
    U16,
    U32,
    U64,
    F16,
    F32,
    F64,
    Bool,
    Char,
}

impl ElemType {
    /// The canonical device-side spelling of this element type.
    pub open spec fn spec_device_name(self) -> Seq<char> {
        match self {
            ElemType::I8 => "char"@,
            ElemType::I16 => "short"@,
            ElemType::I32 => "int"@,
            ElemType::I64 => "long"@,
            ElemType::U8 => "uchar"@,
            ElemType::U16 => "ushort"@,
            ElemType::U32 => "uint"@,
            ElemType::U64 => "ulong"@,
            ElemType::F16 => "half"@,
            ElemType::F32 => "float"@,
            ElemType::F64 => "double"@,
            ElemType::Bool => "bool"@,
            ElemType::Char => "char"@,
        }
    }

    /// Returns the canonical device-side spelling of this element type.
    pub fn device_name(self) -> (r: &'static str)
        ensures
            r@ == self.spec_device_name(),
            crate::nul_free(r@),
    {
        proof {
            reveal_strlit("char");
            reveal_strlit("short");
            reveal_strlit("int");
            reveal_strlit("long");
            reveal_strlit("uchar");
            reveal_strlit("ushort");
            reveal_strlit("uint");
            reveal_strlit("ulong");
            reveal_strlit("half");
            reveal_strlit("float");
            reveal_strlit("double");
            reveal_strlit("bool");
        }
        match self {
            ElemType::I8 => "char",
            ElemType::I16 => "short",
            ElemType::I32 => "int",
            ElemType::I64 => "long",
            ElemType::U8 => "uchar",
            ElemType::U16 => "ushort",
            ElemType::U32 => "uint",
            ElemType::U64 => "ulong",
            ElemType::F16 => "half",
            ElemType::F32 => "float",
            ElemType::F64 => "double",
            ElemType::Bool => "bool",
            ElemType::Char => "char",
        }
    }
}

} // verus!
