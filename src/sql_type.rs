use vstd::prelude::*;

verus! {

/// The SQL type of one column: its kind, bit width where it has one, and
/// whether the column is declared `NOT NULL` (the last `bool`).
#[derive(Debug, Clone)]
pub enum SqlType {
    Integer(u8, bool),
    UnsignedInteger(u8, bool),
    Float(u8, bool),
    Text(bool),
    Date(bool),
    Time(bool),
    DateTime(bool),
    Blob(bool),
    Boolean(bool),
    /// Reserved: a relation to the table of the named type.
    OneToOne(String, bool),
    /// Reserved: a relation to the table of the named type.
    ManyToMany(String, bool),
}

/// Bit widths allowed for integer columns.
pub open spec fn valid_int_width(w: u8) -> bool {
    w == 8 || w == 16 || w == 32 || w == 64
}

/// Bit widths allowed for floating-point columns.
pub open spec fn valid_float_width(w: u8) -> bool {
    w == 32 || w == 64
}

/// The kinds of vector values that are stored as blobs: each is a fixed
/// number of 32-bit components.
#[derive(Debug, Clone, Copy, PartialEq, Eq, Structural)]
pub enum VectorKind {
    Vec2,
    Vec3,
    Vec4,
    UVec2,
    UVec3,
    UVec4,
    IVec2,
    IVec3,
    IVec4,
    Quat,
    Srgba,
}

impl VectorKind {
    pub open spec fn spec_components(self) -> nat {
        match self {
            VectorKind::Vec2 | VectorKind::UVec2 | VectorKind::IVec2 => 2,
            VectorKind::Vec3 | VectorKind::UVec3 | VectorKind::IVec3 => 3,
            _ => 4,
        }
    }

    /// Number of 32-bit components of a value of this kind.
    pub fn components(self) -> (r: usize)
        ensures
            r == self.spec_components(),
    {
        match self {
            VectorKind::Vec2 | VectorKind::UVec2 | VectorKind::IVec2 => 2,
            VectorKind::Vec3 | VectorKind::UVec3 | VectorKind::IVec3 => 3,
            _ => 4,
        }
    }
}

/// The declared runtime type of a record field.
#[derive(Debug, Clone, PartialEq, Eq)]
pub enum FieldKind {
    I8,
    I16,
    I32,
    I64,
    U8,
    U16,
    U32,
    U64,
    F32,
    F64,
    Bool,
    Text,
    Vector(VectorKind),
    /// Any other type, by name.
    Other(String),
}

} // verus!
