use vstd::prelude::*;

verus! {

/// The fields of a struct, as `#[derive(DomainType)]` sees them.
#[derive(Clone, Copy, PartialEq, Eq, Structural, Debug)]
pub enum FieldsShape {
    /// `struct S { a: A, .. }` with this many fields.
    Named(usize),
    /// `struct S(A, ..)` with this many fields.
    Unnamed(usize),
    /// `struct S;`
    Unit,
}

/// The item that `#[derive(DomainType)]` is applied to.
#[derive(Clone, Copy, PartialEq, Eq, Structural, Debug)]
pub enum DataShape {
    Struct(FieldsShape),
    Enum,
    Union,
}

/// Why `DomainType` cannot be derived.
#[derive(Clone, Copy, PartialEq, Eq, Structural, Debug)]
pub enum DomainTypeShapeError {
    /// "DomainType can only be derived for structs"
    NotAStruct,
    /// "DomainType can only be derived for unnamed field structs"
    NamedFields,
    /// "DomainType requires exactly one field in the struct"
    NotOneField,
}

impl DomainTypeShapeError {
    pub fn message(self) -> (r: &'static str)
        ensures
            r@ == match self {
                DomainTypeShapeError::NotAStruct => "DomainType can only be derived for structs"@,
                DomainTypeShapeError::NamedFields => "DomainType can only be derived for unnamed field structs"@,
                DomainTypeShapeError::NotOneField => "DomainType requires exactly one field in the struct"@,
            },
    {
        match self {
            DomainTypeShapeError::NotAStruct => "DomainType can only be derived for structs",
            DomainTypeShapeError::NamedFields => "DomainType can only be derived for unnamed field structs",
            DomainTypeShapeError::NotOneField => "DomainType requires exactly one field in the struct",
        }
    }
}

/// `DomainType` derives only for a tuple struct of exactly one field.
pub fn check_domain_type_shape(data: DataShape) -> (r: Result<(), DomainTypeShapeError>)
    ensures
        r == match data {
            DataShape::Struct(FieldsShape::Unnamed(n)) => if n == 1 {
                Ok(())
            } else {
                Err(DomainTypeShapeError::NotOneField)
            },
            DataShape::Struct(FieldsShape::Named(_)) => Err(DomainTypeShapeError::NamedFields),
            DataShape::Struct(FieldsShape::Unit) => Err(DomainTypeShapeError::NotOneField),
            _ => Err::<(), DomainTypeShapeError>(DomainTypeShapeError::NotAStruct),
        },
{
    match data {
        DataShape::Struct(FieldsShape::Unnamed(n)) => if n == 1 {
            Ok(())
        } else {
            Err(DomainTypeShapeError::NotOneField)
        },
        DataShape::Struct(FieldsShape::Named(_)) => Err(DomainTypeShapeError::NamedFields),
        DataShape::Struct(FieldsShape::Unit) => Err(DomainTypeShapeError::NotOneField),
        DataShape::Enum | DataShape::Union => Err(DomainTypeShapeError::NotAStruct),
    }
}

} // verus!
