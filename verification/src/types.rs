use vstd::prelude::*;

verus! {

/// One field of a composite wire type.
pub struct Field {
    /// The field's name.
    pub name: String,
    /// The field's wire type.
    pub type_: Type,
}

/// The shape of a wire type: scalar, array, range, domain, composite or enum.
pub enum Kind {
    /// A simple scalar type.
    Simple,
    /// An array over the given element type.
    Array(Box<Type>),
    /// A range over the given element type.
    Range(Box<Type>),
    /// A domain over the given base type.
    Domain(Box<Type>),
    /// A composite type with the given fields.
    Composite(Vec<Field>),
    /// An enumerated type with the given variant labels.
    Enum(Vec<String>),
}

/// Immutable description of one server-declared wire type: its name, its
/// object identifier, and its shape.
pub struct Type {
    name: String,
    oid: u32,
    kind: Kind,
}

impl Type {
    /// Builds the descriptor of one wire type.
    pub fn new(name: String, oid: u32, kind: Kind) -> (r: Type)
        ensures
            r.spec_name() == name@,
            r.spec_oid() == oid,
            r.spec_kind() == kind,
    {
        Type { name, oid, kind }
    }

    /// The type's name.
    pub closed spec fn spec_name(&self) -> Seq<char> {
        self.name@
    }

    /// The type's object identifier.
    pub closed spec fn spec_oid(&self) -> u32 {
        self.oid
    }

    /// The type's shape.
    pub closed spec fn spec_kind(&self) -> Kind {
        self.kind
    }

    /// The type's name.
    pub fn name(&self) -> (r: &str)
        ensures
            r@ == self.spec_name(),
    {
        self.name.as_str()
    }

    /// The type's object identifier.
    pub fn oid(&self) -> (r: u32)
        ensures
            r == self.spec_oid(),
    {
        self.oid
    }

    /// The type's shape.
    pub fn kind(&self) -> (r: &Kind)
        ensures
            *r == self.spec_kind(),
    {
        &self.kind
    }
}

/// The element type of a range type; arbitrary when the type is no range.
pub open spec fn range_element(ty: Type) -> Type {
    match ty.spec_kind() {
        Kind::Range(elem) => *elem,
        _ => arbitrary(),
    }
}

} // verus!
