use vstd::prelude::*;

verus! {

/// A scalar value type that a record field may carry.
#[derive(Clone, Copy, Debug, PartialEq, Eq, Structural)]
pub enum Scalar {
    Bool,
    Int,
    Str,
}

/// One field of a record type.
#[derive(Clone, Debug)]
pub struct Field {
    pub name: String,
    pub ty: Scalar,
    /// An optional field may be missing or `null` on the wire.
    pub optional: bool,
}

/// A record type: a named object whose fields are scalars.
#[derive(Clone, Debug)]
pub struct Record {
    pub name: String,
    pub fields: Vec<Field>,
}

/// A type that a parameter or a result refers to.
#[derive(Clone, Debug)]
pub enum TypeRef {
    Unit,
    Bool,
    Int,
    Str,
    Record(Record),
}

/// What a type key tells apart: the built-in types, and records by name.
#[derive(Clone, Copy, Debug, PartialEq, Eq, Structural)]
pub enum TypeKind {
    Unit,
    Bool,
    Int,
    Str,
    Record,
}

/// The stable identity of a type: its kind and, for a record, its name.
#[derive(Clone, Debug)]
pub struct TypeKey {
    pub kind: TypeKind,
    pub name: String,
}

/// The mathematical identity of a type key.
pub type KeyView = (TypeKind, Seq<char>);

impl View for TypeKey {
    type V = KeyView;

    open spec fn view(&self) -> KeyView {
        (self.kind, self.name@)
    }
}

/// The identity of a type: two references denote the same type exactly when
/// their keys agree.
pub open spec fn key_of(t: TypeRef) -> KeyView {
    match t {
        TypeRef::Unit => (TypeKind::Unit, Seq::empty()),
        TypeRef::Bool => (TypeKind::Bool, Seq::empty()),
        TypeRef::Int => (TypeKind::Int, Seq::empty()),
        TypeRef::Str => (TypeKind::Str, Seq::empty()),
        TypeRef::Record(r) => (TypeKind::Record, r.name@),
    }
}

pub open spec fn keys_view(ks: Seq<TypeKey>) -> Seq<KeyView> {
    ks.map_values(|k: TypeKey| k@)
}

impl TypeRef {
    pub open spec fn is_unit_spec(&self) -> bool {
        self is Unit
    }

    pub fn is_unit(&self) -> (r: bool)
        ensures
            r == self.is_unit_spec(),
    {
        match self {
            TypeRef::Unit => true,
            _ => false,
        }
    }

    /// The key under which this type is catalogued.
    pub fn key(&self) -> (k: TypeKey)
        ensures
            k@ == key_of(*self),
    {
        match self {
            TypeRef::Unit => TypeKey { kind: TypeKind::Unit, name: String::new() },
            TypeRef::Bool => TypeKey { kind: TypeKind::Bool, name: String::new() },
            TypeRef::Int => TypeKey { kind: TypeKind::Int, name: String::new() },
            TypeRef::Str => TypeKey { kind: TypeKind::Str, name: String::new() },
            TypeRef::Record(r) => TypeKey { kind: TypeKind::Record, name: r.name.clone() },
        }
    }
}

impl TypeKey {
    /// Whether two keys name the same type.
    pub fn same(&self, other: &TypeKey) -> (r: bool)
        ensures
            r == (self@ == other@),
    {
        if self.kind != other.kind {
            return false;
        }
        self.name == other.name
    }

    pub fn duplicate(&self) -> (r: TypeKey)
        ensures
            r@ == self@,
    {
        TypeKey { kind: self.kind, name: self.name.clone() }
    }
}

} // verus!
