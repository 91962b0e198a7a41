use vstd::prelude::*;

verus! {

/// The field shape of a struct declaration, reduced to what generation reads.
pub enum Fields {
    /// A tuple struct; carries the source text of each field's type, in order.
    Unnamed(Vec<String>),
    /// A struct with named fields.
    Named,
    /// A unit struct.
    Unit,
}

/// The kind of declaration a directive was applied to.
pub enum Data {
    /// A struct, with its field shape.
    Struct(Fields),
    /// An enum.
    Enum,
    /// A union.
    Union,
}

/// A declaration, reduced to the two attributes generation reads:
/// the declared type's name and its data shape.
pub struct Declaration {
    /// The declared type's name, as source text.
    pub name: String,
    /// The declaration's data shape.
    pub data: Data,
}

/// A diagnostic explaining why generation was refused, to be reported
/// at the offending declaration.
#[derive(Clone, Debug)]
pub struct Diagnostic {
    /// The diagnostic's message.
    pub message: String,
}

impl Declaration {
    /// Directives generate code only for tuple structs; every other shape
    /// is refused with a diagnostic.
    pub open spec fn generates(self) -> bool {
        self.data matches Data::Struct(Fields::Unnamed(_))
    }

    /// A wrapper proper: a tuple struct with exactly one field.
    pub open spec fn is_single_field(self) -> bool {
        match self.data {
            Data::Struct(Fields::Unnamed(tys)) => tys@.len() == 1,
            _ => false,
        }
    }

    /// The source text of each field's type, for a tuple struct.
    pub open spec fn field_types(self) -> Seq<Seq<char>>
        recommends
            self.generates(),
    {
        match self.data {
            Data::Struct(Fields::Unnamed(tys)) => tys.deep_view(),
            _ => Seq::empty(),
        }
    }

    /// The inner type of a single-field wrapper, as source text.
    pub open spec fn inner_type(self) -> Seq<char>
        recommends
            self.is_single_field(),
    {
        self.field_types()[0]
    }
}

} // verus!
