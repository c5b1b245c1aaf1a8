//! The field model: one constructible input of a buildable entity.
use vstd::prelude::*;
use vstd::string::*;
use crate::ty::TypeExpr;

verus! {

/// Where a field comes from; used only to phrase diagnostics.
#[derive(Clone, Copy, Debug, PartialEq, Eq, Structural)]
pub enum FieldOrigin {
    FnArg,
    StructField,
}

/// Whether a field must be supplied or may be left absent.
pub enum Optionality {
    Required,
    /// The field's type is an optional of the given inner type.
    Optional(TypeExpr),
}

/// One input of the builder.
pub struct Field {
    /// The identifier as written, used for internal wiring.
    pub ident: String,
    /// The name of the state trait's associated type for this field.
    pub state_assoc_ident: String,
    pub ty: TypeExpr,
    pub optionality: Optionality,
    /// An explicit `into` setting: force (`true`) or forbid (`false`)
    /// convertible-value setters; absent means "use the default rule".
    pub into_override: Option<bool>,
    /// Doc comment lines, in order.
    pub docs: Vec<String>,
    pub origin: FieldOrigin,
}

/// The user-facing name of an identifier: a single leading underscore, which
/// marks an unused binding, is dropped.
pub open spec fn norm_ident(s: Seq<char>) -> Seq<char> {
    if s.len() > 0 && s[0] == '_' {
        s.drop_first()
    } else {
        s
    }
}

/// The type that conversion eligibility is judged on: the inner type of an
/// optional field, the declared type otherwise.
pub open spec fn eligibility_type(f: Field) -> TypeExpr {
    match f.optionality {
        Optionality::Optional(inner) => inner,
        Optionality::Required => f.ty,
    }
}

/// `s` without a leading underscore.
pub fn normalized_ident(s: &String) -> (r: String)
    ensures
        r@ == norm_ident(s@),
{
    let st = s.as_str();
    let n = st.unicode_len();
    if n > 0 && st.get_char(0) == '_' {
        String::from_str(st.substring_char(1, n))
    } else {
        s.clone()
    }
}

impl FieldOrigin {
    pub open spec fn text(self) -> Seq<char> {
        match self {
            FieldOrigin::FnArg => "function argument"@,
            FieldOrigin::StructField => "struct field"@,
        }
    }

    /// How diagnostics name this kind of field.
    pub fn describe(&self) -> (r: String)
        ensures
            r@ == self.text(),
    {
        match self {
            FieldOrigin::FnArg => String::from_str("function argument"),
            FieldOrigin::StructField => String::from_str("struct field"),
        }
    }
}

impl Field {
    /// The inner type of an optional field.
    pub fn as_optional(&self) -> (r: Option<&TypeExpr>)
        ensures
            match self.optionality {
                Optionality::Optional(inner) => r == Some(&inner),
                Optionality::Required => r is None,
            },
    {
        match &self.optionality {
            Optionality::Optional(inner) => Some(inner),
            Optionality::Required => None,
        }
    }
}

} // verus!
