//! A model of a field's type expression: what the conversion-eligibility
//! rule reads of it.
use vstd::prelude::*;
use crate::text::{chars_eq, views};

verus! {

/// One segment of a type path, such as `Vec<u32>` in `std::vec::Vec<u32>`.
pub struct PathSegment {
    pub ident: String,
    /// The segment carries generic arguments (`<...>` or `(...) -> ...`).
    pub has_args: bool,
}

/// A type expression as written at a field's declaration.
pub enum TypeExpr {
    /// A type path, possibly with a qualified-self projection (`<T as Tr>::X`).
    Path { qself: bool, leading_colon: bool, segments: Vec<PathSegment> },
    /// Any other type form: references, tuples, arrays, `impl Trait`, ...
    Other,
}

/// The fixed set of primitive numeric, boolean and character type names.
pub open spec fn is_primitive_name(s: Seq<char>) -> bool {
    ||| s == "bool"@
    ||| s == "char"@
    ||| s == "f32"@
    ||| s == "f64"@
    ||| s == "i8"@
    ||| s == "i16"@
    ||| s == "i32"@
    ||| s == "i64"@
    ||| s == "i128"@
    ||| s == "isize"@
    ||| s == "u8"@
    ||| s == "u16"@
    ||| s == "u32"@
    ||| s == "u64"@
    ||| s == "u128"@
    ||| s == "usize"@
}

/// The single identifier a path consists of, if it is nothing more than that.
pub open spec fn path_single_ident(leading_colon: bool, segments: Seq<PathSegment>) -> Option<Seq<char>> {
    if !leading_colon && segments.len() == 1 && !segments[0].has_args {
        Some(segments[0].ident@)
    } else {
        None
    }
}

/// The default rule: only a simple path without generic arguments, that is
/// neither a bare type parameter of the entity nor a primitive type, accepts
/// convertible values. Primitives are matched by the last path segment, so
/// `std::primitive::u32` counts as `u32`.
pub open spec fn qualifies_for_into(ty: TypeExpr, type_params: Seq<Seq<char>>) -> bool {
    match ty {
        TypeExpr::Path { qself, leading_colon, segments } => {
            &&& !qself
            &&& forall|i: int| 0 <= i < segments@.len() ==> !(#[trigger] segments@[i]).has_args
            &&& match path_single_ident(leading_colon, segments@) {
                Some(id) => !type_params.contains(id),
                None => true,
            }
            &&& !(segments@.len() > 0 && is_primitive_name(segments@.last().ident@))
        },
        TypeExpr::Other => false,
    }
}

/// Whether `s` names one of the primitive types.
pub fn is_primitive(s: &str) -> (r: bool)
    ensures
        r == is_primitive_name(s@),
{
    chars_eq(s, "bool") || chars_eq(s, "char") || chars_eq(s, "f32") || chars_eq(s, "f64")
        || chars_eq(s, "i8") || chars_eq(s, "i16") || chars_eq(s, "i32") || chars_eq(s, "i64")
        || chars_eq(s, "i128") || chars_eq(s, "isize") || chars_eq(s, "u8") || chars_eq(s, "u16")
        || chars_eq(s, "u32") || chars_eq(s, "u64") || chars_eq(s, "u128") || chars_eq(s, "usize")
}

/// Whether `name` is one of `names`.
pub fn contains_name(names: &Vec<String>, name: &String) -> (r: bool)
    ensures
        r == views(names@).contains(name@),
{
    let ghost vs = views(names@);
    let mut i: usize = 0;
    while i < names.len()
        invariant
            i <= names@.len(),
            vs == views(names@),
            forall|j: int| 0 <= j < i ==> vs[j] != name@,
        decreases names.len() - i,
    {
        if names[i] == *name {
            assert(vs[i as int] == name@);
            return true;
        }
        i = i + 1;
    }
    false
}

/// The default conversion-eligibility rule applied to `ty`, where
/// `type_params` are the entity's own generic type parameters.
pub fn type_qualifies_for_into(ty: &TypeExpr, type_params: &Vec<String>) -> (r: bool)
    ensures
        r == qualifies_for_into(*ty, views(type_params@)),
{
    let (leading_colon, segments) = match ty {
        TypeExpr::Path { qself, leading_colon, segments } => {
            if *qself {
                return false;
            }
            (*leading_colon, segments)
        },
        TypeExpr::Other => {
            return false;
        },
    };
    let mut i: usize = 0;
    while i < segments.len()
        invariant
            i <= segments@.len(),
            *ty is Path,
            !ty->qself,
            ty->leading_colon == leading_colon,
            ty->segments@ == segments@,
            forall|j: int| 0 <= j < i ==> !(#[trigger] segments@[j]).has_args,
        decreases segments.len() - i,
    {
        if segments[i].has_args {
            assert(segments@[i as int].has_args);
            return false;
        }
        i = i + 1;
    }
    if !leading_colon && segments.len() == 1 && contains_name(type_params, &segments[0].ident) {
        return false;
    }
    if segments.len() > 0 && is_primitive(segments[segments.len() - 1].ident.as_str()) {
        return false;
    }
    true
}

} // verus!
