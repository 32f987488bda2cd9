//! The shape of the types written in an endpoint's signature, as far as the
//! service macro reads them: `Request<T>` in the body argument and
//! `Result<Response<T>, E>` in the return type.

use vstd::prelude::*;

use crate::text::same_text;

verus! {

broadcast use vstd::string::group_string_axioms;

/// A type as written in a signature.
pub enum TypeModel {
    /// A path type such as `a::Result<X, Y>`.
    Path {
        /// The identifier of the path's last segment, if it has segments.
        last: Option<String>,
        /// The arguments of the last segment, when they are in angle brackets.
        generics: Option<Vec<GenericArgModel>>,
        /// The type's tokens.
        text: String,
    },
    /// Any other type.
    Other {
        /// The type's tokens.
        text: String,
    },
}

/// One argument in angle brackets.
pub enum GenericArgModel {
    /// A type argument.
    Type(TypeModel),
    /// A lifetime, constant or binding.
    Other,
}

/// The tokens of a type.
pub open spec fn type_text(t: TypeModel) -> Seq<char> {
    match t {
        TypeModel::Path { text, .. } => text@,
        TypeModel::Other { text } => text@,
    }
}

/// The first type argument of a path type whose last segment is named `name`
/// and has arguments in angle brackets, if the first of those arguments is a
/// type.
pub open spec fn first_type_arg_of(t: TypeModel, name: Seq<char>) -> Option<TypeModel> {
    match t {
        TypeModel::Path { last: Some(ident), generics: Some(args), .. } => if ident@ == name
            && args@.len() > 0 {
            match args@[0] {
                GenericArgModel::Type(inner) => Some(inner),
                GenericArgModel::Other => None,
            }
        } else {
            None
        },
        _ => None,
    }
}

/// `T` from `Result<Response<T>, E>`, if the type has that shape.
pub open spec fn response_type_spec(t: TypeModel) -> Option<Seq<char>> {
    match first_type_arg_of(t, "Result"@) {
        Some(resp) => match resp {
            TypeModel::Path { .. } => match first_type_arg_of(resp, "Response"@) {
                Some(inner) => Some(type_text(inner)),
                None => None,
            },
            TypeModel::Other { .. } => None,
        },
        None => None,
    }
}

/// `T` from `Request<T>`, if the type has that shape.
pub open spec fn request_type_spec(t: TypeModel) -> Option<Seq<char>> {
    match first_type_arg_of(t, "Request"@) {
        Some(inner) => Some(type_text(inner)),
        None => None,
    }
}

/// The tokens of a type.
pub fn text_of(t: &TypeModel) -> (s: String)
    ensures
        s@ == type_text(*t),
{
    match t {
        TypeModel::Path { text, .. } => text.clone(),
        TypeModel::Other { text } => text.clone(),
    }
}

fn first_type_arg<'a>(t: &'a TypeModel, name: &str) -> (r: Option<&'a TypeModel>)
    ensures
        match r {
            Some(inner) => first_type_arg_of(*t, name@) == Some(*inner),
            None => first_type_arg_of(*t, name@) is None,
        },
{
    match t {
        TypeModel::Path { last: Some(ident), generics: Some(args), .. } => {
            if same_text(ident, name) && args.len() > 0 {
                match &args[0] {
                    GenericArgModel::Type(inner) => Some(inner),
                    GenericArgModel::Other => None,
                }
            } else {
                None
            }
        },
        _ => None,
    }
}

/// Extracts the response type `T` from a return type `Result<Response<T>, E>`.
pub fn extract_response_type(ty: &TypeModel) -> (r: Option<String>)
    ensures
        match r {
            Some(s) => response_type_spec(*ty) == Some(s@),
            None => response_type_spec(*ty) is None,
        },
{
    match first_type_arg(ty, "Result") {
        Some(resp) => match resp {
            TypeModel::Path { .. } => match first_type_arg(resp, "Response") {
                Some(inner) => Some(text_of(inner)),
                None => None,
            },
            TypeModel::Other { .. } => None,
        },
        None => None,
    }
}

/// Extracts the request type `T` from a body argument `Request<T>`.
pub fn extract_request_type(ty: &TypeModel) -> (r: Option<String>)
    ensures
        match r {
            Some(s) => request_type_spec(*ty) == Some(s@),
            None => request_type_spec(*ty) is None,
        },
{
    match first_type_arg(ty, "Request") {
        Some(inner) => Some(text_of(inner)),
        None => None,
    }
}

} // verus!
