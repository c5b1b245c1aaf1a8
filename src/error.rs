//! The failures the synthesis can report.
use vstd::prelude::*;
use vstd::string::*;
use crate::field::FieldOrigin;

verus! {

/// Why builder generation for an entry point was refused.
pub enum BuilderError {
    /// An explicit `into` setting equals what the default rule already decides.
    RedundantInto { field: String, origin: FieldOrigin, already_qualifies: bool },
    /// The impl block implements a trait.
    TraitImpl { trait_path: String },
    /// No method of the impl block carries the builder marker.
    NoBuilderFunctions,
    /// A marked method is a `default` method.
    DefaultFn { fn_name: String },
    /// The original and normalized item lists lost their positional alignment.
    Misaligned,
    /// Two fields share a name once leading underscores are dropped.
    DuplicateField { name: String },
}

impl BuilderError {
    /// The human-readable explanation of the failure.
    pub open spec fn text(self) -> Seq<char> {
        match self {
            BuilderError::RedundantInto { origin, already_qualifies, .. } =>
                "This attribute is redundant and can be removed. By default the type of this "@
                    + origin.text() + " already "@
                    + (if already_qualifies { "qualifies"@ } else { "doesn't qualify"@ })
                    + " for `impl Into`."@,
            BuilderError::TraitImpl { .. } => "Impls of traits are not supported yet"@,
            BuilderError::NoBuilderFunctions =>
                "There are no #[builder] functions in the impl block, so there is no need for a #[bon] attribute on the impl block"@,
            BuilderError::DefaultFn { .. } => "Default functions are not supported yet"@,
            BuilderError::Misaligned =>
                "The normalized impl block lost its positional alignment with the original one"@,
            BuilderError::DuplicateField { name } =>
                "Two fields have the same name `"@ + name@ + "` once a leading underscore is dropped"@,
        }
    }

    pub fn message(&self) -> (r: String)
        ensures
            r@ == self.text(),
    {
        match self {
            BuilderError::RedundantInto { origin, already_qualifies, .. } => {
                let qualifies = if *already_qualifies {
                    "qualifies"
                } else {
                    "doesn't qualify"
                };
                String::from_str(
                    "This attribute is redundant and can be removed. By default the type of this ",
                ).concat(origin.describe().as_str()).concat(" already ").concat(qualifies).concat(
                    " for `impl Into`.",
                )
            },
            BuilderError::TraitImpl { .. } => String::from_str("Impls of traits are not supported yet"),
            BuilderError::NoBuilderFunctions => String::from_str(
                "There are no #[builder] functions in the impl block, so there is no need for a #[bon] attribute on the impl block",
            ),
            BuilderError::DefaultFn { .. } => String::from_str("Default functions are not supported yet"),
            BuilderError::Misaligned => String::from_str(
                "The normalized impl block lost its positional alignment with the original one",
            ),
            BuilderError::DuplicateField { name } => String::from_str("Two fields have the same name `").concat(
                name.as_str(),
            ).concat("` once a leading underscore is dropped"),
        }
    }
}

} // verus!
