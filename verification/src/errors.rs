use vstd::prelude::*;

verus! {

/// The failure conditions of the embedding pipeline.
///
/// All four are fatal at the policy level: none is retried or recovered,
/// each aborts the processing of the annotation occurrence that raised it.
#[derive(Clone, Copy, Debug, PartialEq, Eq, Structural)]
pub enum EmbedError {
    /// The annotation arguments were not two comma-separated string literals.
    ParseError,
    /// The image file could not be resolved or read.
    FileError,
    /// The image path has no extension, or one outside the lookup table.
    UnsupportedExtension,
    /// The annotated declaration is not one of the supported categories.
    UnsupportedDeclaration,
}

impl EmbedError {
    /// The diagnostic text reported for this error.
    pub fn message(&self) -> (r: String)
        ensures
            *self == EmbedError::ParseError ==> r@
                == "Expected two comma-separated string literals: a label and an image path"@,
            *self == EmbedError::FileError ==> r@ == "Failed to load image"@,
            *self == EmbedError::UnsupportedExtension ==> r@
                == "Unrecognized image extension, unable to infer correct MIME type"@,
            *self == EmbedError::UnsupportedDeclaration ==> r@
                == "Unsupported item. Cannot apply attribute to the given item."@,
    {
        match self {
            EmbedError::ParseError => {
                "Expected two comma-separated string literals: a label and an image path".to_owned()
            },
            EmbedError::FileError => "Failed to load image".to_owned(),
            EmbedError::UnsupportedExtension => {
                "Unrecognized image extension, unable to infer correct MIME type".to_owned()
            },
            EmbedError::UnsupportedDeclaration => {
                "Unsupported item. Cannot apply attribute to the given item.".to_owned()
            },
        }
    }
}

} // verus!
