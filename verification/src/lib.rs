//! Embed images in documentation.
//!
//! Documentation comments may reference local image files by label. This
//! library turns such a reference into a Markdown reference-style link
//! target whose URL is a `data:` URI carrying the image bytes inline as
//! base64, so the rendered documentation works without network access or
//! external image hosting.
//!
//! The pipeline has three stages: a descriptor (a label and a relative
//! image path), an encoder (MIME type from the file extension, base64 of
//! the file bytes), and a rewriter (splices the generated link target into
//! a declaration's accumulated documentation lines).

pub mod descriptor;
pub mod encode;
pub mod errors;
pub mod fragment;
pub mod mime;
pub mod path;
pub mod rewrite;
pub mod showcase;

pub use descriptor::ImageDescription;
pub use errors::EmbedError;
pub use fragment::embed_image;
pub use fragment::produce_doc_string_for_image;
pub use mime::determine_mime_type;
pub use rewrite::embed_doc_image;
pub use rewrite::DeclKind;
pub use rewrite::Declaration;
pub use showcase::function_docs_work;
pub use showcase::StructDocsWork;
pub use showcase::TraitDocsWork;
