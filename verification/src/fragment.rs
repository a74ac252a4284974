use crate::descriptor::ImageDescription;
use crate::encode::{base64_encode, base64_of, encoded_len_fits};
use crate::errors::EmbedError;
use crate::mime::{determine_mime_type, mime_of};
use crate::path::{extension_of, extension_of_path};
use vstd::prelude::*;

verus! {

/// The documentation fragment for one image: a Markdown reference-style
/// link target mapping the label to a `data:` URI with the payload inline.
pub open spec fn fragment_of(label: Seq<char>, mime: Seq<char>, payload: Seq<char>) -> Seq<char> {
    " ["@ + label + "]: data:"@ + mime + ";base64,"@ + payload
}

/// The fragment produced for an image annotation, as a function of the
/// label, the image path and the image file bytes; `None` where the path
/// has no extension or one outside the lookup table.
pub open spec fn image_fragment(label: Seq<char>, path: Seq<char>, bytes: Seq<u8>) -> Option<
    Seq<char>,
> {
    match extension_of(path) {
        Some(ext) => match mime_of(ext) {
            Some(mime) => Some(fragment_of(label, mime, base64_of(bytes))),
            None => None,
        },
        None => None,
    }
}

/// The documentation fragment for one image annotation, from the
/// descriptor and the bytes of the image file the descriptor's path
/// points at.
pub fn produce_doc_string_for_image(desc: &ImageDescription, bytes: &[u8]) -> (r: Result<
    String,
    EmbedError,
>)
    requires
        encoded_len_fits(bytes@.len()),
    ensures
        match r {
            Ok(s) => image_fragment(desc.label@, desc.path@, bytes@) == Some(s@),
            Err(e) => e == EmbedError::UnsupportedExtension && image_fragment(
                desc.label@,
                desc.path@,
                bytes@,
            ) is None,
        },
{
    let ext = match extension_of_path(desc.path.as_str()) {
        Some(ext) => ext,
        None => {
            return Err(EmbedError::UnsupportedExtension);
        },
    };
    let mime = match determine_mime_type(ext.as_str()) {
        Ok(mime) => mime,
        Err(e) => {
            return Err(e);
        },
    };
    let payload = base64_encode(bytes);
    let mut s = " [".to_owned();
    s.append(desc.label.as_str());
    s.append("]: data:");
    s.append(mime.as_str());
    s.append(";base64,");
    s.append(payload.as_str());
    proof {
        assert(s@ =~= fragment_of(desc.label@, mime@, payload@));
    }
    Ok(s)
}

/// Two runs of the pipeline on the same label, path and image bytes
/// produce byte-identical documentation fragments: the fragment is a
/// function of those three values alone.
pub proof fn lemma_fragment_deterministic(
    label: Seq<char>,
    path: Seq<char>,
    bytes: Seq<u8>,
    r1: Seq<char>,
    r2: Seq<char>,
)
    requires
        image_fragment(label, path, bytes) == Some(r1),
        image_fragment(label, path, bytes) == Some(r2),
    ensures
        r1 == r2,
{
}

/// The standalone fragment for documentation blocks that aggregate several
/// labels: the fragment preceded by a blank documentation line, for manual
/// concatenation into a block where declaration-attached annotations are
/// not syntactically permitted.
pub fn embed_image(desc: &ImageDescription, bytes: &[u8]) -> (r: Result<String, EmbedError>)
    requires
        encoded_len_fits(bytes@.len()),
    ensures
        match r {
            Ok(s) => image_fragment(desc.label@, desc.path@, bytes@) matches Some(f) && s@ == "\n \n "@
                + f,
            Err(e) => e == EmbedError::UnsupportedExtension && image_fragment(
                desc.label@,
                desc.path@,
                bytes@,
            ) is None,
        },
{
    let fragment = match produce_doc_string_for_image(desc, bytes) {
        Ok(s) => s,
        Err(e) => {
            return Err(e);
        },
    };
    let mut s = "\n \n ".to_owned();
    s.append(fragment.as_str());
    proof {
        assert(s@ =~= "\n \n "@ + fragment@);
    }
    Ok(s)
}

} // verus!
