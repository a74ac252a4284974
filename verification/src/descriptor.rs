use vstd::prelude::*;

verus! {

/// The two arguments of an image annotation: the label under which the
/// documentation references the image, and the image file path, relative
/// to the project root. Created fresh per annotation occurrence and
/// discarded once the occurrence is processed.
#[derive(Debug)]
pub struct ImageDescription {
    pub label: String,
    pub path: String,
}

impl ImageDescription {
    pub fn new(label: String, path: String) -> (r: Self)
        ensures
            r.label == label,
            r.path == path,
    {
        ImageDescription { label, path }
    }
}

} // verus!
