use vstd::prelude::*;

verus! {

/// Exercises image embedding in function documentation.
///
/// ![Original Ferris][ferris] ![Ferris makes gesture][ferris-gesture]
///
/// Some more docs.
///
/// ![Corro][corro] ![Dancing Ferris][dancing-ferris]
pub fn function_docs_work() {
}

/// Exercises image embedding in struct documentation.
///
/// ![Original Ferris][ferris] ![Ferris makes gesture][ferris-gesture]
///
/// Some more docs.
///
/// ![Corro][corro] ![Dancing Ferris][dancing-ferris]
pub struct StructDocsWork {}

/// Exercises image embedding in trait documentation.
///
/// ![Original Ferris][ferris] ![Ferris makes gesture][ferris-gesture]
///
/// Some more docs.
///
/// ![Corro][corro] ![Dancing Ferris][dancing-ferris]
pub trait TraitDocsWork {
}

} // verus!
