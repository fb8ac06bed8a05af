use vstd::prelude::*;

verus! {

/// A value without fields, the subject of the encoding integration point.
pub struct Test {}

/// The encoder of the encoding integration point; it holds no state.
pub struct TestSerializer {}

} // verus!
