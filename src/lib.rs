//! Attribute-style property tests: the transformation that turns an annotated test
//! function into a zero-argument function driving a randomized test runner.

pub mod diagnostic;
pub mod arguments;
pub mod signature;
pub mod expansion;
pub mod laws;
