//! The marker that closes the set of types a plain field can be read as.
use vstd::prelude::*;

verus! {

/// Marks a type as registered for reading from a plain field. A type is
/// registered by implementing this marker and `PostParseableFromStr` for it.
pub trait Sealed {

}

} // verus!
