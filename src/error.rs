use vstd::prelude::*;

verus! {

/// The error type of the library.
#[derive(Debug)]
pub enum SglError {
    General(String),
}

} // verus!
