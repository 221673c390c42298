use vstd::prelude::*;

verus! {

/// A record with a single numeric identifier (a `SERIAL` column).
#[derive(Debug, Clone, Copy, PartialEq, Eq)]
pub struct Placeholder {
    pub id: i32,
}

} // verus!
