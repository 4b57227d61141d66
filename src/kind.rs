use vstd::prelude::*;

verus! {

/// What a value can be descended by.
///
/// - [QueryKind::Array] is for values indexed by a `usize` position.
/// - [QueryKind::Dictionary] is for values indexed by a string key.
///
/// A value that is neither (a literal) has no kind: its classification is `None`.
#[derive(Debug, Clone, Copy, PartialEq, Eq, Structural)]
pub enum QueryKind {
    Array,
    Dictionary,
}

} // verus!
