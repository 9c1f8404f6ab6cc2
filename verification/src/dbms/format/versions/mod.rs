//! The versions of the schema format. A format keeps its maps as sequences of
//! named entries, in which no name occurs twice.
pub mod v1;
pub mod v2;
pub mod v3;

use vstd::prelude::*;

verus! {

/// Whether no name occurs twice among the entries of `s`.
pub open spec fn names_distinct<V>(s: Seq<(Seq<char>, V)>) -> bool {
    forall|i: int, j: int| 0 <= i < j < s.len() ==> #[trigger] s[i].0 != #[trigger] s[j].0
}

} // verus!
