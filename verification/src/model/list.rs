use vstd::prelude::*;

verus! {

/// One page of a longer list: `items` are the rows from `offset` on, at most
/// `limit` of them, and `total` is the length of the whole list.
#[derive(Debug, Clone, PartialEq, Eq)]
pub struct PaginatedList<T> {
    pub total: i64,
    pub limit: i64,
    pub offset: i64,
    pub items: Vec<T>,
}

} // verus!
