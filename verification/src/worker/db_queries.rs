//! Rows that the worker reads from the product table.
use vstd::prelude::*;

verus! {

/// A product that still lacks some derived information (an embedding or a
/// beef cut): its row id and name.
pub struct ProductWithoutInfoDb {
    pub id: i64,
    pub name: String,
}

impl ProductWithoutInfoDb {
    pub fn new(id: i64, name: String) -> (r: ProductWithoutInfoDb)
        ensures
            r.id == id,
            r.name@ == name@,
    {
        ProductWithoutInfoDb { id, name }
    }
}

} // verus!
