//! The device record: one stored (address, name) pair, and the error the
//! persistence layer surfaces.

use vstd::prelude::*;

verus! {

/// One registry entry: the network address of a device and its
/// user-assigned display name. Both fields are opaque strings; either may
/// serve as a lookup key, and neither is required to be unique.
#[derive(Debug)]
pub struct Record {
    pub address: String,
    pub name: String,
}

impl View for Record {
    type V = (Seq<char>, Seq<char>);

    open spec fn view(&self) -> (Seq<char>, Seq<char>) {
        (self.address@, self.name@)
    }
}

impl Record {
    pub fn new(address: String, name: String) -> (r: Record)
        ensures
            r@ == (address@, name@),
    {
        Record { address, name }
    }

    /// A copy of the record, field for field.
    pub fn duplicate(&self) -> (r: Record)
        ensures
            r@ == self@,
    {
        Record { address: self.address.clone(), name: self.name.clone() }
    }
}

/// A fault from the persistence layer: the store could not execute a
/// schema, read, write or delete statement. Absence of matching records is
/// never an error.
#[derive(Debug, Clone, Copy, PartialEq, Eq, Structural)]
pub struct StoreError;

} // verus!
