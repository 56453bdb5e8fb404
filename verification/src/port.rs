//! The ADI port abstraction: a port index plus the expander it sits on.

use vstd::prelude::*;

verus! {

/// The expander index used for ports on the brain's own (internal) ADI
/// header, i.e. for ports whose expander index is `None`.
pub const INTERNAL_ADI_PORT: u8 = 22;

/// A single ADI port: its index on its header, and the smart-port index of
/// the ADI expander it belongs to (`None` for the internal ADI header).
#[derive(Debug, PartialEq, Eq)]
pub struct AdiPort {
    index: u8,
    expander_index: Option<u8>,
}

impl AdiPort {
    /// The port's index on its header.
    pub closed spec fn spec_index(self) -> u8 {
        self.index
    }

    /// The expander the port belongs to, `None` for the internal header.
    pub closed spec fn spec_expander_index(self) -> Option<u8> {
        self.expander_index
    }

    /// The expander index as the native driver addresses it: the stored
    /// expander index, or `INTERNAL_ADI_PORT` for the internal header.
    pub open spec fn spec_internal_expander_index(self) -> u8 {
        match self.spec_expander_index() {
            Some(e) => e,
            None => INTERNAL_ADI_PORT,
        }
    }

    /// Create a port handle from its index and the expander it sits on.
    pub fn new(index: u8, expander_index: Option<u8>) -> (r: AdiPort)
        ensures
            r.spec_index() == index,
            r.spec_expander_index() == expander_index,
    {
        AdiPort { index, expander_index }
    }

    /// The port's index on its header.
    pub fn index(&self) -> (r: u8)
        ensures
            r == self.spec_index(),
    {
        self.index
    }

    /// The expander the port belongs to, `None` for the internal header.
    pub fn expander_index(&self) -> (r: Option<u8>)
        ensures
            r == self.spec_expander_index(),
    {
        self.expander_index
    }

    /// The expander index as the native driver addresses it.
    pub fn internal_expander_index(&self) -> (r: u8)
        ensures
            r == self.spec_internal_expander_index(),
    {
        match self.expander_index {
            Some(e) => e,
            None => INTERNAL_ADI_PORT,
        }
    }
}

} // verus!
