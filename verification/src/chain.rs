//! The parsed chain specification, as far as the bootstrap reads it.

use vstd::prelude::*;

verus! {

/// What the bootstrap reads of a parsed chain specification.
///
/// A descriptor is made once, from a specification that parsed, and is not
/// changed afterwards.
#[derive(Debug, PartialEq, Eq)]
pub struct ChainDescriptor {
    name: String,
}

pub struct ChainDescriptorView {
    /// The name that the specification gives the chain.
    pub name: Seq<char>,
}

impl View for ChainDescriptor {
    type V = ChainDescriptorView;

    closed spec fn view(&self) -> ChainDescriptorView {
        ChainDescriptorView { name: self.name@ }
    }
}

impl ChainDescriptor {
    pub fn new(name: String) -> (chain: ChainDescriptor)
        ensures
            chain@.name == name@,
    {
        ChainDescriptor { name }
    }

    pub fn name(&self) -> (name: &str)
        ensures
            name@ == self@.name,
    {
        self.name.as_str()
    }
}

} // verus!
