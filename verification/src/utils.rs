//! Small shared types.
use crate::felt::Felt;
use vstd::prelude::*;

verus! {

/// The address of a contract. Zero stands for "no caller" in a top-level call.
#[derive(Clone, Copy, Debug, PartialEq, Eq, Hash)]
pub struct Address(pub Felt);

/// The hash that identifies a contract class.
pub type ClassHash = Felt;

impl View for Address {
    type V = nat;

    open spec fn view(&self) -> nat {
        self.0@
    }
}

impl Address {
    /// Whether two addresses are the same.
    pub fn equals(&self, other: &Address) -> (r: bool)
        ensures
            r == (self@ == other@),
    {
        self.0.equals(&other.0)
    }
}

/// Runs a piece of work and hands on what it gives. Profiles show the work
/// under the name of this function.
pub fn scope<T, F: FnOnce() -> T>(f: F) -> (r: T)
    requires
        f.requires(()),
    ensures
        f.ensures((), r),
{
    f()
}

/// Copies a list of bytes.
pub fn clone_bytes(v: &Vec<u8>) -> (r: Vec<u8>)
    ensures
        r@ == v@,
{
    let mut r: Vec<u8> = Vec::new();
    let mut i: usize = 0;
    while i < v.len()
        invariant
            0 <= i <= v.len(),
            r@ == v@.subrange(0, i as int),
        decreases v.len() - i,
    {
        r.push(v[i]);
        assert(v@.subrange(0, i + 1) =~= v@.subrange(0, i as int).push(v@[i as int]));
        i += 1;
    }
    assert(v@.subrange(0, v.len() as int) =~= v@);
    r
}

/// Copies a list of field elements.
pub fn clone_felts(v: &Vec<Felt>) -> (r: Vec<Felt>)
    ensures
        r@ == v@,
{
    let mut r: Vec<Felt> = Vec::new();
    let mut i: usize = 0;
    while i < v.len()
        invariant
            0 <= i <= v.len(),
            r@ == v@.subrange(0, i as int),
        decreases v.len() - i,
    {
        r.push(v[i]);
        assert(v@.subrange(0, i + 1) =~= v@.subrange(0, i as int).push(v@[i as int]));
        i += 1;
    }
    assert(v@.subrange(0, v.len() as int) =~= v@);
    r
}

} // verus!
