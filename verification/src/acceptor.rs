use vstd::prelude::*;

verus! {

/// An acceptor that takes every new connection and does nothing with it.
#[derive(Clone, Copy, Debug)]
pub struct NullAcceptor;

} // verus!
