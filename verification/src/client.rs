use vstd::prelude::*;

verus! {

/// Identifies a client. One account and one transaction history exist per client.
pub type ClientId = u16;

} // verus!
