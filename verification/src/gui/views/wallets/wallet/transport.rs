//! The tab of a wallet that shows how it sends and receives.

use vstd::prelude::*;

verus! {

/// The tab of a wallet that shows how it sends and receives.
#[derive(Default)]
pub struct WalletTransport;

} // verus!
