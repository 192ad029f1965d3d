//! The view of an open wallet.

pub mod transport;

use vstd::prelude::*;

verus! {

/// The content of an open wallet.
pub struct WalletContent {
    /// The wallet that is shown.
    pub item: String,
}

impl WalletContent {
    /// The content for the wallet `item`.
    pub fn new(item: String) -> (content: WalletContent)
        ensures
            content.item == item,
    {
        WalletContent { item }
    }
}

} // verus!
