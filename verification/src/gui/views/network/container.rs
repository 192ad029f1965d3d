//! The tabs of the network panel.

use vstd::prelude::*;

verus! {

/// The kind of a tab of the network panel.
#[derive(Clone, Copy, Debug, PartialEq, Eq, Structural)]
pub enum NetworkTabType {
    Node,
    Metrics,
    Mining,
    Settings,
}

impl NetworkTabType {
    /// The key of the name of the tab in the locale files.
    pub open spec fn spec_name(self) -> Seq<char> {
        match self {
            NetworkTabType::Node => "network.node"@,
            NetworkTabType::Metrics => "network.metrics"@,
            NetworkTabType::Mining => "network.mining"@,
            NetworkTabType::Settings => "network.settings"@,
        }
    }

    /// The key of the name of the tab in the locale files.
    pub fn name(&self) -> (name: String)
        ensures
            name@ == self.spec_name(),
    {
        match *self {
            NetworkTabType::Node => String::from_str("network.node"),
            NetworkTabType::Metrics => String::from_str("network.metrics"),
            NetworkTabType::Mining => String::from_str("network.mining"),
            NetworkTabType::Settings => String::from_str("network.settings"),
        }
    }
}

} // verus!
