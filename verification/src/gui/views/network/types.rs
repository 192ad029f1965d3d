//! The tabs of the integrated node.

use vstd::prelude::*;

verus! {

/// The kind of a tab of the integrated node.
#[derive(Clone, Copy, Debug, PartialEq, Eq, Structural)]
pub enum NodeTabType {
    Info,
    Metrics,
    Mining,
    Settings,
}

impl NodeTabType {
    /// The key of the title of the tab in the locale files.
    pub open spec fn spec_title(self) -> Seq<char> {
        match self {
            NodeTabType::Info => "network.node"@,
            NodeTabType::Metrics => "network.metrics"@,
            NodeTabType::Mining => "network.mining"@,
            NodeTabType::Settings => "network.settings"@,
        }
    }

    /// The key of the title of the tab in the locale files.
    pub fn title(&self) -> (title: String)
        ensures
            title@ == self.spec_title(),
    {
        match *self {
            NodeTabType::Info => String::from_str("network.node"),
            NodeTabType::Metrics => String::from_str("network.metrics"),
            NodeTabType::Mining => String::from_str("network.mining"),
            NodeTabType::Settings => String::from_str("network.settings"),
        }
    }
}

} // verus!
