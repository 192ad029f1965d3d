//! The settings that the application keeps for itself, apart from the size
//! and the place of its window.
//!
//! Every change is made to the value at hand; writing it to the disk is the
//! caller's business.

use vstd::prelude::*;
use grin_core::global::ChainTypes;
use crate::settings::outside::{default_chain_type, same_chain_type};

verus! {

/// The settings of the application.
pub struct AppConfig {
    /// Run the node when the application starts.
    pub auto_start_node: bool,
    /// The chain type for the node and the wallets.
    pub chain_type: ChainTypes,
    /// Whether the warning about the integrated node on Android was shown.
    pub android_integrated_node_warning: Option<bool>,
    /// Show the list of wallets in the mode with two panels.
    pub show_wallets_at_dual_panel: bool,
    /// Show all connections in the network panel, not the integrated node.
    pub show_connections_network_panel: bool,
    /// The code of the locale.
    pub lang: Option<String>,
    /// Use the English layout on the keyboard.
    pub english_keyboard: Option<bool>,
    /// Use the dark theme; the system decides where nothing is set.
    pub use_dark_theme: Option<bool>,
    /// Use a proxy for requests to the network.
    pub use_proxy: Option<bool>,
    /// Use a SOCKS5 proxy, not an HTTP proxy.
    pub use_socks_proxy: Option<bool>,
    /// The URL of the HTTP proxy.
    pub http_proxy_url: Option<String>,
    /// The URL of the SOCKS5 proxy.
    pub socks_proxy_url: Option<String>,
}

/// The value of a setting that may be unset: `default` where it is.
pub open spec fn spec_or(setting: Option<bool>, default: bool) -> bool {
    match setting {
        Some(value) => value,
        None => default,
    }
}

/// The value of a setting that may be unset.
fn or(setting: Option<bool>, default: bool) -> (value: bool)
    ensures
        value == spec_or(setting, default),
{
    match setting {
        Some(value) => value,
        None => default,
    }
}

/// A copy of a text that may be absent.
fn copy(text: &Option<String>) -> (copy: Option<String>)
    ensures
        copy == *text,
{
    match text {
        Some(t) => Some(t.clone()),
        None => None,
    }
}

impl Default for AppConfig {
    fn default() -> (config: AppConfig)
        ensures
            config.is_fresh(),
    {
        AppConfig {
            auto_start_node: false,
            chain_type: default_chain_type(),
            android_integrated_node_warning: None,
            show_wallets_at_dual_panel: false,
            show_connections_network_panel: false,
            lang: None,
            english_keyboard: None,
            use_dark_theme: None,
            use_proxy: None,
            use_socks_proxy: None,
            http_proxy_url: None,
            socks_proxy_url: None,
        }
    }
}

impl AppConfig {
    /// The settings are those of a fresh start: everything is off or unset.
    pub open spec fn is_fresh(self) -> bool {
        &&& !self.auto_start_node
        &&& self.android_integrated_node_warning is None
        &&& !self.show_wallets_at_dual_panel
        &&& !self.show_connections_network_panel
        &&& self.lang is None
        &&& self.english_keyboard is None
        &&& self.use_dark_theme is None
        &&& self.use_proxy is None
        &&& self.use_socks_proxy is None
        &&& self.http_proxy_url is None
        &&& self.socks_proxy_url is None
    }

    /// The settings to start with, given whether the file of the settings
    /// exists and what was read from it: what was read, where the file is
    /// there and holds settings; fresh settings otherwise, which are then to
    /// be written, as the second part of the result says.
    pub fn init(path_exists: bool, parsed: Result<AppConfig, String>) -> (start: (AppConfig, bool))
        ensures
            match parsed {
                Ok(config) if path_exists => start == (config, false),
                _ => start.0.is_fresh() && start.1,
            },
    {
        match parsed {
            Ok(config) => {
                if path_exists {
                    (config, false)
                } else {
                    (AppConfig::default(), true)
                }
            },
            Err(_) => (AppConfig::default(), true),
        }
    }

    /// The name of the file that holds the settings.
    pub const FILE_NAME: &'static str = "app.toml";

    /// The locale that is used where none is set.
    pub const DEFAULT_LOCALE: &'static str = "en";

    /// Changes the chain type. The result is `true` where the new type is
    /// another than the old one, so that the settings are to be saved and
    /// the settings of the node and the connections loaded anew.
    pub fn change_chain_type(&mut self, chain_type: &ChainTypes) -> (changed: bool)
        ensures
            changed == (old(self).chain_type != *chain_type),
            *final(self) == (AppConfig { chain_type: *chain_type, ..*old(self) }),
    {
        let changed = !same_chain_type(&self.chain_type, chain_type);
        if changed {
            self.chain_type = *chain_type;
        }
        changed
    }

    /// The chain type for the node and the wallets.
    pub fn chain_type(&self) -> (chain_type: ChainTypes)
        ensures
            chain_type == self.chain_type,
    {
        self.chain_type
    }

    /// Whether the node starts with the application.
    pub fn autostart_node(&self) -> (autostart: bool)
        ensures
            autostart == self.auto_start_node,
    {
        self.auto_start_node
    }

    /// Switches the start of the node with the application on or off.
    pub fn toggle_node_autostart(&mut self)
        ensures
            *final(self) == (AppConfig {
                auto_start_node: !old(self).auto_start_node,
                ..*old(self)
            }),
    {
        self.auto_start_node = !self.auto_start_node;
    }

    /// Whether the list of wallets is shown in the mode with two panels.
    pub fn show_wallets_at_dual_panel(&self) -> (show: bool)
        ensures
            show == self.show_wallets_at_dual_panel,
    {
        self.show_wallets_at_dual_panel
    }

    /// Switches the list of wallets in the mode with two panels on or off.
    pub fn toggle_show_wallets_at_dual_panel(&mut self)
        ensures
            *final(self) == (AppConfig {
                show_wallets_at_dual_panel: !old(self).show_wallets_at_dual_panel,
                ..*old(self)
            }),
    {
        self.show_wallets_at_dual_panel = !self.show_wallets_at_dual_panel;
    }

    /// Whether the network panel shows all connections, not the integrated
    /// node.
    pub fn show_connections_network_panel(&self) -> (show: bool)
        ensures
            show == self.show_connections_network_panel,
    {
        self.show_connections_network_panel
    }

    /// Switches between all connections and the integrated node in the
    /// network panel.
    pub fn toggle_show_connections_network_panel(&mut self)
        ensures
            *final(self) == (AppConfig {
                show_connections_network_panel: !old(self).show_connections_network_panel,
                ..*old(self)
            }),
    {
        self.show_connections_network_panel = !self.show_connections_network_panel;
    }

    /// Sets the code of the locale.
    pub fn save_locale(&mut self, lang: &str)
        ensures
            final(self).lang matches Some(code) && code@ == lang@,
            (AppConfig { lang: old(self).lang, ..*final(self) }) == *old(self),
    {
        self.lang = Some(String::from_str(lang));
    }

    /// The code of the locale, if one is set.
    pub fn locale(&self) -> (lang: Option<String>)
        ensures
            lang == self.lang,
    {
        copy(&self.lang)
    }

    /// Switches the English layout of the keyboard on or off.
    pub fn toggle_english_keyboard(&mut self)
        ensures
            *final(self) == (AppConfig {
                english_keyboard: Some(!spec_or(old(self).english_keyboard, false)),
                ..*old(self)
            }),
    {
        self.english_keyboard = Some(!self.english_keyboard());
    }

    /// Whether the keyboard uses the English layout: it does not unless it
    /// was switched on.
    pub fn english_keyboard(&self) -> (english: bool)
        ensures
            english == spec_or(self.english_keyboard, false),
    {
        or(self.english_keyboard, false)
    }

    /// Whether the warning about the integrated node on Android is still to
    /// be shown: it is until it was shown.
    pub fn android_integrated_node_warning_needed(&self) -> (needed: bool)
        ensures
            needed == spec_or(self.android_integrated_node_warning, true),
    {
        or(self.android_integrated_node_warning, true)
    }

    /// Takes note that the warning about the integrated node on Android was
    /// shown.
    pub fn show_android_integrated_node_warning(&mut self)
        ensures
            *final(self) == (AppConfig {
                android_integrated_node_warning: Some(false),
                ..*old(self)
            }),
    {
        self.android_integrated_node_warning = Some(false);
    }

    /// Whether the dark theme is used, if that is set.
    pub fn dark_theme(&self) -> (dark: Option<bool>)
        ensures
            dark == self.use_dark_theme,
    {
        self.use_dark_theme
    }

    /// Sets whether the dark theme is used.
    pub fn set_dark_theme(&mut self, use_dark: bool)
        ensures
            *final(self) == (AppConfig { use_dark_theme: Some(use_dark), ..*old(self) }),
    {
        self.use_dark_theme = Some(use_dark);
    }

    /// Whether a proxy is used: none is unless it was switched on.
    pub fn use_proxy(&self) -> (proxy: bool)
        ensures
            proxy == spec_or(self.use_proxy, false),
    {
        or(self.use_proxy, false)
    }

    /// Switches the proxy on or off.
    pub fn toggle_use_proxy(&mut self)
        ensures
            *final(self) == (AppConfig {
                use_proxy: Some(!spec_or(old(self).use_proxy, false)),
                ..*old(self)
            }),
    {
        self.use_proxy = Some(!self.use_proxy());
    }

    /// Whether the proxy is a SOCKS5 proxy: it is unless that was switched
    /// off.
    pub fn use_socks_proxy(&self) -> (socks: bool)
        ensures
            socks == spec_or(self.use_socks_proxy, true),
    {
        or(self.use_socks_proxy, true)
    }

    /// Switches between a SOCKS5 proxy and an HTTP proxy.
    pub fn toggle_use_socks_proxy(&mut self)
        ensures
            *final(self) == (AppConfig {
                use_socks_proxy: Some(!spec_or(old(self).use_socks_proxy, true)),
                ..*old(self)
            }),
    {
        self.use_socks_proxy = Some(!self.use_socks_proxy());
    }

    /// The URL of the SOCKS5 proxy, if one is set.
    pub fn socks_proxy_url(&self) -> (url: Option<String>)
        ensures
            url == self.socks_proxy_url,
    {
        copy(&self.socks_proxy_url)
    }

    /// Sets the URL of the SOCKS5 proxy, or none.
    pub fn save_socks_proxy_url(&mut self, url: Option<String>)
        ensures
            *final(self) == (AppConfig { socks_proxy_url: url, ..*old(self) }),
    {
        self.socks_proxy_url = url;
    }

    /// The URL of the HTTP proxy, if one is set.
    pub fn http_proxy_url(&self) -> (url: Option<String>)
        ensures
            url == self.http_proxy_url,
    {
        copy(&self.http_proxy_url)
    }

    /// Sets the URL of the HTTP proxy, or none.
    pub fn save_http_proxy_url(&mut self, url: Option<String>)
        ensures
            *final(self) == (AppConfig { http_proxy_url: url, ..*old(self) }),
    {
        self.http_proxy_url = url;
    }
}

} // verus!
