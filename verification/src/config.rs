//! Configuration supplied to the shell at construction time.
//!
//! The configuration is an immutable bundle of plain values: the page first
//! opened, the search template used when the address bar input is not a URL,
//! and the initial window size. The core never mutates it.

use vstd::prelude::*;

verus! {

/// Configuration of the embedded browser: start page, search template and
/// whether experimental engine preferences are switched on.
pub struct BrowserConfig {
    pub home_page: String,
    pub experimental_prefs_enabled: bool,
    /// Search template; every `%s` is replaced by the query text.
    pub search_page: String,
}

impl Default for BrowserConfig {
    fn default() -> (r: Self)
        ensures
            r.home_page@ == "https://duckduckgo.com"@,
            r.experimental_prefs_enabled == true,
            r.search_page@ == "https://duckduckgo.com/?q=%s"@,
    {
        BrowserConfig {
            home_page: String::from_str("https://duckduckgo.com"),
            experimental_prefs_enabled: true,
            search_page: String::from_str("https://duckduckgo.com/?q=%s"),
        }
    }
}

/// Configuration of the native window hosting the shell.
pub struct InterfaceConfig {
    pub width: u32,
    pub height: u32,
}

impl Default for InterfaceConfig {
    fn default() -> (r: Self)
        ensures
            r.width == 640,
            r.height == 480,
    {
        InterfaceConfig { width: 640, height: 480 }
    }
}

/// Top-level configuration: one browser section, one interface section.
pub struct AppConfig {
    pub browser: BrowserConfig,
    pub interface: InterfaceConfig,
}

impl Default for AppConfig {
    fn default() -> (r: Self)
        ensures
            r.browser.home_page@ == "https://duckduckgo.com"@,
            r.browser.experimental_prefs_enabled == true,
            r.browser.search_page@ == "https://duckduckgo.com/?q=%s"@,
            r.interface.width == 640,
            r.interface.height == 480,
    {
        AppConfig { browser: Default::default(), interface: Default::default() }
    }
}

} // verus!
