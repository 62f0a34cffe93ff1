//! Settings of the Azure segment.

use vstd::prelude::*;

verus! {

/// Template of the segment when the user supplies none.
pub const DEFAULT_FORMAT: &'static str = "on [$symbol($subscription)]($style) ";

/// Glyph shown in front of the subscription name when the user supplies none.
pub const DEFAULT_SYMBOL: &'static str = "\u{fd03} ";

/// Style of the segment when the user supplies none.
pub const DEFAULT_STYLE: &'static str = "blue bold";

/// Settings of the Azure segment.
#[derive(Clone, Copy, Debug)]
pub struct AzureConfig<'a> {
    /// Template that the engine renders.
    pub format: &'a str,
    /// Value of the template's `symbol` variable.
    pub symbol: &'a str,
    /// Value of the template's `style` variable.
    pub style: &'a str,
    /// Whether the user switched the segment off. Resolution does not read it:
    /// whoever decides which segments are drawn does.
    pub disabled: bool,
}

/// The settings as plain values.
pub struct AzureConfigView {
    pub format: Seq<char>,
    pub symbol: Seq<char>,
    pub style: Seq<char>,
    pub disabled: bool,
}

impl<'a> View for AzureConfig<'a> {
    type V = AzureConfigView;

    open spec fn view(&self) -> AzureConfigView {
        AzureConfigView {
            format: self.format@,
            symbol: self.symbol@,
            style: self.style@,
            disabled: self.disabled,
        }
    }
}

/// The settings of a user who configured nothing.
pub open spec fn default_config() -> AzureConfigView {
    AzureConfigView {
        format: DEFAULT_FORMAT@,
        symbol: DEFAULT_SYMBOL@,
        style: DEFAULT_STYLE@,
        disabled: false,
    }
}

impl<'a> Default for AzureConfig<'a> {
    fn default() -> (config: Self)
        ensures
            config@ == default_config(),
    {
        AzureConfig {
            format: DEFAULT_FORMAT,
            symbol: DEFAULT_SYMBOL,
            style: DEFAULT_STYLE,
            disabled: false,
        }
    }
}

} // verus!
