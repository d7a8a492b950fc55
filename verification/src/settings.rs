//! User settings of the viewer and their defaults.
use vstd::prelude::*;

verus! {

/// How dates are shown.
#[derive(Debug, Clone, Copy, PartialEq, Eq, Structural)]
pub enum DateFormat {
    Default,
    Iso8601,
    Custom,
}

/// The settings that the viewer reads from its configuration file.
#[derive(Debug, Clone)]
pub struct Settings {
    pub page_size: i64,
    pub always_load_all: bool,
    pub dark_mode: bool,
    pub always_select_all_fields: bool,
    pub date_format: DateFormat,
    pub custom_date_format: Option<String>,
}

/// Rows per page when the configuration does not say.
pub fn default_page_size() -> (n: i64)
    ensures
        n == 1000,
{
    1000
}

/// `true`, the default of the dark mode flag.
pub fn default_true() -> (b: bool)
    ensures
        b,
{
    true
}

/// The date format when the configuration does not say.
pub fn default_date_format() -> (f: DateFormat)
    ensures
        f == DateFormat::Default,
{
    DateFormat::Default
}

/// The settings used when there is no configuration file.
pub open spec fn is_default_settings(s: Settings) -> bool {
    &&& s.page_size == 1000
    &&& !s.always_load_all
    &&& s.dark_mode
    &&& !s.always_select_all_fields
    &&& s.date_format == DateFormat::Default
    &&& s.custom_date_format is None
}

impl Default for Settings {
    fn default() -> (s: Self)
        ensures
            is_default_settings(s),
    {
        Settings {
            page_size: default_page_size(),
            always_load_all: false,
            dark_mode: default_true(),
            always_select_all_fields: false,
            date_format: default_date_format(),
            custom_date_format: None,
        }
    }
}

} // verus!
