//! What is kept of the application between runs.

use vstd::prelude::*;

pub mod collection_settings;
pub mod entity;
pub mod main_settings;
pub mod method_settings;
pub mod protocol_settings;
pub mod request_settings;
pub mod request_setup_settings;
pub mod ui_settings;

verus! {

/// Name of the file the settings are kept in when no other path is given.
pub fn default_settings_filepath() -> (r: String)
    ensures
        r@ == "cache.json"@,
{
    "cache.json".to_string()
}

/// The HTTP version a request asks for, as it is stored.
#[derive(Clone, Copy, Debug, PartialEq, Eq, Structural)]
pub enum HttpVersionSetting {
    AUTO,
    HTTPv1,
    HTTPv2,
}

impl Default for HttpVersionSetting {
    fn default() -> (r: Self)
        ensures
            r == HttpVersionSetting::AUTO,
    {
        HttpVersionSetting::AUTO
    }
}

/// How an HTTP request is made, as it is stored.
#[derive(Clone, Copy, Debug, PartialEq, Eq, Structural)]
pub struct RequestHttpSetupSettings {
    pub http_version: HttpVersionSetting,
    pub use_cookies: bool,
    pub use_redirects: bool,
    pub redirects_amount: usize,
}

impl Default for RequestHttpSetupSettings {
    fn default() -> (r: Self)
        ensures
            r == (RequestHttpSetupSettings {
                http_version: HttpVersionSetting::AUTO,
                use_cookies: true,
                use_redirects: true,
                redirects_amount: 9,
            }),
    {
        RequestHttpSetupSettings {
            http_version: HttpVersionSetting::AUTO,
            use_cookies: true,
            use_redirects: true,
            redirects_amount: 9,
        }
    }
}

/// How a WebSocket session is kept up, as it is stored.
#[derive(Clone, Copy, Debug, PartialEq, Eq, Structural)]
pub struct RequestWsSetupSettings {
    pub reconnection_timeout: usize,
    pub reconnection_attempts: usize,
}

impl Default for RequestWsSetupSettings {
    fn default() -> (r: Self)
        ensures
            r == (RequestWsSetupSettings { reconnection_timeout: 5000, reconnection_attempts: 3 }),
    {
        RequestWsSetupSettings { reconnection_timeout: 5000, reconnection_attempts: 3 }
    }
}

/// Kind of a form field of a request body, as it is stored.
#[derive(Clone, Copy, Debug, PartialEq, Eq, Structural)]
pub enum FormFieldTypeSettings {
    Text,
    File,
}

impl Default for FormFieldTypeSettings {
    fn default() -> (r: Self)
        ensures
            r == FormFieldTypeSettings::Text,
    {
        FormFieldTypeSettings::Text
    }
}

} // verus!
