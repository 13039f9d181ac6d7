use vstd::prelude::*;
use crate::settings::{HttpVersionSetting, RequestHttpSetupSettings, RequestWsSetupSettings};
use crate::states::main_page::request::{
    HttpVersion,
    RequestHttpSetup,
    RequestHttpSetupModel,
    RequestSetup,
    RequestSetupModel,
    RequestWsSetup,
    RequestWsSetupModel,
};
use crate::text::{decimal_text, parse_usize, parsed_usize, usize_to_string};

verus! {

/// How a request is made, as it is stored: one setup per protocol family.
#[derive(Clone, Copy, Debug, PartialEq, Eq, Structural)]
pub enum RequestSetupSettings {
    HTTP(RequestHttpSetupSettings),
    WS(RequestWsSetupSettings),
}

/// The HTTP version as it is stored.
pub open spec fn stored_http_version(version: HttpVersion) -> HttpVersionSetting {
    match version {
        HttpVersion::HTTPv1 => HttpVersionSetting::HTTPv1,
        HttpVersion::HTTPv2 => HttpVersionSetting::HTTPv2,
        HttpVersion::AUTO => HttpVersionSetting::AUTO,
    }
}

/// The stored HTTP version as the user edits it.
pub open spec fn edited_http_version(version: HttpVersionSetting) -> HttpVersion {
    match version {
        HttpVersionSetting::HTTPv1 => HttpVersion::HTTPv1,
        HttpVersionSetting::HTTPv2 => HttpVersion::HTTPv2,
        HttpVersionSetting::AUTO => HttpVersion::AUTO,
    }
}

/// True where a setup can be stored: where the texts that stand for
/// numbers in it are numbers.
pub open spec fn setup_storable(setup: RequestSetupModel) -> bool {
    match setup {
        RequestSetupModel::HTTP(http) => parsed_usize(http.redirects_amount) is Some,
        RequestSetupModel::WS(ws) => parsed_usize(ws.reconnection_timeout) is Some && parsed_usize(
            ws.reconnection_attempts,
        ) is Some,
    }
}

/// A setup as it is stored: its texts read as numbers.
pub open spec fn setup_settings_of(setup: RequestSetupModel) -> RequestSetupSettings {
    match setup {
        RequestSetupModel::HTTP(http) => RequestSetupSettings::HTTP(
            RequestHttpSetupSettings {
                http_version: stored_http_version(http.http_version),
                use_cookies: http.use_cookies,
                use_redirects: http.use_redirects,
                redirects_amount: parsed_usize(http.redirects_amount)->0,
            },
        ),
        RequestSetupModel::WS(ws) => RequestSetupSettings::WS(
            RequestWsSetupSettings {
                reconnection_timeout: parsed_usize(ws.reconnection_timeout)->0,
                reconnection_attempts: parsed_usize(ws.reconnection_attempts)->0,
            },
        ),
    }
}

/// A stored setup as the user edits it: its numbers written in decimal.
pub open spec fn setup_of_settings(setup: RequestSetupSettings) -> RequestSetupModel {
    match setup {
        RequestSetupSettings::HTTP(http) => RequestSetupModel::HTTP(
            RequestHttpSetupModel {
                http_version: edited_http_version(http.http_version),
                use_cookies: http.use_cookies,
                use_redirects: http.use_redirects,
                redirects_amount: decimal_text(http.redirects_amount as nat),
            },
        ),
        RequestSetupSettings::WS(ws) => RequestSetupModel::WS(
            RequestWsSetupModel {
                reconnection_timeout: decimal_text(ws.reconnection_timeout as nat),
                reconnection_attempts: decimal_text(ws.reconnection_attempts as nat),
            },
        ),
    }
}

impl RequestHttpSetupSettings {
    /// Makes the stored form of an HTTP setup. The number of redirects has
    /// to be a number.
    pub fn from(value: &RequestHttpSetup) -> (r: Self)
        requires
            parsed_usize(value@.redirects_amount) is Some,
        ensures
            RequestSetupSettings::HTTP(r) == setup_settings_of(RequestSetupModel::HTTP(value@)),
    {
        let http_version = match value.http_version {
            HttpVersion::HTTPv1 => HttpVersionSetting::HTTPv1,
            HttpVersion::HTTPv2 => HttpVersionSetting::HTTPv2,
            HttpVersion::AUTO => HttpVersionSetting::AUTO,
        };
        RequestHttpSetupSettings {
            http_version,
            use_cookies: value.use_cookies,
            use_redirects: value.use_redirects,
            redirects_amount: parse_usize(value.redirects_amount.as_str()).unwrap(),
        }
    }

    /// Makes the HTTP setup that the user edits.
    pub fn to_state(&self) -> (r: RequestHttpSetup)
        ensures
            RequestSetupModel::HTTP(r@) == setup_of_settings(RequestSetupSettings::HTTP(*self)),
    {
        let http_version = match self.http_version {
            HttpVersionSetting::HTTPv1 => HttpVersion::HTTPv1,
            HttpVersionSetting::HTTPv2 => HttpVersion::HTTPv2,
            HttpVersionSetting::AUTO => HttpVersion::AUTO,
        };
        RequestHttpSetup {
            http_version,
            use_cookies: self.use_cookies,
            use_redirects: self.use_redirects,
            redirects_amount: usize_to_string(self.redirects_amount),
        }
    }
}

impl RequestWsSetupSettings {
    /// Makes the stored form of a WebSocket setup. The timeout and the
    /// number of attempts have to be numbers.
    pub fn from(value: &RequestWsSetup) -> (r: Self)
        requires
            parsed_usize(value@.reconnection_timeout) is Some,
            parsed_usize(value@.reconnection_attempts) is Some,
        ensures
            RequestSetupSettings::WS(r) == setup_settings_of(RequestSetupModel::WS(value@)),
    {
        RequestWsSetupSettings {
            reconnection_timeout: parse_usize(value.reconnection_timeout.as_str()).unwrap(),
            reconnection_attempts: parse_usize(value.reconnection_attempts.as_str()).unwrap(),
        }
    }

    /// Makes the WebSocket setup that the user edits.
    pub fn to_state(&self) -> (r: RequestWsSetup)
        ensures
            RequestSetupModel::WS(r@) == setup_of_settings(RequestSetupSettings::WS(*self)),
    {
        RequestWsSetup {
            reconnection_timeout: usize_to_string(self.reconnection_timeout),
            reconnection_attempts: usize_to_string(self.reconnection_attempts),
        }
    }
}

impl Default for RequestSetupSettings {
    fn default() -> (r: Self)
        ensures
            r == RequestSetupSettings::HTTP(
                RequestHttpSetupSettings {
                    http_version: HttpVersionSetting::AUTO,
                    use_cookies: true,
                    use_redirects: true,
                    redirects_amount: 9,
                },
            ),
    {
        RequestSetupSettings::HTTP(RequestHttpSetupSettings::default())
    }
}

impl RequestSetupSettings {
    /// Makes the stored form of a setup. The texts that stand for numbers
    /// in it have to be numbers.
    pub fn from(value: &RequestSetup) -> (r: Self)
        requires
            setup_storable(value@),
        ensures
            r == setup_settings_of(value@),
    {
        match value {
            RequestSetup::HTTP(request_http_setup) => RequestSetupSettings::HTTP(
                RequestHttpSetupSettings::from(request_http_setup),
            ),
            RequestSetup::WS(request_ws_setup) => RequestSetupSettings::WS(
                RequestWsSetupSettings::from(request_ws_setup),
            ),
        }
    }

    /// Makes the setup that the user edits.
    pub fn to_state(&self) -> (r: RequestSetup)
        ensures
            r@ == setup_of_settings(*self),
    {
        match self {
            RequestSetupSettings::HTTP(http) => RequestSetup::HTTP(http.to_state()),
            RequestSetupSettings::WS(ws) => RequestSetup::WS(ws.to_state()),
        }
    }

    /// Tells whether a setup can be stored: whether the texts that stand
    /// for numbers in it are numbers.
    pub fn storable(value: &RequestSetup) -> (r: bool)
        ensures
            r == setup_storable(value@),
    {
        match value {
            RequestSetup::HTTP(http) => parse_usize(http.redirects_amount.as_str()).is_some(),
            RequestSetup::WS(ws) => parse_usize(ws.reconnection_timeout.as_str()).is_some()
                && parse_usize(ws.reconnection_attempts.as_str()).is_some(),
        }
    }

    /// The setup of an HTTP request with every field at its default.
    pub fn http() -> (r: Self)
        ensures
            r == RequestSetupSettings::HTTP(
                RequestHttpSetupSettings {
                    http_version: HttpVersionSetting::AUTO,
                    use_cookies: true,
                    use_redirects: true,
                    redirects_amount: 9,
                },
            ),
    {
        RequestSetupSettings::HTTP(RequestHttpSetupSettings::default())
    }

    /// The setup of a WebSocket session with every field at its default.
    pub fn ws() -> (r: Self)
        ensures
            r == RequestSetupSettings::WS(
                RequestWsSetupSettings { reconnection_timeout: 5000, reconnection_attempts: 3 },
            ),
    {
        RequestSetupSettings::WS(RequestWsSetupSettings::default())
    }
}

} // verus!
