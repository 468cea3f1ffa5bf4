//! Where the server listens, where the browser finds the Prior gate, and the theme.
use vstd::prelude::*;
use vstd::string::*;

use crate::state::auth::AuthState;
use crate::text::{concat2, concat3, str_eq};

verus! {

pub const THEME_STORAGE_KEY: &'static str = "prior-web-theme";

/// The listen address: `PRIOR_WEB_SITE_ADDR` when set, else `0.0.0.0:<PORT>`
/// when `PORT` is set, else the configured default.
pub fn site_addr(site_addr_env: Option<String>, port_env: Option<String>, default_addr: String) -> (r:
    String)
    ensures
        r@ == match site_addr_env {
            Some(a) => a@,
            None => match port_env {
                Some(p) => "0.0.0.0:"@ + p@,
                None => default_addr@,
            },
        },
{
    match site_addr_env {
        Some(a) => a,
        None => match port_env {
            Some(p) => concat2("0.0.0.0:", p.as_str()),
            None => default_addr,
        },
    }
}

/// The Prior gate address the page's meta tag carries: `PRIOR_GATE_WS_URL`, or
/// empty.
pub fn gate_ws_meta_content(value: Option<String>) -> (r: String)
    ensures
        r@ == match value {
            Some(v) => v@,
            None => Seq::empty(),
        },
{
    match value {
        Some(v) => v,
        None => String::new(),
    }
}

/// The meta tag's gate address, when it holds one.
pub fn configured_gate_ws_url(content: Option<String>) -> (r: Option<String>)
    ensures
        match content {
            Some(c) => if c@.len() > 0 {
                r == Some(c)
            } else {
                r is None
            },
            None => r is None,
        },
{
    match content {
        Some(c) => if c.as_str().unicode_len() > 0 {
            Some(c)
        } else {
            None
        },
        None => None,
    }
}

pub open spec fn fallback_url_spec(protocol: Option<Seq<char>>, hostname: Option<Seq<char>>) -> Seq<
    char,
> {
    let scheme = if protocol == Some("https:"@) {
        "wss"@
    } else {
        "ws"@
    };
    let host = match hostname {
        Some(h) => if h.len() > 0 {
            h
        } else {
            "127.0.0.1"@
        },
        None => "127.0.0.1"@,
    };
    scheme + "://"@ + host + ":7071/"@
}

/// The Prior gate on port 7071 of the page's host: `wss` under https, `ws`
/// otherwise, and 127.0.0.1 when the host is unknown. Without a browser
/// window neither is known.
pub fn fallback_gate_ws_url(protocol: Option<&str>, hostname: Option<&str>) -> (r: String)
    ensures
        r@ == fallback_url_spec(
            match protocol {
                Some(p) => Some(p@),
                None => None,
            },
            match hostname {
                Some(h) => Some(h@),
                None => None,
            },
        ),
{
    let scheme = match protocol {
        Some(p) => if str_eq(p, "https:") {
            "wss"
        } else {
            "ws"
        },
        None => "ws",
    };
    let host = match hostname {
        Some(h) => if h.unicode_len() > 0 {
            h
        } else {
            "127.0.0.1"
        },
        None => "127.0.0.1",
    };
    let mut r = concat3(scheme, "://", host);
    r.append(":7071/");
    r
}

/// The Prior gate address the browser uses: the configured one, else the fallback.
pub fn gate_ws_url(configured: Option<String>, protocol: Option<&str>, hostname: Option<&str>) -> (r:
    String)
    ensures
        r@ == match configured {
            Some(c) => if c@.len() > 0 {
                c@
            } else {
                fallback_url_spec(
                    match protocol {
                        Some(p) => Some(p@),
                        None => None,
                    },
                    match hostname {
                        Some(h) => Some(h@),
                        None => None,
                    },
                )
            },
            None => fallback_url_spec(
                match protocol {
                    Some(p) => Some(p@),
                    None => None,
                },
                match hostname {
                    Some(h) => Some(h@),
                    None => None,
                },
            ),
        },
{
    match configured_gate_ws_url(configured) {
        Some(url) => url,
        None => fallback_gate_ws_url(protocol, hostname),
    }
}

/// Dark theme when the stored choice says `dark`; without a stored choice,
/// the browser's preference.
pub fn theme_preference(stored: Option<&str>, prefers_dark: bool) -> (r: bool)
    ensures
        r == match stored {
            Some(v) => v@ == "dark"@,
            None => prefers_dark,
        },
{
    match stored {
        Some(v) => str_eq(v, "dark"),
        None => prefers_dark,
    }
}

/// What is stored for the theme.
pub fn theme_storage_value(dark: bool) -> (r: &'static str)
    ensures
        r@ == if dark {
            "dark"@
        } else {
            "light"@
        },
{
    if dark {
        "dark"
    } else {
        "light"
    }
}

/// The auth state a page starts with: the request's, when the page is
/// rendered for a request, else anonymous.
pub fn initial_auth_state(from_request: Option<AuthState>) -> (r: AuthState)
    ensures
        match from_request {
            Some(s) => r == s,
            None => r is Anonymous,
        },
{
    match from_request {
        Some(s) => s,
        None => AuthState::Anonymous,
    }
}

} // verus!
