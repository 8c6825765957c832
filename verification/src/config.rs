//! Network route configuration.

use vstd::prelude::*;
use vstd::string::*;
use crate::text::{push_decimal, decimal, text_eq};

verus! {

/// A forward proxy: scheme prefix, host and port.
#[derive(Debug)]
pub struct Proxy {
    pub protocol: String,
    pub host: String,
    pub port: u16,
}

/// How requests reach the service: through a forward proxy (`method` is
/// `"proxy"`) or through a reverse proxy that replaces the service's base
/// address (any other `method`).
#[derive(Debug)]
pub struct ProxyConfig {
    pub method: String,
    pub proxy: Option<Proxy>,
    pub reverse_proxy: Option<String>,
}

impl Proxy {
    /// The proxy's address: protocol, host, a colon and the port in decimal.
    pub open spec fn address(self) -> Seq<char> {
        self.protocol@ + self.host@ + seq![':'] + decimal(self.port as nat)
    }
}

impl ProxyConfig {
    /// Whether the forward-proxy route is selected.
    pub open spec fn uses_proxy(self) -> bool {
        self.method@ == "proxy"@
    }

    /// The field that the selected route reads is present.
    pub open spec fn well_formed(self) -> bool {
        if self.uses_proxy() {
            self.proxy is Some
        } else {
            self.reverse_proxy is Some
        }
    }

    /// The address of the selected route.
    pub open spec fn address(self) -> Seq<char> {
        if self.uses_proxy() {
            self.proxy->0.address()
        } else {
            self.reverse_proxy->0@
        }
    }

    /// Whether the forward-proxy route is selected.
    pub fn is_proxy(&self) -> (r: bool)
        ensures
            r == self.uses_proxy(),
    {
        text_eq(self.method.as_str(), "proxy")
    }

    /// Whether the field that the selected route reads is present.
    pub fn is_well_formed(&self) -> (r: bool)
        ensures
            r == self.well_formed(),
    {
        if self.is_proxy() {
            self.proxy.is_some()
        } else {
            self.reverse_proxy.is_some()
        }
    }

    /// The address of the selected route as text.
    pub fn to_string(&self) -> (s: String)
        requires
            self.well_formed(),
        ensures
            s@ == self.address(),
    {
        if self.is_proxy() {
            match &self.proxy {
                Some(proxy) => {
                    let mut s = proxy.protocol.clone();
                    s.append(proxy.host.as_str());
                    s.append(":");
                    proof {
                        reveal_strlit(":");
                        assert(":"@ =~= seq![':']);
                    }
                    push_decimal(&mut s, proxy.port as u64);
                    s
                },
                None => String::new(),
            }
        } else {
            match &self.reverse_proxy {
                Some(address) => address.clone(),
                None => String::new(),
            }
        }
    }
}

} // verus!
