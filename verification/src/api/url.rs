//! Which base address a request goes to.

use vstd::prelude::*;
use vstd::string::*;
use crate::config::ProxyConfig;

verus! {

/// The service's own base address.
pub const API_BASE_URL: &'static str = "https://api.openai.com";

/// The base address for a route: the service's own when a forward proxy
/// carries the request, the reverse proxy's address otherwise.
pub open spec fn spec_base_url(proxy_config: ProxyConfig) -> Seq<char> {
    if proxy_config.uses_proxy() {
        API_BASE_URL@
    } else {
        proxy_config.reverse_proxy->0@
    }
}

/// The base address that requests under `proxy_config` go to.
pub fn base_url(proxy_config: &ProxyConfig) -> (s: String)
    requires
        !proxy_config.uses_proxy() ==> proxy_config.reverse_proxy is Some,
    ensures
        s@ == spec_base_url(*proxy_config),
{
    if proxy_config.is_proxy() {
        String::from_str(API_BASE_URL)
    } else {
        proxy_config.to_string()
    }
}

/// The full address of the endpoint `api` under `proxy_config`.
pub fn api_url(proxy_config: &ProxyConfig, api: &str) -> (s: String)
    requires
        !proxy_config.uses_proxy() ==> proxy_config.reverse_proxy is Some,
    ensures
        s@ == spec_base_url(*proxy_config) + api@,
{
    let mut s = base_url(proxy_config);
    s.append(api);
    s
}

/// The endpoint that lists the models, relative to the base address.
pub const MODELS_API: &'static str = "/v1/models";

/// The word that introduces a bearer credential.
pub const BEARER: &'static str = "Bearer ";

/// The value of the authorization header for `api_key`: the word
/// `Bearer`, a space and the key.
pub fn authorization(api_key: &str) -> (s: String)
    ensures
        s@ == BEARER@ + api_key@,
{
    let mut s = String::from_str(BEARER);
    s.append(api_key);
    s
}

/// The address that lists the models under `proxy_config`.
pub fn models_url(proxy_config: &ProxyConfig) -> (s: String)
    requires
        !proxy_config.uses_proxy() ==> proxy_config.reverse_proxy is Some,
    ensures
        s@ == spec_base_url(*proxy_config) + MODELS_API@,
{
    api_url(proxy_config, MODELS_API)
}

/// The address of one model under `proxy_config`: that of the list, a
/// slash and the model's name.
pub fn model_url(proxy_config: &ProxyConfig, model: &str) -> (s: String)
    requires
        !proxy_config.uses_proxy() ==> proxy_config.reverse_proxy is Some,
    ensures
        s@ == spec_base_url(*proxy_config) + MODELS_API@ + seq!['/'] + model@,
{
    let mut s = models_url(proxy_config);
    proof {
        reveal_strlit("/");
        assert("/"@ =~= seq!['/']);
    }
    s.append("/");
    s.append(model);
    s
}

} // verus!
