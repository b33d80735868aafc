//! Reads of the proxy core's configuration.

use vstd::prelude::*;
use vstd::string::*;
use crate::yaml::{yaml_as_str, yaml_entries, yaml_get, YamlModel};

verus! {

/// The mode the configuration names, and `rule` where it names none or
/// names something that is no string.
pub open spec fn clash_mode(config: Map<Seq<char>, YamlModel>) -> Seq<char> {
    if config.contains_key("mode"@) {
        match config["mode"@] {
            YamlModel::Text(mode) => mode,
            _ => "rule"@,
        }
    } else {
        "rule"@
    }
}

/// The proxy core's current mode.
pub fn get_current_clash_mode(config: &serde_yaml::Mapping) -> (mode: String)
    ensures
        mode@ == clash_mode(yaml_entries(*config)),
{
    match yaml_get(config, "mode") {
        Some(value) => match yaml_as_str(value) {
            Some(text) => String::from_str(text),
            None => String::from_str("rule"),
        },
        None => String::from_str("rule"),
    }
}

/// `reqwest::ClientBuilder`, carried through without a look inside.
#[verifier::external_type_specification]
#[verifier::external_body]
pub struct ExClientBuilder(reqwest::ClientBuilder);

/// Points an HTTP client at the application's proxy.
pub trait NyanpasuReqwestProxyExt: Sized {
    fn swift_set_proxy(self, _url: &str) -> Self;
}

impl NyanpasuReqwestProxyExt for reqwest::ClientBuilder {
    /// No proxy is configured: the builder comes back as it went in.
    fn swift_set_proxy(self, _url: &str) -> (out: Self)
        ensures
            out == self,
    {
        self
    }
}

} // verus!
