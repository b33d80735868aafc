//! The tunnel section of the proxy core's configuration.

use vstd::prelude::*;
use vstd::string::*;
use crate::service::Platform;
use crate::yaml::{
    no_entries, texts_of, yaml_as_mapping, yaml_bool, yaml_clone_mapping, yaml_contains_key,
    yaml_entries, yaml_get, yaml_insert, yaml_mapping_new, yaml_remove, yaml_section, yaml_text,
    yaml_text_list, yaml_value, YamlModel,
};

verus! {

/// The proxy cores the application can run.
#[derive(Clone, Copy, Debug, PartialEq, Eq, Structural)]
pub enum ClashCore {
    ClashPremium,
    ClashRs,
    Mihomo,
    MihomoAlpha,
    ClashRsAlpha,
}

/// The network stacks a tunnel can use.
#[derive(Clone, Copy, Debug, PartialEq, Eq, Structural)]
pub enum TunStack {
    System,
    Gvisor,
    Mixed,
}

impl TunStack {
    pub open spec fn word(self) -> Seq<char> {
        match self {
            TunStack::System => "system"@,
            TunStack::Gvisor => "gvisor"@,
            TunStack::Mixed => "mixed"@,
        }
    }

    /// The stack's name in the configuration.
    pub fn as_str(&self) -> (out: &'static str)
        ensures
            out@ == self.word(),
    {
        match self {
            TunStack::System => "system",
            TunStack::Gvisor => "gvisor",
            TunStack::Mixed => "mixed",
        }
    }
}

/// The section stored under `key`, without entries where there is none or
/// where what is stored is no mapping.
pub open spec fn section_at(entries: Map<Seq<char>, YamlModel>, key: Seq<char>) -> Map<
    Seq<char>,
    YamlModel,
> {
    if entries.contains_key(key) {
        match entries[key] {
            YamlModel::Section(held) => held,
            _ => no_entries(),
        }
    } else {
        no_entries()
    }
}

/// The entries with `value` under `key`, but only where nothing is there
/// yet.
pub open spec fn appended(
    entries: Map<Seq<char>, YamlModel>,
    key: Seq<char>,
    value: YamlModel,
) -> Map<Seq<char>, YamlModel> {
    if entries.contains_key(key) {
        entries
    } else {
        entries.insert(key, value)
    }
}

pub open spec fn is_clash_rs(core: ClashCore) -> bool {
    core == ClashCore::ClashRs || core == ClashCore::ClashRsAlpha
}

/// The stack that is written: the premium core has no mixed stack and gets
/// gvisor in its place.
pub open spec fn effective_stack(core: ClashCore, stack: TunStack) -> TunStack {
    if core == ClashCore::ClashPremium && stack == TunStack::Mixed {
        TunStack::Gvisor
    } else {
        stack
    }
}

/// The tunnel section of an enabled tunnel. The Rust core takes its device
/// from the system except on macOS and routes by itself; the other cores get
/// a stack, the DNS hijack and interface detection where the section names
/// none.
pub open spec fn enabled_tun_section(
    base: Map<Seq<char>, YamlModel>,
    core: ClashCore,
    stack: TunStack,
    platform: Platform,
) -> Map<Seq<char>, YamlModel> {
    let started = base.insert("enable"@, YamlModel::Bool(true));
    if is_clash_rs(core) {
        let device = if platform == Platform::MacOs {
            appended(started, "device-id"@, YamlModel::Text("dev://utun1989"@))
        } else {
            started.remove("device-id"@)
        };
        device.insert("auto-route"@, YamlModel::Bool(true))
    } else {
        appended(
            appended(
                appended(
                    started,
                    "stack"@,
                    YamlModel::Text(effective_stack(core, stack).word()),
                ),
                "dns-hijack"@,
                YamlModel::TextList(seq!["any:53"@]),
            ).insert("auto-route"@, YamlModel::Bool(true)),
            "auto-detect-interface"@,
            YamlModel::Bool(true),
        )
    }
}

pub open spec fn nameservers() -> Seq<Seq<char>> {
    seq!["114.114.114.114"@, "223.5.5.5"@, "8.8.8.8"@]
}

pub open spec fn windows_fake_ip_filter() -> Seq<Seq<char>> {
    seq!["dns.msftncsi.com"@, "www.msftncsi.com"@, "www.msftconnecttest.com"@]
}

/// The DNS section that goes with an enabled tunnel: DNS is switched on, and
/// what the section does not name is filled in.
pub open spec fn tun_dns_section(base: Map<Seq<char>, YamlModel>, platform: Platform) -> Map<
    Seq<char>,
    YamlModel,
> {
    let filled = appended(
        appended(
            appended(
                appended(
                    base.insert("enable"@, YamlModel::Bool(true)),
                    "enhanced-mode"@,
                    YamlModel::Text("fake-ip"@),
                ),
                "fake-ip-range"@,
                YamlModel::Text("198.18.0.1/16"@),
            ),
            "nameserver"@,
            YamlModel::TextList(nameservers()),
        ),
        "fallback"@,
        YamlModel::TextList(Seq::empty()),
    );
    if platform == Platform::Windows {
        appended(filled, "fake-ip-filter"@, YamlModel::TextList(windows_fake_ip_filter()))
    } else {
        filled
    }
}

/// The configuration with its DNS section made fit for a tunnel.
pub open spec fn with_tun_dns(config: Map<Seq<char>, YamlModel>, platform: Platform) -> Map<
    Seq<char>,
    YamlModel,
> {
    config.insert("dns"@, YamlModel::Section(tun_dns_section(section_at(config, "dns"@), platform)))
}

/// The configuration with the tunnel switched on or off. A tunnel that is
/// off still gets a section, which says so; one that is on gets its section
/// and the DNS that goes with it.
pub open spec fn with_tun(
    config: Map<Seq<char>, YamlModel>,
    enable: bool,
    core: ClashCore,
    stack: TunStack,
    platform: Platform,
) -> Map<Seq<char>, YamlModel> {
    let base = section_at(config, "tun"@);
    if enable {
        with_tun_dns(
            config.insert(
                "tun"@,
                YamlModel::Section(enabled_tun_section(base, core, stack, platform)),
            ),
            platform,
        )
    } else {
        config.insert("tun"@, YamlModel::Section(base.insert("enable"@, YamlModel::Bool(false))))
    }
}

fn section_of(config: &serde_yaml::Mapping, key: &str) -> (section: serde_yaml::Mapping)
    ensures
        yaml_entries(section) == section_at(yaml_entries(*config), key@),
{
    match yaml_get(config, key) {
        Some(value) => match yaml_as_mapping(value) {
            Some(held) => yaml_clone_mapping(held),
            None => yaml_mapping_new(),
        },
        None => yaml_mapping_new(),
    }
}

fn append(section: &mut serde_yaml::Mapping, key: &str, value: serde_yaml::Value)
    ensures
        yaml_entries(*final(section)) == appended(
            yaml_entries(*old(section)),
            key@,
            yaml_value(value),
        ),
{
    if !yaml_contains_key(section, key) {
        yaml_insert(section, key, value);
    }
}

fn text_list_1(a: &'static str) -> (out: serde_yaml::Value)
    ensures
        yaml_value(out) == YamlModel::TextList(seq![a@]),
{
    let mut items: Vec<&'static str> = Vec::new();
    items.push(a);
    assert(texts_of(items@) =~= seq![a@]);
    yaml_text_list(items)
}

fn text_list_3(a: &'static str, b: &'static str, c: &'static str) -> (out: serde_yaml::Value)
    ensures
        yaml_value(out) == YamlModel::TextList(seq![a@, b@, c@]),
{
    let mut items: Vec<&'static str> = Vec::new();
    items.push(a);
    items.push(b);
    items.push(c);
    assert(texts_of(items@) =~= seq![a@, b@, c@]);
    yaml_text_list(items)
}

fn text_list_0() -> (out: serde_yaml::Value)
    ensures
        yaml_value(out) == YamlModel::TextList(Seq::empty()),
{
    let items: Vec<&'static str> = Vec::new();
    assert(texts_of(items@) =~= Seq::<Seq<char>>::empty());
    yaml_text_list(items)
}

/// Writes the tunnel into the core's configuration. `core` and `tun_stack`
/// are the configured core and stack, `platform` the system the core runs
/// on.
pub fn use_tun(
    config: serde_yaml::Mapping,
    enable: bool,
    core: ClashCore,
    tun_stack: TunStack,
    platform: Platform,
) -> (out: serde_yaml::Mapping)
    ensures
        yaml_entries(out) == with_tun(yaml_entries(config), enable, core, tun_stack, platform),
{
    let mut config = config;
    let mut tun_val = section_of(&config, "tun");
    yaml_insert(&mut tun_val, "enable", yaml_bool(enable));
    if !enable {
        yaml_insert(&mut config, "tun", yaml_section(tun_val));
        return config;
    }
    let rust_core = match core {
        ClashCore::ClashRs => true,
        ClashCore::ClashRsAlpha => true,
        _ => false,
    };
    if rust_core {
        match platform {
            Platform::MacOs => {
                append(&mut tun_val, "device-id", yaml_text("dev://utun1989"));
            },
            _ => {
                yaml_remove(&mut tun_val, "device-id");
            },
        }
        yaml_insert(&mut tun_val, "auto-route", yaml_bool(true));
    } else {
        let stack = match (core, tun_stack) {
            (ClashCore::ClashPremium, TunStack::Mixed) => TunStack::Gvisor,
            _ => tun_stack,
        };
        append(&mut tun_val, "stack", yaml_text(stack.as_str()));
        append(&mut tun_val, "dns-hijack", text_list_1("any:53"));
        yaml_insert(&mut tun_val, "auto-route", yaml_bool(true));
        append(&mut tun_val, "auto-detect-interface", yaml_bool(true));
    }
    yaml_insert(&mut config, "tun", yaml_section(tun_val));
    use_dns_for_tun(config, platform)
}

/// Switches DNS on in the core's configuration and fills in what a tunnel
/// needs of it.
pub fn use_dns_for_tun(config: serde_yaml::Mapping, platform: Platform) -> (out:
    serde_yaml::Mapping)
    ensures
        yaml_entries(out) == with_tun_dns(yaml_entries(config), platform),
{
    let mut config = config;
    let mut dns_val = section_of(&config, "dns");
    yaml_insert(&mut dns_val, "enable", yaml_bool(true));
    append(&mut dns_val, "enhanced-mode", yaml_text("fake-ip"));
    append(&mut dns_val, "fake-ip-range", yaml_text("198.18.0.1/16"));
    append(
        &mut dns_val,
        "nameserver",
        text_list_3("114.114.114.114", "223.5.5.5", "8.8.8.8"),
    );
    append(&mut dns_val, "fallback", text_list_0());
    match platform {
        Platform::Windows => {
            append(
                &mut dns_val,
                "fake-ip-filter",
                text_list_3("dns.msftncsi.com", "www.msftncsi.com", "www.msftconnecttest.com"),
            );
        },
        _ => {},
    }
    yaml_insert(&mut config, "dns", yaml_section(dns_val));
    config
}

} // verus!
