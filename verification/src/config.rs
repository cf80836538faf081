//! From the options of the command line to what the bridge starts with: the
//! settings of the overlay session, the scope, the bus domain and the allow
//! filter.

use crate::filter::{pattern_of, regex_compiles, AllowFilter, FilterError};
use crate::text::{join, joined, opt_text, parse_u32, parsed_u32, same_text, texts};
use vstd::prelude::*;
use vstd::string::StringExecFns;

verus! {

/// The domain that the bus picks by itself.
pub const DDS_DOMAIN_DEFAULT: u32 = 0xffff_ffff;

/// The options as the command line gave them. A list is empty, and a single
/// value is `None`, where the option was not given.
#[derive(Debug, Clone, PartialEq, Eq)]
pub struct BridgeOptions {
    pub peer: Vec<String>,
    pub listener: Vec<String>,
    pub scope: Option<String>,
    pub generalise_pub: Vec<String>,
    pub generalise_sub: Vec<String>,
    pub mode: Option<String>,
    pub no_multicast_scouting: bool,
    pub domain: Option<String>,
    pub allow: Option<String>,
}

/// What the bridge starts with.
pub struct BridgeConfig {
    /// The settings to lay over those of the session's configuration, in the
    /// order in which they are to be set.
    pub properties: Vec<(String, String)>,
    pub scope: String,
    pub domain: u32,
    pub allow: Option<AllowFilter>,
}

/// Why the options give no configuration.
#[derive(Debug, Clone, PartialEq, Eq)]
pub enum OptionsError {
    /// The mode is neither `peer` nor `client`.
    Mode(String),
    /// The allow pattern is no regular expression.
    Allow(FilterError),
    /// The domain is no 32-bit unsigned number.
    Domain(String),
}

/// The settings that a list of pairs holds.
pub open spec fn pairs(list: Seq<(String, String)>) -> Seq<(Seq<char>, Seq<char>)> {
    Seq::new(list.len(), |i: int| (list[i].0@, list[i].1@))
}

/// The mode of the session: `peer` unless the option says otherwise.
pub open spec fn mode_of(o: BridgeOptions) -> Seq<char> {
    match o.mode {
        Some(m) => m@,
        None => "peer"@,
    }
}

/// The mode is one that the session knows.
pub open spec fn mode_is_known(o: BridgeOptions) -> bool {
    mode_of(o) == "peer"@ || mode_of(o) == "client"@
}

/// The setting for a list option: none if the list is empty, else the values
/// with commas between them.
pub open spec fn list_setting(key: Seq<char>, values: Seq<String>) -> Seq<(Seq<char>, Seq<char>)> {
    if values.len() == 0 {
        Seq::empty()
    } else {
        seq![(key, joined(texts(values), ","@))]
    }
}

/// The settings of the overlay session that the options ask for.
pub open spec fn session_properties(o: BridgeOptions) -> Seq<(Seq<char>, Seq<char>)> {
    seq![("local_routing"@, "false"@), ("mode"@, mode_of(o))] + list_setting(
        "join_subscriptions"@,
        o.generalise_sub@,
    ) + list_setting("join_publications"@, o.generalise_pub@) + list_setting("peer"@, o.peer@)
        + list_setting("listener"@, o.listener@) + (if o.no_multicast_scouting {
        seq![("multicast_scouting"@, "false"@)]
    } else {
        Seq::empty()
    })
}

/// The scope: empty unless the option gives one.
pub open spec fn scope_of(o: BridgeOptions) -> Seq<char> {
    match o.scope {
        Some(s) => s@,
        None => Seq::empty(),
    }
}

/// The allow pattern compiles, if there is one.
pub open spec fn allow_is_valid(o: BridgeOptions) -> bool {
    o.allow matches Some(p) ==> regex_compiles(p@)
}

/// The domain: the default unless the option gives a number.
pub open spec fn domain_of(o: BridgeOptions) -> Option<u32> {
    match o.domain {
        Some(d) => parsed_u32(d@),
        None => Some(DDS_DOMAIN_DEFAULT),
    }
}

fn push_list_setting(properties: &mut Vec<(String, String)>, key: &str, values: &Vec<String>)
    ensures
        pairs(final(properties)@) == pairs(old(properties)@) + list_setting(key@, values@),
{
    if values.len() > 0 {
        properties.push((String::from_str(key), join(values, ",")));
    }
}

fn push_setting(properties: &mut Vec<(String, String)>, key: &str, value: &str)
    ensures
        pairs(final(properties)@) == pairs(old(properties)@).push((key@, value@)),
{
    properties.push((String::from_str(key), String::from_str(value)));
}

/// The settings of the overlay session that the options ask for.
pub fn session_settings(options: &BridgeOptions) -> (properties: Vec<(String, String)>)
    ensures
        pairs(properties@) == session_properties(*options),
{
    let mut properties: Vec<(String, String)> = Vec::new();
    push_setting(&mut properties, "local_routing", "false");
    match &options.mode {
        Some(m) => push_setting(&mut properties, "mode", m.as_str()),
        None => push_setting(&mut properties, "mode", "peer"),
    }
    push_list_setting(&mut properties, "join_subscriptions", &options.generalise_sub);
    push_list_setting(&mut properties, "join_publications", &options.generalise_pub);
    push_list_setting(&mut properties, "peer", &options.peer);
    push_list_setting(&mut properties, "listener", &options.listener);
    if options.no_multicast_scouting {
        push_setting(&mut properties, "multicast_scouting", "false");
    }
    properties
}

/// Turns the options into the configuration that the bridge starts with.
///
/// The mode is looked at first, then the allow pattern, then the domain: the
/// first of them that is wrong is the error.
pub fn configure(options: &BridgeOptions) -> (r: Result<BridgeConfig, OptionsError>)
    ensures
        match r {
            Ok(config) => {
                &&& mode_is_known(*options)
                &&& allow_is_valid(*options)
                &&& domain_of(*options) == Some(config.domain)
                &&& pairs(config.properties@) == session_properties(*options)
                &&& config.scope@ == scope_of(*options)
                &&& pattern_of(config.allow) == opt_text(options.allow)
            },
            Err(OptionsError::Mode(mode)) => !mode_is_known(*options) && mode@ == mode_of(*options),
            Err(OptionsError::Allow(_)) => mode_is_known(*options) && !allow_is_valid(*options),
            Err(OptionsError::Domain(domain)) => {
                &&& mode_is_known(*options)
                &&& allow_is_valid(*options)
                &&& domain_of(*options) is None
                &&& options.domain == Some(domain)
            },
        },
{
    match &options.mode {
        Some(m) => {
            if !same_text(m.as_str(), "peer") && !same_text(m.as_str(), "client") {
                return Err(OptionsError::Mode(m.clone()));
            }
        },
        None => {},
    }
    let allow = match &options.allow {
        Some(pattern) => match AllowFilter::new(pattern.as_str()) {
            Ok(filter) => Some(filter),
            Err(e) => {
                return Err(OptionsError::Allow(e));
            },
        },
        None => None,
    };
    let domain = match &options.domain {
        Some(d) => match parse_u32(d.as_str()) {
            Some(id) => id,
            None => {
                return Err(OptionsError::Domain(d.clone()));
            },
        },
        None => DDS_DOMAIN_DEFAULT,
    };
    let scope = match &options.scope {
        Some(s) => s.clone(),
        None => String::new(),
    };
    Ok(BridgeConfig { properties: session_settings(options), scope, domain, allow })
}

} // verus!
