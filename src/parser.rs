//! Reading the settings from the tokens an operator types.

use vstd::prelude::*;
use vstd::string::*;
use crate::config::{network_mode_tag, run_level_tag, ConfigNetworkMode, ConfigRunLevel};
use crate::wire::decimal;

verus! {

/// `s` in lower case, as Unicode defines it.
pub uninterp spec fn lower_of(s: Seq<char>) -> Seq<char>;

/// Relies on str::to_lowercase: the result depends on the characters alone.
#[verifier::external_body]
fn lowercase(s: &str) -> (r: String)
    ensures
        r@ == lower_of(s@),
{
    s.to_lowercase()
}

fn is_token(s: &String, t: &str) -> (r: bool)
    ensures
        r == (s@ == t@),
{
    let t = String::from_str(t);
    s.eq(&t)
}

/// The network mode that a lower-case token names: its name or its tag.
pub open spec fn network_mode_token(t: Seq<char>) -> Option<ConfigNetworkMode> {
    if t == "off"@ || t == "1"@ {
        Some(ConfigNetworkMode::Off)
    } else if t == "full"@ || t == "2"@ {
        Some(ConfigNetworkMode::Full)
    } else if t == "host"@ || t == "3"@ {
        Some(ConfigNetworkMode::Host)
    } else if t == "docker"@ || t == "4"@ {
        Some(ConfigNetworkMode::Docker)
    } else if t == "none"@ || t == "5"@ {
        Some(ConfigNetworkMode::NoNetwork)
    } else {
        None
    }
}

/// The run level that a lower-case token names: its name or its tag.
pub open spec fn run_level_token(t: Seq<char>) -> Option<ConfigRunLevel> {
    if t == "user"@ || t == "1"@ {
        Some(ConfigRunLevel::User)
    } else if t == "container"@ || t == "2"@ {
        Some(ConfigRunLevel::Container)
    } else if t == "forever"@ || t == "3"@ {
        Some(ConfigRunLevel::Forever)
    } else {
        None
    }
}

pub open spec fn network_mode_error(src: Seq<char>) -> Seq<char> {
    "'"@ + src + "' is not a valid network mode. Choose from 'off', 'full', 'host', 'docker', 'none'"@
}

pub open spec fn run_level_error(src: Seq<char>) -> Seq<char> {
    "'"@ + src + "' is not a valid run level. Choose from: 'user', 'container', 'forever'"@
}

/// The network mode that the lower-case token `lowered` names.
pub fn network_mode_from_token(lowered: &String) -> (r: Option<ConfigNetworkMode>)
    ensures
        r == network_mode_token(lowered@),
{
    if is_token(lowered, "off") || is_token(lowered, "1") {
        Some(ConfigNetworkMode::Off)
    } else if is_token(lowered, "full") || is_token(lowered, "2") {
        Some(ConfigNetworkMode::Full)
    } else if is_token(lowered, "host") || is_token(lowered, "3") {
        Some(ConfigNetworkMode::Host)
    } else if is_token(lowered, "docker") || is_token(lowered, "4") {
        Some(ConfigNetworkMode::Docker)
    } else if is_token(lowered, "none") || is_token(lowered, "5") {
        Some(ConfigNetworkMode::NoNetwork)
    } else {
        None
    }
}

/// The run level that the lower-case token `lowered` names.
pub fn run_level_from_token(lowered: &String) -> (r: Option<ConfigRunLevel>)
    ensures
        r == run_level_token(lowered@),
{
    if is_token(lowered, "user") || is_token(lowered, "1") {
        Some(ConfigRunLevel::User)
    } else if is_token(lowered, "container") || is_token(lowered, "2") {
        Some(ConfigRunLevel::Container)
    } else if is_token(lowered, "forever") || is_token(lowered, "3") {
        Some(ConfigRunLevel::Forever)
    } else {
        None
    }
}

/// Reads a network mode from its name in any case, or from its tag; the
/// error lists the accepted tokens.
pub fn parse_network_mode(src: &str) -> (r: Result<ConfigNetworkMode, String>)
    ensures
        match r {
            Ok(m) => network_mode_token(lower_of(src@)) == Some(m),
            Err(e) => network_mode_token(lower_of(src@)) is None && e@ == network_mode_error(src@),
        },
{
    match network_mode_from_token(&lowercase(src)) {
        Some(m) => Ok(m),
        None => {
            let mut e = String::from_str("'");
            e.append(src);
            e.append("' is not a valid network mode. Choose from 'off', 'full', 'host', 'docker', 'none'");
            Err(e)
        },
    }
}

/// Reads a run level from its name in any case, or from its tag; the error
/// lists the accepted tokens.
pub fn parse_config_run_level(src: &str) -> (r: Result<ConfigRunLevel, String>)
    ensures
        match r {
            Ok(l) => run_level_token(lower_of(src@)) == Some(l),
            Err(e) => run_level_token(lower_of(src@)) is None && e@ == run_level_error(src@),
        },
{
    match run_level_from_token(&lowercase(src)) {
        Some(l) => Ok(l),
        None => {
            let mut e = String::from_str("'");
            e.append(src);
            e.append("' is not a valid run level. Choose from: 'user', 'container', 'forever'");
            Err(e)
        },
    }
}

/// The tag of each network mode, written in decimal, is a token that reads
/// back as that network mode.
pub proof fn network_mode_tag_token(m: ConfigNetworkMode)
    ensures
        network_mode_token(decimal(network_mode_tag(m))) == Some(m),
{
    reveal_strlit("off");
    reveal_strlit("full");
    reveal_strlit("host");
    reveal_strlit("docker");
    reveal_strlit("none");
    reveal_strlit("1");
    reveal_strlit("2");
    reveal_strlit("3");
    reveal_strlit("4");
    reveal_strlit("5");
    let d = decimal(network_mode_tag(m));
    assert(d =~= seq![crate::wire::digit_char(network_mode_tag(m))]);
    assert(d.len() == 1 && d[0] == crate::wire::digit_char(network_mode_tag(m)));
    assert(d == "1"@ ==> d[0] == '1');
    assert(d == "2"@ ==> d[0] == '2');
    assert(d == "3"@ ==> d[0] == '3');
    assert(d == "4"@ ==> d[0] == '4');
    assert(d == "5"@ ==> d[0] == '5');
    match m {
        ConfigNetworkMode::Off => assert(d =~= "1"@),
        ConfigNetworkMode::Full => assert(d =~= "2"@),
        ConfigNetworkMode::Host => assert(d =~= "3"@),
        ConfigNetworkMode::Docker => assert(d =~= "4"@),
        ConfigNetworkMode::NoNetwork => assert(d =~= "5"@),
    }
}

/// The tag of each run level, written in decimal, is a token that reads
/// back as that run level.
pub proof fn run_level_tag_token(l: ConfigRunLevel)
    ensures
        run_level_token(decimal(run_level_tag(l))) == Some(l),
{
    reveal_strlit("user");
    reveal_strlit("container");
    reveal_strlit("forever");
    reveal_strlit("1");
    reveal_strlit("2");
    reveal_strlit("3");
    let d = decimal(run_level_tag(l));
    assert(d =~= seq![crate::wire::digit_char(run_level_tag(l))]);
    assert(d.len() == 1 && d[0] == crate::wire::digit_char(run_level_tag(l)));
    assert(d == "1"@ ==> d[0] == '1');
    assert(d == "2"@ ==> d[0] == '2');
    assert(d == "3"@ ==> d[0] == '3');
    match l {
        ConfigRunLevel::User => assert(d =~= "1"@),
        ConfigRunLevel::Container => assert(d =~= "2"@),
        ConfigRunLevel::Forever => assert(d =~= "3"@),
    }
}

} // verus!
