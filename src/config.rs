//! The container settings that travel as integer tags.

use vstd::prelude::*;

verus! {

/// When the container stops.
#[derive(PartialEq, Eq, Structural, Clone, Copy, Debug)]
pub enum ConfigRunLevel {
    User,
    Container,
    Forever,
}

/// How the container reaches the network.
#[derive(PartialEq, Eq, Structural, Clone, Copy, Debug)]
pub enum ConfigNetworkMode {
    Off,
    Full,
    Host,
    Docker,
    NoNetwork,
}

pub open spec fn run_level_tag(l: ConfigRunLevel) -> nat {
    match l {
        ConfigRunLevel::User => 1,
        ConfigRunLevel::Container => 2,
        ConfigRunLevel::Forever => 3,
    }
}

pub open spec fn run_level_of_tag(t: int) -> Option<ConfigRunLevel> {
    if t == 1 {
        Some(ConfigRunLevel::User)
    } else if t == 2 {
        Some(ConfigRunLevel::Container)
    } else if t == 3 {
        Some(ConfigRunLevel::Forever)
    } else {
        None
    }
}

pub open spec fn network_mode_tag(m: ConfigNetworkMode) -> nat {
    match m {
        ConfigNetworkMode::Off => 1,
        ConfigNetworkMode::Full => 2,
        ConfigNetworkMode::Host => 3,
        ConfigNetworkMode::Docker => 4,
        ConfigNetworkMode::NoNetwork => 5,
    }
}

pub open spec fn network_mode_of_tag(t: int) -> Option<ConfigNetworkMode> {
    if t == 1 {
        Some(ConfigNetworkMode::Off)
    } else if t == 2 {
        Some(ConfigNetworkMode::Full)
    } else if t == 3 {
        Some(ConfigNetworkMode::Host)
    } else if t == 4 {
        Some(ConfigNetworkMode::Docker)
    } else if t == 5 {
        Some(ConfigNetworkMode::NoNetwork)
    } else {
        None
    }
}

pub open spec fn run_level_name(l: ConfigRunLevel) -> Seq<char> {
    match l {
        ConfigRunLevel::User => "User"@,
        ConfigRunLevel::Container => "Container"@,
        ConfigRunLevel::Forever => "Forever"@,
    }
}

pub open spec fn network_mode_name(m: ConfigNetworkMode) -> Seq<char> {
    match m {
        ConfigNetworkMode::Off => "Off"@,
        ConfigNetworkMode::Full => "Full"@,
        ConfigNetworkMode::Host => "Host"@,
        ConfigNetworkMode::Docker => "Docker"@,
        ConfigNetworkMode::NoNetwork => "None"@,
    }
}

impl ConfigRunLevel {
    /// The integer that stands for this run level on the wire.
    pub fn tag(&self) -> (r: u8)
        ensures
            r as nat == run_level_tag(*self),
    {
        match self {
            ConfigRunLevel::User => 1,
            ConfigRunLevel::Container => 2,
            ConfigRunLevel::Forever => 3,
        }
    }

    /// The run level that `t` stands for on the wire, if any.
    pub fn from_tag(t: u64) -> (r: Option<ConfigRunLevel>)
        ensures
            r == run_level_of_tag(t as int),
    {
        match t {
            1 => Some(ConfigRunLevel::User),
            2 => Some(ConfigRunLevel::Container),
            3 => Some(ConfigRunLevel::Forever),
            _ => None,
        }
    }

    /// The variant's name.
    pub fn name(&self) -> (r: &'static str)
        ensures
            r@ == run_level_name(*self),
    {
        match self {
            ConfigRunLevel::User => "User",
            ConfigRunLevel::Container => "Container",
            ConfigRunLevel::Forever => "Forever",
        }
    }
}

impl ConfigNetworkMode {
    /// The integer that stands for this network mode on the wire.
    pub fn tag(&self) -> (r: u8)
        ensures
            r as nat == network_mode_tag(*self),
    {
        match self {
            ConfigNetworkMode::Off => 1,
            ConfigNetworkMode::Full => 2,
            ConfigNetworkMode::Host => 3,
            ConfigNetworkMode::Docker => 4,
            ConfigNetworkMode::NoNetwork => 5,
        }
    }

    /// The network mode that `t` stands for on the wire, if any.
    pub fn from_tag(t: u64) -> (r: Option<ConfigNetworkMode>)
        ensures
            r == network_mode_of_tag(t as int),
    {
        match t {
            1 => Some(ConfigNetworkMode::Off),
            2 => Some(ConfigNetworkMode::Full),
            3 => Some(ConfigNetworkMode::Host),
            4 => Some(ConfigNetworkMode::Docker),
            5 => Some(ConfigNetworkMode::NoNetwork),
            _ => None,
        }
    }

    /// The variant's name.
    pub fn name(&self) -> (r: &'static str)
        ensures
            r@ == network_mode_name(*self),
    {
        match self {
            ConfigNetworkMode::Off => "Off",
            ConfigNetworkMode::Full => "Full",
            ConfigNetworkMode::Host => "Host",
            ConfigNetworkMode::Docker => "Docker",
            ConfigNetworkMode::NoNetwork => "None",
        }
    }
}

/// Each network mode comes back from its tag, each of the tags 1 to 5
/// comes back from its network mode, and no other integer is a tag.
pub proof fn network_mode_tag_round_trip(m: ConfigNetworkMode, t: int)
    ensures
        network_mode_of_tag(network_mode_tag(m) as int) == Some(m),
        1 <= t <= 5 ==> network_mode_of_tag(t) is Some && network_mode_tag(network_mode_of_tag(t)->0) == t,
        !(1 <= t <= 5) ==> network_mode_of_tag(t) is None,
{
}

/// Each run level comes back from its tag, each of the tags 1 to 3 comes
/// back from its run level, and no other integer is a tag.
pub proof fn run_level_tag_round_trip(l: ConfigRunLevel, t: int)
    ensures
        run_level_of_tag(run_level_tag(l) as int) == Some(l),
        1 <= t <= 3 ==> run_level_of_tag(t) is Some && run_level_tag(run_level_of_tag(t)->0) == t,
        !(1 <= t <= 3) ==> run_level_of_tag(t) is None,
{
}

} // verus!
