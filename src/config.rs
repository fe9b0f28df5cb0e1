//! The border settings read from the configuration, by key.
use vstd::prelude::*;

verus! {

/// What the configuration holds under one key. A number is held with its
/// fraction dropped, toward zero.
#[derive(Clone, Copy, Debug, PartialEq, Eq, Structural)]
pub enum Setting {
    /// Nothing is stored under the key.
    Unset,
    /// A value is stored that is not a number.
    NonNumeric,
    /// A number is stored.
    Number(i64),
}

/// The keys that borders read.
#[derive(Clone, Copy, Debug, PartialEq, Eq, Structural)]
pub enum ConfigKey {
    BorderSize,
    BorderColor,
    ActiveBorderColor,
}

impl ConfigKey {
    /// The name of the key in the configuration.
    pub fn name(&self) -> (s: &'static str)
        ensures
            s@ == self.name_spec(),
    {
        match self {
            ConfigKey::BorderSize => "border_size",
            ConfigKey::BorderColor => "border_color",
            ConfigKey::ActiveBorderColor => "active_border_color",
        }
    }

    pub open spec fn name_spec(&self) -> Seq<char> {
        match self {
            ConfigKey::BorderSize => "border_size"@,
            ConfigKey::BorderColor => "border_color"@,
            ConfigKey::ActiveBorderColor => "active_border_color"@,
        }
    }
}

/// A snapshot of the border settings of the configuration.
#[derive(Clone, Copy, Debug, PartialEq, Eq, Structural)]
pub struct Config {
    pub border_size: Setting,
    pub border_color: Setting,
    pub active_border_color: Setting,
}

impl Config {
    pub open spec fn get_spec(&self, key: ConfigKey) -> Setting {
        match key {
            ConfigKey::BorderSize => self.border_size,
            ConfigKey::BorderColor => self.border_color,
            ConfigKey::ActiveBorderColor => self.active_border_color,
        }
    }

    /// A configuration with every key unset.
    pub fn new() -> (c: Config)
        ensures
            forall|k: ConfigKey| c.get_spec(k) == Setting::Unset,
    {
        Config { border_size: Setting::Unset, border_color: Setting::Unset, active_border_color: Setting::Unset }
    }

    /// What is stored under `key`.
    pub fn get(&self, key: ConfigKey) -> (s: Setting)
        ensures
            s == self.get_spec(key),
    {
        match key {
            ConfigKey::BorderSize => self.border_size,
            ConfigKey::BorderColor => self.border_color,
            ConfigKey::ActiveBorderColor => self.active_border_color,
        }
    }

    /// Stores `s` under `key`, leaving the other keys as they were.
    pub fn set(&mut self, key: ConfigKey, s: Setting)
        ensures
            final(self).get_spec(key) == s,
            forall|k: ConfigKey| k != key ==> final(self).get_spec(k) == old(self).get_spec(k),
    {
        match key {
            ConfigKey::BorderSize => self.border_size = s,
            ConfigKey::BorderColor => self.border_color = s,
            ConfigKey::ActiveBorderColor => self.active_border_color = s,
        }
    }
}

/// The unsigned value of a setting: `None` where the key is unset, zero for
/// what is not a number or not above zero, the number itself otherwise, held at
/// `u32::MAX`.
pub open spec fn resolve_spec(s: Setting) -> Option<u32> {
    match s {
        Setting::Unset => None,
        Setting::NonNumeric => Some(0),
        Setting::Number(n) => Some(clamp_spec(n)),
    }
}

/// The unsigned value of a setting (see `resolve_spec`).
pub fn resolve(s: Setting) -> (r: Option<u32>)
    ensures
        r == resolve_spec(s),
{
    match s {
        Setting::Unset => None,
        Setting::NonNumeric => Some(0),
        Setting::Number(n) => {
            if n <= 0 {
                Some(0)
            } else if n > u32::MAX as i64 {
                Some(u32::MAX)
            } else {
                Some(n as u32)
            }
        },
    }
}

/// A stored number held to the unsigned range: zero where it is not above
/// zero, `u32::MAX` where it is above that.
pub open spec fn clamp_spec(n: i64) -> u32 {
    if n <= 0 {
        0
    } else if n > u32::MAX {
        u32::MAX
    } else {
        n as u32
    }
}

/// The unsigned value of a setting that holds a number, and `None` for one
/// that is unset or not a number.
pub open spec fn number_spec(s: Setting) -> Option<u32> {
    match s {
        Setting::Number(n) => Some(clamp_spec(n)),
        _ => None,
    }
}

/// The unsigned value of a setting that holds a number (see `number_spec`).
pub fn resolve_number(s: Setting) -> (r: Option<u32>)
    ensures
        r == number_spec(s),
{
    match s {
        Setting::Number(_) => resolve(s),
        _ => None,
    }
}

/// The unsigned value stored under `key`, zero where it is unset.
pub open spec fn value_or_zero_spec(c: Config, key: ConfigKey) -> u32 {
    match resolve_spec(c.get_spec(key)) {
        Some(v) => v,
        None => 0,
    }
}

} // verus!
