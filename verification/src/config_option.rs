//! Optional configuration values that remember which configuration key they
//! belong to, so that a missing value can be reported usefully.

use vstd::prelude::*;
use vstd::string::StringExecFns;

verus! {

/// The value of an optional configuration, one without a default.
///
/// Equivalent to an `Option`, but the absence case keeps the configuration
/// key so that an error message can name it.
#[derive(Clone, Copy, PartialEq, Eq, Debug)]
pub enum OptionalConfig<T> {
    /// A value is set for this key.
    Present { value: T, key: &'static str },
    /// No value is set; the key is kept for the error message.
    Empty(&'static str),
}

/// The value of an optional group of configurations.
pub enum OptionalConfigGroup<T> {
    /// The whole group is set.
    Present(T),
    /// Nothing of the group is set; the key is kept for the error message.
    Empty(&'static str),
    /// Only part of the group is set.
    Partial(String),
}

/// The error reported when a required configuration value is missing.
#[derive(Clone, Copy, Debug, PartialEq, Eq)]
pub struct ConfigNotSet {
    /// The configuration key that has no value.
    pub key: &'static str,
}

impl ConfigNotSet {
    /// A message naming the missing key and how to set it.
    pub fn message(&self) -> (r: String)
        ensures
            r@ == "A value for '"@ + self.key@ + "' is missing. A value can be set with `tedge config set "@
                + self.key@ + " <value>`"@,
    {
        let mut m = String::new();
        m.append("A value for '");
        m.append(self.key);
        m.append("' is missing. A value can be set with `tedge config set ");
        m.append(self.key);
        m.append(" <value>`");
        proof {
            assert(m@ =~= "A value for '"@ + self.key@
                + "' is missing. A value can be set with `tedge config set "@ + self.key@
                + " <value>`"@);
        }
        m
    }
}

impl<T> OptionalConfig<T> {
    /// The value, if one is set.
    pub fn or_none(&self) -> (r: Option<&T>)
        ensures
            match self {
                OptionalConfig::Present { value, .. } => r matches Some(v) && v == value,
                OptionalConfig::Empty(_) => r is None,
            },
    {
        match self {
            OptionalConfig::Present { value, .. } => Some(value),
            OptionalConfig::Empty(_) => None,
        }
    }

    /// The value, or an error naming the key that has none.
    pub fn or_err(&self) -> (r: Result<&T, ConfigNotSet>)
        ensures
            match self {
                OptionalConfig::Present { value, .. } => r matches Ok(v) && v == value,
                OptionalConfig::Empty(key) => r matches Err(e) && e.key == key,
            },
    {
        match self {
            OptionalConfig::Present { value, .. } => Ok(value),
            OptionalConfig::Empty(key) => Err(ConfigNotSet { key }),
        }
    }
}

impl<T> From<OptionalConfig<T>> for Option<T> {
    fn from(value: OptionalConfig<T>) -> (r: Option<T>) {
        match value {
            OptionalConfig::Present { value, .. } => Some(value),
            OptionalConfig::Empty(_) => None,
        }
    }
}

impl<T> vstd::std_specs::convert::FromSpecImpl<OptionalConfig<T>> for Option<T> {
    open spec fn obeys_from_spec() -> bool {
        true
    }

    open spec fn from_spec(value: OptionalConfig<T>) -> Option<T> {
        match value {
            OptionalConfig::Present { value, .. } => Some(value),
            OptionalConfig::Empty(_) => None,
        }
    }
}

} // verus!
