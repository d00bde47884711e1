//! The two kinds of failure: a semantic one raised by validation, and a
//! structural one raised while reading a declaration.
use vstd::prelude::*;

verus! {

/// A declaration that was read correctly but breaks one of the bond rules.
#[derive(Debug)]
pub enum ConfigError {
    InvalidNetConfig { reason: String },
}

impl ConfigError {
    /// The human-readable reason carried by the error.
    pub open spec fn reason_spec(&self) -> Seq<char> {
        match self {
            ConfigError::InvalidNetConfig { reason } => reason@,
        }
    }

    pub fn reason(&self) -> (r: &str)
        ensures
            r@ == self.reason_spec(),
    {
        match self {
            ConfigError::InvalidNetConfig { reason } => reason.as_str(),
        }
    }

    /// Builds an `InvalidNetConfig` error from a reason.
    pub fn invalid(reason: &str) -> (r: ConfigError)
        ensures
            r.reason_spec() == reason@,
    {
        ConfigError::InvalidNetConfig { reason: String::from_str(reason) }
    }
}

/// A structural failure: an unknown field, an unrecognised tag, a missing
/// field or a wrong discriminator.
#[derive(Debug)]
pub struct ParseError {
    pub message: String,
}

impl ParseError {
    pub fn message(&self) -> (r: &str)
        ensures
            r@ == self.message@,
    {
        self.message.as_str()
    }
}

} // verus!
