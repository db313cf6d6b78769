//! The ways in which an operation of this library fails.

use crate::severity::Severity;
use vstd::prelude::*;

verus! {

/// The error with which the TOML parser rejects a text.
#[verifier::external_type_specification]
#[verifier::external_body]
pub struct ExTomlDeError(toml::de::Error);

/// The error with which the TOML serializer gives up on a value.
#[verifier::external_type_specification]
#[verifier::external_body]
pub struct ExTomlSerError(toml::ser::Error);

/// Why a text is no configuration.
#[derive(Debug)]
pub enum ParseError {
    /// The text is not a TOML document.
    Syntax(toml::de::Error),
    /// The document holds, under the key of this severity, something other
    /// than a list of strings.
    Shape(Severity),
}

/// Why an operation failed.
#[derive(Debug)]
pub enum LintsError {
    /// The walk came upon an entry with the configuration file's name that is
    /// not a regular file, this many levels above the working directory.
    NotAFile(usize),
    /// The configuration file's text was rejected.
    Parse(ParseError),
    /// The configuration was asked to format its file and has none.
    NoFileAssociated,
    /// The configuration could not be written down as TOML.
    Serialize(toml::ser::Error),
    /// The linter could not be started.
    Spawn,
    /// The linter was started and could not be waited for.
    Wait,
    /// The command line names a subcommand other than the linter's.
    UnknownSubcommand(String),
}

} // verus!
