//! What can go wrong while reading the source, querying species and rendering.
use vstd::prelude::*;

verus! {

/// Why a text is not a `u16`, as `u16::from_str` tells it.
#[derive(Clone, Copy, Debug, PartialEq, Eq, Structural)]
pub enum IntErrorKind {
    /// The text is empty.
    Empty,
    /// The text holds a character that is not a digit where one is needed.
    InvalidDigit,
    /// The number is larger than `u16::MAX`.
    PosOverflow,
}

/// The message that std gives for each kind of integer parse error.
pub open spec fn int_error_text(kind: IntErrorKind) -> Seq<char> {
    match kind {
        IntErrorKind::Empty => "cannot parse integer from empty string"@,
        IntErrorKind::InvalidDigit => "invalid digit found in string"@,
        IntErrorKind::PosOverflow => "number too large to fit in target type"@,
    }
}

/// The errors of this library, each with what it is about.
#[derive(Clone, Debug)]
pub enum Error {
    /// A key that a map does not hold.
    UnknownEntry(String),
    /// A pokemon for which no English name is known.
    UnknownPokemonName(String),
    /// A type name that is not among the known types.
    InvalidType(String),
    /// A species listed with no type.
    NoTypes,
    /// A species listed with more than two types.
    TooManyTypes,
    /// A species of an evolution line that has no evolution chain.
    NoEvolutionChain(String),
    /// A branching evolution chain, and no target species to choose a branch.
    TargetRequired,
    /// A target species that the evolution chain does not reach.
    NoPathToTarget(String),
    /// A profile page on which the post count selector matches nothing.
    NoSelectorMatch,
    /// A post count element without text.
    NoSelectorText,
    /// A post count that is not a number in range, and why.
    InvalidPostCount(IntErrorKind),
    /// A post count below the one at which a pokemon was obtained, or a
    /// species line longer than growth can follow.
    GrowthOutOfBounds(String),
    /// A request to an outside service that failed, with its message.
    Request(String),
}

/// The message of an error, for people.
pub open spec fn message_text(e: Error) -> Seq<char> {
    match e {
        Error::UnknownEntry(s) => "Unknown entry: '"@ + s@ + "'"@,
        Error::UnknownPokemonName(s) => "Unknown pokemon name: '"@ + s@ + "'"@,
        Error::InvalidType(s) => "Invalid type: '"@ + s@ + "'"@,
        Error::NoTypes => "Expected at least one type"@,
        Error::TooManyTypes => "Expected no more than two types"@,
        Error::NoEvolutionChain(s) => "Species "@ + s@ + " has no evolution chain."@,
        Error::TargetRequired => "Target required for branching evolution chain."@,
        Error::NoPathToTarget(s) => "Could not find path to "@ + s@ + "."@,
        Error::NoSelectorMatch => "no match for selector"@,
        Error::NoSelectorText => "selector has no text"@,
        Error::InvalidPostCount(kind) => int_error_text(kind),
        Error::GrowthOutOfBounds(s) => "Growth of pokemon '"@ + s@ + "' is out of bounds"@,
        Error::Request(s) => s@,
    }
}

fn quoted(prefix: &str, s: &String, suffix: &str) -> (m: String)
    ensures
        m@ == prefix@ + s@ + suffix@,
{
    let mut m = String::from_str(prefix);
    m.append(s.as_str());
    m.append(suffix);
    m
}

fn int_error_message(kind: IntErrorKind) -> (m: String)
    ensures
        m@ == int_error_text(kind),
{
    match kind {
        IntErrorKind::Empty => String::from_str("cannot parse integer from empty string"),
        IntErrorKind::InvalidDigit => String::from_str("invalid digit found in string"),
        IntErrorKind::PosOverflow => String::from_str("number too large to fit in target type"),
    }
}

impl Error {
    /// The message of the error, for people.
    pub fn message(&self) -> (m: String)
        ensures
            m@ == message_text(*self),
    {
        match self {
            Error::UnknownEntry(s) => quoted("Unknown entry: '", s, "'"),
            Error::UnknownPokemonName(s) => quoted("Unknown pokemon name: '", s, "'"),
            Error::InvalidType(s) => quoted("Invalid type: '", s, "'"),
            Error::NoTypes => String::from_str("Expected at least one type"),
            Error::TooManyTypes => String::from_str("Expected no more than two types"),
            Error::NoEvolutionChain(s) => quoted("Species ", s, " has no evolution chain."),
            Error::TargetRequired => String::from_str(
                "Target required for branching evolution chain.",
            ),
            Error::NoPathToTarget(s) => quoted("Could not find path to ", s, "."),
            Error::NoSelectorMatch => String::from_str("no match for selector"),
            Error::NoSelectorText => String::from_str("selector has no text"),
            Error::InvalidPostCount(kind) => int_error_message(*kind),
            Error::GrowthOutOfBounds(s) => quoted("Growth of pokemon '", s, "' is out of bounds"),
            Error::Request(s) => s.clone(),
        }
    }
}

} // verus!
