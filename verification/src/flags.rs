//! Compiler flag enumerations with their canonical textual tokens, the
//! exact (case-sensitive, no-normalization) parsers over them, and the
//! round-trip laws tying the two directions together.

use vstd::prelude::*;

use crate::error::{Error, FlagKind};
use crate::strings::str_eq;

verus! {

/// The release channel of the compiler to run under.
#[derive(Debug, Clone, Copy, PartialEq, Eq, Structural)]
pub enum Channel {
    Stable,
    Beta,
    Nightly,
}

/// The language edition to compile with.
#[derive(Debug, Clone, Copy, PartialEq, Eq, Structural)]
pub enum Edition {
    E2015,
    E2018,
    E2021,
}

/// Whether the snippet is built as a binary or as a library.
#[derive(Debug, Clone, Copy, PartialEq, Eq, Structural)]
pub enum CrateType {
    Binary,
    Library,
}

/// Debug or release build.
#[derive(Debug, Clone, Copy, PartialEq, Eq, Structural)]
pub enum Mode {
    Debug,
    Release,
}

/// The flag set one user command carries; built once, read-only thereafter.
#[derive(Debug, Clone, Copy)]
pub struct CommandFlags {
    pub channel: Channel,
    pub mode: Mode,
    pub edition: Edition,
    pub warn: bool,
}

/// The canonical wire token of a channel; also its accepted parse token.
pub open spec fn channel_token(c: Channel) -> Seq<char> {
    match c {
        Channel::Stable => "stable"@,
        Channel::Beta => "beta"@,
        Channel::Nightly => "nightly"@,
    }
}

/// The canonical wire token of an edition; also its accepted parse token.
pub open spec fn edition_token(e: Edition) -> Seq<char> {
    match e {
        Edition::E2015 => "2015"@,
        Edition::E2018 => "2018"@,
        Edition::E2021 => "2021"@,
    }
}

/// The canonical wire token of a crate type. It has no parser: crate types
/// are only ever set programmatically.
pub open spec fn crate_type_token(t: CrateType) -> Seq<char> {
    match t {
        CrateType::Binary => "bin"@,
        CrateType::Library => "lib"@,
    }
}

/// The canonical wire token of a mode; also its accepted parse token.
pub open spec fn mode_token(m: Mode) -> Seq<char> {
    match m {
        Mode::Debug => "debug"@,
        Mode::Release => "release"@,
    }
}

/// The channel a string denotes: exact match against the token table,
/// `None` for everything else.
pub open spec fn parse_channel(s: Seq<char>) -> Option<Channel> {
    if s == "stable"@ {
        Some(Channel::Stable)
    } else if s == "beta"@ {
        Some(Channel::Beta)
    } else if s == "nightly"@ {
        Some(Channel::Nightly)
    } else {
        None
    }
}

/// The edition a string denotes: exact match against the token table.
pub open spec fn parse_edition(s: Seq<char>) -> Option<Edition> {
    if s == "2015"@ {
        Some(Edition::E2015)
    } else if s == "2018"@ {
        Some(Edition::E2018)
    } else if s == "2021"@ {
        Some(Edition::E2021)
    } else {
        None
    }
}

/// The mode a string denotes: exact match against the token table.
pub open spec fn parse_mode(s: Seq<char>) -> Option<Mode> {
    if s == "debug"@ {
        Some(Mode::Debug)
    } else if s == "release"@ {
        Some(Mode::Release)
    } else {
        None
    }
}

impl Channel {
    /// The wire token, as serialized and as accepted by the parser.
    pub fn wire_token(self) -> (r: &'static str)
        ensures
            r@ == channel_token(self),
    {
        match self {
            Channel::Stable => "stable",
            Channel::Beta => "beta",
            Channel::Nightly => "nightly",
        }
    }

    /// Parses a channel: exactly the tokens of the table are accepted,
    /// case-sensitively and without trimming; anything else is rejected
    /// with the offending input carried verbatim.
    pub fn from_str(s: &str) -> (r: Result<Channel, Error>)
        ensures
            match r {
                Ok(c) => parse_channel(s@) == Some(c),
                Err(e) => parse_channel(s@) is None && (e matches Error::InvalidFlagValue {
                    kind,
                    input,
                } && kind == FlagKind::Channel && input@ == s@),
            },
    {
        if str_eq(s, "stable") {
            Ok(Channel::Stable)
        } else if str_eq(s, "beta") {
            Ok(Channel::Beta)
        } else if str_eq(s, "nightly") {
            Ok(Channel::Nightly)
        } else {
            Err(Error::InvalidFlagValue { kind: FlagKind::Channel, input: s.to_owned() })
        }
    }
}

impl Edition {
    /// The wire token, as serialized and as accepted by the parser.
    pub fn wire_token(self) -> (r: &'static str)
        ensures
            r@ == edition_token(self),
    {
        match self {
            Edition::E2015 => "2015",
            Edition::E2018 => "2018",
            Edition::E2021 => "2021",
        }
    }

    /// Parses an edition: exactly the year tokens are accepted; anything
    /// else is rejected with the offending input carried verbatim.
    pub fn from_str(s: &str) -> (r: Result<Edition, Error>)
        ensures
            match r {
                Ok(e) => parse_edition(s@) == Some(e),
                Err(e) => parse_edition(s@) is None && (e matches Error::InvalidFlagValue {
                    kind,
                    input,
                } && kind == FlagKind::Edition && input@ == s@),
            },
    {
        if str_eq(s, "2015") {
            Ok(Edition::E2015)
        } else if str_eq(s, "2018") {
            Ok(Edition::E2018)
        } else if str_eq(s, "2021") {
            Ok(Edition::E2021)
        } else {
            Err(Error::InvalidFlagValue { kind: FlagKind::Edition, input: s.to_owned() })
        }
    }
}

impl CrateType {
    /// The wire token. There is no reverse parser for crate types.
    pub fn wire_token(self) -> (r: &'static str)
        ensures
            r@ == crate_type_token(self),
    {
        match self {
            CrateType::Binary => "bin",
            CrateType::Library => "lib",
        }
    }
}

impl Mode {
    /// The wire token, as serialized and as accepted by the parser.
    pub fn wire_token(self) -> (r: &'static str)
        ensures
            r@ == mode_token(self),
    {
        match self {
            Mode::Debug => "debug",
            Mode::Release => "release",
        }
    }

    /// Parses a mode: exactly `debug` and `release` are accepted; anything
    /// else is rejected with the offending input carried verbatim.
    pub fn from_str(s: &str) -> (r: Result<Mode, Error>)
        ensures
            match r {
                Ok(m) => parse_mode(s@) == Some(m),
                Err(e) => parse_mode(s@) is None && (e matches Error::InvalidFlagValue {
                    kind,
                    input,
                } && kind == FlagKind::Mode && input@ == s@),
            },
    {
        if str_eq(s, "debug") {
            Ok(Mode::Debug)
        } else if str_eq(s, "release") {
            Ok(Mode::Release)
        } else {
            Err(Error::InvalidFlagValue { kind: FlagKind::Mode, input: s.to_owned() })
        }
    }
}

/// Law: every channel's wire token parses back to that very channel, so
/// serialization and parsing are mutually consistent.
pub proof fn lemma_channel_round_trip(c: Channel)
    ensures
        parse_channel(channel_token(c)) == Some(c),
{
    reveal_strlit("stable");
    reveal_strlit("beta");
    reveal_strlit("nightly");
    assert("stable"@.len() == 6);
    assert("beta"@.len() == 4);
    assert("nightly"@.len() == 7);
}

/// Law: a successful channel parse yields the value whose wire token is
/// exactly the input string.
pub proof fn lemma_channel_parse_yields_token(s: Seq<char>, c: Channel)
    requires
        parse_channel(s) == Some(c),
    ensures
        channel_token(c) == s,
{
}

/// Law: every edition's wire token parses back to that very edition.
pub proof fn lemma_edition_round_trip(e: Edition)
    ensures
        parse_edition(edition_token(e)) == Some(e),
{
    reveal_strlit("2015");
    reveal_strlit("2018");
    reveal_strlit("2021");
    assert("2015"@[3] == '5' && "2018"@[3] == '8');
    assert("2015"@[2] == '1' && "2021"@[2] == '2');
    assert("2018"@[2] == '1');
}

/// Law: a successful edition parse yields the value whose wire token is
/// exactly the input string.
pub proof fn lemma_edition_parse_yields_token(s: Seq<char>, e: Edition)
    requires
        parse_edition(s) == Some(e),
    ensures
        edition_token(e) == s,
{
}

/// Law: every mode's wire token parses back to that very mode.
pub proof fn lemma_mode_round_trip(m: Mode)
    ensures
        parse_mode(mode_token(m)) == Some(m),
{
    reveal_strlit("debug");
    reveal_strlit("release");
    assert("debug"@.len() == 5);
    assert("release"@.len() == 7);
}

/// Law: a successful mode parse yields the value whose wire token is
/// exactly the input string.
pub proof fn lemma_mode_parse_yields_token(s: Seq<char>, m: Mode)
    requires
        parse_mode(s) == Some(m),
    ensures
        mode_token(m) == s,
{
}

/// Law: the two crate-type wire tokens are distinct, so matching a token
/// against the table recovers the crate type that produced it.
pub proof fn lemma_crate_type_round_trip(t: CrateType)
    ensures
        forall|u: CrateType| crate_type_token(u) == crate_type_token(t) ==> u == t,
{
    reveal_strlit("bin");
    reveal_strlit("lib");
    assert forall|u: CrateType| crate_type_token(u) == crate_type_token(t) implies u == t by {
        assert("bin"@.len() == 3);
        assert("bin"@[0] == 'b' && "bin"@[1] == 'i' && "bin"@[2] == 'n');
        assert("lib"@[0] == 'l');
    }
}

} // verus!
