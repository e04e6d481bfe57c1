//! The request payloads the library prepares for the playground's
//! execution, Miri, macro-expansion and lint endpoints, and the response
//! shape of a successful run. Each request carries its own JSON encoding,
//! proven to emit every field under its wire name — in particular the
//! crate-type field under `crateType` — with every enum field as its
//! canonical wire token.

use vstd::prelude::*;

use crate::flags::{channel_token, crate_type_token, edition_token, mode_token};
use crate::flags::{Channel, CrateType, Edition, Mode};
use crate::json::{append_json_bool, append_json_string, json_bool, json_string};

verus! {

/// The payload of an execution request: the snippet plus the full flag set.
#[derive(Debug)]
pub struct PlaygroundRequest {
    pub channel: Channel,
    pub edition: Edition,
    pub code: String,
    pub crate_type: CrateType,
    pub mode: Mode,
    pub tests: bool,
}

/// The payload of a Miri interpretation request.
#[derive(Debug)]
pub struct MiriRequest {
    pub edition: Edition,
    pub code: String,
}

/// The macro-expansion endpoint accepts the same payload shape.
pub type MacroExpansionRequest = MiriRequest;

/// The payload of a lint request.
#[derive(Debug)]
pub struct ClippyRequest {
    pub edition: Edition,
    pub crate_type: CrateType,
    pub code: String,
}

/// The shape of a successful service response; a decode target only,
/// never further processed here.
#[derive(Debug)]
pub struct PlayResult {
    pub success: bool,
    pub stdout: String,
    pub stderr: String,
}

/// The JSON body of an execution request: fields in declaration order,
/// the crate type under the wire name `crateType`.
pub open spec fn playground_request_json(r: PlaygroundRequest) -> Seq<char> {
    "{\"channel\":\""@ + channel_token(r.channel) + "\",\"edition\":\""@ + edition_token(r.edition)
        + "\",\"code\":"@ + json_string(r.code@) + ",\"crateType\":\""@ + crate_type_token(
        r.crate_type,
    ) + "\",\"mode\":\""@ + mode_token(r.mode) + "\",\"tests\":"@ + json_bool(r.tests) + "}"@
}

/// The JSON body of a Miri or macro-expansion request.
pub open spec fn miri_request_json(r: MiriRequest) -> Seq<char> {
    "{\"edition\":\""@ + edition_token(r.edition) + "\",\"code\":"@ + json_string(r.code@) + "}"@
}

/// The JSON body of a lint request, the crate type under `crateType`.
pub open spec fn clippy_request_json(r: ClippyRequest) -> Seq<char> {
    "{\"edition\":\""@ + edition_token(r.edition) + "\",\"crateType\":\""@ + crate_type_token(
        r.crate_type,
    ) + "\",\"code\":"@ + json_string(r.code@) + "}"@
}

impl PlaygroundRequest {
    /// Serializes the request to its JSON wire body.
    pub fn to_json(&self) -> (r: String)
        ensures
            r@ == playground_request_json(*self),
    {
        let mut out = String::from_str("{\"channel\":\"");
        out.append(self.channel.wire_token());
        out.append("\",\"edition\":\"");
        out.append(self.edition.wire_token());
        out.append("\",\"code\":");
        append_json_string(&mut out, self.code.as_str());
        out.append(",\"crateType\":\"");
        out.append(self.crate_type.wire_token());
        out.append("\",\"mode\":\"");
        out.append(self.mode.wire_token());
        out.append("\",\"tests\":");
        append_json_bool(&mut out, self.tests);
        out.append("}");
        proof {
            assert(out@ =~= playground_request_json(*self));
        }
        out
    }
}

impl MiriRequest {
    /// Serializes the request to its JSON wire body.
    pub fn to_json(&self) -> (r: String)
        ensures
            r@ == miri_request_json(*self),
    {
        let mut out = String::from_str("{\"edition\":\"");
        out.append(self.edition.wire_token());
        out.append("\",\"code\":");
        append_json_string(&mut out, self.code.as_str());
        out.append("}");
        proof {
            assert(out@ =~= miri_request_json(*self));
        }
        out
    }
}

impl ClippyRequest {
    /// Serializes the request to its JSON wire body.
    pub fn to_json(&self) -> (r: String)
        ensures
            r@ == clippy_request_json(*self),
    {
        let mut out = String::from_str("{\"edition\":\"");
        out.append(self.edition.wire_token());
        out.append("\",\"crateType\":\"");
        out.append(self.crate_type.wire_token());
        out.append("\",\"code\":");
        append_json_string(&mut out, self.code.as_str());
        out.append("}");
        proof {
            assert(out@ =~= clippy_request_json(*self));
        }
        out
    }
}

} // verus!
