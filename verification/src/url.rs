//! The shareable playground URL for a published gist. The exact query
//! parameter names and value vocabulary are a compatibility contract: the
//! string is pasted into chat and read back by the service.

use vstd::prelude::*;

use crate::flags::{channel_token, edition_token, mode_token, CommandFlags};

verus! {

/// The browsable URL of a gist under a flag set: the fixed viewer address
/// with the channel, mode, edition and gist identifier as query
/// parameters. The identifier is taken as issued by the service, already
/// URL-safe; no encoding is applied to it.
pub open spec fn gist_url(flags: CommandFlags, gist_id: Seq<char>) -> Seq<char> {
    "https://play.rust-lang.org/?version="@ + channel_token(flags.channel) + "&mode="@ + mode_token(
        flags.mode,
    ) + "&edition="@ + edition_token(flags.edition) + "&gist="@ + gist_id
}

/// Builds the browsable URL for a gist identifier under a flag set.
/// Pure: performs no network traffic and cannot fail.
pub fn url_from_gist(flags: &CommandFlags, gist_id: &str) -> (r: String)
    ensures
        r@ == gist_url(*flags, gist_id@),
{
    let mut out = String::from_str("https://play.rust-lang.org/?version=");
    out.append(flags.channel.wire_token());
    out.append("&mode=");
    out.append(flags.mode.wire_token());
    out.append("&edition=");
    out.append(flags.edition.wire_token());
    out.append("&gist=");
    out.append(gist_id);
    proof {
        assert(out@ =~= gist_url(*flags, gist_id@));
    }
    out
}

} // verus!
