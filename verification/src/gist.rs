//! The decision half of the gist publisher. The transport performs one
//! POST of `{"code": ...}` to the gist endpoint and reports what came
//! back; this module decides, from that report alone, whether the publish
//! succeeded and with which identifier. Every outcome of the transport is
//! covered: no retry, no default substitution.

use vstd::prelude::*;

use crate::error::Error;
use crate::strings::str_eq;

verus! {

/// What one gist POST came back with, as the transport reports it: a
/// decoded string-to-string JSON object, a transport failure, or a body
/// that would not decode as that shape.
#[derive(Debug)]
pub enum GistReply {
    /// The response body, decoded as key/value pairs in body order.
    Object(Vec<(String, String)>),
    /// The POST itself failed; carries the transport's own rendering.
    Transport(String),
    /// A body that was not a JSON object of strings.
    Undecodable(String),
}

/// The value under the first pair with the given key, if any.
pub open spec fn first_value(pairs: Seq<(String, String)>, key: Seq<char>) -> Option<Seq<char>>
    decreases pairs.len(),
{
    if pairs.len() == 0 {
        None
    } else if pairs[0].0@ == key {
        Some(pairs[0].1@)
    } else {
        first_value(pairs.drop_first(), key)
    }
}

proof fn lemma_first_value_at(pairs: Seq<(String, String)>, key: Seq<char>, i: int)
    requires
        0 <= i < pairs.len(),
        forall|j: int| 0 <= j < i ==> pairs[j].0@ != key,
        pairs[i].0@ == key,
    ensures
        first_value(pairs, key) == Some(pairs[i].1@),
    decreases i,
{
    if i > 0 {
        assert forall|j: int| 0 <= j < i - 1 implies pairs.drop_first()[j].0@ != key by {
            assert(pairs.drop_first()[j] == pairs[j + 1]);
        }
        assert(pairs.drop_first()[i - 1] == pairs[i]);
        lemma_first_value_at(pairs.drop_first(), key, i - 1);
    }
}

proof fn lemma_first_value_none(pairs: Seq<(String, String)>, key: Seq<char>)
    requires
        forall|j: int| 0 <= j < pairs.len() ==> pairs[j].0@ != key,
    ensures
        first_value(pairs, key) is None,
    decreases pairs.len(),
{
    if pairs.len() > 0 {
        assert forall|j: int| 0 <= j < pairs.drop_first().len() implies pairs.drop_first()[j].0@
            != key by {
            assert(pairs.drop_first()[j] == pairs[j + 1]);
        }
        lemma_first_value_none(pairs.drop_first(), key);
    }
}

/// Decides the outcome of a gist publish from the transport's report: the
/// value under the first `id` key is the gist identifier; an object
/// without one means no gist was created; a transport failure and an
/// undecodable body each surface as their own error, detail unchanged.
pub fn gist_id_from_reply(reply: GistReply) -> (r: Result<String, Error>)
    ensures
        match reply {
            GistReply::Object(pairs) => match first_value(pairs@, "id"@) {
                Some(v) => r matches Ok(id) && id@ == v,
                None => r == Err::<String, Error>(Error::MissingField),
            },
            GistReply::Transport(detail) => r matches Err(e) && (e matches Error::TransportError {
                detail: d,
            } && d@ == detail@),
            GistReply::Undecodable(detail) => r matches Err(e)
                && (e matches Error::MalformedResponse { detail: d } && d@ == detail@),
        },
{
    match reply {
        GistReply::Object(pairs) => {
            let n = pairs.len();
            let mut i: usize = 0;
            while i < n
                invariant
                    i <= n,
                    n == pairs@.len(),
                    reply == GistReply::Object(pairs),
                    forall|j: int| 0 <= j < i ==> pairs@[j].0@ != "id"@,
                decreases n - i,
            {
                if str_eq(pairs[i].0.as_str(), "id") {
                    let v = pairs[i].1.clone();
                    proof {
                        lemma_first_value_at(pairs@, "id"@, i as int);
                    }
                    return Ok(v);
                }
                i = i + 1;
            }
            proof {
                lemma_first_value_none(pairs@, "id"@);
            }
            Err(Error::MissingField)
        },
        GistReply::Transport(detail) => Err(Error::TransportError { detail }),
        GistReply::Undecodable(detail) => Err(Error::MalformedResponse { detail }),
    }
}

} // verus!
