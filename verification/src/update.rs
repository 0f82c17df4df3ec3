//! The remote updater's decision core: given the outcome of the single HTTP
//! fetch (transport result, status, and the parsed body), either replace the
//! catalog wholesale and record the refresh time, or fail and leave the
//! configuration untouched. The fetch itself, and the decoding of the JSON
//! body into catalog records, happen outside the library; this module owns
//! every decision about what the outcome means.

use vstd::prelude::*;

use crate::clock::Timestamp;
use crate::config::{GitmojiConfig, GitmojiConfigV};
use crate::error::Error;
use crate::model::{ConventionalEmojiCommit, Gitmoji};

verus! {

/// Whether an HTTP status is a success.
pub open spec fn sp_status_ok(status: u16) -> bool {
    200 <= status < 300
}

/// Check that an HTTP status is a success.
pub fn status_ok(status: u16) -> (r: bool)
    ensures
        r == sp_status_ok(status),
{
    200 <= status && status < 300
}

/// Apply the outcome of a gitmoji-catalog fetch. `response` is `None` when
/// the transport failed, otherwise the status and, when the body parsed as a
/// gitmoji catalog, the parsed catalog. On success the catalog is replaced
/// wholesale and the refresh time set; on any failure the configuration is
/// left exactly as it was.
pub fn update_gitmojis(
    config: &mut GitmojiConfig,
    response: Option<(u16, Option<Vec<Gitmoji>>)>,
    now: Timestamp,
) -> (r: Result<(), Error>)
    ensures
        r is Err ==> *final(config) == *old(config),
        r is Ok <==> (match response {
            Some((status, body)) => sp_status_ok(status) && body is Some,
            None => false,
        }),
        r matches Ok(()) ==> (match response {
            Some((status, body)) => final(config)@ == (GitmojiConfigV {
                gitmojis: body->0.deep_view(),
                last_update: Some(now),
                ..old(config)@
            }),
            None => false,
        }),
        r matches Err(e) ==> e == (match response {
            Some((status, body)) => if sp_status_ok(status) {
                Error::ParseError
            } else {
                Error::NetworkError
            },
            None => Error::NetworkError,
        }),
{
    match response {
        None => Err(Error::NetworkError),
        Some((status, body)) => {
            if !status_ok(status) {
                return Err(Error::NetworkError);
            }
            match body {
                None => Err(Error::ParseError),
                Some(gitmojis) => {
                    config.set_gitmojis(gitmojis, now);
                    Ok(())
                },
            }
        },
    }
}

/// Apply the outcome of a conventional-commit-catalog fetch, under the same
/// rules as `update_gitmojis`.
pub fn update_conventional_emoji_commits(
    config: &mut GitmojiConfig,
    response: Option<(u16, Option<Vec<ConventionalEmojiCommit>>)>,
    now: Timestamp,
) -> (r: Result<(), Error>)
    ensures
        r is Err ==> *final(config) == *old(config),
        r is Ok <==> (match response {
            Some((status, body)) => sp_status_ok(status) && body is Some,
            None => false,
        }),
        r matches Ok(()) ==> (match response {
            Some((status, body)) => final(config)@ == (GitmojiConfigV {
                conventional_commit_emojis: body->0.deep_view(),
                last_update: Some(now),
                ..old(config)@
            }),
            None => false,
        }),
        r matches Err(e) ==> e == (match response {
            Some((status, body)) => if sp_status_ok(status) {
                Error::ParseError
            } else {
                Error::NetworkError
            },
            None => Error::NetworkError,
        }),
{
    match response {
        None => Err(Error::NetworkError),
        Some((status, body)) => {
            if !status_ok(status) {
                return Err(Error::NetworkError);
            }
            match body {
                None => Err(Error::ParseError),
                Some(emojis) => {
                    config.set_conventional_commit_emojis(emojis, now);
                    Ok(())
                },
            }
        },
    }
}

} // verus!
