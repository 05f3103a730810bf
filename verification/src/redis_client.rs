//! The redis client that an emitter carries, and the one redis call that
//! the library makes: turning a connection URL into a client.

use vstd::prelude::*;

verus! {

/// A redis client, held and handed on by the library without being looked into.
#[verifier::external_type_specification]
#[verifier::external_body]
pub struct ExRedisClient(redis::Client);

/// The error that `redis::Client::open` reports for a URL it refuses.
#[verifier::external_type_specification]
#[verifier::external_body]
pub struct ExRedisError(redis::RedisError);

/// `redis::Client` derives `Clone`: the copy holds the same connection
/// settings as the original, which is all a client holds.
pub assume_specification[ <redis::Client as Clone>::clone ](client: &redis::Client) -> (r: redis::Client)
    ensures
        r == *client,
;

/// The client that `redis::Client::open` makes from the connection URL
/// `url`, or `None` where it refuses the URL.
pub uninterp spec fn opened_client(url: Seq<char>) -> Option<redis::Client>;

/// The scheme with which every URL that the library opens begins.
pub open spec fn redis_scheme() -> Seq<char> {
    seq!['r', 'e', 'd', 'i', 's', ':', '/', '/']
}

/// Calls `redis::Client::open` on a `redis://` URL.  That function parses
/// the URL and checks it (host present, database a number, known query
/// options) without connecting to anything; whether it succeeds is a
/// function of the URL alone, and so is the client it makes, which holds
/// nothing but the settings parsed from the URL.  The contract claims only
/// that.
#[verifier::external_body]
pub(crate) fn open_client(url: &str) -> (r: Result<redis::Client, redis::RedisError>)
    requires
        url@.len() >= redis_scheme().len(),
        url@.subrange(0, redis_scheme().len() as int) == redis_scheme(),
    ensures
        match r {
            Ok(c) => opened_client(url@) == Some(c),
            Err(_) => opened_client(url@) is None,
        },
{
    redis::Client::open(url)
}

} // verus!
