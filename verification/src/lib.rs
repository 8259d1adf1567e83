//! Aphanite: a self-hostable Yggdrasil (Minecraft authentication) server.
//!
//! This crate holds the server's verified core: request validation, the
//! decisions taken by each web endpoint, the in-memory session and rate
//! limiting cache, texture processing and the text formats of the protocol.

pub mod cli;
pub mod config;
pub mod data;
pub mod kv_cache;
pub mod service;
pub mod storage;
pub mod text;
pub mod types;
pub mod utils;

use crate::text::{chars_of, find_char, has_prefix, has_prefix_at, string_of_range, strip_prefix, strip_prefix_string, str_eq, trim_start_matches, trim_start_matches_string};
use vstd::prelude::*;

verus! {

/// A database URL as logged: everything up to the first `@` (the credentials)
/// is replaced by `<redacted>`.
pub open spec fn spec_redacted_db_url(url: Seq<char>) -> Seq<char> {
    if url.contains('@') {
        let k = choose|k: int| 0 <= k < url.len() && url[k] == '@' && forall|j: int| 0 <= j < k ==> url[j] != '@';
        "<redacted>@"@ + url.subrange(k + 1, url.len() as int)
    } else {
        url
    }
}

/// A database URL as logged, without its credentials.
pub fn redacted_db_url(url: &str) -> (r: String)
    ensures
        r@ == spec_redacted_db_url(url@),
{
    let v = chars_of(url);
    let n = v.len();
    match find_char(&v, '@') {
        Some(k) => {
            proof {
                let kk = choose|kk: int| 0 <= kk < url@.len() && url@[kk] == '@' && forall|j: int| 0 <= j < kk ==> url@[j] != '@';
                if kk < k {
                    assert(v@[kk] != '@');
                } else if kk > k {
                    assert(url@[k as int] != '@');
                }
            }
            let mut r = String::from_str("<redacted>@");
            let rest = string_of_range(&v, k + 1, n);
            r.append(rest.as_str());
            r
        },
        None => url.to_owned(),
    }
}

/// How a request under a sub-path prefix is forwarded.
pub enum PrefixRoute {
    /// The prefix itself: the frontend root is served.
    Root,
    /// A file of the asset storage, at this path.
    Assets(String),
    /// Another path of the service, with the prefix removed.
    Inner(String),
    /// A path outside the prefix, forwarded unchanged.
    Outside,
}

/// The spec view of a [`PrefixRoute`].
pub enum PrefixRouteView {
    Root,
    Assets(Seq<char>),
    Inner(Seq<char>),
    Outside,
}

impl View for PrefixRoute {
    type V = PrefixRouteView;

    open spec fn view(&self) -> PrefixRouteView {
        match self {
            PrefixRoute::Root => PrefixRouteView::Root,
            PrefixRoute::Assets(p) => PrefixRouteView::Assets(p@),
            PrefixRoute::Inner(p) => PrefixRouteView::Inner(p@),
            PrefixRoute::Outside => PrefixRouteView::Outside,
        }
    }
}

/// How a request for `path` is forwarded when the service is mounted under
/// `prefix` (`/<sub-path>`): assets are served from the storage, the rest of
/// the service sees the path without the prefix.
pub open spec fn spec_route_prefixed(path: Seq<char>, prefix: Seq<char>) -> PrefixRouteView {
    match strip_prefix(path, prefix) {
        None => PrefixRouteView::Outside,
        Some(rest) => if rest.len() == 0 || rest == "/"@ {
            PrefixRouteView::Root
        } else if has_prefix(rest, "/assets"@) || has_prefix(rest, "assets"@) {
            PrefixRouteView::Assets("/"@ + trim_start_matches(trim_start_matches(rest, "/"@), "assets/"@))
        } else {
            PrefixRouteView::Inner(rest)
        },
    }
}

/// How a request for `path` is forwarded when the service is mounted under `prefix`.
pub fn route_prefixed(path: &str, prefix: &str) -> (r: PrefixRoute)
    ensures
        r@ == spec_route_prefixed(path@, prefix@),
{
    proof {
        reveal_strlit("/");
        reveal_strlit("assets/");
    }
    let rest = match strip_prefix_string(path, prefix) {
        None => return PrefixRoute::Outside,
        Some(rest) => rest,
    };
    if rest.as_str().is_empty() || str_eq(rest.as_str(), "/") {
        return PrefixRoute::Root;
    }
    let rv = chars_of(rest.as_str());
    assert(rv@.subrange(0, rv@.len() as int) == rv@);
    if has_prefix_at(&rv, 0, "/assets") || has_prefix_at(&rv, 0, "assets") {
        let a = trim_start_matches_string(rest.as_str(), "/");
        let b = trim_start_matches_string(a.as_str(), "assets/");
        let mut p = String::from_str("/");
        p.append(b.as_str());
        PrefixRoute::Assets(p)
    } else {
        PrefixRoute::Inner(rest)
    }
}

/// The ids of the registration tokens, among `batch` (id and expiry), that
/// have expired at `now`, in order.
pub open spec fn expired_ids(batch: Seq<(u128, i64)>, now: i64) -> Seq<u128>
    decreases batch.len(),
{
    if batch.len() == 0 {
        Seq::empty()
    } else {
        let rest = expired_ids(batch.drop_last(), now);
        if batch.last().1 <= now {
            rest.push(batch.last().0)
        } else {
            rest
        }
    }
}

/// The ids of the registration tokens, among `batch`, that have expired at `now`.
pub fn expired_register_tokens(batch: &Vec<(u128, i64)>, now: i64) -> (r: Vec<u128>)
    ensures
        r@ == expired_ids(batch@, now),
{
    let mut r: Vec<u128> = Vec::new();
    let mut i: usize = 0;
    while i < batch.len()
        invariant
            i <= batch.len(),
            r@ == expired_ids(batch@.subrange(0, i as int), now),
        decreases batch.len() - i,
    {
        assert(batch@.subrange(0, i + 1).drop_last() == batch@.subrange(0, i as int));
        if batch[i].1 <= now {
            r.push(batch[i].0);
        }
        i += 1;
    }
    assert(batch@.subrange(0, batch@.len() as int) == batch@);
    r
}

/// Every id given by [`expired_register_tokens`] belongs to a token of the batch
/// that has expired.
pub proof fn law_only_expired_tokens_are_removed(batch: Seq<(u128, i64)>, now: i64, id: u128)
    requires
        expired_ids(batch, now).contains(id),
    ensures
        exists|i: int| 0 <= i < batch.len() && batch[i].0 == id && batch[i].1 <= now,
    decreases batch.len(),
{
    let rest = expired_ids(batch.drop_last(), now);
    if batch.last().1 <= now && id == batch.last().0 {
        assert(batch[batch.len() - 1].0 == id);
    } else {
        if batch.last().1 <= now {
            let k = choose|k: int| 0 <= k < rest.push(batch.last().0).len() && rest.push(batch.last().0)[k] == id;
            assert(rest[k] == id);
        }
        law_only_expired_tokens_are_removed(batch.drop_last(), now, id);
        let i = choose|i: int| 0 <= i < batch.drop_last().len() && batch.drop_last()[i].0 == id && batch.drop_last()[i].1 <= now;
        assert(batch[i] == batch.drop_last()[i]);
    }
}

} // verus!
