//! The questions that the wall answers without changing.

use vstd::prelude::*;
use cosmwasm_std::{Deps, StdError};
use crate::chain::{config_read, list_tokens, load_token, storage_error, wall_seen};
use crate::state::{opt_view, Config, PixelTokenInfo};
use crate::wall::{byte_len, is_page_of, MAX_OWNER_BYTES};

verus! {

/// The configuration of the wall. It fails exactly where none is stored.
pub fn query_config(deps: Deps) -> (r: Result<Config, StdError>)
    ensures
        (match r {
            Ok(config) => wall_seen(deps).config == Some(config@),
            Err(_) => wall_seen(deps).config is None,
        }),
{
    config_read(deps)
}

/// The record of the cell stored under `token_id`. It fails exactly where
/// the cell was never claimed.
pub fn query_pixel_nft_info(deps: Deps, token_id: String) -> (r: Result<PixelTokenInfo, StdError>)
    ensures
        (match r {
            Ok(token) => wall_seen(deps).tokens.contains_key(token_id@) && token@ == wall_seen(
                deps,
            ).tokens[token_id@],
            Err(_) => !wall_seen(deps).tokens.contains_key(token_id@),
        }),
{
    let token = load_token(deps, token_id.as_str());
    token
}

/// One page of the keys of the cells filed under `owner`, in ascending
/// order, after the cursor `start_after`, at most `limit` of them (ten where
/// no limit is given, never more than thirty).
///
/// It fails where the owner is too long for the owner index or the address
/// API does not accept the owner. It succeeds where the owner fits, the API
/// accepts the owner and every key filed under the owner is a text, as it
/// is on a wall whose owner index is consistent.
pub fn query_tokens(
    deps: Deps,
    owner: String,
    start_after: Option<String>,
    limit: Option<u32>,
) -> (r: Result<Vec<String>, StdError>)
    ensures
        byte_len(owner@) > MAX_OWNER_BYTES || !wall_seen(deps).valid_addresses.contains(owner@)
            ==> r is Err,
        byte_len(owner@) <= MAX_OWNER_BYTES && wall_seen(deps).listing_is_owed(owner@) ==> r is Ok,
        r matches Ok(page) ==> is_page_of(
            wall_seen(deps),
            owner@,
            opt_view(start_after),
            limit,
            page.deep_view(),
        ),
{
    if owner.as_str().as_bytes().len() > MAX_OWNER_BYTES {
        return Err(storage_error("owner too long for the owner index"));
    }
    list_tokens(deps, owner.as_str(), start_after, limit)
}

} // verus!
