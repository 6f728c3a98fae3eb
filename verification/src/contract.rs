//! The entry points of the wall.

use vstd::prelude::*;
use cosmwasm_std::{DepsMut, Env, StdError};
use crate::chain::{set_contract_version, wall_of};
use crate::error::ContractError;
use crate::execute::{
    config_update_outcome, execute_change_pixel_data, execute_mint, execute_update_config,
    instantiate_attributes, mint_outcome, update_outcome,
};
use crate::msg::{ExecuteMsg, InstantiateMsg, MessageInfo};
use crate::response::Response;
use crate::state::{coin_views, opt_view, CoinView};
use crate::wall::{after_set_up, WallView};

verus! {

/// The name under which the contract registers its version.
pub const CONTRACT_NAME: &'static str = "crates.io:nft-pixel-wall";

/// The version that the contract registers.
pub const CONTRACT_VERSION: &'static str = "0.1.0";

/// What the first call does. Where the sender has a canonical form, it
/// succeeds: it sets up the wall, registers the contract's name and
/// version, and reports the set-up. Where the sender has none, it fails and
/// the wall stays as it was.
pub open spec fn set_up_outcome(
    before: WallView,
    after: WallView,
    r: Result<Response, StdError>,
    sender: Seq<char>,
    mint_fee: CoinView,
) -> bool {
    if before.addresses.contains_key(sender) {
        match r {
            Ok(response) => after == after_set_up(before, sender, mint_fee).with_version(
                CONTRACT_NAME@,
                CONTRACT_VERSION@,
            ) && response@ == instantiate_attributes(sender),
            Err(_) => false,
        }
    } else {
        r is Err && after == before
    }
}

/// Sets up the wall and registers the contract's version. It succeeds
/// exactly where the sender has a canonical form.
pub fn instantiate(deps: &mut DepsMut, _env: Env, info: MessageInfo, msg: InstantiateMsg) -> (r:
    Result<Response, StdError>)
    ensures
        set_up_outcome(wall_of(*old(deps)), wall_of(*final(deps)), r, info.sender@, msg.mint_fee@),
{
    let response = match crate::execute::instantiate(deps, info, msg) {
        Ok(response) => response,
        Err(e) => {
            return Err(e);
        },
    };
    match set_contract_version(deps, CONTRACT_NAME, CONTRACT_VERSION) {
        Ok(()) => Ok(response),
        Err(e) => Err(e),
    }
}

/// What a message does to the wall: what the transition that it names does.
pub open spec fn execute_outcome(
    before: WallView,
    after: WallView,
    r: Result<Response, ContractError>,
    info: MessageInfo,
    msg: ExecuteMsg,
) -> bool {
    match msg {
        ExecuteMsg::UpdateConfig { owner } => config_update_outcome(
            before,
            after,
            r,
            info.sender@,
            opt_view(owner),
        ),
        ExecuteMsg::Mint { token_id, color_map, url } => mint_outcome(
            before,
            after,
            r,
            info.sender@,
            coin_views(info.funds@),
            token_id,
            color_map,
            opt_view(url),
        ),
        ExecuteMsg::ChangeUrl { token_id, url } => update_outcome(
            before,
            after,
            r,
            info.sender@,
            token_id,
            None,
            Some(url@),
        ),
        ExecuteMsg::ChangeColor { token_id, color_map } => update_outcome(
            before,
            after,
            r,
            info.sender@,
            token_id,
            Some(color_map),
            None,
        ),
    }
}

/// Carries out the transition that `msg` names.
pub fn execute(deps: &mut DepsMut, env: Env, info: MessageInfo, msg: ExecuteMsg) -> (r: Result<
    Response,
    ContractError,
>)
    ensures
        execute_outcome(wall_of(*old(deps)), wall_of(*final(deps)), r, info, msg),
{
    match msg {
        ExecuteMsg::UpdateConfig { owner } => execute_update_config(deps, info, owner),
        ExecuteMsg::Mint { token_id, color_map, url } => execute_mint(
            deps,
            info,
            env,
            token_id,
            color_map,
            url,
        ),
        ExecuteMsg::ChangeUrl { token_id, url } => execute_change_pixel_data(
            deps,
            info,
            env,
            token_id,
            None,
            Some(url),
        ),
        ExecuteMsg::ChangeColor { token_id, color_map } => execute_change_pixel_data(
            deps,
            info,
            env,
            token_id,
            Some(color_map),
            None,
        ),
    }
}

} // verus!
