//! The transitions of the wall: setting it up, claiming a cell, changing a
//! cell's payload, and handing over the administration.

use vstd::prelude::*;
use cosmwasm_std::{Deps, DepsMut, Env, StdError};
use crate::chain::{
    canonicalize, config_read, config_store, copy_approvals, create_token, increment_tokens,
    load_token, owner_of, replace_token, save_contract_info, storage_error, token_count, wall_of,
    wall_seen,
};
use crate::error::{fails_with, ContractError, ErrorKind};
use crate::msg::{InstantiateMsg, MessageInfo};
use crate::response::Response;
use crate::state::{
    coin_views, new_blank_colors, opt_view, Coin, CoinView, ColorMap, Config, PixelExtension,
    PixelTokenInfo,
};
use crate::text::{color_map_debug, debug_text, position_key, token_key};
use crate::wall::{
    after_mint, after_set_up, after_update, config_update_refusal, funds_suffice, initial_colors,
    initial_url, merged_extension, mint_refusal, minted_token, update_refusal, updated_config,
    updated_token, WallView, GRID_CELLS, MAX_OWNER_BYTES,
};

verus! {

/// The name and the symbol of the collection.
pub const PIXEL: &'static str = "pixel";

/// The attributes that report a mint.
pub open spec fn mint_attributes(
    minter: Seq<char>,
    token_id: Seq<char>,
    url: Seq<char>,
    color_text: Seq<char>,
) -> Seq<(Seq<char>, Seq<char>)> {
    seq![
        ("action"@, "mint_pixel"@),
        ("minter"@, minter),
        ("token_id"@, token_id),
        ("url"@, url),
        ("color_map"@, color_text),
    ]
}

/// The attributes that report a payload update.
pub open spec fn update_attributes(
    token_id: Seq<char>,
    color_text: Seq<char>,
    url: Seq<char>,
) -> Seq<(Seq<char>, Seq<char>)> {
    seq![
        ("action"@, "change pixel data"@),
        ("token_id"@, token_id),
        ("color_map"@, color_text),
        ("url"@, url),
    ]
}

/// The attributes that report that the wall was set up.
pub open spec fn instantiate_attributes(owner: Seq<char>) -> Seq<(Seq<char>, Seq<char>)> {
    seq![("method"@, "instantiate"@), ("owner"@, owner)]
}

/// The attributes that report a configuration update.
pub open spec fn config_attributes() -> Seq<(Seq<char>, Seq<char>)> {
    seq![("action"@, "update_config"@)]
}

/// Decides a creation: a vacant slot takes the fresh record, a taken one is
/// refused as claimed.
pub fn claim_vacant<T>(old: Option<T>, fresh: T) -> (r: Result<T, ContractError>)
    ensures
        old is None ==> r == Ok::<T, ContractError>(fresh),
        old is Some ==> fails_with(r, ErrorKind::Claimed),
{
    match old {
        Some(_) => Err(ContractError::Claimed {}),
        None => Ok(fresh),
    }
}

/// Checks the payment against the fee: a fee of zero is always paid; any
/// other fee is paid by exactly one coin of the fee's denomination and amount.
pub fn check_sufficient_funds(funds: &Vec<Coin>, required: &Coin) -> (r: Result<(), ContractError>)
    ensures
        funds_suffice(coin_views(funds@), required@) ==> r is Ok,
        !funds_suffice(coin_views(funds@), required@) ==> fails_with(r, ErrorKind::InsufficientFunds),
{
    if required.amount == 0 {
        return Ok(());
    }
    if funds.len() != 1 {
        return Err(ContractError::InsufficientFunds {});
    }
    let sent_sufficient_funds = funds[0].denom == required.denom && funds[0].amount
        == required.amount;
    if sent_sufficient_funds {
        Ok(())
    } else {
        Err(ContractError::InsufficientFunds {})
    }
}

/// The owner of the cell at `position`, if the cell is claimed.
pub fn get_owner(deps: Deps, env: Env, position: u16) -> (owner: Option<String>)
    ensures
        (match owner {
            Some(owner) => wall_seen(deps).tokens.contains_key(position_key(position)) && owner@
                == wall_seen(deps).tokens[position_key(position)].owner,
            None => !wall_seen(deps).tokens.contains_key(position_key(position)),
        }),
{
    let token_id = token_key(position);
    match owner_of(deps, env, token_id.as_str(), false) {
        Ok(owner) => Some(owner),
        Err(_) => None,
    }
}

/// Whether the cell at `position` is claimed.
pub fn token_minted(deps: Deps, env: Env, position: u16) -> (minted: bool)
    ensures
        minted == wall_seen(deps).tokens.contains_key(position_key(position)),
{
    get_owner(deps, env, position).is_some()
}

/// The record that a mint by `owner` creates: no approvals, no token URI,
/// the colours and the URL as given, a blank square and an empty URL where
/// they are not.
pub fn new_token(owner: String, color_map: Option<ColorMap>, url: Option<String>) -> (token:
    PixelTokenInfo)
    ensures
        token@ == minted_token(owner@, color_map, opt_view(url)),
{
    let new_color_map = match color_map {
        Some(color_map) => color_map,
        None => new_blank_colors(),
    };
    let new_url = match url {
        Some(url) => url,
        None => String::new(),
    };
    let token = PixelTokenInfo {
        owner,
        approvals: Vec::new(),
        token_uri: None,
        extension: PixelExtension { pixel_colors: new_color_map, url: new_url },
    };
    assert(token.approvals@ =~= Seq::empty());
    token
}

/// The record `token` with each given part of the payload put in place of the
/// old one. The owner, the approvals and the token URI stay as they are.
pub fn merge_token(token: PixelTokenInfo, color_map: Option<ColorMap>, url: Option<String>) -> (merged:
    PixelTokenInfo)
    ensures
        merged@ == updated_token(token@, color_map, opt_view(url)),
{
    let new_url = match url {
        None => token.extension.url,
        Some(url) => url,
    };
    let new_color_map = match color_map {
        None => token.extension.pixel_colors,
        Some(color_map) => color_map,
    };
    PixelTokenInfo {
        owner: token.owner,
        approvals: token.approvals,
        token_uri: token.token_uri,
        extension: PixelExtension { pixel_colors: new_color_map, url: new_url },
    }
}

/// The reply to a mint, from the rendering `color_text` of the stored colours.
pub fn mint_response(minter: &str, token_id: &str, url: &str, color_text: &str) -> (response:
    Response)
    ensures
        response@ == mint_attributes(minter@, token_id@, url@, color_text@),
{
    proof {
        reveal_strlit("action");
        reveal_strlit("minter");
        reveal_strlit("token_id");
        reveal_strlit("url");
        reveal_strlit("color_map");
    }
    let response = Response::new().add_attribute("action", "mint_pixel").add_attribute(
        "minter",
        minter,
    ).add_attribute("token_id", token_id).add_attribute("url", url).add_attribute(
        "color_map",
        color_text,
    );
    assert(response@ =~= mint_attributes(minter@, token_id@, url@, color_text@));
    response
}

/// The reply to a payload update, from the rendering `color_text` of the stored colours.
pub fn update_response(token_id: &str, color_text: &str, url: &str) -> (response: Response)
    ensures
        response@ == update_attributes(token_id@, color_text@, url@),
{
    proof {
        reveal_strlit("action");
        reveal_strlit("token_id");
        reveal_strlit("color_map");
        reveal_strlit("url");
    }
    let response = Response::new().add_attribute("action", "change pixel data").add_attribute(
        "token_id",
        token_id,
    ).add_attribute("color_map", color_text).add_attribute("url", url);
    assert(response@ =~= update_attributes(token_id@, color_text@, url@));
    response
}

/// What a mint does. Where the wall `before` refuses it, as `mint_refusal`
/// says, the call fails with that error and the wall stays as it was. Where
/// it does not, the call succeeds: it stores the record, files it under the
/// sender, counts it and reports it.
pub open spec fn mint_outcome(
    before: WallView,
    after: WallView,
    r: Result<Response, ContractError>,
    sender: Seq<char>,
    funds: Seq<CoinView>,
    position: u16,
    color_map: Option<ColorMap>,
    url: Option<Seq<char>>,
) -> bool {
    match mint_refusal(before, position, sender, funds) {
        Some(kind) => fails_with(r, kind) && after == before,
        None => match r {
            Ok(response) => after == after_mint(before, position, sender, color_map, url)
                && response@ == mint_attributes(
                sender,
                position_key(position),
                initial_url(url),
                color_map_debug(initial_colors(color_map)),
            ),
            Err(_) => false,
        },
    }
}

/// What a payload update does. Where the wall `before` refuses it, as
/// `update_refusal` says, the call fails with that error and the wall stays
/// as it was. Where it does not, the call succeeds: it stores the merged
/// record and reports it.
pub open spec fn update_outcome(
    before: WallView,
    after: WallView,
    r: Result<Response, ContractError>,
    sender: Seq<char>,
    position: u16,
    color_map: Option<ColorMap>,
    url: Option<Seq<char>>,
) -> bool {
    match update_refusal(before, position, sender) {
        Some(kind) => fails_with(r, kind) && after == before,
        None => match r {
            Ok(response) => {
                let merged = merged_extension(
                    before.tokens[position_key(position)].extension,
                    color_map,
                    url,
                );
                after == after_update(before, position, color_map, url) && response@
                    == update_attributes(
                    position_key(position),
                    color_map_debug(merged.pixel_colors),
                    merged.url,
                )
            },
            Err(_) => false,
        },
    }
}

/// What a configuration update does. Where the wall `before` refuses it, as
/// `config_update_refusal` says, the call fails with that error and the
/// wall stays as it was. Where it does not, the call succeeds: it stores
/// the new configuration and reports it.
pub open spec fn config_update_outcome(
    before: WallView,
    after: WallView,
    r: Result<Response, ContractError>,
    sender: Seq<char>,
    new_owner: Option<Seq<char>>,
) -> bool {
    match config_update_refusal(before, sender, new_owner) {
        Some(kind) => fails_with(r, kind) && after == before,
        None => match r {
            Ok(response) => after == before.with_config(updated_config(before, new_owner))
                && response@ == config_attributes(),
            Err(_) => false,
        },
    }
}

/// What setting up the wall does. Where the sender has a canonical form, it
/// succeeds: it names the collection, stores the sender, in that form, as
/// the administrator together with the fee, and reports it. Where the
/// sender has none, it fails and the wall stays as it was.
pub open spec fn instantiate_outcome(
    before: WallView,
    after: WallView,
    r: Result<Response, StdError>,
    sender: Seq<char>,
    mint_fee: CoinView,
) -> bool {
    if before.addresses.contains_key(sender) {
        match r {
            Ok(response) => after == after_set_up(before, sender, mint_fee) && response@
                == instantiate_attributes(sender),
            Err(_) => false,
        }
    } else {
        r is Err && after == before
    }
}

/// Claims the cell at `position` for the sender.
///
/// The wall refuses the mint as `mint_refusal` says and then stays as it
/// was. A mint that it does not refuse succeeds: it stores the record,
/// files it under the sender and counts it.
pub fn execute_mint(
    deps: &mut DepsMut,
    info: MessageInfo,
    env: Env,
    position: u16,
    color_map: Option<ColorMap>,
    url: Option<String>,
) -> (r: Result<Response, ContractError>)
    ensures
        position >= GRID_CELLS ==> fails_with(r, ErrorKind::InvalidTokenRange),
        mint_outcome(
            wall_of(*old(deps)),
            wall_of(*final(deps)),
            r,
            info.sender@,
            coin_views(info.funds@),
            position,
            color_map,
            opt_view(url),
        ),
{
    if position >= GRID_CELLS {
        return Err(ContractError::InvalidTokenRange {});
    }
    let config = match config_read(deps.as_ref()) {
        Ok(config) => config,
        Err(e) => {
            return Err(ContractError::Std(e));
        },
    };
    match check_sufficient_funds(&info.funds, &config.mint_fee) {
        Ok(()) => {},
        Err(e) => {
            return Err(e);
        },
    }
    if get_owner(deps.as_ref(), env, position).is_some() {
        return Err(ContractError::Claimed {});
    }
    if info.sender.as_str().as_bytes().len() > MAX_OWNER_BYTES {
        return Err(ContractError::Std(storage_error("owner too long for the owner index")));
    }
    match token_count(deps.as_ref()) {
        Ok(count) => {
            if count == u64::MAX {
                return Err(ContractError::Std(storage_error("token count overflow")));
            }
        },
        Err(e) => {
            return Err(ContractError::Std(e));
        },
    }

    let token_id = token_key(position);
    let token = new_token(info.sender.clone(), color_map, url);
    let color_text = debug_text(&token.extension.pixel_colors);
    let response = mint_response(
        info.sender.as_str(),
        token_id.as_str(),
        token.extension.url.as_str(),
        color_text.as_str(),
    );
    match create_token(deps, token_id.as_str(), token) {
        Ok(()) => {},
        Err(e) => {
            return Err(e);
        },
    }
    match increment_tokens(deps) {
        Ok(_) => {},
        Err(e) => {
            return Err(ContractError::Std(e));
        },
    }
    Ok(response)
}

/// A copy of `token`.
pub fn copy_token(token: &PixelTokenInfo) -> (copy: PixelTokenInfo)
    ensures
        copy@ == token@,
{
    let token_uri = match &token.token_uri {
        Some(uri) => Some(uri.clone()),
        None => None,
    };
    PixelTokenInfo {
        owner: token.owner.clone(),
        approvals: copy_approvals(&token.approvals),
        token_uri,
        extension: PixelExtension {
            pixel_colors: token.extension.pixel_colors,
            url: token.extension.url.clone(),
        },
    }
}

/// Changes the payload of the cell at `position`: each of `color_map` and
/// `url` that is given replaces the stored one, the other stays. Only the
/// owner of the cell may do so.
pub fn execute_change_pixel_data(
    deps: &mut DepsMut,
    info: MessageInfo,
    env: Env,
    position: u16,
    color_map: Option<ColorMap>,
    url: Option<String>,
) -> (r: Result<Response, ContractError>)
    ensures
        update_outcome(
            wall_of(*old(deps)),
            wall_of(*final(deps)),
            r,
            info.sender@,
            position,
            color_map,
            opt_view(url),
        ),
{
    let owner = match get_owner(deps.as_ref(), env, position) {
        Some(owner) => owner,
        None => {
            return Err(ContractError::DoesNotExist {});
        },
    };
    if owner != info.sender {
        return Err(ContractError::Unauthorized {});
    }
    if owner.as_str().as_bytes().len() > MAX_OWNER_BYTES {
        return Err(ContractError::Std(storage_error("owner too long for the owner index")));
    }
    let token_id = token_key(position);
    let token = match load_token(deps.as_ref(), token_id.as_str()) {
        Ok(token) => token,
        Err(e) => {
            return Err(ContractError::Std(e));
        },
    };
    let updated_token = merge_token(copy_token(&token), color_map, url);
    let color_text = debug_text(&updated_token.extension.pixel_colors);
    let response = update_response(
        token_id.as_str(),
        color_text.as_str(),
        updated_token.extension.url.as_str(),
    );
    match replace_token(deps, token_id.as_str(), updated_token, token) {
        Ok(()) => Ok(response),
        Err(e) => Err(ContractError::Std(e)),
    }
}

/// Whether `caller`, in canonical form, is the administrator of `config`.
pub fn authorize_admin(config: &Config, caller: &Vec<u8>) -> (r: Result<(), ContractError>)
    ensures
        config.owner@ == caller@ ==> r is Ok,
        config.owner@ != caller@ ==> fails_with(r, ErrorKind::Unauthorized),
{
    let same = config.owner == *caller;
    assert(same == (config.owner@ =~= caller@));
    if same {
        Ok(())
    } else {
        Err(ContractError::Unauthorized {})
    }
}

/// The configuration `config` with the administration handed to `new_owner`,
/// if one is given.
pub fn with_owner(config: Config, new_owner: Option<Vec<u8>>) -> (updated: Config)
    ensures
        updated.mint_fee == config.mint_fee,
        updated.owner@ == (match new_owner {
            Some(owner) => owner@,
            None => config.owner@,
        }),
{
    match new_owner {
        Some(owner) => Config { owner, mint_fee: config.mint_fee },
        None => config,
    }
}

/// Hands the administration of the wall to `owner`, if one is named. Only
/// the administrator may do so.
pub fn execute_update_config(deps: &mut DepsMut, info: MessageInfo, owner: Option<String>) -> (r:
    Result<Response, ContractError>)
    ensures
        config_update_outcome(
            wall_of(*old(deps)),
            wall_of(*final(deps)),
            r,
            info.sender@,
            opt_view(owner),
        ),
{
    let config = match config_read(deps.as_ref()) {
        Ok(config) => config,
        Err(e) => {
            return Err(ContractError::Std(e));
        },
    };
    let caller = match canonicalize(deps.as_ref(), info.sender.as_str()) {
        Ok(caller) => caller,
        Err(e) => {
            return Err(ContractError::Std(e));
        },
    };
    match authorize_admin(&config, &caller) {
        Ok(()) => {},
        Err(e) => {
            return Err(e);
        },
    }
    let new_owner = match owner {
        Some(owner) => match canonicalize(deps.as_ref(), owner.as_str()) {
            Ok(canonical) => Some(canonical),
            Err(e) => {
                return Err(ContractError::Std(e));
            },
        },
        None => None,
    };
    let updated = with_owner(config, new_owner);
    match config_store(deps, &updated) {
        Ok(()) => {},
        Err(e) => {
            return Err(ContractError::Std(e));
        },
    }
    proof {
        reveal_strlit("action");
    }
    let response = Response::new().add_attribute("action", "update_config");
    assert(response@ =~= config_attributes());
    Ok(response)
}

/// Sets up the wall: names the collection and stores the sender as the
/// administrator together with the mint fee. It succeeds exactly where the
/// sender has a canonical form.
pub fn instantiate(deps: &mut DepsMut, info: MessageInfo, msg: InstantiateMsg) -> (r: Result<
    Response,
    StdError,
>)
    ensures
        instantiate_outcome(
            wall_of(*old(deps)),
            wall_of(*final(deps)),
            r,
            info.sender@,
            msg.mint_fee@,
        ),
{
    let owner = match canonicalize(deps.as_ref(), info.sender.as_str()) {
        Ok(owner) => owner,
        Err(e) => {
            return Err(e);
        },
    };
    match save_contract_info(deps, PIXEL, PIXEL) {
        Ok(()) => {},
        Err(e) => {
            return Err(e);
        },
    }
    let config = Config { owner, mint_fee: msg.mint_fee };
    match config_store(deps, &config) {
        Ok(()) => {},
        Err(e) => {
            return Err(e);
        },
    }
    proof {
        reveal_strlit("method");
        reveal_strlit("owner");
    }
    let response = Response::new().add_attribute("method", "instantiate").add_attribute(
        "owner",
        info.sender.as_str(),
    );
    assert(response@ =~= instantiate_attributes(info.sender@));
    Ok(response)
}

} // verus!
