//! The boundary to the chain. The wall lives in the storage that a call's
//! dependencies give access to, laid out by the token standard's base
//! contract. This module names what that storage holds and wraps each call
//! that reads or writes it. Nothing here is proved: every contract in this
//! file states what the called code does, and the rest of the crate is
//! verified against these statements.

use vstd::prelude::*;
use cosmwasm_std::{Addr, CanonicalAddr, Deps, DepsMut, Empty, Env, StdError, Uint128};
use cosmwasm_storage::{singleton, singleton_read};
use cw721::{ContractInfoResponse, Cw721Query};
use cw721_base::state::{Approval, TokenInfo};
use cw721_base::Cw721Contract;
use crate::error::{ContractError, ErrorKind};
use crate::execute::claim_vacant;
use crate::state::{
    opt_view, Coin, Color, Config, ConfigView, PixelExtension, PixelTokenInfo, PixelTokenInfoView,
};
use crate::wall::{byte_len, is_page_of, WallView, MAX_OWNER_BYTES};

verus! {

/// The dependencies of a call that may write: storage, address API and querier.
#[verifier::external_type_specification]
#[verifier::external_body]
pub struct ExDepsMut<'a>(DepsMut<'a>);

/// The dependencies of a call that only reads.
#[verifier::external_type_specification]
#[verifier::external_body]
pub struct ExDeps<'a>(Deps<'a>);

/// The block and contract that a call runs in.
#[verifier::external_type_specification]
#[verifier::external_body]
pub struct ExEnv(Env);

/// The shape in which a payload is stored: the square of colours, each as
/// its four channels, and the URL.
pub type StoredExtension = ([[(u8, u8, u8, u8); 5]; 5], String);

/// The shape in which the configuration is stored: the administrator and the fee.
pub type StoredConfig = (CanonicalAddr, cosmwasm_std::Coin);

/// The base contract over the wall's payload, with its storage layout.
pub type Base = Cw721Contract<'static, StoredExtension, Empty>;

/// The storage key of the configuration.
pub const CONFIG_KEY: &'static str = "config";

/// The records that the token map behind `deps` yields: a key is present
/// exactly where loading it succeeds.
pub uninterp spec fn stored_tokens(deps: DepsMut) -> Map<Seq<char>, PixelTokenInfoView>;

/// The keys of the token map behind `deps` under which bytes are stored
/// that do not parse as a record: loading such a key fails, and so does
/// every call that reads the key before it writes.
pub uninterp spec fn unreadable_tokens(deps: DepsMut) -> Set<Seq<char>>;

/// The name and the symbol of the collection behind `deps`, where loading
/// the base contract's contract info succeeds.
pub uninterp spec fn stored_collection(deps: DepsMut) -> Option<(Seq<char>, Seq<char>)>;

/// The contract's name and version that are registered behind `deps`,
/// where loading them succeeds.
pub uninterp spec fn stored_version(deps: DepsMut) -> Option<(Seq<char>, Seq<char>)>;

/// The pairs of an owner and the bytes of a key that the owner index behind
/// `deps` holds.
pub uninterp spec fn stored_owner_index(deps: DepsMut) -> Set<(Seq<char>, Seq<u8>)>;

/// The configuration behind `deps`, where loading it succeeds.
pub uninterp spec fn stored_config(deps: DepsMut) -> Option<ConfigView>;

/// The number of tokens issued behind `deps`, where reading it succeeds.
pub uninterp spec fn stored_token_count(deps: DepsMut) -> Option<u64>;

/// The canonical form that the address API of `deps` gives each address it accepts.
pub uninterp spec fn canonical_addresses(deps: DepsMut) -> Map<Seq<char>, Seq<u8>>;

/// The addresses that `Api::addr_validate` of `deps` accepts: an API gives
/// the same answer to the same address every time.
pub uninterp spec fn accepted_addresses(deps: DepsMut) -> Set<Seq<char>>;

/// As `stored_tokens`, for read-only dependencies.
pub uninterp spec fn visible_tokens(deps: Deps) -> Map<Seq<char>, PixelTokenInfoView>;

/// As `stored_owner_index`, for read-only dependencies.
pub uninterp spec fn visible_owner_index(deps: Deps) -> Set<(Seq<char>, Seq<u8>)>;

/// As `stored_config`, for read-only dependencies.
pub uninterp spec fn visible_config(deps: Deps) -> Option<ConfigView>;

/// As `stored_token_count`, for read-only dependencies.
pub uninterp spec fn visible_token_count(deps: Deps) -> Option<u64>;

/// As `canonical_addresses`, for read-only dependencies.
pub uninterp spec fn visible_addresses(deps: Deps) -> Map<Seq<char>, Seq<u8>>;

/// As `accepted_addresses`, for read-only dependencies.
pub uninterp spec fn visible_accepted_addresses(deps: Deps) -> Set<Seq<char>>;

/// As `unreadable_tokens`, for read-only dependencies.
pub uninterp spec fn visible_unreadable_tokens(deps: Deps) -> Set<Seq<char>>;

/// As `stored_collection`, for read-only dependencies.
pub uninterp spec fn visible_collection(deps: Deps) -> Option<(Seq<char>, Seq<char>)>;

/// As `stored_version`, for read-only dependencies.
pub uninterp spec fn visible_version(deps: Deps) -> Option<(Seq<char>, Seq<char>)>;

/// The wall behind `deps`.
pub open spec fn wall_of(deps: DepsMut) -> WallView {
    WallView {
        tokens: stored_tokens(deps),
        unreadable_tokens: unreadable_tokens(deps),
        owner_index: stored_owner_index(deps),
        config: stored_config(deps),
        token_count: stored_token_count(deps),
        addresses: canonical_addresses(deps),
        valid_addresses: accepted_addresses(deps),
        collection: stored_collection(deps),
        version: stored_version(deps),
    }
}

/// The wall behind read-only `deps`.
pub open spec fn wall_seen(deps: Deps) -> WallView {
    WallView {
        tokens: visible_tokens(deps),
        unreadable_tokens: visible_unreadable_tokens(deps),
        owner_index: visible_owner_index(deps),
        config: visible_config(deps),
        token_count: visible_token_count(deps),
        addresses: visible_addresses(deps),
        valid_addresses: visible_accepted_addresses(deps),
        collection: visible_collection(deps),
        version: visible_version(deps),
    }
}

/// `DepsMut::as_ref` lends the same storage and API for reading: what is
/// seen through the result is what lies behind `deps`.
pub assume_specification<'a, 'b>[ DepsMut::<'a>::as_ref ](deps: &'b DepsMut<'a>) -> (r: Deps<'b>)
    ensures
        visible_tokens(r) == stored_tokens(*deps),
        visible_owner_index(r) == stored_owner_index(*deps),
        visible_config(r) == stored_config(*deps),
        visible_token_count(r) == stored_token_count(*deps),
        visible_addresses(r) == canonical_addresses(*deps),
        visible_accepted_addresses(r) == accepted_addresses(*deps),
        visible_unreadable_tokens(r) == unreadable_tokens(*deps),
        visible_collection(r) == stored_collection(*deps),
        visible_version(r) == stored_version(*deps),
;

/// `IndexedMap::load` on the base contract's token map. It succeeds exactly
/// on the keys of the wall's tokens and yields the record stored there.
#[verifier::external_body]
pub(crate) fn load_token(deps: Deps, token_id: &str) -> (r: Result<PixelTokenInfo, StdError>)
    ensures
        (match r {
            Ok(token) => wall_seen(deps).tokens.contains_key(token_id@) && token@ == wall_seen(
                deps,
            ).tokens[token_id@],
            Err(_) => !wall_seen(deps).tokens.contains_key(token_id@),
        }),
{
    let t = Base::default().tokens.load(deps.storage, token_id)?;
    let pixel_colors = t.extension.0.map(|row| row.map(|(r, g, b, a)| Color { r, g, b, a }));
    Ok(PixelTokenInfo {
        owner: t.owner.into_string(),
        approvals: t.approvals,
        token_uri: t.token_uri,
        extension: PixelExtension { pixel_colors, url: t.extension.1 },
    })
}

/// `Cw721Query::owner_of` of the base contract. It loads the record of
/// `token_id`: it succeeds exactly on the keys of the wall's tokens and
/// yields the owner of the record. `include_expired` bears on the approvals
/// in the answer only, which are not handed on.
#[verifier::external_body]
pub(crate) fn owner_of(deps: Deps, env: Env, token_id: &str, include_expired: bool) -> (r: Result<
    String,
    StdError,
>)
    ensures
        (match r {
            Ok(owner) => wall_seen(deps).tokens.contains_key(token_id@) && owner@ == wall_seen(
                deps,
            ).tokens[token_id@].owner,
            Err(_) => !wall_seen(deps).tokens.contains_key(token_id@),
        }),
{
    Base::default().owner_of(deps, env, token_id.to_string(), include_expired).map(|found| found.owner)
}

/// `Cw721Query::tokens` of the base contract: one page of the keys filed
/// under `owner` in the owner index, in ascending order of their bytes,
/// after the cursor `start_after`, at most `limit` of them (ten where no
/// limit is given, never more than thirty). The call has the address API
/// validate `owner` and reads each key of the page as a text; these are its
/// only failures. So it fails where the API does not accept `owner`, and
/// succeeds where the API accepts `owner` and every key filed under `owner`
/// is a text. The index prefixes the owner with its length in two bytes and
/// does not return for a longer owner.
#[verifier::external_body]
pub(crate) fn list_tokens(
    deps: Deps,
    owner: &str,
    start_after: Option<String>,
    limit: Option<u32>,
) -> (r: Result<Vec<String>, StdError>)
    requires
        byte_len(owner@) <= MAX_OWNER_BYTES,
    ensures
        wall_seen(deps).listing_is_owed(owner@) ==> r is Ok,
        r is Ok ==> wall_seen(deps).valid_addresses.contains(owner@),
        r matches Ok(page) ==> is_page_of(
            wall_seen(deps),
            owner@,
            opt_view(start_after),
            limit,
            page.deep_view(),
        ),
{
    Base::default().tokens(deps, owner.to_string(), start_after, limit).map(|found| found.tokens)
}

/// `Cw721Contract::token_count`: the number of tokens issued, zero where
/// none was stored yet. It succeeds exactly where the wall's count is readable.
#[verifier::external_body]
pub(crate) fn token_count(deps: Deps) -> (r: Result<u64, StdError>)
    ensures
        (match r {
            Ok(count) => wall_seen(deps).token_count == Some(count),
            Err(_) => wall_seen(deps).token_count is None,
        }),
{
    Base::default().token_count(deps.storage)
}

/// Reads the configuration: `ReadonlySingleton::load` under the
/// configuration's key. It succeeds exactly where the wall has a
/// configuration and yields it.
#[verifier::external_body]
pub fn config_read(deps: Deps) -> (r: Result<Config, StdError>)
    ensures
        (match r {
            Ok(config) => wall_seen(deps).config == Some(config@),
            Err(_) => wall_seen(deps).config is None,
        }),
{
    let (owner, fee): StoredConfig = singleton_read(deps.storage, CONFIG_KEY.as_bytes()).load()?;
    Ok(Config { owner: owner.into(), mint_fee: Coin { denom: fee.denom, amount: fee.amount.u128() } })
}

/// `Api::addr_canonicalize`. An API gives the same answer to the same
/// address every time: it succeeds exactly on the addresses that have a
/// canonical form and yields that form.
#[verifier::external_body]
pub(crate) fn canonicalize(deps: Deps, human: &str) -> (r: Result<Vec<u8>, StdError>)
    ensures
        (match r {
            Ok(canonical) => wall_seen(deps).addresses.contains_key(human@) && canonical@
                == wall_seen(deps).addresses[human@],
            Err(_) => !wall_seen(deps).addresses.contains_key(human@),
        }),
{
    deps.api.addr_canonicalize(human).map(|canonical| canonical.into())
}

/// `IndexedMap::update` on the base contract's token map, with `claim_vacant`
/// deciding. The call first reads the key. Where the key holds a record, it
/// fails with `Claimed`; where what the key holds cannot be read, it fails
/// with a storage error; either way before any write. Where the key holds
/// nothing, the record is filed under its owner in the owner index and then
/// stored: both writes serialise to JSON, which has no failure for a record,
/// and the storage write returns nothing, so the call succeeds. The index
/// prefixes the owner with its length in two bytes and does not return for
/// a longer owner.
#[verifier::external_body]
pub(crate) fn create_token(deps: &mut DepsMut, token_id: &str, token: PixelTokenInfo) -> (r: Result<
    (),
    ContractError,
>)
    requires
        byte_len(token.owner@) <= MAX_OWNER_BYTES,
    ensures
        (match r {
            Ok(()) => !wall_of(*old(deps)).tokens.contains_key(token_id@) && !wall_of(
                *old(deps),
            ).unreadable_tokens.contains(token_id@) && wall_of(*final(deps)) == wall_of(
                *old(deps),
            ).with_token(token_id@, token@),
            Err(e) => wall_of(*final(deps)) == wall_of(*old(deps)) && (if wall_of(
                *old(deps),
            ).tokens.contains_key(token_id@) {
                e.kind() == ErrorKind::Claimed
            } else {
                e.kind() == ErrorKind::Std && wall_of(*old(deps)).unreadable_tokens.contains(
                    token_id@,
                )
            }),
        }),
{
    let colors = token.extension.pixel_colors.map(|row| row.map(|c| (c.r, c.g, c.b, c.a)));
    let stored = TokenInfo {
        owner: Addr::unchecked(token.owner),
        approvals: token.approvals,
        token_uri: token.token_uri,
        extension: (colors, token.extension.url),
    };
    let map = Base::default().tokens;
    map.update(deps.storage, token_id, |old| claim_vacant(old, stored)).map(|_| ())
}

/// `IndexedMap::replace` on the base contract's token map, with `old_token`
/// as the record to take out of the owner index: the entry of `old_token`'s
/// owner leaves the index, the entry of `token`'s owner enters it, then
/// `token` is stored. The call reads nothing; its writes serialise to JSON,
/// which has no failure for a record, and the storage write returns
/// nothing, so the call always succeeds. The index does not return for an
/// owner longer than its two-byte length prefix can tell.
#[verifier::external_body]
pub(crate) fn replace_token(
    deps: &mut DepsMut,
    token_id: &str,
    token: PixelTokenInfo,
    old_token: PixelTokenInfo,
) -> (r: Result<(), StdError>)
    requires
        byte_len(token.owner@) <= MAX_OWNER_BYTES,
        byte_len(old_token.owner@) <= MAX_OWNER_BYTES,
    ensures
        r is Ok,
        wall_of(*final(deps)) == wall_of(*old(deps)).with_replaced(token_id@, token@, old_token@),
{
    let [new, old] = [token, old_token].map(|t| TokenInfo {
        owner: Addr::unchecked(t.owner),
        approvals: t.approvals,
        token_uri: t.token_uri,
        extension: (t.extension.pixel_colors.map(|row| row.map(|c| (c.r, c.g, c.b, c.a))), t.extension.url),
    });
    Base::default().tokens.replace(deps.storage, token_id, Some(&new), Some(&old))
}

/// `Cw721Contract::increment_tokens`: reads the number of tokens issued,
/// adds one and stores the sum. Where the count cannot be read it fails
/// before any write. Where it can, the call succeeds: the write serialises
/// a number, which has no failure, and the storage write returns nothing.
/// The addition does not return at the largest count.
#[verifier::external_body]
pub(crate) fn increment_tokens(deps: &mut DepsMut) -> (r: Result<u64, StdError>)
    requires
        wall_of(*old(deps)).token_count != Some(u64::MAX),
    ensures
        (match wall_of(*old(deps)).token_count {
            Some(count) => r == Ok::<u64, StdError>((count + 1) as u64) && wall_of(*final(deps))
                == wall_of(*old(deps)).with_token_count((count + 1) as u64),
            None => r is Err && wall_of(*final(deps)) == wall_of(*old(deps)),
        }),
{
    Base::default().increment_tokens(deps.storage)
}

/// Writes the configuration: `Singleton::save` under the configuration's
/// key. The value is written as JSON: the administrator as a byte string,
/// the fee as a text and a number in text. The serialiser has no failure
/// for such values and the storage write returns nothing, so the call
/// always succeeds, and the wall holds `config` afterwards.
#[verifier::external_body]
pub fn config_store(deps: &mut DepsMut, config: &Config) -> (r: Result<(), StdError>)
    ensures
        r is Ok,
        wall_of(*final(deps)) == wall_of(*old(deps)).with_config(config@),
{
    let fee = cosmwasm_std::Coin { denom: config.mint_fee.denom.clone(), amount: Uint128::new(config.mint_fee.amount) };
    let stored: StoredConfig = (config.owner.clone().into(), fee);
    singleton(deps.storage, CONFIG_KEY.as_bytes()).save(&stored)
}

/// `Item::save` on the base contract's contract info: stores the name and
/// symbol of the collection under a key of its own, as JSON. The serialiser
/// has no failure for two texts and the storage write returns nothing, so
/// the call always succeeds. The rest of the wall stays as it was.
#[verifier::external_body]
pub(crate) fn save_contract_info(deps: &mut DepsMut, name: &str, symbol: &str) -> (r: Result<
    (),
    StdError,
>)
    ensures
        r is Ok,
        wall_of(*final(deps)) == wall_of(*old(deps)).with_collection(name@, symbol@),
{
    let info = ContractInfoResponse { name: name.to_string(), symbol: symbol.to_string() };
    Base::default().contract_info.save(deps.storage, &info)
}

/// `cw2::set_contract_version`: stores the contract's name and version
/// under a key of its own, as JSON. The serialiser has no failure for two
/// texts and the storage write returns nothing, so the call always
/// succeeds. The rest of the wall stays as it was.
#[verifier::external_body]
pub(crate) fn set_contract_version(deps: &mut DepsMut, name: &str, version: &str) -> (r: Result<
    (),
    StdError,
>)
    ensures
        r is Ok,
        wall_of(*final(deps)) == wall_of(*old(deps)).with_version(name@, version@),
{
    cw2::set_contract_version(deps.storage, name, version)
}

/// `Clone::clone` on a list of approvals of the base contract: the copy
/// holds the same entries in the same order.
#[verifier::external_body]
pub(crate) fn copy_approvals(approvals: &Vec<Approval>) -> (copy: Vec<Approval>)
    ensures
        copy@ == approvals@,
{
    approvals.clone()
}

/// `StdError::generic_err`: a storage error that carries `msg`.
#[verifier::external_body]
pub(crate) fn storage_error(msg: &str) -> StdError {
    StdError::generic_err(msg)
}

} // verus!
