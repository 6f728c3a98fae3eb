//! The wall as a mathematical value, and the rules of its three transitions
//! (mint, payload update, configuration update) stated on that value.
//!
//! The executable transitions of `execute` promise that they act on the
//! stored wall exactly as the functions of this module say.

use vstd::prelude::*;
use vstd::utf8::{encode_utf8, valid_utf8};
use crate::error::ErrorKind;
use crate::state::{blank_colors, CoinView, ColorMap, ConfigView, PixelExtensionView, PixelTokenInfoView};
use crate::text::position_key;

verus! {

/// The number of cells on the wall; positions run from zero to one below it.
pub const GRID_CELLS: u16 = 40_000;

/// The longest owner, in bytes, that the owner index can file a cell under.
pub const MAX_OWNER_BYTES: usize = 0xFFFF;

/// The number of bytes of a string.
pub open spec fn byte_len(s: Seq<char>) -> nat {
    encode_utf8(s).len()
}

/// Everything the wall keeps, as mathematical values.
#[verifier::ext_equal]
pub struct WallView {
    /// The record of each claimed cell, by the cell's key.
    pub tokens: Map<Seq<char>, PixelTokenInfoView>,
    /// The keys under which something is stored that cannot be read as a record.
    pub unreadable_tokens: Set<Seq<char>>,
    /// The owner index: the pairs of an owner and the bytes of a key filed under that owner.
    pub owner_index: Set<(Seq<char>, Seq<u8>)>,
    /// The configuration, once the wall has been set up.
    pub config: Option<ConfigView>,
    /// The number of tokens issued so far, where it can be read.
    pub token_count: Option<u64>,
    /// The canonical form of each address that has one.
    pub addresses: Map<Seq<char>, Seq<u8>>,
    /// The addresses that the address API accepts as they are written.
    pub valid_addresses: Set<Seq<char>>,
    /// The name and the symbol of the collection, once they are stored.
    pub collection: Option<(Seq<char>, Seq<char>)>,
    /// The name and the version that the contract has registered, once it has.
    pub version: Option<(Seq<char>, Seq<char>)>,
}

impl WallView {
    /// Whether the owner index files exactly the claimed cells, each under
    /// its owner and by the bytes of its key, and nothing that is no text.
    pub open spec fn index_consistent(self) -> bool {
        &&& forall|owner: Seq<char>, key: Seq<char>|
            #[trigger] self.owner_index.contains((owner, encode_utf8(key))) <==> (
            self.tokens.contains_key(key) && self.tokens[key].owner == owner)
        &&& forall|owner: Seq<char>| self.keys_are_text(owner)
    }

    /// Whether every key that the owner index files under `owner` is a text.
    pub open spec fn keys_are_text(self, owner: Seq<char>) -> bool {
        forall|bytes: Seq<u8>| #[trigger] self.owner_index.contains((owner, bytes)) ==> valid_utf8(bytes)
    }

    /// Whether a listing for `owner` is owed a page: the address API accepts
    /// the owner and the owner index files only texts under the owner.
    pub open spec fn listing_is_owed(self, owner: Seq<char>) -> bool {
        self.valid_addresses.contains(owner) && self.keys_are_text(owner)
    }

    /// The wall with `token` stored under `key` and filed under its owner by
    /// the bytes of `key`.
    pub open spec fn with_token(self, key: Seq<char>, token: PixelTokenInfoView) -> WallView {
        WallView {
            tokens: self.tokens.insert(key, token),
            owner_index: self.owner_index.insert((token.owner, encode_utf8(key))),
            ..self
        }
    }

    /// The wall with the record under `key` replaced: the entry of `old_token`'s
    /// owner leaves the index and the entry of `token`'s owner enters it.
    /// Whatever stood under `key` before, it is readable now.
    pub open spec fn with_replaced(
        self,
        key: Seq<char>,
        token: PixelTokenInfoView,
        old_token: PixelTokenInfoView,
    ) -> WallView {
        WallView {
            tokens: self.tokens.insert(key, token),
            unreadable_tokens: self.unreadable_tokens.remove(key),
            owner_index: self.owner_index.remove((old_token.owner, encode_utf8(key))).insert(
                (token.owner, encode_utf8(key)),
            ),
            ..self
        }
    }

    /// The wall with `config` as its configuration.
    pub open spec fn with_config(self, config: ConfigView) -> WallView {
        WallView { config: Some(config), ..self }
    }

    /// The wall with `count` tokens issued.
    pub open spec fn with_token_count(self, count: u64) -> WallView {
        WallView { token_count: Some(count), ..self }
    }

    /// The wall with the collection named `name`, with the symbol `symbol`.
    pub open spec fn with_collection(self, name: Seq<char>, symbol: Seq<char>) -> WallView {
        WallView { collection: Some((name, symbol)), ..self }
    }

    /// The wall with the contract registered as `name` in the version `version`.
    pub open spec fn with_version(self, name: Seq<char>, version: Seq<char>) -> WallView {
        WallView { version: Some((name, version)), ..self }
    }
}

/// Whether `funds` pays the fee `required`: a fee of zero is always paid;
/// any other fee is paid by exactly one coin of the fee's denomination and amount.
pub open spec fn funds_suffice(funds: Seq<CoinView>, required: CoinView) -> bool {
    required.amount == 0 || (funds.len() == 1 && funds[0].denom == required.denom
        && funds[0].amount == required.amount)
}

/// The colours that a mint stores: those given, or a blank square.
pub open spec fn initial_colors(color_map: Option<ColorMap>) -> ColorMap {
    match color_map {
        Some(colors) => colors,
        None => blank_colors(),
    }
}

/// The URL that a mint stores: the one given, or the empty string.
pub open spec fn initial_url(url: Option<Seq<char>>) -> Seq<char> {
    match url {
        Some(url) => url,
        None => Seq::empty(),
    }
}

/// The record that a mint by `sender` creates.
pub open spec fn minted_token(
    sender: Seq<char>,
    color_map: Option<ColorMap>,
    url: Option<Seq<char>>,
) -> PixelTokenInfoView {
    PixelTokenInfoView {
        owner: sender,
        approvals: Seq::empty(),
        token_uri: None,
        extension: PixelExtensionView {
            pixel_colors: initial_colors(color_map),
            url: initial_url(url),
        },
    }
}

/// Why the wall `wall` refuses a mint, if it does. The checks run in this
/// order: the position, the fee, the vacancy of the cell, then what the
/// storage layer can hold: an owner that the index can file, a count that
/// can be read and raised, and a key under which nothing unreadable stands.
pub open spec fn mint_refusal(
    wall: WallView,
    position: u16,
    sender: Seq<char>,
    funds: Seq<CoinView>,
) -> Option<ErrorKind> {
    if position >= GRID_CELLS {
        Some(ErrorKind::InvalidTokenRange)
    } else if wall.config is None {
        Some(ErrorKind::Std)
    } else if !funds_suffice(funds, wall.config.unwrap().mint_fee) {
        Some(ErrorKind::InsufficientFunds)
    } else if wall.tokens.contains_key(position_key(position)) {
        Some(ErrorKind::Claimed)
    } else if byte_len(sender) > MAX_OWNER_BYTES {
        Some(ErrorKind::Std)
    } else if wall.token_count is None || wall.token_count == Some(u64::MAX) {
        Some(ErrorKind::Std)
    } else if wall.unreadable_tokens.contains(position_key(position)) {
        Some(ErrorKind::Std)
    } else {
        None
    }
}

/// The wall after an accepted mint.
pub open spec fn after_mint(
    wall: WallView,
    position: u16,
    sender: Seq<char>,
    color_map: Option<ColorMap>,
    url: Option<Seq<char>>,
) -> WallView {
    wall.with_token(position_key(position), minted_token(sender, color_map, url)).with_token_count(
        (wall.token_count.unwrap() + 1) as u64,
    )
}

/// The payload `existing` with each given part put in place of the old one.
pub open spec fn merged_extension(
    existing: PixelExtensionView,
    color_map: Option<ColorMap>,
    url: Option<Seq<char>>,
) -> PixelExtensionView {
    PixelExtensionView {
        pixel_colors: match color_map {
            Some(colors) => colors,
            None => existing.pixel_colors,
        },
        url: match url {
            Some(url) => url,
            None => existing.url,
        },
    }
}

/// The record `token` with its payload merged; owner, approvals and token URI stay.
pub open spec fn updated_token(
    token: PixelTokenInfoView,
    color_map: Option<ColorMap>,
    url: Option<Seq<char>>,
) -> PixelTokenInfoView {
    PixelTokenInfoView { extension: merged_extension(token.extension, color_map, url), ..token }
}

/// Why the wall refuses a payload update by `sender`, if it does.
pub open spec fn update_refusal(wall: WallView, position: u16, sender: Seq<char>) -> Option<
    ErrorKind,
> {
    let key = position_key(position);
    if !wall.tokens.contains_key(key) {
        Some(ErrorKind::DoesNotExist)
    } else if wall.tokens[key].owner != sender {
        Some(ErrorKind::Unauthorized)
    } else if byte_len(sender) > MAX_OWNER_BYTES {
        Some(ErrorKind::Std)
    } else {
        None
    }
}

/// The wall after an accepted payload update of a claimed cell.
pub open spec fn after_update(
    wall: WallView,
    position: u16,
    color_map: Option<ColorMap>,
    url: Option<Seq<char>>,
) -> WallView {
    let key = position_key(position);
    let token = wall.tokens[key];
    wall.with_replaced(key, updated_token(token, color_map, url), token)
}

/// Why the wall refuses a configuration update by `sender`, if it does.
pub open spec fn config_update_refusal(
    wall: WallView,
    sender: Seq<char>,
    new_owner: Option<Seq<char>>,
) -> Option<ErrorKind> {
    if wall.config is None {
        Some(ErrorKind::Std)
    } else if !wall.addresses.contains_key(sender) {
        Some(ErrorKind::Std)
    } else if wall.config.unwrap().owner != wall.addresses[sender] {
        Some(ErrorKind::Unauthorized)
    } else if new_owner is Some && !wall.addresses.contains_key(new_owner.unwrap()) {
        Some(ErrorKind::Std)
    } else {
        None
    }
}

/// The configuration after an accepted update: the new owner, if one was
/// given, in canonical form; the fee as before.
pub open spec fn updated_config(wall: WallView, new_owner: Option<Seq<char>>) -> ConfigView {
    let config = wall.config.unwrap();
    match new_owner {
        Some(owner) => ConfigView { owner: wall.addresses[owner], ..config },
        None => config,
    }
}

/// The configuration that setting up the wall stores.
pub open spec fn initial_config(wall: WallView, sender: Seq<char>, mint_fee: CoinView) -> ConfigView {
    ConfigView { owner: wall.addresses[sender], mint_fee }
}

/// The name and the symbol under which the wall's collection goes.
pub open spec fn collection_name() -> Seq<char> {
    "pixel"@
}

/// The wall after it has been set up by `sender`: the collection is named
/// and the sender, in canonical form, administers it at the fee `mint_fee`.
pub open spec fn after_set_up(wall: WallView, sender: Seq<char>, mint_fee: CoinView) -> WallView {
    wall.with_collection(collection_name(), collection_name()).with_config(
        initial_config(wall, sender, mint_fee),
    )
}

/// The number of keys on a page of a listing where the caller names no limit.
pub const DEFAULT_PAGE: u32 = 10;

/// The largest number of keys on a page of a listing.
pub const MAX_PAGE: u32 = 30;

/// The number of keys that a page may hold under the limit asked for.
pub open spec fn page_size(limit: Option<u32>) -> nat {
    let asked = match limit {
        Some(limit) => limit,
        None => DEFAULT_PAGE,
    };
    if asked < MAX_PAGE {
        asked as nat
    } else {
        MAX_PAGE as nat
    }
}

/// The order of keys in a listing: the order of their bytes, which is the
/// order of their characters' code points, a shorter key before its extensions.
pub open spec fn key_before(a: Seq<char>, b: Seq<char>) -> bool
    decreases a.len(),
{
    if b.len() == 0 {
        false
    } else if a.len() == 0 {
        true
    } else if a[0] != b[0] {
        (a[0] as u32) < (b[0] as u32)
    } else {
        key_before(a.drop_first(), b.drop_first())
    }
}

/// Whether a listing for `owner` that starts after `start_after` is to show `key`.
pub open spec fn listed(
    wall: WallView,
    owner: Seq<char>,
    start_after: Option<Seq<char>>,
    key: Seq<char>,
) -> bool {
    wall.owner_index.contains((owner, encode_utf8(key))) && (start_after is Some ==> key_before(
        start_after.unwrap(),
        key,
    ))
}

/// Whether `page` is the page of the listing for `owner`: its keys are filed
/// under the owner and come after the cursor, they ascend, and a key is left
/// out only where the page is full and the key comes after the page's last.
pub open spec fn is_page_of(
    wall: WallView,
    owner: Seq<char>,
    start_after: Option<Seq<char>>,
    limit: Option<u32>,
    page: Seq<Seq<char>>,
) -> bool {
    &&& page.len() <= page_size(limit)
    &&& forall|i: int| 0 <= i < page.len() ==> listed(wall, owner, start_after, #[trigger] page[i])
    &&& forall|i: int, j: int|
        0 <= i < j < page.len() ==> key_before(#[trigger] page[i], #[trigger] page[j])
    &&& forall|key: Seq<char>|
        #[trigger] listed(wall, owner, start_after, key) && !page.contains(key) ==> page.len()
            == page_size(limit) && (page.len() > 0 ==> key_before(page.last(), key))
}

} // verus!
