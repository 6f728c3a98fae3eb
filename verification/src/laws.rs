//! What holds of the wall's transitions taken together, proved from the
//! contracts of `execute` over the rules of `wall`.

use vstd::prelude::*;
use vstd::utf8::{encode_utf8, encode_utf8_decode_utf8, encode_utf8_valid_utf8};
use cosmwasm_std::StdError;
use crate::contract::{set_up_outcome, CONTRACT_NAME, CONTRACT_VERSION};
use crate::error::{fails_with, ContractError, ErrorKind};
use crate::execute::{config_update_outcome, mint_outcome, update_outcome};
use crate::response::Response;
use crate::state::{
    blank_colors_are_blank, is_blank_map, CoinView, ColorMap, ConfigView, PixelExtensionView,
};
use crate::text::{position_key, position_key_injective};
use crate::wall::{
    after_mint, after_update, byte_len, config_update_refusal, funds_suffice, is_page_of,
    key_before, listed, merged_extension, mint_refusal, minted_token, page_size, update_refusal,
    updated_config, WallView, GRID_CELLS, MAX_OWNER_BYTES,
};

verus! {

/// A call that fails leaves the wall as it was: a mint, a payload update
/// and a configuration update each write all or nothing.
pub proof fn failed_calls_change_nothing(
    before: WallView,
    after: WallView,
    r: Result<Response, ContractError>,
    sender: Seq<char>,
    funds: Seq<CoinView>,
    position: u16,
    color_map: Option<ColorMap>,
    url: Option<Seq<char>>,
    new_owner: Option<Seq<char>>,
)
    requires
        r is Err,
        mint_outcome(before, after, r, sender, funds, position, color_map, url) || update_outcome(
            before,
            after,
            r,
            sender,
            position,
            color_map,
            url,
        ) || config_update_outcome(before, after, r, sender, new_owner),
    ensures
        after == before,
{
}

/// A mint to a vacant cell of the wall, with the fee paid, succeeds and
/// stores the record of the sender with the payload given or defaulted,
/// wherever the storage layer can hold it: the sender fits the owner index,
/// the count of tokens can be read and raised, and nothing unreadable
/// stands under the cell's key.
pub proof fn mint_to_a_vacant_cell_succeeds(
    before: WallView,
    after: WallView,
    r: Result<Response, ContractError>,
    sender: Seq<char>,
    funds: Seq<CoinView>,
    position: u16,
    color_map: Option<ColorMap>,
    url: Option<Seq<char>>,
)
    requires
        mint_outcome(before, after, r, sender, funds, position, color_map, url),
        position < GRID_CELLS,
        before.config is Some,
        funds_suffice(funds, before.config.unwrap().mint_fee),
        !before.tokens.contains_key(position_key(position)),
        byte_len(sender) <= MAX_OWNER_BYTES,
        before.token_count is Some,
        before.token_count != Some(u64::MAX),
        !before.unreadable_tokens.contains(position_key(position)),
    ensures
        r is Ok,
        after.tokens == before.tokens.insert(
            position_key(position),
            minted_token(sender, color_map, url),
        ),
        after.token_count == Some((before.token_count.unwrap() + 1) as u64),
        after.config == before.config,
{
}

/// An update by the owner of a claimed cell succeeds, wherever the owner
/// fits the owner index. Made a second time on the wall that it left, it
/// succeeds with the same reply and leaves that wall as it is.
pub proof fn update_by_the_owner_succeeds(
    before: WallView,
    after: WallView,
    again: WallView,
    first: Result<Response, ContractError>,
    second: Result<Response, ContractError>,
    sender: Seq<char>,
    position: u16,
    color_map: Option<ColorMap>,
    url: Option<Seq<char>>,
)
    requires
        update_outcome(before, after, first, sender, position, color_map, url),
        update_outcome(after, again, second, sender, position, color_map, url),
        before.tokens.contains_key(position_key(position)),
        before.tokens[position_key(position)].owner == sender,
        byte_len(sender) <= MAX_OWNER_BYTES,
    ensures
        first is Ok,
        second is Ok,
        first.unwrap()@ == second.unwrap()@,
        again == after,
{
    let key = position_key(position);
    assert(update_refusal(before, position, sender) is None);
    assert(after == after_update(before, position, color_map, url));
    assert(after.tokens.contains_key(key));
    assert(update_refusal(after, position, sender) is None);
    assert(again == after_update(after, position, color_map, url));
    assert(again.tokens =~= after.tokens);
    assert(again.owner_index =~= after.owner_index);
    assert(again.unreadable_tokens =~= after.unreadable_tokens);
}

/// A configuration update by the administrator succeeds, wherever a new
/// owner, if one is named, has a canonical form.
pub proof fn config_update_by_the_administrator_succeeds(
    before: WallView,
    after: WallView,
    r: Result<Response, ContractError>,
    sender: Seq<char>,
    new_owner: Option<Seq<char>>,
)
    requires
        config_update_outcome(before, after, r, sender, new_owner),
        before.config is Some,
        before.addresses.contains_key(sender),
        before.addresses[sender] == before.config.unwrap().owner,
        new_owner is Some ==> before.addresses.contains_key(new_owner.unwrap()),
    ensures
        r is Ok,
        after.config == Some(updated_config(before, new_owner)),
        new_owner is None ==> after == before,
        after.tokens == before.tokens,
{
    assert(config_update_refusal(before, sender, new_owner) is None);
    if new_owner is None {
        assert(after =~= before);
    }
}

/// The first call by a sender with a canonical form succeeds: afterwards the
/// collection goes by the name and the symbol "pixel", the contract's name
/// and version are registered, the sender administers the wall at the fee
/// given, and no cell has changed.
pub proof fn set_up_by_a_known_sender_succeeds(
    before: WallView,
    after: WallView,
    r: Result<Response, StdError>,
    sender: Seq<char>,
    mint_fee: CoinView,
)
    requires
        set_up_outcome(before, after, r, sender, mint_fee),
        before.addresses.contains_key(sender),
    ensures
        r is Ok,
        after.collection == Some(("pixel"@, "pixel"@)),
        after.version == Some((CONTRACT_NAME@, CONTRACT_VERSION@)),
        after.config == Some((ConfigView { owner: before.addresses[sender], mint_fee })),
        after.tokens == before.tokens,
        after.owner_index == before.owner_index,
        after.token_count == before.token_count,
        config_update_refusal(after, sender, None) is None,
{
}

/// A mint at a position beyond the wall is refused as out of range, whoever
/// calls and whatever is paid, and the wall stays as it was.
pub proof fn mint_beyond_the_wall_is_refused(
    before: WallView,
    after: WallView,
    r: Result<Response, ContractError>,
    sender: Seq<char>,
    funds: Seq<CoinView>,
    position: u16,
    color_map: Option<ColorMap>,
    url: Option<Seq<char>>,
)
    requires
        position >= GRID_CELLS,
        mint_outcome(before, after, r, sender, funds, position, color_map, url),
    ensures
        fails_with(r, ErrorKind::InvalidTokenRange),
        after == before,
{
}

/// Once a mint at a position has succeeded, a second mint at the same
/// position whose payment covers the fee is refused as claimed, whoever
/// calls, and the cell keeps the record of the first mint.
pub proof fn second_mint_is_claimed(
    before: WallView,
    between: WallView,
    after: WallView,
    first: Result<Response, ContractError>,
    second: Result<Response, ContractError>,
    position: u16,
    first_sender: Seq<char>,
    first_funds: Seq<CoinView>,
    first_colors: Option<ColorMap>,
    first_url: Option<Seq<char>>,
    second_sender: Seq<char>,
    second_funds: Seq<CoinView>,
    second_colors: Option<ColorMap>,
    second_url: Option<Seq<char>>,
)
    requires
        mint_outcome(
            before,
            between,
            first,
            first_sender,
            first_funds,
            position,
            first_colors,
            first_url,
        ),
        first is Ok,
        mint_outcome(
            between,
            after,
            second,
            second_sender,
            second_funds,
            position,
            second_colors,
            second_url,
        ),
        funds_suffice(second_funds, between.config.unwrap().mint_fee),
    ensures
        position < GRID_CELLS,
        fails_with(second, ErrorKind::Claimed),
        after == between,
        after.tokens.contains_key(position_key(position)),
        after.tokens[position_key(position)] == minted_token(first_sender, first_colors, first_url),
{
    assert(mint_refusal(before, position, first_sender, first_funds) is None);
    assert(between == after_mint(before, position, first_sender, first_colors, first_url));
    assert(between.tokens.contains_key(position_key(position)));
}

/// A successful mint leaves every other cell as it was: claimed or not, and
/// with the same record. The cells of two positions never share a key.
pub proof fn mint_leaves_other_cells(
    before: WallView,
    after: WallView,
    r: Result<Response, ContractError>,
    sender: Seq<char>,
    funds: Seq<CoinView>,
    position: u16,
    color_map: Option<ColorMap>,
    url: Option<Seq<char>>,
    other: u16,
)
    requires
        mint_outcome(before, after, r, sender, funds, position, color_map, url),
        r is Ok,
        other != position,
    ensures
        position_key(other) != position_key(position),
        after.tokens.contains_key(position_key(other)) == before.tokens.contains_key(
            position_key(other),
        ),
        after.tokens[position_key(other)] == before.tokens[position_key(other)],
        after.config == before.config,
        after.addresses == before.addresses,
{
    if position_key(other) == position_key(position) {
        position_key_injective(other, position);
    }
    assert(mint_refusal(before, position, sender, funds) is None);
    assert(after == after_mint(before, position, sender, color_map, url));
}

/// A mint that names neither colours nor a URL stores a blank square and
/// the empty URL.
pub proof fn default_payload_is_blank(sender: Seq<char>)
    ensures
        is_blank_map(minted_token(sender, None, None).extension.pixel_colors),
        minted_token(sender, None, None).extension.url == Seq::<char>::empty(),
{
    blank_colors_are_blank();
}

/// An update replaces exactly the parts of the payload that it names: new
/// colours alone leave the URL, a new URL alone leaves the colours, and an
/// update that names neither leaves the payload as it was.
pub proof fn update_is_partial(existing: PixelExtensionView, colors: ColorMap, url: Seq<char>)
    ensures
        merged_extension(existing, Some(colors), None) == (PixelExtensionView {
            pixel_colors: colors,
            url: existing.url,
        }),
        merged_extension(existing, None, Some(url)) == (PixelExtensionView {
            pixel_colors: existing.pixel_colors,
            url,
        }),
        merged_extension(existing, None, None) == existing,
        merged_extension(existing, Some(colors), Some(url)) == (PixelExtensionView {
            pixel_colors: colors,
            url,
        }),
{
}

/// A successful update stores the merged payload under the cell's key and
/// keeps the cell's owner, approvals and token URI. The records of all
/// other cells stay as they were.
pub proof fn update_stores_the_merged_payload(
    before: WallView,
    after: WallView,
    r: Result<Response, ContractError>,
    sender: Seq<char>,
    position: u16,
    color_map: Option<ColorMap>,
    url: Option<Seq<char>>,
)
    requires
        update_outcome(before, after, r, sender, position, color_map, url),
        r is Ok,
    ensures
        before.tokens.contains_key(position_key(position)),
        before.tokens[position_key(position)].owner == sender,
        after.tokens.contains_key(position_key(position)),
        after.tokens[position_key(position)].extension == merged_extension(
            before.tokens[position_key(position)].extension,
            color_map,
            url,
        ),
        after.tokens[position_key(position)].owner == sender,
        after.tokens[position_key(position)].approvals == before.tokens[position_key(
            position,
        )].approvals,
        after.tokens[position_key(position)].token_uri == before.tokens[position_key(
            position,
        )].token_uri,
        forall|key: Seq<char>|
            key != position_key(position) ==> after.tokens.contains_key(key)
                == before.tokens.contains_key(key) && after.tokens[key] == before.tokens[key],
{
    assert(update_refusal(before, position, sender) is None);
    assert(after == after_update(before, position, color_map, url));
}

/// An update by anyone but the owner of a claimed cell is refused as
/// unauthorized and leaves the wall as it was.
pub proof fn update_by_a_stranger_is_refused(
    before: WallView,
    after: WallView,
    r: Result<Response, ContractError>,
    sender: Seq<char>,
    position: u16,
    color_map: Option<ColorMap>,
    url: Option<Seq<char>>,
)
    requires
        update_outcome(before, after, r, sender, position, color_map, url),
        before.tokens.contains_key(position_key(position)),
        before.tokens[position_key(position)].owner != sender,
    ensures
        fails_with(r, ErrorKind::Unauthorized),
        after == before,
{
}

/// An update of a cell that was never claimed is refused as not existing
/// and leaves the wall as it was.
pub proof fn update_of_an_unclaimed_cell_is_refused(
    before: WallView,
    after: WallView,
    r: Result<Response, ContractError>,
    sender: Seq<char>,
    position: u16,
    color_map: Option<ColorMap>,
    url: Option<Seq<char>>,
)
    requires
        update_outcome(before, after, r, sender, position, color_map, url),
        !before.tokens.contains_key(position_key(position)),
    ensures
        fails_with(r, ErrorKind::DoesNotExist),
        after == before,
{
}

/// A fee above zero is paid by a single coin exactly where the coin is the
/// fee: the same denomination and the same amount, neither less nor more.
pub proof fn fee_is_paid_by_the_exact_coin(fee: CoinView, paid: CoinView)
    requires
        fee.amount > 0,
    ensures
        funds_suffice(seq![paid], fee) <==> (paid.denom == fee.denom && paid.amount == fee.amount),
        !funds_suffice(Seq::<CoinView>::empty(), fee),
        !funds_suffice(seq![paid, paid], fee),
{
}

/// A fee of zero is paid by any payment.
pub proof fn no_fee_is_always_paid(fee: CoinView, funds: Seq<CoinView>)
    requires
        fee.amount == 0,
    ensures
        funds_suffice(funds, fee),
{
}

/// Different texts have different bytes.
pub proof fn key_bytes_are_injective(a: Seq<char>, b: Seq<char>)
    requires
        encode_utf8(a) == encode_utf8(b),
    ensures
        a == b,
{
    encode_utf8_decode_utf8(a);
    encode_utf8_decode_utf8(b);
}

/// A successful mint into a wall whose owner index is consistent leaves it consistent.
pub proof fn mint_keeps_the_index_consistent(
    before: WallView,
    position: u16,
    sender: Seq<char>,
    color_map: Option<ColorMap>,
    url: Option<Seq<char>>,
)
    requires
        before.index_consistent(),
        !before.tokens.contains_key(position_key(position)),
    ensures
        after_mint(before, position, sender, color_map, url).index_consistent(),
{
    let key = position_key(position);
    let after = after_mint(before, position, sender, color_map, url);
    assert forall|o: Seq<char>, k: Seq<char>| #[trigger]
        after.owner_index.contains((o, encode_utf8(k))) <==> (after.tokens.contains_key(k)
            && after.tokens[k].owner == o) by {
        if k != key {
            if encode_utf8(k) == encode_utf8(key) {
                key_bytes_are_injective(k, key);
            }
            assert(after.owner_index.contains((o, encode_utf8(k))) == before.owner_index.contains(
                (o, encode_utf8(k)),
            ));
        } else {
            assert(!before.owner_index.contains((o, encode_utf8(key))));
        }
    }
    assert forall|o: Seq<char>| after.keys_are_text(o) by {
        assert(before.keys_are_text(o));
        encode_utf8_valid_utf8(key);
    }
}

/// A successful update of a wall whose owner index is consistent leaves the
/// index as it was, and consistent.
pub proof fn update_keeps_the_index(
    before: WallView,
    position: u16,
    color_map: Option<ColorMap>,
    url: Option<Seq<char>>,
)
    requires
        before.index_consistent(),
        before.tokens.contains_key(position_key(position)),
    ensures
        after_update(before, position, color_map, url).owner_index == before.owner_index,
        after_update(before, position, color_map, url).index_consistent(),
{
    let key = position_key(position);
    let after = after_update(before, position, color_map, url);
    let owner = before.tokens[key].owner;
    assert(before.owner_index.contains((owner, encode_utf8(key))));
    assert(after.owner_index =~= before.owner_index);
    assert forall|o: Seq<char>, k: Seq<char>| #[trigger]
        after.owner_index.contains((o, encode_utf8(k))) <==> (after.tokens.contains_key(k)
            && after.tokens[k].owner == o) by {
        assert(after.owner_index.contains((o, encode_utf8(k))) == before.owner_index.contains(
            (o, encode_utf8(k)),
        ));
    }
    assert forall|o: Seq<char>| after.keys_are_text(o) by {
        assert(before.keys_are_text(o));
    }
}

/// On a wall whose owner index is consistent, a listing is owed a page for
/// every owner that the address API accepts.
pub proof fn consistent_wall_owes_listings(wall: WallView, owner: Seq<char>)
    requires
        wall.index_consistent(),
        wall.valid_addresses.contains(owner),
    ensures
        wall.listing_is_owed(owner),
{
}

/// One call of the mint: its inputs and its result.
pub struct Minting {
    pub sender: Seq<char>,
    pub funds: Seq<CoinView>,
    pub position: u16,
    pub color_map: Option<ColorMap>,
    pub url: Option<Seq<char>>,
    pub result: Result<Response, ContractError>,
}

impl Minting {
    /// Whether this call succeeded and took the wall from `before` to `after`.
    pub open spec fn done(self, before: WallView, after: WallView) -> bool {
        self.result is Ok && mint_outcome(
            before,
            after,
            self.result,
            self.sender,
            self.funds,
            self.position,
            self.color_map,
            self.url,
        )
    }
}

/// No key comes before itself.
pub proof fn key_before_is_irreflexive(key: Seq<char>)
    ensures
        !key_before(key, key),
    decreases key.len(),
{
    if key.len() > 0 {
        key_before_is_irreflexive(key.drop_first());
    }
}

/// After two successful mints by one owner and a third by another, on a
/// wall with a consistent owner index that held no cell of either, the
/// index is consistent still, the first page of the first owner's listing
/// holds exactly the keys of the first two cells, and that of the second
/// owner exactly the key of the third.
pub proof fn listing_shows_each_owner_their_cells(
    before: WallView,
    after_first: WallView,
    after_second: WallView,
    after: WallView,
    first: Minting,
    second: Minting,
    third: Minting,
    first_page: Seq<Seq<char>>,
    second_page: Seq<Seq<char>>,
)
    requires
        before.index_consistent(),
        forall|key: Seq<char>|
            before.tokens.contains_key(key) ==> (#[trigger] before.tokens[key]).owner
                != first.sender && before.tokens[key].owner != third.sender,
        first.sender == second.sender,
        first.sender != third.sender,
        first.done(before, after_first),
        second.done(after_first, after_second),
        third.done(after_second, after),
        is_page_of(after, first.sender, None, None, first_page),
        is_page_of(after, third.sender, None, None, second_page),
    ensures
        after.index_consistent(),
        first.position != second.position,
        first_page.len() == 2,
        first_page.contains(position_key(first.position)),
        first_page.contains(position_key(second.position)),
        second_page == seq![position_key(third.position)],
{
    let first_owner = first.sender;
    let second_owner = third.sender;
    let k1 = position_key(first.position);
    let k2 = position_key(second.position);
    let k3 = position_key(third.position);
    let w1 = after_first;
    let w2 = after_second;
    let w3 = after;
    assert(mint_refusal(before, first.position, first.sender, first.funds) is None);
    assert(mint_refusal(w1, second.position, second.sender, second.funds) is None);
    assert(mint_refusal(w2, third.position, third.sender, third.funds) is None);
    assert(w1 == after_mint(before, first.position, first.sender, first.color_map, first.url));
    assert(w2 == after_mint(w1, second.position, second.sender, second.color_map, second.url));
    assert(w3 == after_mint(w2, third.position, third.sender, third.color_map, third.url));
    mint_keeps_the_index_consistent(
        before,
        first.position,
        first.sender,
        first.color_map,
        first.url,
    );
    mint_keeps_the_index_consistent(
        w1,
        second.position,
        second.sender,
        second.color_map,
        second.url,
    );
    mint_keeps_the_index_consistent(
        w2,
        third.position,
        third.sender,
        third.color_map,
        third.url,
    );
    assert(w1.tokens.contains_key(k1));
    assert(k1 != k2);
    assert(k1 != k3);
    assert(k2 != k3);

    assert forall|key: Seq<char>| listed(w3, first_owner, None, key) <==> (key == k1 || key
        == k2) by {
        assert(w3.owner_index.contains((first_owner, encode_utf8(key))) <==> (
        w3.tokens.contains_key(key) && w3.tokens[key].owner == first_owner));
    }
    assert forall|key: Seq<char>| listed(w3, second_owner, None, key) <==> key == k3 by {
        assert(w3.owner_index.contains((second_owner, encode_utf8(key))) <==> (
        w3.tokens.contains_key(key) && w3.tokens[key].owner == second_owner));
    }
    assert(page_size(None) == 10);

    assert forall|i: int, j: int| 0 <= i < j < first_page.len() implies first_page[i]
        != first_page[j] by {
        key_before_is_irreflexive(first_page[i]);
    }
    if first_page.len() >= 3 {
        assert(listed(w3, first_owner, None, first_page[0]));
        assert(listed(w3, first_owner, None, first_page[1]));
        assert(listed(w3, first_owner, None, first_page[2]));
        assert(first_page[0] != first_page[1]);
        assert(first_page[0] != first_page[2]);
        assert(first_page[1] != first_page[2]);
    }
    assert(listed(w3, first_owner, None, k1));
    assert(listed(w3, first_owner, None, k2));
    assert(first_page.contains(k1));
    assert(first_page.contains(k2));
    let i1 = choose|i: int| 0 <= i < first_page.len() && first_page[i] == k1;
    let i2 = choose|i: int| 0 <= i < first_page.len() && first_page[i] == k2;
    assert(i1 != i2);

    assert forall|i: int, j: int| 0 <= i < j < second_page.len() implies second_page[i]
        != second_page[j] by {
        key_before_is_irreflexive(second_page[i]);
    }
    if second_page.len() >= 2 {
        assert(listed(w3, second_owner, None, second_page[0]));
        assert(listed(w3, second_owner, None, second_page[1]));
        assert(second_page[0] != second_page[1]);
    }
    assert(listed(w3, second_owner, None, k3));
    assert(second_page.contains(k3));
    assert(listed(w3, second_owner, None, second_page[0]));
    assert(second_page =~= seq![k3]);
}

/// A configuration update by anyone but the administrator is refused as
/// unauthorized and leaves the wall as it was.
pub proof fn config_update_by_a_stranger_is_refused(
    before: WallView,
    after: WallView,
    r: Result<Response, ContractError>,
    sender: Seq<char>,
    new_owner: Option<Seq<char>>,
)
    requires
        config_update_outcome(before, after, r, sender, new_owner),
        before.config is Some,
        before.addresses.contains_key(sender),
        before.addresses[sender] != before.config.unwrap().owner,
    ensures
        fails_with(r, ErrorKind::Unauthorized),
        after == before,
{
}

/// After the administrator has handed the wall to a new owner, later
/// configuration updates go by the new owner: the new owner is admitted, and
/// anyone whose canonical address differs from the new owner's, the former
/// administrator too, is refused as unauthorized.
pub proof fn config_update_hands_over_the_wall(
    before: WallView,
    after: WallView,
    r: Result<Response, ContractError>,
    sender: Seq<char>,
    new_owner: Seq<char>,
    later_sender: Seq<char>,
    later_owner: Option<Seq<char>>,
)
    requires
        config_update_outcome(before, after, r, sender, Some(new_owner)),
        r is Ok,
        after.addresses.contains_key(later_sender),
    ensures
        before.config is Some,
        before.addresses.contains_key(sender),
        before.addresses[sender] == before.config.unwrap().owner,
        after.config is Some,
        after.config.unwrap().owner == before.addresses[new_owner],
        after.config.unwrap().mint_fee == before.config.unwrap().mint_fee,
        config_update_refusal(after, new_owner, None) is None,
        after.addresses[later_sender] != after.addresses[new_owner] ==> config_update_refusal(
            after,
            later_sender,
            later_owner,
        ) == Some(ErrorKind::Unauthorized),
{
    assert(config_update_refusal(before, sender, Some(new_owner)) is None);
    assert(after == before.with_config(updated_config(before, Some(new_owner))));
}

} // verus!
