//! The data of the pixel wall: colours, the payload attached to a cell, the
//! record kept for a claimed cell, and the registry's configuration. Every
//! type that owns heap data has a view, and the contracts of the crate are
//! stated over those views.

use vstd::prelude::*;
use vstd::array::{axiom_spec_array_fill_for_copy_type, spec_array_fill_for_copy_type};
use cw721_base::state::Approval;

pub use crate::chain::{config_read, config_store};

verus! {

/// A delegation entry of the token standard's base contract. The wall never
/// looks inside one.
#[verifier::external_type_specification]
#[verifier::external_body]
pub struct ExApproval(Approval);

/// A colour: red, green, blue and a free alpha channel.
/// Since all channels have range [0, 255] a `u8` suffices.
#[derive(Clone, Copy, Debug, PartialEq, Eq, Structural)]
pub struct Color {
    /// Red part of the colour.
    pub r: u8,
    /// Green part of the colour.
    pub g: u8,
    /// Blue part of the colour.
    pub b: u8,
    /// Free alpha.
    pub a: u8,
}

/// The square of colours attached to one cell.
pub type ColorMap = [[Color; 5]; 5];

impl Color {
    /// The colour with every channel at zero.
    pub open spec fn blank() -> Color {
        Color { r: 0, g: 0, b: 0, a: 0 }
    }
}

/// Whether every entry of `colors` is the blank colour.
pub open spec fn is_blank_map(colors: ColorMap) -> bool {
    forall|i: int, j: int| 0 <= i < 5 && 0 <= j < 5 ==> (#[trigger] colors[i][j]) == Color::blank()
}

/// The square whose every entry is the blank colour.
pub open spec fn blank_colors() -> ColorMap {
    spec_array_fill_for_copy_type::<[Color; 5], 5>(
        spec_array_fill_for_copy_type::<Color, 5>(Color::blank()),
    )
}

/// Every entry of the blank square is the blank colour.
pub proof fn blank_colors_are_blank()
    ensures
        is_blank_map(blank_colors()),
{
    broadcast use axiom_spec_array_fill_for_copy_type;

    let row = spec_array_fill_for_copy_type::<Color, 5>(Color::blank());
    assert forall|i: int, j: int| 0 <= i < 5 && 0 <= j < 5 implies (#[trigger] blank_colors()[i][j])
        == Color::blank() by {
        assert(blank_colors()@[i] == row);
        assert(row@[j] == Color::blank());
    }
}

/// A square of blank colours.
pub fn new_blank_colors() -> (colors: ColorMap)
    ensures
        colors == blank_colors(),
{
    [[Color { r: 0, g: 0, b: 0, a: 0 }; 5]; 5]
}

/// The payload of a cell: a square of colours and a URL.
#[derive(Clone, Debug, PartialEq)]
pub struct PixelExtension {
    pub pixel_colors: ColorMap,
    pub url: String,
}

/// What a `PixelExtension` holds, as mathematical values.
pub struct PixelExtensionView {
    pub pixel_colors: ColorMap,
    pub url: Seq<char>,
}

impl View for PixelExtension {
    type V = PixelExtensionView;

    open spec fn view(&self) -> PixelExtensionView {
        PixelExtensionView { pixel_colors: self.pixel_colors, url: self.url@ }
    }
}

/// The view of an optional string.
pub open spec fn opt_view(s: Option<String>) -> Option<Seq<char>> {
    match s {
        Some(s) => Some(s@),
        None => None,
    }
}

/// The record kept for one claimed cell.
///
/// `approvals` belongs to the token standard's transfer machinery; the wall
/// carries the entries through without looking inside them.
#[derive(Clone, Debug, PartialEq)]
pub struct PixelTokenInfo {
    /// The owner of the cell.
    pub owner: String,
    /// Delegations granted on the cell.
    pub approvals: Vec<Approval>,
    /// Link to external metadata of the token (not the payload's URL).
    pub token_uri: Option<String>,
    /// The payload.
    pub extension: PixelExtension,
}

/// What a `PixelTokenInfo` holds, as mathematical values.
pub struct PixelTokenInfoView {
    pub owner: Seq<char>,
    pub approvals: Seq<Approval>,
    pub token_uri: Option<Seq<char>>,
    pub extension: PixelExtensionView,
}

impl View for PixelTokenInfo {
    type V = PixelTokenInfoView;

    open spec fn view(&self) -> PixelTokenInfoView {
        PixelTokenInfoView {
            owner: self.owner@,
            approvals: self.approvals@,
            token_uri: opt_view(self.token_uri),
            extension: self.extension@,
        }
    }
}

/// An amount of one denomination of currency.
#[derive(Clone, Debug, PartialEq)]
pub struct Coin {
    pub denom: String,
    pub amount: u128,
}

/// What a `Coin` holds, as mathematical values.
pub struct CoinView {
    pub denom: Seq<char>,
    pub amount: u128,
}

impl View for Coin {
    type V = CoinView;

    open spec fn view(&self) -> CoinView {
        CoinView { denom: self.denom@, amount: self.amount }
    }
}

/// The views of a list of coins, in order.
pub open spec fn coin_views(coins: Seq<Coin>) -> Seq<CoinView> {
    Seq::new(coins.len(), |i: int| coins[i]@)
}

/// The registry's configuration: the administrator, in canonical form, and
/// the fee asked for a mint.
#[derive(Clone, Debug, PartialEq)]
pub struct Config {
    pub owner: Vec<u8>,
    pub mint_fee: Coin,
}

/// What a `Config` holds, as mathematical values.
pub struct ConfigView {
    pub owner: Seq<u8>,
    pub mint_fee: CoinView,
}

impl View for Config {
    type V = ConfigView;

    open spec fn view(&self) -> ConfigView {
        ConfigView { owner: self.owner@, mint_fee: self.mint_fee@ }
    }
}

} // verus!
