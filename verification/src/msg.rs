//! What a caller hands to the wall: who calls and with what payment, and the
//! messages of the entry points.

use vstd::prelude::*;
use crate::state::{Coin, ColorMap};

verus! {

/// Who called, and what payment came with the call.
#[derive(Clone, Debug, PartialEq)]
pub struct MessageInfo {
    /// The address that sent the message.
    pub sender: String,
    /// The coins sent along.
    pub funds: Vec<Coin>,
}

/// The message that sets up the wall.
#[derive(Clone, Debug, PartialEq)]
pub struct InstantiateMsg {
    /// The fee asked for each mint; an amount of zero asks for none.
    pub mint_fee: Coin,
}

/// The messages that change the wall.
#[derive(Clone, Debug, PartialEq)]
#[allow(inconsistent_fields)]
pub enum ExecuteMsg {
    /// Hands the administration to `owner`, if one is named.
    UpdateConfig { owner: Option<String> },
    /// Claims the cell at `token_id`.
    Mint { token_id: u16, color_map: Option<ColorMap>, url: Option<String> },
    /// Sets the URL of the cell at `token_id`.
    ChangeUrl { token_id: u16, url: String },
    /// Sets the colours of the cell at `token_id`.
    ChangeColor { token_id: u16, color_map: ColorMap },
}

} // verus!
