//! Where a tab leads: a screen and the block of it that has the focus.

use vstd::prelude::*;

verus! {

/// A screen of the dashboard.
#[derive(Clone, Copy, Debug, PartialEq, Eq, Structural)]
pub enum RouteId {
    Intro,
    Decoder,
}

/// A block of a screen that can hold the focus.
#[derive(Clone, Copy, Debug, PartialEq, Eq, Structural)]
pub enum ActiveBlock {
    Intro,
    DecoderToken,
    DecoderHeader,
    DecoderPayload,
    DecoderSecret,
}

/// A screen together with its focused block.
#[derive(Clone, Copy, Debug, PartialEq, Eq, Structural)]
pub struct Route {
    pub id: RouteId,
    pub active_block: ActiveBlock,
}

} // verus!
