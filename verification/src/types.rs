use vstd::prelude::*;

verus! {

/// How the traded asset is held by the platform: a registered fungible token,
/// or the platform's native unit.
#[derive(Clone, Copy, PartialEq, Eq, Structural, Debug)]
pub enum AssetKind {
    Spl,
    Native,
}

/// The direction of an order: on a `Sell` the creator deposits value and the
/// counterparty pays fiat; on a `Buy` the roles invert.
#[derive(Clone, Copy, PartialEq, Eq, Structural, Debug)]
pub enum OfferType {
    Sell,
    Buy,
}

impl OfferType {
    /// The flag an order record stores for this direction.
    pub fn is_sell(&self) -> (r: bool)
        ensures
            r <==> *self == OfferType::Sell,
    {
        match self {
            OfferType::Sell => true,
            OfferType::Buy => false,
        }
    }
}

} // verus!
