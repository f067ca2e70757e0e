use vstd::prelude::*;

verus! {

/// Schema version written into every newly created agreement.
pub const ESCROW_VERSION: u8 = 1;

/// An identity on the external ledger (a party or an asset kind), reduced to
/// the key material the escrow rules compare. The all-zero key is the null
/// (default) identity, which no real party or asset may use.
#[derive(Clone, Copy, PartialEq, Eq, Structural, Debug)]
pub struct Address {
    pub key: u64,
}

impl Address {
    /// The null (default) identity.
    pub open spec fn spec_is_null(self) -> bool {
        self.key == 0
    }

    /// Whether this is the null (default) identity.
    pub fn is_null(&self) -> (r: bool)
        ensures
            r == self.spec_is_null(),
    {
        self.key == 0
    }
}

/// The lifecycle stage of an escrow agreement.
///
/// `Cancelled` is reserved: no operation defined here moves an agreement into
/// or out of it.
#[derive(Clone, Copy, PartialEq, Eq, Structural, Debug)]
pub enum EscrowState {
    Created,
    Funded,
    MarkedAsShipped,
    BuyerConfirmed,
    FundsReleased,
    Cancelled,
}

/// The escrow agreement record: one seller/buyer deal, addressed by the
/// composite key (`seller`, `id`).
#[derive(Clone, Copy, Debug)]
pub struct Escrow {
    /// Schema version for forward compatibility.
    pub version: u8,
    /// Current lifecycle stage.
    pub state: EscrowState,
    /// Caller-chosen identifier, unique per seller.
    pub id: u64,
    /// Party that creates the agreement and receives the funds on release.
    pub seller: Address,
    /// Party that funds the agreement and confirms receipt.
    pub buyer: Address,
    /// Recorded third party for future dispute use; inert in every
    /// transition defined here.
    pub arbiter: Address,
    /// The fungible asset kind that must be transferred.
    pub token_mint: Address,
    /// Exact quantity to be transferred; always positive.
    pub amount: u64,
    /// Grace period in seconds after shipment before the seller may withdraw
    /// without the buyer's confirmation; never negative.
    pub auto_complete_duration: i64,
    /// Ledger slot at which the terms were recorded, the fingerprint checked
    /// at funding time against terms tampering.
    pub terms_update_slot: u64,
    /// Timestamp of the shipment mark; `None` until the seller marks the
    /// item shipped, and never cleared afterwards.
    pub marked_shipped_at: Option<i64>,
}

impl Escrow {
    /// Whether the agreement has ever reached the `MarkedAsShipped` stage.
    pub open spec fn reached_shipment(self) -> bool {
        ||| self.state is MarkedAsShipped
        ||| self.state is BuyerConfirmed
        ||| self.state is FundsReleased
    }

    /// Well-formedness of an agreement record: the terms policy that
    /// creation enforces, and the shipment timestamp present exactly in the
    /// stages that follow the shipment mark.
    pub open spec fn wf(self) -> bool {
        &&& self.amount > 0
        &&& self.buyer != self.seller
        &&& !self.buyer.spec_is_null()
        &&& !self.arbiter.spec_is_null()
        &&& self.auto_complete_duration >= 0
        &&& (self.state is Created || self.state is Funded ==> self.marked_shipped_at is None)
        &&& (self.reached_shipment() ==> self.marked_shipped_at is Some)
    }
}

} // verus!
