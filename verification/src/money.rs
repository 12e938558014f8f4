//! Amounts of money as the gateway writes them.

use vstd::prelude::*;
use crate::enums::Currency;

verus! {

/// An amount in the minor unit of its currency, as the gateway's
/// `amount_money` objects hold it.
#[derive(Clone, Copy, Debug, PartialEq, Eq, Structural)]
pub struct AmountMoney {
    pub amount: i64,
    pub currency: Currency,
}

impl Default for AmountMoney {
    fn default() -> (money: Self)
        ensures
            money == (AmountMoney { amount: 0, currency: Currency::USD }),
    {
        AmountMoney { amount: 0, currency: Currency::default() }
    }
}

impl AmountMoney {
    /// The gateway's rendering of `amount` minor units of `currency`.
    pub open spec fn spec_to_wire(amount: i64, currency: Currency) -> AmountMoney {
        AmountMoney { amount, currency }
    }

    /// The canonical pair that `self` stands for.
    pub open spec fn spec_from_wire(self) -> (i64, Currency) {
        (self.amount, self.currency)
    }

    /// Writes a canonical amount the way the gateway expects it. Both sides
    /// count in minor units, so nothing is scaled or rounded.
    #[verifier::when_used_as_spec(spec_to_wire)]
    pub fn to_wire(amount: i64, currency: Currency) -> (wire: AmountMoney)
        ensures
            wire == Self::spec_to_wire(amount, currency),
    {
        AmountMoney { amount, currency }
    }

    /// Reads the canonical amount back out of the gateway's rendering.
    #[verifier::when_used_as_spec(spec_from_wire)]
    pub fn from_wire(self) -> (pair: (i64, Currency))
        ensures
            pair == self.spec_from_wire(),
    {
        (self.amount, self.currency)
    }

    /// Reading back what was written gives the amount and currency that
    /// were written, for every amount and every currency.
    pub proof fn lemma_write_then_read(amount: i64, currency: Currency)
        ensures
            Self::spec_to_wire(amount, currency).spec_from_wire() == (amount, currency),
    {
    }

    /// Writing what was read gives the gateway's rendering back unchanged.
    pub proof fn lemma_read_then_write(wire: AmountMoney)
        ensures
            Self::spec_to_wire(wire.spec_from_wire().0, wire.spec_from_wire().1) == wire,
    {
    }
}

} // verus!
