//! Counts of what became of the swaps.

use crate::chain::Coin;
use crate::rpc::Outcome;
use vstd::prelude::*;

verus! {

/// The counts.
#[derive(Clone, Copy, PartialEq, Eq, Structural, Debug, Hash)]
pub struct Stats {
    pub success: u64,
    pub refund: u64,
    pub punish: u64,
    pub initialized: u64,
    pub awaiting_funding_btc: u64,
    pub awaiting_funding_xmr: u64,
    pub funded_xmr: u64,
    pub funded_btc: u64,
    pub funding_canceled_xmr: u64,
}

impl Stats {
    /// The count of an outcome.
    pub open spec fn outcomes(self, outcome: Outcome) -> u64 {
        match outcome {
            Outcome::Buy => self.success,
            Outcome::Refund => self.refund,
            Outcome::Punish => self.punish,
        }
    }

    /// The count of swaps that wait for a coin.
    pub open spec fn awaiting(self, coin: Coin) -> u64 {
        match coin {
            Coin::Bitcoin => self.awaiting_funding_btc,
            Coin::Monero => self.awaiting_funding_xmr,
        }
    }

    /// The count of swaps that got a coin.
    pub open spec fn funded(self, coin: Coin) -> u64 {
        match coin {
            Coin::Bitcoin => self.funded_btc,
            Coin::Monero => self.funded_xmr,
        }
    }

    /// One outcome more.
    pub open spec fn with_outcome(self, outcome: Outcome) -> Stats {
        match outcome {
            Outcome::Buy => Stats { success: (self.success + 1) as u64, ..self },
            Outcome::Refund => Stats { refund: (self.refund + 1) as u64, ..self },
            Outcome::Punish => Stats { punish: (self.punish + 1) as u64, ..self },
        }
    }

    /// One swap more that waits for a coin.
    pub open spec fn with_awaiting(self, coin: Coin) -> Stats {
        match coin {
            Coin::Bitcoin => Stats {
                awaiting_funding_btc: (self.awaiting_funding_btc + 1) as u64,
                ..self
            },
            Coin::Monero => Stats {
                awaiting_funding_xmr: (self.awaiting_funding_xmr + 1) as u64,
                ..self
            },
        }
    }

    /// One swap that got the coin it waited for.
    pub open spec fn with_funded(self, coin: Coin) -> Stats {
        match coin {
            Coin::Bitcoin => Stats {
                funded_btc: (self.funded_btc + 1) as u64,
                awaiting_funding_btc: (self.awaiting_funding_btc - 1) as u64,
                ..self
            },
            Coin::Monero => Stats {
                funded_xmr: (self.funded_xmr + 1) as u64,
                awaiting_funding_xmr: (self.awaiting_funding_xmr - 1) as u64,
                ..self
            },
        }
    }

    /// One swap that no longer waits for Monero, because it was called off.
    pub open spec fn with_canceled(self) -> Stats {
        Stats {
            awaiting_funding_xmr: (self.awaiting_funding_xmr - 1) as u64,
            funding_canceled_xmr: (self.funding_canceled_xmr + 1) as u64,
            ..self
        }
    }

    /// One swap more that was started.
    pub open spec fn with_initiated(self) -> Stats {
        Stats { initialized: (self.initialized + 1) as u64, ..self }
    }

    /// All counts at zero.
    pub open spec fn zero() -> Stats {
        Stats {
            success: 0,
            refund: 0,
            punish: 0,
            initialized: 0,
            awaiting_funding_btc: 0,
            awaiting_funding_xmr: 0,
            funded_xmr: 0,
            funded_btc: 0,
            funding_canceled_xmr: 0,
        }
    }

    /// The swaps that succeeded, and all that have ended.
    pub fn success_share(&self) -> (r: (u64, u128))
        ensures
            r.0 == self.success,
            r.1 == self.success + self.refund + self.punish,
    {
        (self.success, self.success as u128 + self.refund as u128 + self.punish as u128)
    }

    /// Counts an outcome.
    pub fn incr_outcome(&mut self, outcome: &Outcome)
        requires
            old(self).outcomes(*outcome) < u64::MAX,
        ensures
            *final(self) == old(self).with_outcome(*outcome),
    {
        match outcome {
            Outcome::Buy => {
                self.success += 1;
            },
            Outcome::Refund => {
                self.refund += 1;
            },
            Outcome::Punish => {
                self.punish += 1;
            },
        }
    }

    /// Counts a swap that was started.
    pub fn incr_initiated(&mut self)
        requires
            old(self).initialized < u64::MAX,
        ensures
            *final(self) == old(self).with_initiated(),
    {
        self.initialized += 1;
    }

    /// Counts a swap that waits for a coin.
    pub fn incr_awaiting_funding(&mut self, coin: &Coin)
        requires
            old(self).awaiting(*coin) < u64::MAX,
        ensures
            *final(self) == old(self).with_awaiting(*coin),
    {
        match coin {
            Coin::Monero => {
                self.awaiting_funding_xmr += 1;
            },
            Coin::Bitcoin => {
                self.awaiting_funding_btc += 1;
            },
        }
    }

    /// Counts a swap that got the coin it waited for.
    pub fn incr_funded(&mut self, coin: &Coin)
        requires
            old(self).funded(*coin) < u64::MAX,
            old(self).awaiting(*coin) > 0,
        ensures
            *final(self) == old(self).with_funded(*coin),
    {
        match coin {
            Coin::Monero => {
                self.funded_xmr += 1;
                self.awaiting_funding_xmr -= 1;
            },
            Coin::Bitcoin => {
                self.funded_btc += 1;
                self.awaiting_funding_btc -= 1;
            },
        }
    }

    /// Counts a swap that no longer waits for Monero, because it was called off.
    pub fn incr_funding_monero_canceled(&mut self)
        requires
            old(self).awaiting_funding_xmr > 0,
            old(self).funding_canceled_xmr < u64::MAX,
        ensures
            *final(self) == old(self).with_canceled(),
    {
        self.awaiting_funding_xmr -= 1;
        self.funding_canceled_xmr += 1;
    }
}

impl Default for Stats {
    fn default() -> (s: Stats)
        ensures
            s == Stats::zero(),
    {
        Stats {
            success: 0,
            refund: 0,
            punish: 0,
            initialized: 0,
            awaiting_funding_btc: 0,
            awaiting_funding_xmr: 0,
            funded_xmr: 0,
            funded_btc: 0,
            funding_canceled_xmr: 0,
        }
    }
}

} // verus!
