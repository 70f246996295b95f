//! The Bitcoin networks an address or invoice can belong to.

use vstd::prelude::*;

verus! {

/// A Bitcoin network.
#[derive(Clone, Copy, Debug, PartialEq, Eq, Structural, Hash)]
pub enum Network {
    /// Mainnet
    Bitcoin,
    Testnet3,
    Testnet4,
    Signet,
    Regtest,
}

impl View for Network {
    type V = Network;

    open spec fn view(&self) -> Network {
        *self
    }
}

impl DeepView for Network {
    type V = Network;

    open spec fn deep_view(&self) -> Network {
        *self
    }
}

impl Network {
    /// The network's lower-case name.
    pub open spec fn name_spec(self) -> Seq<char> {
        match self {
            Network::Bitcoin => seq!['b', 'i', 't', 'c', 'o', 'i', 'n'],
            Network::Testnet3 => seq!['t', 'e', 's', 't', 'n', 'e', 't', '3'],
            Network::Testnet4 => seq!['t', 'e', 's', 't', 'n', 'e', 't', '4'],
            Network::Signet => seq!['s', 'i', 'g', 'n', 'e', 't'],
            Network::Regtest => seq!['r', 'e', 'g', 't', 'e', 's', 't'],
        }
    }

    /// The network's lower-case name.
    pub fn name(&self) -> (r: &'static str)
        ensures
            r@ == self.name_spec(),
    {
        proof {
            reveal_strlit("bitcoin");
            reveal_strlit("testnet3");
            reveal_strlit("testnet4");
            reveal_strlit("signet");
            reveal_strlit("regtest");
        }
        let r = match self {
            Network::Bitcoin => "bitcoin",
            Network::Testnet3 => "testnet3",
            Network::Testnet4 => "testnet4",
            Network::Signet => "signet",
            Network::Regtest => "regtest",
        };
        assert(r@ =~= self.name_spec());
        r
    }
}

} // verus!
