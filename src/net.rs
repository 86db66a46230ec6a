use vstd::prelude::*;
use vstd::string::StringExecFns;

verus! {

/// The ledger deployment a command talks to.
#[derive(Clone, Copy, Debug, PartialEq, Eq, Structural)]
pub enum SuiNet {
    Localnet,
    Devnet,
    Testnet,
    Mainnet,
}

/// Lower-case name of a network, as shown to users and written in files.
pub open spec fn net_label(net: SuiNet) -> Seq<char> {
    match net {
        SuiNet::Localnet => "localnet"@,
        SuiNet::Devnet => "devnet"@,
        SuiNet::Testnet => "testnet"@,
        SuiNet::Mainnet => "mainnet"@,
    }
}

impl SuiNet {
    /// Whether a faucet may be asked for coins on this network.
    pub open spec fn spec_allows_top_up(&self) -> bool {
        !(self is Mainnet)
    }

    #[verifier::when_used_as_spec(spec_allows_top_up)]
    pub fn allows_top_up(&self) -> (r: bool)
        ensures
            r == self.spec_allows_top_up(),
    {
        !matches!(self, SuiNet::Mainnet)
    }

    /// The network's lower-case name.
    pub fn to_string(&self) -> (r: String)
        ensures
            r@ == net_label(*self),
    {
        match self {
            SuiNet::Localnet => String::from_str("localnet"),
            SuiNet::Devnet => String::from_str("devnet"),
            SuiNet::Testnet => String::from_str("testnet"),
            SuiNet::Mainnet => String::from_str("mainnet"),
        }
    }
}

impl Default for SuiNet {
    fn default() -> (r: SuiNet)
        ensures
            r == SuiNet::Localnet,
    {
        SuiNet::Localnet
    }
}

} // verus!
