//! The names of the sources of rates.

use vstd::prelude::*;
use vstd::string::StringExecFns;
use crate::text::lowercase_of;
use crate::text::str_equal;
use crate::text::to_lowercase;

verus! {

/// A failure of a source of rates, with its message.
#[derive(Debug)]
pub struct ProviderError {
    pub message: String,
}

impl ProviderError {
    pub fn new(message: &str) -> (r: Self)
        ensures
            r.message@ == message@,
    {
        ProviderError { message: String::from_str(message) }
    }

    /// The message of the failure.
    pub fn message(&self) -> (r: String)
        ensures
            r@ == self.message@,
    {
        self.message.clone()
    }
}

/// The sources of rates.
#[derive(Debug, Clone, Copy, PartialEq, Eq, Structural)]
pub enum Provider {
    CoinDesk,
    CoinMarketCap,
    BlockchainInfo,
    CryptoCompare,
    Faker,
}

impl Provider {
    /// The source with the given lower-case name, if any.
    pub open spec fn spec_from_lowercase(name: Seq<char>) -> Option<Provider> {
        if name == "coindesk"@ || name == "coin_desk"@ {
            Some(Provider::CoinDesk)
        } else if name == "coinmarketcap"@ || name == "coin_market_cap"@ {
            Some(Provider::CoinMarketCap)
        } else if name == "blockchaininfo"@ || name == "blockchain_info"@ {
            Some(Provider::BlockchainInfo)
        } else if name == "cryptocompare"@ || name == "crypto_compare"@ {
            Some(Provider::CryptoCompare)
        } else if name == "faker"@ {
            Some(Provider::Faker)
        } else {
            None
        }
    }

    /// The source with the given lower-case name.
    pub fn from_lowercase(name: &str) -> (r: Option<Provider>)
        ensures
            r == Self::spec_from_lowercase(name@),
    {
        if str_equal(name, "coindesk") || str_equal(name, "coin_desk") {
            Some(Provider::CoinDesk)
        } else if str_equal(name, "coinmarketcap") || str_equal(name, "coin_market_cap") {
            Some(Provider::CoinMarketCap)
        } else if str_equal(name, "blockchaininfo") || str_equal(name, "blockchain_info") {
            Some(Provider::BlockchainInfo)
        } else if str_equal(name, "cryptocompare") || str_equal(name, "crypto_compare") {
            Some(Provider::CryptoCompare)
        } else if str_equal(name, "faker") {
            Some(Provider::Faker)
        } else {
            None
        }
    }

    pub open spec fn spec_name(self) -> Seq<char> {
        match self {
            Provider::CoinDesk => "CoinDesk"@,
            Provider::CoinMarketCap => "CoinMarketCap"@,
            Provider::BlockchainInfo => "BlockchainInfo"@,
            Provider::CryptoCompare => "CryptoCompare"@,
            Provider::Faker => "Faker"@,
        }
    }

    /// The name under which the source is shown.
    pub fn name(&self) -> (r: &'static str)
        ensures
            r@ == self.spec_name(),
    {
        match self {
            Provider::CoinDesk => "CoinDesk",
            Provider::CoinMarketCap => "CoinMarketCap",
            Provider::BlockchainInfo => "BlockchainInfo",
            Provider::CryptoCompare => "CryptoCompare",
            Provider::Faker => "Faker",
        }
    }
}

/// The name under which the source of the given type is shown; the type may
/// be written in any case of letters.
pub fn get_name(provider_type: &str) -> (r: Option<&'static str>)
    ensures
        match Provider::spec_from_lowercase(lowercase_of(provider_type@)) {
            Some(provider) => r matches Some(name) && name@ == provider.spec_name(),
            None => r is None,
        },
{
    let lowered = to_lowercase(provider_type);
    match Provider::from_lowercase(lowered.as_str()) {
        Some(provider) => Some(provider.name()),
        None => None,
    }
}

/// The names of all sources.
pub fn get_all_names() -> (r: Vec<&'static str>)
    ensures
        r@.len() == 5,
        r@[0]@ == Provider::CoinDesk.spec_name(),
        r@[1]@ == Provider::CoinMarketCap.spec_name(),
        r@[2]@ == Provider::BlockchainInfo.spec_name(),
        r@[3]@ == Provider::CryptoCompare.spec_name(),
        r@[4]@ == Provider::Faker.spec_name(),
{
    let mut names: Vec<&'static str> = Vec::new();
    names.push(Provider::CoinDesk.name());
    names.push(Provider::CoinMarketCap.name());
    names.push(Provider::BlockchainInfo.name());
    names.push(Provider::CryptoCompare.name());
    names.push(Provider::Faker.name());
    names
}

/// The names of all sources, separated by a comma and a space.
pub open spec fn spec_all_providers() -> Seq<char> {
    Provider::CoinDesk.spec_name() + ", "@ + Provider::CoinMarketCap.spec_name() + ", "@
        + Provider::BlockchainInfo.spec_name() + ", "@ + Provider::CryptoCompare.spec_name()
        + ", "@ + Provider::Faker.spec_name()
}

/// The names of all sources in one line.
pub fn get_all_providers() -> (r: String)
    ensures
        r@ == spec_all_providers(),
{
    let names = get_all_names();
    let mut line = String::new();
    line.append(names[0]);
    line.append(", ");
    line.append(names[1]);
    line.append(", ");
    line.append(names[2]);
    line.append(", ");
    line.append(names[3]);
    line.append(", ");
    line.append(names[4]);
    proof {
        assert(line@ =~= spec_all_providers());
    }
    line
}

} // verus!
