//! The currencies whose rates are charted.

use vstd::prelude::*;
use crate::text::lowercase_of;
use crate::text::str_equal;
use crate::text::to_lowercase;

verus! {

#[derive(Debug, Clone, Copy, PartialEq, Eq, Structural)]
pub enum Currency {
    Bitcoin,
    Ethereum,
    Litecoin,
    Ripple,
}

impl Currency {
    /// The currency with the given lower-case name or symbol, if any.
    pub open spec fn spec_from_lowercase(name: Seq<char>) -> Option<Currency> {
        if name == "bitcoin"@ || name == "btc"@ {
            Some(Currency::Bitcoin)
        } else if name == "ethereum"@ || name == "eth"@ {
            Some(Currency::Ethereum)
        } else if name == "litecoin"@ || name == "ltc"@ {
            Some(Currency::Litecoin)
        } else if name == "ripple"@ || name == "xrp"@ {
            Some(Currency::Ripple)
        } else {
            None
        }
    }

    /// The currency with the given name or symbol, in any case of letters.
    pub fn new(input: &str) -> (r: Option<Self>)
        ensures
            r == Self::spec_from_lowercase(lowercase_of(input@)),
    {
        let lowered = to_lowercase(input);
        Self::from_lowercase(lowered.as_str())
    }

    /// The currency with the given lower-case name or symbol.
    pub fn from_lowercase(name: &str) -> (r: Option<Self>)
        ensures
            r == Self::spec_from_lowercase(name@),
    {
        if str_equal(name, "bitcoin") || str_equal(name, "btc") {
            Some(Currency::Bitcoin)
        } else if str_equal(name, "ethereum") || str_equal(name, "eth") {
            Some(Currency::Ethereum)
        } else if str_equal(name, "litecoin") || str_equal(name, "ltc") {
            Some(Currency::Litecoin)
        } else if str_equal(name, "ripple") || str_equal(name, "xrp") {
            Some(Currency::Ripple)
        } else {
            None
        }
    }

    pub open spec fn spec_name(self) -> Seq<char> {
        match self {
            Currency::Bitcoin => "Bitcoin"@,
            Currency::Ethereum => "Ethereum"@,
            Currency::Litecoin => "Litecoin"@,
            Currency::Ripple => "Ripple"@,
        }
    }

    pub fn name(&self) -> (r: &'static str)
        ensures
            r@ == self.spec_name(),
    {
        match self {
            Currency::Bitcoin => "Bitcoin",
            Currency::Ethereum => "Ethereum",
            Currency::Litecoin => "Litecoin",
            Currency::Ripple => "Ripple",
        }
    }

    pub open spec fn spec_symbol(self) -> Seq<char> {
        match self {
            Currency::Bitcoin => "BTC"@,
            Currency::Ethereum => "ETH"@,
            Currency::Litecoin => "LTC"@,
            Currency::Ripple => "XRP"@,
        }
    }

    pub fn symbol(&self) -> (r: &'static str)
        ensures
            r@ == self.spec_symbol(),
    {
        match self {
            Currency::Bitcoin => "BTC",
            Currency::Ethereum => "ETH",
            Currency::Litecoin => "LTC",
            Currency::Ripple => "XRP",
        }
    }

    /// The factor by which a price in this currency is charted: 1, 10 or
    /// 100.
    pub fn scale_factor(&self) -> (r: u16)
        ensures
            r == match self {
                Currency::Bitcoin => 1u16,
                Currency::Ethereum => 10u16,
                Currency::Litecoin => 10u16,
                Currency::Ripple => 100u16,
            },
    {
        match self {
            Currency::Bitcoin => 1,
            Currency::Ethereum => 10,
            Currency::Litecoin => 10,
            Currency::Ripple => 100,
        }
    }
}

/// The latest values of a series, at most `max_len` of them.
pub struct RateSeries<T> {
    pub max_len: usize,
    pub data: Vec<T>,
}

impl<T> RateSeries<T> {
    /// The series holds at least one value and no more than its limit.
    pub open spec fn wf(&self) -> bool {
        0 < self.max_len && self.data@.len() <= self.max_len
    }

    /// An empty series that keeps the latest `max_len` values.
    pub fn new(max_len: usize) -> (r: Self)
        requires
            max_len > 0,
        ensures
            r.wf(),
            r.max_len == max_len,
            r.data@.len() == 0,
    {
        RateSeries { max_len, data: Vec::new() }
    }

    /// Adds a value at the end; a full series drops its oldest value first.
    pub fn push(&mut self, rate: T)
        requires
            old(self).wf(),
        ensures
            final(self).wf(),
            final(self).max_len == old(self).max_len,
            final(self).data@ == if old(self).data@.len() == old(self).max_len {
                old(self).data@.drop_first().push(rate)
            } else {
                old(self).data@.push(rate)
            },
    {
        if self.data.len() == self.max_len {
            let _oldest = self.data.remove(0);
            proof {
                assert(self.data@ =~= old(self).data@.drop_first());
            }
        }
        self.data.push(rate);
    }

    pub fn data(&self) -> (r: &Vec<T>)
        ensures
            r@ == self.data@,
    {
        &self.data
    }

    pub fn len(&self) -> (r: usize)
        ensures
            r == self.data@.len(),
    {
        self.data.len()
    }

    /// The value added last.
    pub fn last(&self) -> (r: Option<&T>)
        ensures
            match r {
                Some(rate) => self.data@.len() > 0 && *rate == self.data@.last(),
                None => self.data@.len() == 0,
            },
    {
        let count: usize = self.data.len();
        if count == 0 {
            None
        } else {
            Some(&self.data[count - 1])
        }
    }
}

} // verus!
