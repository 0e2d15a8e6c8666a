use vstd::prelude::*;
use crate::classify::{is_gateway_domain, matches_some_suffix};

verus! {

/// Process-wide proxy settings, read-only once loaded.
pub struct Config {
    /// Host suffixes whose requests go through the gateway.
    pub ton_domains: Vec<String>,
    /// Base URL of the gateway.
    pub ton_gateway: String,
    /// Whether to log detailed request information.
    pub verbose_logging: bool,
}

impl Clone for Config {
    fn clone(&self) -> (r: Self)
        ensures
            r.ton_domains@.len() == self.ton_domains@.len(),
            forall|i: int| 0 <= i < self.ton_domains@.len() ==> #[trigger] r.ton_domains@[i]@ == self.ton_domains@[i]@,
            r.ton_gateway@ == self.ton_gateway@,
            r.verbose_logging == self.verbose_logging,
    {
        let mut domains: Vec<String> = Vec::new();
        let mut i: usize = 0;
        while i < self.ton_domains.len()
            invariant
                i <= self.ton_domains@.len(),
                domains@.len() == i,
                forall|j: int| 0 <= j < i ==> #[trigger] domains@[j]@ == self.ton_domains@[j]@,
            decreases self.ton_domains@.len() - i,
        {
            domains.push(self.ton_domains[i].as_str().to_owned());
            i = i + 1;
        }
        Config {
            ton_domains: domains,
            ton_gateway: self.ton_gateway.as_str().to_owned(),
            verbose_logging: self.verbose_logging,
        }
    }
}

impl Default for Config {
    /// Suffixes `ton` and `t.me`, gateway `https://gateway.ton.org`, quiet logging.
    fn default() -> (r: Self)
        ensures
            r.ton_domains@.len() == 2,
            r.ton_domains@[0]@ == "ton"@,
            r.ton_domains@[1]@ == "t.me"@,
            r.ton_gateway@ == "https://gateway.ton.org"@,
            !r.verbose_logging,
    {
        let mut domains: Vec<String> = Vec::new();
        domains.push("ton".to_owned());
        domains.push("t.me".to_owned());
        Config {
            ton_domains: domains,
            ton_gateway: "https://gateway.ton.org".to_owned(),
            verbose_logging: false,
        }
    }
}

impl Config {
    /// Whether requests for `domain` go through the gateway: it ends,
    /// byte for byte, with one of the configured suffixes.
    pub fn is_ton_domain(&self, domain: &str) -> (r: bool)
        ensures
            r == matches_some_suffix(domain@, self.ton_domains@),
    {
        is_gateway_domain(domain, &self.ton_domains)
    }
}

} // verus!
