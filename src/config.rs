//! The settings that the proxy runs with.
use vstd::prelude::*;
use vstd::string::StringExecFns;

verus! {

/// The proxy's version, where it listens, and the block explorer it asks.
pub struct Config {
    pub version: String,
    pub host: String,
    pub port: String,
    pub etherscan_domain: String,
    pub etherscan_api_key: String,
}

impl Config {
    pub fn new(
        version: String,
        host: String,
        port: String,
        etherscan_domain: String,
        etherscan_api_key: String,
    ) -> (r: Config)
        ensures
            r.version == version,
            r.host == host,
            r.port == port,
            r.etherscan_domain == etherscan_domain,
            r.etherscan_api_key == etherscan_api_key,
    {
        Config { version, host, port, etherscan_domain, etherscan_api_key }
    }

    pub fn version(&self) -> (r: &str)
        ensures
            r@ == self.version@,
    {
        self.version.as_str()
    }

    /// The address to listen on: host and port joined by a colon.
    pub fn address(&self) -> (r: String)
        ensures
            r@ == self.host@ + ":"@ + self.port@,
    {
        let mut address = String::from_str(self.host.as_str());
        address.append(":");
        address.append(self.port.as_str());
        address
    }

    pub fn etherscan_domain(&self) -> (r: &str)
        ensures
            r@ == self.etherscan_domain@,
    {
        self.etherscan_domain.as_str()
    }

    pub fn etherscan_api_key(&self) -> (r: &str)
        ensures
            r@ == self.etherscan_api_key@,
    {
        self.etherscan_api_key.as_str()
    }
}

} // verus!
