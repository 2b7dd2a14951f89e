//! A request to resolve one host name, for one port.

use crate::addr::IpAddress;
use crate::error::{ParseError, ResolveError};
use crate::port::parse_port;
use crate::sequence::{paired, HickorySocketAddrs};
use crate::text::{chars_of, find_separator, parse_address};
use vstd::prelude::*;
use vstd::slice::slice_subrange;
use vstd::string::StrSliceExecFns;

verus! {

/// What to resolve: a host, and the port that every resolved address is paired with.
/// Neither changes once the request is made.
#[derive(Debug)]
pub struct HickoryToSocketAddrs<H> {
    host: H,
    port: u16,
}

impl<H> HickoryToSocketAddrs<H> {
    /// The host of this request.
    pub closed spec fn spec_host(&self) -> H {
        self.host
    }

    /// The port of this request.
    pub closed spec fn spec_port(&self) -> u16 {
        self.port
    }

    /// Makes a request from its two parts. Neither is looked at: whether the host can
    /// be resolved shows when it is looked up.
    pub fn new(host: H, port: u16) -> (request: Self)
        ensures
            request.spec_host() == host,
            request.spec_port() == port,
    {
        HickoryToSocketAddrs { host, port }
    }

    /// Turns the resolver's answer for this request's host into the socket addresses of
    /// this request. The caller asks the resolver, once, and hands over what it said: the
    /// IP addresses in the resolver's order, or its failure. Every address is paired with
    /// this request's port, in that order and with none added or left out. A failure is
    /// passed on as it is, with no address beside it.
    pub fn lookup(
        &self,
        answer: Result<Vec<IpAddress>, std::io::Error>,
    ) -> (resolved: Result<HickorySocketAddrs, ResolveError>)
        ensures
            match answer {
                Ok(ips) => resolved matches Ok(addrs) && addrs@ == paired(ips@, self.spec_port()),
                Err(cause) => resolved matches Err(error) && error
                    == ResolveError::Resolution(cause),
            },
    {
        match answer {
            Ok(ips) => Ok(HickorySocketAddrs::over(ips, self.port)),
            Err(cause) => Err(ResolveError::Resolution(cause)),
        }
    }

    /// The host of this request.
    pub fn host(&self) -> (host: &H)
        ensures
            *host == self.spec_host(),
    {
        &self.host
    }

    /// The port of this request.
    pub fn port(&self) -> (port: u16)
        ensures
            port == self.spec_port(),
    {
        self.port
    }
}

impl HickoryToSocketAddrs<String> {
    /// Whether `parsed` is what reading `text` comes to: the request with the host and
    /// the port that the text is read as, or the error that it is refused with.
    pub open spec fn reads_as(text: Seq<char>, parsed: Result<Self, ParseError>) -> bool {
        match parse_address(text) {
            Ok((host, port)) => parsed matches Ok(request) && request.spec_host()@ == host
                && request.spec_port() == port,
            Err(error) => parsed matches Err(e) && e == error,
        }
    }

    /// Reads a request from a combined `host:port` text, split at its rightmost `:`.
    /// The host is kept as written, and is not looked at. The port is an optional `+`
    /// and decimal digits, no larger than 65535.
    pub fn from_str(s: &str) -> (parsed: Result<Self, ParseError>)
        ensures
            Self::reads_as(s@, parsed),
    {
        let chars = chars_of(s);
        let text = chars.as_slice();
        match find_separator(text) {
            None => Err(ParseError::MissingSeparator),
            Some(at) => match parse_port(slice_subrange(text, at + 1, text.len())) {
                None => Err(ParseError::InvalidPort),
                Some(port) => {
                    let host = s.substring_char(0, at).to_owned();
                    Ok(HickoryToSocketAddrs::new(host, port))
                },
            },
        }
    }
}

} // verus!
