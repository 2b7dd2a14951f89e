//! The socket addresses that one resolution produced.

use crate::addr::{IpAddress, SocketAddress};
use vstd::prelude::*;

verus! {

/// Each of `ips`, in order, paired with `port`.
pub open spec fn paired(ips: Seq<IpAddress>, port: u16) -> Seq<SocketAddress> {
    ips.map_values(|ip: IpAddress| SocketAddress { ip, port })
}

/// The socket addresses of one resolution, handed out one at a time and once only: the
/// resolved IP addresses in the order the resolver gave them, each paired with the port
/// of the request. An address is paired when it is asked for.
#[derive(Debug)]
pub struct HickorySocketAddrs {
    ips: Vec<IpAddress>,
    taken: usize,
    port: u16,
}

impl View for HickorySocketAddrs {
    type V = Seq<SocketAddress>;

    /// The addresses that are still to come.
    closed spec fn view(&self) -> Seq<SocketAddress> {
        paired(self.ips@.skip(self.taken as int), self.port)
    }
}

impl HickorySocketAddrs {
    #[verifier::type_invariant]
    spec fn in_bounds(self) -> bool {
        self.taken <= self.ips@.len()
    }

    /// The sequence of `ips`, each to be paired with `port`.
    pub(crate) fn over(ips: Vec<IpAddress>, port: u16) -> (addrs: Self)
        ensures
            addrs@ == paired(ips@, port),
    {
        assert(ips@.skip(0) =~= ips@);
        HickorySocketAddrs { ips, taken: 0, port }
    }

    /// Hands out all the addresses that are left, in order, and ends the sequence.
    pub fn collect(self) -> (all: Vec<SocketAddress>)
        ensures
            all@ == self@,
    {
        let mut rest = self;
        let mut all: Vec<SocketAddress> = Vec::new();
        loop
            invariant
                all@ + rest@ == self@,
            ensures
                rest@.len() == 0,
            decreases rest@.len(),
        {
            match rest.next() {
                Some(addr) => {
                    all.push(addr);
                },
                None => {
                    break ;
                },
            }
        }
        assert(all@ + rest@ =~= all@);
        all
    }

    /// Hands out the next address, if one is left. Nothing is reordered, left out or
    /// handed out twice, and once the sequence is at its end it stays there.
    pub fn next(&mut self) -> (item: Option<SocketAddress>)
        ensures
            match item {
                Some(addr) => old(self)@.len() > 0 && addr == old(self)@[0] && final(self)@
                    == old(self)@.skip(1),
                None => old(self)@.len() == 0 && final(self)@ == old(self)@,
            },
    {
        proof {
            use_type_invariant(&*self);
        }
        if self.taken < self.ips.len() {
            let ip: IpAddress = self.ips[self.taken];
            proof {
                let rest = self.ips@.skip(self.taken as int);
                assert(rest[0] == ip);
                assert(rest.skip(1) =~= self.ips@.skip(self.taken + 1));
                assert(paired(rest, self.port).skip(1) =~= paired(rest.skip(1), self.port));
            }
            self.taken = self.taken + 1;
            Some(SocketAddress::new(ip, self.port))
        } else {
            None
        }
    }
}

} // verus!
