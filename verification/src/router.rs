//! Routing of inbound requests and the choices that need the egress prefix.

use crate::address::{
    combine, get_rand_ipv6, get_rand_ipv6_socket_addr, in_prefix, EgressPrefix, SourceBinding,
};
use crate::candidates::{any_of, has_family, CandidateAddress, Family};
use crate::tunnel::{
    advance, needs_source, next, opens_ipv6_attempt, Transition, TunnelAction, TunnelEvent,
    TunnelState,
};
use vstd::prelude::*;

verus! {

/// What is done with an inbound request.
#[derive(Clone, Copy, Debug, PartialEq, Eq, Structural)]
pub enum Route {
    /// Open a tunnel to the request's authority.
    Tunnel,
    /// Forward the request through the HTTP client.
    Forward,
}

/// The method token that asks for a tunnel: the bytes of `CONNECT`.
pub open spec fn connect_token() -> Seq<u8> {
    seq![0x43u8, 0x4fu8, 0x4eu8, 0x4eu8, 0x45u8, 0x43u8, 0x54u8]
}

/// The route of a request with the given method token. Method tokens are
/// case-sensitive: only the exact token `CONNECT` opens a tunnel.
pub open spec fn route_of(method: Seq<u8>) -> Route {
    if method == connect_token() {
        Route::Tunnel
    } else {
        Route::Forward
    }
}

/// Computes [`route_of`].
pub fn route(method: &[u8]) -> (r: Route)
    ensures
        r == route_of(method@),
{
    if method.len() == 7 && method[0] == 0x43 && method[1] == 0x4f && method[2] == 0x4e
        && method[3] == 0x4e && method[4] == 0x45 && method[5] == 0x43 && method[6] == 0x54 {
        assert(method@ =~= connect_token());
        Route::Tunnel
    } else {
        assert(method@ != connect_token()) by {
            if method@ == connect_token() {
                assert(method@.len() == 7);
                assert(method@[0] == 0x43u8 && method@[1] == 0x4fu8 && method@[2] == 0x4eu8
                    && method@[3] == 0x4eu8 && method@[4] == 0x45u8 && method@[5] == 0x43u8
                    && method@[6] == 0x54u8);
            }
        }
        Route::Forward
    }
}

/// A source binding lies in the network of `prefix`.
pub open spec fn drawn_from(source: SourceBinding, prefix: EgressPrefix) -> bool {
    in_prefix(source.address, prefix.base, prefix.prefix_len)
}

/// The request router: it holds the egress prefix it was built with and
/// nothing else.
#[derive(Clone, Copy, Debug, PartialEq, Eq, Structural)]
pub struct Proxy {
    pub prefix: EgressPrefix,
}

impl Proxy {
    pub open spec fn wf(&self) -> bool {
        self.prefix.wf()
    }

    /// Builds a router over the network `ipv6/prefix_len`; a length above 128
    /// is rejected.
    pub fn new(ipv6: u128, prefix_len: u8) -> (proxy: Option<Proxy>)
        ensures
            proxy.is_some() <==> prefix_len <= 128,
            proxy.is_some() ==> proxy.unwrap().wf() && proxy.unwrap().prefix == (EgressPrefix {
                base: ipv6,
                prefix_len,
            }),
    {
        match EgressPrefix::new(ipv6, prefix_len) {
            Some(prefix) => Some(Proxy { prefix }),
            None => None,
        }
    }

    /// Dispatches a request by its method token.
    pub fn proxy(&self, method: &[u8]) -> (r: Route)
        ensures
            r == route_of(method@),
    {
        route(method)
    }

    /// Handles a tunnel request: the client is acknowledged at once, before
    /// anything is known of the destination, and the tunnel starts its life
    /// in the accepted state.
    pub fn process_connect(&self) -> (step: Transition)
        ensures
            step == (Transition { state: TunnelState::Accepted, action: TunnelAction::Acknowledge }),
    {
        Transition { state: TunnelState::Accepted, action: TunnelAction::Acknowledge }
    }

    /// Chooses the local address for a forwarded request. `resolved` holds
    /// the addresses of the request's host, or `None` where the request names
    /// no host or the host did not resolve.
    ///
    /// A source address is drawn from the prefix exactly when some resolved
    /// address is IPv6; otherwise the client keeps its default binding.
    pub fn process_request(&self, resolved: Option<&Vec<CandidateAddress>>) -> (local: Option<u128>)
        requires
            self.wf(),
        ensures
            local.is_some() <==> resolved.is_some() && has_family(
                resolved.unwrap()@,
                Family::V6,
            ),
            local.is_some() ==> in_prefix(
                local.unwrap(),
                self.prefix.base,
                self.prefix.prefix_len,
            ),
            local.is_some() ==> exists|random: u128|
                local.unwrap() == combine(self.prefix.base, self.prefix.prefix_len, random),
            local.is_some() && self.prefix.prefix_len == 128 ==> local.unwrap()
                == self.prefix.base,
    {
        match resolved {
            Some(candidates) => {
                if any_of(candidates, Family::V6) {
                    Some(get_rand_ipv6(self.prefix.base, self.prefix.prefix_len))
                } else {
                    None
                }
            },
            None => None,
        }
    }

    /// Takes one step of a tunnel's machine. Where the step opens an IPv6
    /// attempt, its source is drawn afresh from the prefix; no other step
    /// draws anything.
    pub fn tunnel(&self, state: TunnelState, event: &TunnelEvent) -> (step: Option<Transition>)
        requires
            self.wf(),
        ensures
            exists|source: SourceBinding|
                drawn_from(source, self.prefix) && step == next(state, *event, source),
            !opens_ipv6_attempt(state, *event) ==> forall|source: SourceBinding|
                step == next(state, *event, source),
    {
        if needs_source(state, event) {
            let source = get_rand_ipv6_socket_addr(self.prefix.base, self.prefix.prefix_len);
            assert(drawn_from(source, self.prefix));
            advance(state, event, source)
        } else {
            // No attempt is opened on this step, so the source goes unused.
            let source = SourceBinding { address: self.prefix.network(), port: 0 };
            proof {
                crate::address::lemma_combine_in_prefix(
                    self.prefix.base,
                    self.prefix.prefix_len,
                    0,
                );
                assert(drawn_from(source, self.prefix));
                crate::tunnel::lemma_source_unused(state, *event);
            }
            advance(state, event, source)
        }
    }
}

} // verus!
