//! Route origin authorizations and the update batches that carry them.

use vstd::prelude::*;
use crate::prefix::RoutePrefix;

verus! {

/// A route origin authorization: the AS `asn` may originate `prefix`, up to
/// the maximum length where one is given.
#[derive(Clone, Copy, Debug, PartialEq, Eq)]
pub struct RouteOrigin {
    pub prefix: RoutePrefix,
    pub max_len: Option<u8>,
    pub asn: u32,
}

impl RouteOrigin {
    /// The prefix is well formed and a maximum length, where given, is not
    /// below the prefix length.
    pub open spec fn wf(self) -> bool {
        &&& self.prefix.wf()
        &&& self.max_len matches Some(m) ==> self.prefix.len <= m
    }

    /// The maximum length in force: the one given, or the prefix's own
    /// length where none is.
    pub open spec fn effective_max_len(self) -> u8 {
        match self.max_len {
            Some(m) => m,
            None => self.prefix.len,
        }
    }

    /// Whether this authorization is for exactly the prefix `target`: same
    /// family, same address, same length. A covering or a more specific
    /// prefix does not count.
    pub open spec fn authorizes(self, target: RoutePrefix) -> bool {
        self.prefix == target
    }

    /// An authorization from its parts, or `None` if the prefix is not well
    /// formed or the maximum length is below the prefix length.
    pub fn new(prefix: RoutePrefix, max_len: Option<u8>, asn: u32) -> (made: Option<RouteOrigin>)
        ensures
            made == if (RouteOrigin { prefix, max_len, asn }).wf() {
                Some(RouteOrigin { prefix, max_len, asn })
            } else {
                None
            },
    {
        let long_enough = match max_len {
            Some(m) => prefix.len <= m,
            None => true,
        };
        if prefix.is_well_formed() && long_enough {
            Some(RouteOrigin { prefix, max_len, asn })
        } else {
            None
        }
    }

    /// The maximum length in force.
    pub fn resolved_max_len(&self) -> (m: u8)
        ensures
            m == self.effective_max_len(),
    {
        match self.max_len {
            Some(m) => m,
            None => self.prefix.len,
        }
    }

    /// Whether this authorization is for exactly the prefix `target`.
    pub fn is_for(&self, target: &RoutePrefix) -> (hit: bool)
        ensures
            hit == self.authorizes(*target),
    {
        self.prefix.same_as(target)
    }
}

/// What an update asks to be done with its payload.
#[derive(Clone, Copy, Debug, PartialEq, Eq, Structural)]
pub enum Action {
    Announce,
    Withdraw,
}

/// The payload of one update: a route origin, or a payload of another kind,
/// of which nothing is kept.
#[derive(Clone, Copy, Debug, PartialEq, Eq)]
pub enum Payload {
    Origin(RouteOrigin),
    Other,
}

/// The timing values that close a batch, in seconds.
#[derive(Clone, Copy, Debug, PartialEq, Eq)]
pub struct Timing {
    pub refresh: u32,
    pub retry: u32,
    pub expire: u32,
}

/// The route origin that one update adds, if it adds one: the payload of an
/// announcement of a route origin.
pub open spec fn announced(update: (Action, Payload)) -> Option<RouteOrigin> {
    match update {
        (Action::Announce, Payload::Origin(origin)) => Some(origin),
        _ => None,
    }
}

/// The route origins that a batch adds, in the order of the batch.
pub open spec fn announced_origins(batch: Seq<(Action, Payload)>) -> Seq<RouteOrigin> {
    batch.filter_map(|update: (Action, Payload)| announced(update))
}

} // verus!
