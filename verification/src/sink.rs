use vstd::prelude::*;

use crate::address::{opt_view, Address};
use crate::admin::check_admin;
use crate::calls::{after_call, Call};
use crate::contract::Credits;
use crate::errors::CreditsError;
use crate::events::{address_change, sinkChange, topic_symbol, Event, EventView, Topic};
use crate::storage::{externals_set, read_external_contracts, write_external_contracts, Storage};

verus! {

/// Moving the stored sink contract along the chain of successors that
/// sink contracts report, up to the first one that names itself.
///
/// The caller asks the sink at `current()` for its successor and hands the
/// answer to `advance` until the walk is done, then calls `finish`.
#[derive(Debug)]
pub struct SinkWalk {
    admin: Address,
    old_sink: Address,
    current: Address,
    last_reply: Option<Address>,
    done: bool,
}

pub struct SinkWalkView {
    pub admin: Seq<u8>,
    pub old_sink: Seq<u8>,
    pub current: Seq<u8>,
    /// The successor the sink before `current` reported, if one was asked.
    pub last_reply: Option<Seq<u8>>,
    pub done: bool,
}

impl View for SinkWalk {
    type V = SinkWalkView;

    closed spec fn view(&self) -> SinkWalkView {
        SinkWalkView {
            admin: self.admin@,
            old_sink: self.old_sink@,
            current: self.current@,
            last_reply: opt_view(self.last_reply),
            done: self.done,
        }
    }
}

impl Credits {
    /// Starts moving the stored sink to the end of its chain of successors;
    /// admin-only, refused when no administrator is stored, and then (after
    /// the administrator's authorization) when the sink or the router is
    /// unset.
    pub fn setSinkToSuccessor(s: &Storage) -> (r: Result<SinkWalk, CreditsError>)
        ensures
            match r {
                Err(e) => if s@.admin is None {
                    e == CreditsError::AdminNotSet
                } else {
                    !externals_set(s@) && e == CreditsError::AddressNotSet
                },
                Ok(w) => {
                    &&& externals_set(s@)
                    &&& s@.admin == Some(w@.admin)
                    &&& w@.old_sink == s@.sink_read()
                    &&& w@.current == s@.sink_read()
                    &&& w@.last_reply is None
                    &&& !w@.done
                },
            },
    {
        let admin = match check_admin(s) {
            Ok(a) => a,
            Err(e) => return Err(e),
        };
        let (old_sink, _) = match read_external_contracts(s) {
            Ok(t) => t,
            Err(e) => return Err(e),
        };
        let current = old_sink.duplicate();
        Ok(SinkWalk { admin, old_sink, current, last_reply: None, done: false })
    }
}

impl SinkWalk {
    /// A walk is done only once a sink named itself as its successor.
    #[verifier::type_invariant]
    spec fn done_at_fixpoint(self) -> bool {
        self.done ==> opt_view(self.last_reply) == Some(self.current@)
    }

    /// The administrator who must authorize the move.
    pub fn admin(&self) -> (a: &Address)
        ensures
            a@ == self@.admin,
    {
        &self.admin
    }

    /// The sink whose successor is asked next.
    pub fn current(&self) -> (a: &Address)
        ensures
            a@ == self@.current,
    {
        &self.current
    }

    /// Whether the last successor reported was the current sink itself.
    pub fn is_done(&self) -> (b: bool)
        ensures
            b == self@.done,
    {
        self.done
    }

    /// Takes the successor that the current sink reported: where it is the
    /// current sink itself the walk is done, otherwise it becomes current.
    pub fn advance(&mut self, successor: Address)
        requires
            !old(self)@.done,
        ensures
            final(self)@.done == (successor@ == old(self)@.current),
            final(self)@.current == successor@,
            final(self)@.last_reply == Some(successor@),
            final(self)@.admin == old(self)@.admin,
            final(self)@.old_sink == old(self)@.old_sink,
    {
        let done = self.current.same_as(&successor);
        self.last_reply = Some(successor.duplicate());
        self.current = successor;
        self.done = done;
    }

    /// Stores the sink the walk ended at, which named itself as its
    /// successor, writing the router back as it reads, and gives the event
    /// that records the move; refused, with nothing written, where the sink
    /// or the router is unset.
    pub fn finish(self, s: &mut Storage) -> (r: Result<Event, CreditsError>)
        requires
            self@.done,
        ensures
            self@.last_reply == Some(self@.current),
            match r {
                Ok(ev) => {
                    &&& externals_set(old(s)@)
                    &&& final(s)@ == after_call(old(s)@, Call::SetSinkToSuccessor(self@.current))
                    &&& ev@ == address_change(Topic::Sink, self@.old_sink, self@.current)
                    &&& ev@ matches EventView::AddressChange { topic, .. } && topic_symbol(topic) == "sink"@
                },
                Err(e) => !externals_set(old(s)@) && e == CreditsError::AddressNotSet
                    && final(s)@ == old(s)@,
            },
    {
        proof {
            use_type_invariant(&self);
        }
        let (_, router) = match read_external_contracts(s) {
            Ok(t) => t,
            Err(e) => return Err(e),
        };
        write_external_contracts(s, &self.current, &router);
        Ok(sinkChange(self.old_sink, self.current))
    }
}

} // verus!
