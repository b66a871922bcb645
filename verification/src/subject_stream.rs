//! The stream of the projections of one subject.
//!
//! The caller has bound the subscription to a subject and registered on the bus.
//! It then writes the frames of a [`SubjectTurn`], does what the turn says comes
//! next, and hands back what came of it.

use crate::claimant::{learns, lemma_learns_nothing, ClaimantTokenIssuer};
use crate::projections::{projection_claimants, projection_matches};
use crate::projections::{SubjectProjection, SubjectProjectionWire};
use crate::responses::ClientResponse;
use crate::subscription::{lag_signal, lagged_frame};
use vstd::prelude::*;

verus! {

/// What comes next.
#[derive(Debug, Clone, Copy, PartialEq, Eq, Structural)]
pub enum SubjectNext {
    /// Project the subject.
    Project,
    /// Wait for the bus.
    Receive,
    /// Close the connection.
    End,
}

/// The frame to write, if any, and what comes after it.
#[derive(Debug)]
pub struct SubjectTurn {
    pub frame: Option<ClientResponse>,
    pub next: SubjectNext,
}

/// What came of a turn.
#[derive(Debug)]
pub enum SubjectEvent {
    /// The projection that a turn asked for; none if the subject is forgotten.
    Projected { projection: Option<SubjectProjection> },
    /// A happening came from the bus, which concerns the subject or not.
    Live { seq: u64, affects: bool },
    /// The bus dropped happenings before they were received.
    Lagged { missed: u64, oldest: Option<u64>, live_seq: u64 },
    /// The bus is gone, or a frame could not be written.
    Gone,
}

impl SubjectEvent {
    /// The plugins that the frame of the event shows by their tokens.
    pub open spec fn plugins(self) -> Set<Seq<char>> {
        match self {
            SubjectEvent::Projected { projection: Some(p) } => projection_claimants(p),
            _ => Set::empty(),
        }
    }
}

/// The update that shows a projection, or that there is none.
pub open spec fn is_update(
    frame: ClientResponse,
    seq: u64,
    id: String,
    projection: Option<SubjectProjection>,
    steward: Seq<char>,
) -> bool {
    &&& frame matches ClientResponse::ProjectionUpdate { seq: s, canonical_id, projection: shown }
    &&& s == seq
    &&& canonical_id == id
    &&& match (shown, projection) {
        (Some(w), Some(p)) => projection_matches(p, *w, steward),
        (None, None) => true,
        _ => false,
    }
}

/// A subscription to the projections of one subject.
#[derive(Debug)]
pub struct SubjectStream {
    /// The subject that the subscription is bound to.
    pub effective_id: String,
    /// The sequence number of the update whose projection was asked for, until
    /// that comes.
    pub asked: Option<u64>,
}

impl SubjectStream {
    /// The event is one that the last turn asked for.
    pub open spec fn expects(self, event: SubjectEvent) -> bool {
        match event {
            SubjectEvent::Projected { .. } => self.asked is Some,
            SubjectEvent::Live { .. } => self.asked is None,
            SubjectEvent::Lagged { .. } => self.asked is None,
            SubjectEvent::Gone => true,
        }
    }

    /// What an event leads to. A happening that concerns the subject leads to a
    /// fresh projection, and the update that shows it carries the happening's
    /// sequence number; a gap ends the stream.
    pub open spec fn takes(
        self,
        event: SubjectEvent,
        steward: Seq<char>,
        next: SubjectStream,
        turn: SubjectTurn,
    ) -> bool {
        &&& next.effective_id == self.effective_id
        &&& match event {
            SubjectEvent::Projected { projection } => {
                &&& turn.frame matches Some(frame)
                &&& is_update(frame, self.asked->0, self.effective_id, projection, steward)
                &&& turn.next is Receive
                &&& next.asked is None
            },
            SubjectEvent::Live { seq, affects } => {
                &&& turn.frame is None
                &&& turn.next == (if affects {
                    SubjectNext::Project
                } else {
                    SubjectNext::Receive
                })
                &&& next.asked == (if affects {
                    Some(seq)
                } else {
                    None
                })
            },
            SubjectEvent::Lagged { missed, oldest, live_seq } => {
                &&& turn.frame == Some(lag_signal(missed, oldest, live_seq))
                &&& turn.next is End
                &&& next.asked is None
            },
            SubjectEvent::Gone => {
                &&& turn.frame is None
                &&& turn.next is End
                &&& next.asked is None
            },
        }
    }

    /// Begins a subscription: the acknowledgement, and then the initial
    /// projection, whose update carries the sequence number zero.
    pub fn begin(effective_id: String, current_seq: u64) -> (r: (SubjectStream, SubjectTurn))
        ensures
            r.0.effective_id == effective_id,
            r.0.asked == Some(0u64),
            r.1.frame == Some(
                ClientResponse::SubscribedSubject {
                    subscribed_subject: true,
                    canonical_id: effective_id,
                    current_seq,
                },
            ),
            r.1.next is Project,
    {
        let turn = SubjectTurn {
            frame: Some(
                ClientResponse::SubscribedSubject {
                    subscribed_subject: true,
                    canonical_id: effective_id.clone(),
                    current_seq,
                },
            ),
            next: SubjectNext::Project,
        };
        (SubjectStream { effective_id, asked: Some(0) }, turn)
    }

    /// Takes an event.
    pub fn step(&mut self, event: SubjectEvent, issuer: &mut ClaimantTokenIssuer) -> (turn:
        SubjectTurn)
        requires
            old(self).expects(event),
        ensures
            old(self).takes(event, old(issuer).instance_id@, *final(self), turn),
            final(issuer).instance_id == old(issuer).instance_id,
            learns(*old(issuer), *final(issuer), event.plugins()),
    {
        proof {
            lemma_learns_nothing(*issuer);
        }
        match event {
            SubjectEvent::Projected { projection } => {
                let seq: u64 = self.asked.unwrap();
                self.asked = None;
                let shown = match projection {
                    Some(p) => Some(Box::new(SubjectProjectionWire::from_projection(p, issuer))),
                    None => None,
                };
                SubjectTurn {
                    frame: Some(
                        ClientResponse::ProjectionUpdate {
                            seq,
                            canonical_id: self.effective_id.clone(),
                            projection: shown,
                        },
                    ),
                    next: SubjectNext::Receive,
                }
            },
            SubjectEvent::Live { seq, affects } => {
                if affects {
                    self.asked = Some(seq);
                    SubjectTurn { frame: None, next: SubjectNext::Project }
                } else {
                    SubjectTurn { frame: None, next: SubjectNext::Receive }
                }
            },
            SubjectEvent::Lagged { missed, oldest, live_seq } => {
                SubjectTurn {
                    frame: Some(lagged_frame(missed, oldest, live_seq)),
                    next: SubjectNext::End,
                }
            },
            SubjectEvent::Gone => {
                self.asked = None;
                SubjectTurn { frame: None, next: SubjectNext::End }
            },
        }
    }
}

/// The update that follows a happening which concerns the subject carries the
/// happening's sequence number, and shows the projection that was made for it.
pub proof fn law_updates_carry_the_number_asked_for(
    stream: SubjectStream,
    seq: u64,
    between: SubjectStream,
    first: SubjectTurn,
    projection: Option<SubjectProjection>,
    steward: Seq<char>,
    after: SubjectStream,
    second: SubjectTurn,
)
    requires
        stream.takes(SubjectEvent::Live { seq, affects: true }, steward, between, first),
        between.takes(SubjectEvent::Projected { projection }, steward, after, second),
    ensures
        first.next is Project,
        between.expects(SubjectEvent::Projected { projection }),
        second.frame matches Some(frame) && is_update(
            frame,
            seq,
            stream.effective_id,
            projection,
            steward,
        ),
        second.next is Receive,
{
}

}
