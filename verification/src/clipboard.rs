//! The clipboard responder: the data-provider half of the inter-client
//! selection exchange, as a state machine over plain values.
//!
//! The machine decides what each incoming event requires — which property
//! write, whether the owner window must be destroyed, which acknowledgment
//! to send, and whether the session is over. An unverified driver performs
//! those actions on the connection and feeds the next event back in.

use crate::errors::Error;
use vstd::prelude::*;

verus! {

/// The fields of an incoming selection-request event: a consumer asks the
/// current owner for the selection's contents in the format named by
/// `target`, to be written into `property` on the `requestor` window.
#[derive(Clone, Copy, Debug, PartialEq, Eq, Structural)]
pub struct SelectionRequest {
    pub time: u32,
    pub requestor: u32,
    pub selection: u32,
    pub target: u32,
    pub property: u32,
}

/// The event kinds the responder reacts to while servicing the selection.
#[derive(Clone, Copy, Debug, PartialEq, Eq, Structural)]
pub enum ClipboardEvent {
    /// Another client claimed the selection: ownership is gone.
    SelectionClear,
    /// A consumer asks for the selection's contents.
    SelectionRequest(SelectionRequest),
}

/// The responder's position in the session.
#[derive(Clone, Copy, Debug, PartialEq, Eq, Structural)]
pub enum SessionState {
    /// Nothing done yet.
    Idle,
    /// The throwaway owner window exists.
    OwnerWindowCreated,
    /// Ownership of the clipboard selection has been requested.
    OwnershipClaimed,
    /// Ownership is verified; events are being served.
    Servicing,
    /// Ownership was lost before delivery: a clean end, not an error.
    Released,
    /// The data was written out once and the owner window destroyed.
    Delivered,
}

/// A property write the driver must perform on the requestor's window
/// before sending the acknowledgment.
#[derive(Clone, Copy, Debug, PartialEq, Eq, Structural)]
pub enum PropertyWrite {
    /// Answer to the reserved capability query: a single-element list
    /// holding the offered format's atom, typed as an atom list.
    TargetsList { requestor: u32, property: u32, format_atom: u32 },
    /// The offered data itself: the full encoded buffer, typed as the
    /// requested target atom.
    Data { requestor: u32, property: u32, format_atom: u32 },
}

/// Everything one event obliges the driver to do, in order: perform the
/// property write if any, destroy the owner window if asked, send the
/// acknowledgment if any and flush, then stop looping once `finished`.
#[derive(Clone, Copy, Debug, PartialEq, Eq)]
pub struct Response {
    /// The property write this event calls for, if any. A request for an
    /// unsupported target gets no write: the request is implicitly refused.
    pub write: Option<PropertyWrite>,
    /// Whether the owner window must now be destroyed, which by protocol
    /// convention relinquishes ownership.
    pub destroy_owner: bool,
    /// The selection-notify acknowledgment, echoing the request's own
    /// time, requestor, selection, target and property. Every request is
    /// acknowledged, whether or not it was served.
    pub notify: Option<SelectionRequest>,
    /// Whether the session has reached a terminal state.
    pub finished: bool,
}

/// One clipboard delivery: ephemeral, created when delivery starts and
/// dropped when the responder loop exits.
pub struct ClipboardSession {
    /// The atom naming the offered data's MIME type.
    pub format_atom: u32,
    /// The reserved atom of the capability query.
    pub targets_atom: u32,
    /// The throwaway owner window; meaningful once one was created.
    pub owner: u32,
    /// Where the session stands.
    pub state: SessionState,
}

impl ClipboardSession {
    /// The two atoms name different interned strings, so they are distinct.
    pub open spec fn wf(self) -> bool {
        self.format_atom != self.targets_atom
    }

    /// Start a delivery: nothing created or claimed yet.
    pub fn new(format_atom: u32, targets_atom: u32) -> (r: ClipboardSession)
        requires
            format_atom != targets_atom,
        ensures
            r.wf(),
            r.format_atom == format_atom,
            r.targets_atom == targets_atom,
            r.state == SessionState::Idle,
    {
        ClipboardSession { format_atom, targets_atom, owner: 0, state: SessionState::Idle }
    }

    /// Record that the throwaway owner window was created.
    pub fn owner_created(&mut self, owner: u32)
        requires
            old(self).state == SessionState::Idle,
        ensures
            final(self).state == SessionState::OwnerWindowCreated,
            final(self).owner == owner,
            final(self).format_atom == old(self).format_atom,
            final(self).targets_atom == old(self).targets_atom,
    {
        self.owner = owner;
        self.state = SessionState::OwnerWindowCreated;
    }

    /// Record that ownership of the clipboard selection was requested on
    /// behalf of the owner window.
    pub fn ownership_claimed(&mut self)
        requires
            old(self).state == SessionState::OwnerWindowCreated,
        ensures
            final(self).state == SessionState::OwnershipClaimed,
            final(self).owner == old(self).owner,
            final(self).format_atom == old(self).format_atom,
            final(self).targets_atom == old(self).targets_atom,
    {
        self.state = SessionState::OwnershipClaimed;
    }

    /// Check the owner the server now reports against the window this
    /// session claimed with. Only a confirmed claim may serve requests; on a
    /// mismatch the session aborts before serving anything.
    pub fn ownership_verified(&mut self, reported_owner: u32) -> (r: Result<(), Error>)
        requires
            old(self).state == SessionState::OwnershipClaimed,
        ensures
            r is Ok <==> reported_owner == old(self).owner,
            r is Ok ==> final(self).state == SessionState::Servicing,
            r is Err ==> r == Err::<(), Error>(Error::OwnershipNotEstablished)
                && final(self).state == old(self).state,
            final(self).owner == old(self).owner,
            final(self).format_atom == old(self).format_atom,
            final(self).targets_atom == old(self).targets_atom,
    {
        if reported_owner == self.owner {
            self.state = SessionState::Servicing;
            Ok(())
        } else {
            Err(Error::OwnershipNotEstablished)
        }
    }

    /// Decide everything one event obliges the responder to do.
    ///
    /// A selection-clear ends the session cleanly with no action. A request
    /// for the capability query gets the single-element targets list and
    /// keeps the session open; a request for the offered format gets the
    /// data, after which the owner window is destroyed and the session is
    /// over; any other request is refused with no write. Every request is
    /// acknowledged with an echo of its own fields.
    pub fn handle_event(&mut self, event: &ClipboardEvent) -> (r: Response)
        requires
            old(self).wf(),
            old(self).state == SessionState::Servicing,
        ensures
            final(self).wf(),
            final(self).owner == old(self).owner,
            final(self).format_atom == old(self).format_atom,
            final(self).targets_atom == old(self).targets_atom,
            match *event {
                ClipboardEvent::SelectionClear => {
                    &&& final(self).state == SessionState::Released
                    &&& r.write is None
                    &&& !r.destroy_owner
                    &&& r.notify is None
                    &&& r.finished
                },
                ClipboardEvent::SelectionRequest(q) => {
                    &&& r.notify == Some(q)
                    &&& if q.target == old(self).targets_atom {
                        &&& r.write == Some(PropertyWrite::TargetsList {
                            requestor: q.requestor,
                            property: q.property,
                            format_atom: old(self).format_atom,
                        })
                        &&& !r.destroy_owner
                        &&& !r.finished
                        &&& final(self).state == SessionState::Servicing
                    } else if q.target == old(self).format_atom {
                        &&& r.write == Some(PropertyWrite::Data {
                            requestor: q.requestor,
                            property: q.property,
                            format_atom: old(self).format_atom,
                        })
                        &&& r.destroy_owner
                        &&& r.finished
                        &&& final(self).state == SessionState::Delivered
                    } else {
                        &&& r.write is None
                        &&& !r.destroy_owner
                        &&& !r.finished
                        &&& final(self).state == SessionState::Servicing
                    }
                },
            },
    {
        match event {
            ClipboardEvent::SelectionClear => {
                self.state = SessionState::Released;
                Response { write: None, destroy_owner: false, notify: None, finished: true }
            },
            ClipboardEvent::SelectionRequest(q) => {
                if q.target == self.targets_atom {
                    Response {
                        write: Some(PropertyWrite::TargetsList {
                            requestor: q.requestor,
                            property: q.property,
                            format_atom: self.format_atom,
                        }),
                        destroy_owner: false,
                        notify: Some(*q),
                        finished: false,
                    }
                } else if q.target == self.format_atom {
                    self.state = SessionState::Delivered;
                    Response {
                        write: Some(PropertyWrite::Data {
                            requestor: q.requestor,
                            property: q.property,
                            format_atom: self.format_atom,
                        }),
                        destroy_owner: true,
                        notify: Some(*q),
                        finished: true,
                    }
                } else {
                    Response { write: None, destroy_owner: false, notify: Some(*q), finished: false }
                }
            },
        }
    }

    /// Whether the session has reached a terminal state.
    pub fn finished(&self) -> (r: bool)
        ensures
            r == (self.state == SessionState::Released || self.state == SessionState::Delivered),
    {
        match self.state {
            SessionState::Released => true,
            SessionState::Delivered => true,
            _ => false,
        }
    }
}

} // verus!
