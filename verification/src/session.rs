//! One node's session: the state behind its stream, and what the two
//! session tasks do with each message they receive.

use crate::auth_state::AuthState;
use crate::command_bus::{BusEvent, ServerRequestByUser};
use crate::message::{
    Envelope, NodeResponse, Payload, RequestId, ServerCommand, ServerCommandKind,
    ServerResponse, ServerResponseKind, ServerStatus, extract_request_key,
};
use crate::pending::{PendingEntries, PendingTable, SlotId};
use crate::presence::{BusId, NodeKey, PresenceRegistry};
use crate::uptime::{format_uptime, uptime_text};
use vstd::prelude::*;

verus! {

/// Where a session stands. It only ever moves forward:
/// `Unauthenticated`, then `Authenticated`, then `Closed`.
#[derive(Clone, Copy, Debug, PartialEq, Eq)]
pub enum SessionState {
    Unauthenticated,
    Authenticated,
    Closed,
}

/// What the ingress task does with one envelope that the node sent.
#[derive(Clone, Debug, PartialEq, Eq)]
pub enum Routing {
    /// Nothing leaves the session.
    Ignore,
    /// Answer the node on its outbound channel.
    Reply(Envelope),
    /// Hand the envelope to the caller that waits on `slot`.
    Deliver { slot: SlotId, envelope: Envelope },
    /// Publish the envelope on the event bus `bus`.
    Publish { bus: BusId, envelope: Envelope },
}

/// What the egress task does with one event of the command bus.
#[derive(Clone, Debug, PartialEq, Eq)]
pub enum EgressStep {
    /// Queue the envelope on the node's outbound channel.
    Forward(Envelope),
    /// The request is for another node, or carries nothing.
    Skip,
    /// The command bus is lost to this session: the task ends.
    Stop,
}

/// The state of one node session.
pub struct Session {
    auth: AuthState,
    bus: BusId,
    closed: bool,
}

/// Where a reply goes, given the calls in flight: to the slot that waits
/// under the reply's key, or else onto the session's event bus.
pub open spec fn route_of(pending: PendingEntries, bus: BusId, response: NodeResponse) -> Routing {
    match response.correlation() {
        Some(key) if pending.contains_key(key) => Routing::Deliver {
            slot: pending[key],
            envelope: Envelope::of_response(response),
        },
        _ => Routing::Publish { bus, envelope: Envelope::of_response(response) },
    }
}

/// The calls in flight once a reply has been routed: the call that it
/// answers, if any, no longer waits.
pub open spec fn pending_after(pending: PendingEntries, response: NodeResponse) -> PendingEntries {
    match response.correlation() {
        Some(key) => pending.remove(key),
        None => pending,
    }
}

/// The envelope is a status reply that reports `running` and the uptime of
/// `uptime_secs` seconds.
pub open spec fn is_status_reply(envelope: Envelope, uptime_secs: u64) -> bool {
    &&& envelope.payload matches Some(Payload::ServerResponse(response))
    &&& response.kind matches Some(ServerResponseKind::ServerStatus(status))
    &&& status.status@ == "running"@
    &&& status.uptime@ == uptime_text(uptime_secs as nat)
}

impl Session {
    /// Where the session stands.
    pub closed spec fn state(&self) -> SessionState {
        if self.closed {
            SessionState::Closed
        } else if self.auth.authenticated() {
            SessionState::Authenticated
        } else {
            SessionState::Unauthenticated
        }
    }

    /// The node key of an authenticated session.
    pub closed spec fn credentials(&self) -> Option<NodeKey> {
        if !self.closed && self.auth.authenticated() {
            Some(self.auth.key())
        } else {
            None
        }
    }

    /// The session's own event bus.
    pub closed spec fn bus(&self) -> BusId {
        self.bus
    }

    /// The session forwards `request` to its node: it is open, the request
    /// is addressed to exactly its credentials, and there is a payload.
    pub open spec fn accepts(&self, request: ServerRequestByUser) -> bool {
        &&& self.credentials() == Some((request.id@, request.password@))
        &&& request.envelope.payload is Some
    }

    /// What the egress task does with `event`: a request is forwarded exactly
    /// when the session accepts it, and the task ends once the bus is lost.
    pub open spec fn egress_of(&self, event: BusEvent<ServerRequestByUser>) -> EgressStep {
        match event {
            BusEvent::Message(request) => if self.accepts(request) {
                EgressStep::Forward(request.envelope)
            } else {
                EgressStep::Skip
            },
            _ => EgressStep::Stop,
        }
    }

    /// A state and its credentials go together.
    pub proof fn lemma_state_credentials(&self)
        ensures
            self.credentials() is Some <==> self.state() is Authenticated,
    {
    }

    /// The session of a stream that has just been opened.
    pub fn new(bus: BusId) -> (session: Self)
        ensures
            session.state() is Unauthenticated,
            session.credentials() is None,
            session.bus() == bus,
    {
        Session { auth: AuthState::default(), bus, closed: false }
    }

    /// Where the session stands.
    pub fn current_state(&self) -> (state: SessionState)
        ensures
            state == self.state(),
    {
        if self.closed {
            SessionState::Closed
        } else if self.auth.is_authenticated() {
            SessionState::Authenticated
        } else {
            SessionState::Unauthenticated
        }
    }

    /// The handle of the session's own event bus.
    pub fn bus_id(&self) -> (bus: BusId)
        ensures
            bus == self.bus(),
    {
        self.bus
    }

    /// Handles a command that the node addressed to the coordinator.
    ///
    /// The first authentication request of a stream sets the credentials and
    /// registers the session's bus under them. An authenticated session
    /// answers a status query and ignores everything else, a further
    /// authentication request included; before authentication and after
    /// closing, nothing but that first request has any effect.
    pub fn handle_server_command(
        &mut self,
        command: ServerCommand,
        nodes: &mut PresenceRegistry,
        uptime_secs: u64,
    ) -> (reply: Option<Envelope>)
        ensures
            final(self).bus() == old(self).bus(),
            old(self).state() is Authenticated && command.is_auth_request() ==> reply is None
                && *final(self) == *old(self) && final(nodes)@ == old(nodes)@,
            match (old(self).state(), command.kind) {
                (SessionState::Unauthenticated, Some(ServerCommandKind::AuthRequest(request))) => {
                    &&& reply is None
                    &&& final(self).state() is Authenticated
                    &&& final(self).credentials() == Some((request.node_id@, request.password@))
                    &&& final(nodes)@ == old(nodes)@.insert(
                        (request.node_id@, request.password@),
                        old(self).bus(),
                    )
                },
                (SessionState::Authenticated, Some(ServerCommandKind::GetServerStatus)) => {
                    &&& reply matches Some(envelope)
                    &&& is_status_reply(envelope, uptime_secs)
                    &&& *final(self) == *old(self)
                    &&& final(nodes)@ == old(nodes)@
                },
                _ => {
                    &&& reply is None
                    &&& *final(self) == *old(self)
                    &&& final(nodes)@ == old(nodes)@
                },
            },
    {
        if self.closed {
            return None;
        }
        if !self.auth.is_authenticated() {
            if let Some(ServerCommandKind::AuthRequest(request)) = command.kind {
                let id = request.node_id;
                let password = request.password;
                self.auth.authenticate(id.clone(), password.clone());
                nodes.register(id, password, self.bus);
            }
            return None;
        }
        if let Some(ServerCommandKind::GetServerStatus) = command.kind {
            let status = ServerStatus {
                status: "running".to_owned(),
                uptime: format_uptime(uptime_secs),
            };
            let response = ServerResponse { kind: Some(ServerResponseKind::ServerStatus(status)) };
            Some(Envelope { payload: Some(Payload::ServerResponse(response)) })
        } else {
            None
        }
    }

    /// Routes a reply of the node.
    ///
    /// A reply that names a request under which a caller waits is taken out
    /// of the pending table and delivered to that caller's slot. Any other
    /// reply (a spontaneous update, or one whose caller has given up) goes
    /// onto the session's own event bus. A session that is not authenticated
    /// routes nothing.
    pub fn handle_node_response(&self, response: NodeResponse, pending: &mut PendingTable) -> (routing:
        Routing)
        ensures
            self.state() is Authenticated ==> routing == route_of(
                old(pending)@,
                self.bus(),
                response,
            ) && final(pending)@ == pending_after(old(pending)@, response),
            !(self.state() is Authenticated) ==> routing is Ignore && final(pending)@ == old(pending)@,
    {
        if self.closed || !self.auth.is_authenticated() {
            return Routing::Ignore;
        }
        let waiting: Option<SlotId> = match extract_request_key(&response) {
            Some(key) => match &key.request_id {
                Some(RequestId::Value(id)) => pending.remove(id.as_str(), key.request_type),
                _ => None,
            },
            None => None,
        };
        match waiting {
            Some(slot) => Routing::Deliver { slot, envelope: Envelope::from_response(response) },
            None => Routing::Publish { bus: self.bus, envelope: Envelope::from_response(response) },
        }
    }

    /// One step of the ingress task: what to do with an envelope that the
    /// node sent. Commands to the coordinator and replies are handled as
    /// `handle_server_command` and `handle_node_response` say; an envelope
    /// with any other payload, or with none, is dropped.
    pub fn ingress(
        &mut self,
        envelope: Envelope,
        nodes: &mut PresenceRegistry,
        pending: &mut PendingTable,
        uptime_secs: u64,
    ) -> (routing: Routing)
        ensures
            final(self).bus() == old(self).bus(),
            old(self).state() is Closed ==> final(self).state() is Closed,
            old(self).state() is Authenticated ==> *final(self) == *old(self),
            !(final(self).state() is Closed) || old(self).state() is Closed,
            match envelope.payload {
                Some(Payload::ServerCommand(command)) => {
                    &&& final(pending)@ == old(pending)@
                    &&& match (old(self).state(), command.kind) {
                        (
                            SessionState::Unauthenticated,
                            Some(ServerCommandKind::AuthRequest(request)),
                        ) => {
                            &&& routing is Ignore
                            &&& final(self).state() is Authenticated
                            &&& final(self).credentials() == Some(
                                (request.node_id@, request.password@),
                            )
                            &&& final(nodes)@ == old(nodes)@.insert(
                                (request.node_id@, request.password@),
                                old(self).bus(),
                            )
                        },
                        (SessionState::Authenticated, Some(ServerCommandKind::GetServerStatus)) => {
                            &&& routing matches Routing::Reply(reply)
                            &&& is_status_reply(reply, uptime_secs)
                            &&& final(nodes)@ == old(nodes)@
                        },
                        _ => {
                            &&& routing is Ignore
                            &&& *final(self) == *old(self)
                            &&& final(nodes)@ == old(nodes)@
                        },
                    }
                },
                Some(Payload::NodeResponse(response)) => {
                    &&& *final(self) == *old(self)
                    &&& final(nodes)@ == old(nodes)@
                    &&& old(self).state() is Authenticated ==> routing == route_of(
                        old(pending)@,
                        old(self).bus(),
                        response,
                    ) && final(pending)@ == pending_after(old(pending)@, response)
                    &&& !(old(self).state() is Authenticated) ==> routing is Ignore && final(pending)@ == old(pending)@
                },
                _ => {
                    &&& routing is Ignore
                    &&& *final(self) == *old(self)
                    &&& final(nodes)@ == old(nodes)@
                    &&& final(pending)@ == old(pending)@
                },
            },
    {
        match envelope.payload {
            Some(Payload::ServerCommand(command)) => {
                match self.handle_server_command(command, nodes, uptime_secs) {
                    Some(reply) => Routing::Reply(reply),
                    None => Routing::Ignore,
                }
            },
            Some(Payload::NodeResponse(response)) => self.handle_node_response(response, pending),
            _ => Routing::Ignore,
        }
    }

    /// One step of the egress task: what to do with an event of the command
    /// bus. A request is forwarded exactly when the session accepts it; once
    /// the bus is lost, by closing or by lagging, the task ends.
    pub fn egress(&self, event: BusEvent<ServerRequestByUser>) -> (step: EgressStep)
        ensures
            step == self.egress_of(event),
    {
        match event {
            BusEvent::Message(request) => {
                if !self.closed && self.auth.is_match(request.id.as_str(), request.password.as_str())
                    && request.envelope.payload.is_some() {
                    EgressStep::Forward(request.envelope)
                } else {
                    EgressStep::Skip
                }
            },
            _ => EgressStep::Stop,
        }
    }

    /// Ends the session when its stream ends or fails: the credentials are
    /// drained and the node is taken out of the presence registry, whichever
    /// session registered it last. Closing twice changes nothing more.
    pub fn close(&mut self, nodes: &mut PresenceRegistry)
        ensures
            final(self).state() is Closed,
            final(self).credentials() is None,
            final(self).bus() == old(self).bus(),
            old(self).credentials() matches Some(key) ==> final(nodes).bus_of(key) is None,
            match old(self).credentials() {
                Some(key) => final(nodes)@ == old(nodes)@.remove(key),
                None => final(nodes)@ == old(nodes)@,
            },
    {
        if !self.closed {
            if let Some((id, password)) = self.auth.take_credentials() {
                nodes.remove(id.as_str(), password.as_str());
            }
            self.closed = true;
        }
    }
}

} // verus!
