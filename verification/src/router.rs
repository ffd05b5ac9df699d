//! Routing of the messages that authenticated clients send over WebSocket.
//!
//! A direct message is first handed to the recipient's connections on this
//! pod. When none takes it, the recipient's global presence decides: an
//! online recipient is reached through the pod that holds it (published on
//! its subject), an offline one gets the payload queued and a push wakeup.
//! The sender is acknowledged in every case, with `delivered` only when a
//! local connection took the message. The routing is a state machine: each
//! step returns the actions to perform, and the next step takes their outcome.
use vstd::prelude::*;
use crate::encoding::{base64_decode, base64_text};
use crate::ids::{new_uuid_v4, uuid_text, uuid_to_string};
use crate::message::{is_delivery_of, is_response_for, OfflineMessage, OfflineMessageResponse};
use crate::protocol::{user_subject, user_subject_text, WsMessage};
use crate::time::utc_now_rfc3339;

verus! {

/// Something the router asks its caller to do.
#[derive(Debug)]
pub enum RouteAction {
    /// Hand a message to every connection of an account on this pod; when a
    /// route awaits local delivery, report whether one took it.
    Deliver { account_id: u128, message: WsMessage },
    /// Look up whether `owner_id` has `contact_id` as an accepted contact,
    /// and report it (`None` when the lookup failed).
    CheckContact { owner_id: u128, contact_id: u128 },
    /// Look up whether an account is online on any pod, and report it.
    CheckPresence { account_id: u128 },
    /// Publish a message on a subject, for the pod that holds the recipient.
    Publish { subject: String, message: WsMessage },
    /// Queue an encrypted payload for an offline recipient.
    EnqueueOffline {
        recipient_id: u128,
        message_id: u128,
        conversation_id: u128,
        sender_id: u128,
        payload: Vec<u8>,
        payload_type: u8,
    },
    /// Publish a push wakeup for an account's devices.
    PushWakeup { account_id: u128 },
}

/// Where a direct message's routing stands.
#[derive(Debug)]
pub enum RoutePhase {
    AwaitingContactCheck,
    AwaitingLocalDelivery,
    AwaitingPresence,
    Finished,
}

/// A direct message being routed.
#[derive(Debug)]
pub struct MessageRoute {
    pub phase: RoutePhase,
    pub request_id: String,
    pub sender_id: u128,
    pub recipient_id: u128,
    pub conversation_id: u128,
    pub encrypted_payload: String,
    pub payload_type: u8,
    /// The server-assigned message identifier.
    pub id: u128,
    /// The server-assigned message identifier, as text.
    pub message_id: String,
    /// When the server accepted the message, as RFC 3339 text.
    pub created_at: String,
}

/// `m` is the message that the recipient of route `r` receives.
pub open spec fn is_incoming_for(r: MessageRoute, m: WsMessage) -> bool {
    m matches WsMessage::MessageIncoming {
        message_id,
        conversation_id,
        sender_id,
        encrypted_payload,
        payload_type,
        created_at,
    } && message_id == r.message_id && conversation_id == r.conversation_id && sender_id
        == r.sender_id && encrypted_payload == r.encrypted_payload && payload_type
        == r.payload_type && created_at == r.created_at
}

/// `a` acknowledges route `r` to its sender with the given status.
pub open spec fn is_ack_for(r: MessageRoute, status: Seq<char>, a: RouteAction) -> bool {
    a matches RouteAction::Deliver { account_id, message } && account_id == r.sender_id && (
    message matches WsMessage::MessageAck { request_id, message_id, status: s } && request_id
        == r.request_id && message_id == r.message_id && s@ == status)
}

/// `a` tells the sender of route `r` that its recipient does not exist or
/// has not accepted the sender as a contact.
pub open spec fn is_refusal_for(r: MessageRoute, a: RouteAction) -> bool {
    a matches RouteAction::Deliver { account_id, message } && account_id == r.sender_id && (
    message matches WsMessage::Error { request_id, code, message } && request_id == Some(r.request_id)
        && code@ == "RECIPIENT_NOT_FOUND"@ && message@ == "Recipient does not exist or is not a contact"@)
}

/// `r2` is route `r` moved to another phase.
pub open spec fn same_route(r: MessageRoute, r2: MessageRoute) -> bool {
    &&& r2.request_id == r.request_id
    &&& r2.sender_id == r.sender_id
    &&& r2.recipient_id == r.recipient_id
    &&& r2.conversation_id == r.conversation_id
    &&& r2.encrypted_payload == r.encrypted_payload
    &&& r2.payload_type == r.payload_type
    &&& r2.id == r.id
    &&& r2.message_id == r.message_id
    &&& r2.created_at == r.created_at
}

/// The routing of WebSocket messages.
#[derive(Debug)]
pub struct WsRouter;

impl MessageRoute {
    /// The message the recipient receives.
    fn incoming(&self) -> (m: WsMessage)
        ensures
            is_incoming_for(*self, m),
    {
        WsMessage::MessageIncoming {
            message_id: self.message_id.clone(),
            conversation_id: self.conversation_id,
            sender_id: self.sender_id,
            encrypted_payload: self.encrypted_payload.clone(),
            payload_type: self.payload_type,
            created_at: self.created_at.clone(),
        }
    }

    /// The acknowledgment to the sender with a status.
    fn ack(&self, status: &str) -> (a: RouteAction)
        ensures
            is_ack_for(*self, status@, a),
    {
        RouteAction::Deliver {
            account_id: self.sender_id,
            message: WsMessage::MessageAck {
                request_id: self.request_id.clone(),
                message_id: self.message_id.clone(),
                status: String::from_str(status),
            },
        }
    }

    /// Takes whether the recipient has the sender as an accepted contact
    /// (`None` when the lookup failed). Only then is the message handed to the
    /// recipient's connections on this pod; otherwise nothing reaches the
    /// recipient, and the sender is told `RECIPIENT_NOT_FOUND` instead of
    /// being acknowledged.
    pub fn on_contact_check(&mut self, accepted: Option<bool>) -> (actions: Vec<RouteAction>)
        requires
            old(self).phase is AwaitingContactCheck,
        ensures
            same_route(*old(self), *final(self)),
            actions@.len() == 1,
            accepted == Some(true) ==> final(self).phase is AwaitingLocalDelivery && (
            actions@[0] matches RouteAction::Deliver { account_id, message } && account_id
                == old(self).recipient_id && is_incoming_for(*old(self), message)),
            accepted != Some(true) ==> final(self).phase is Finished && is_refusal_for(
                *old(self),
                actions@[0],
            ),
    {
        let mut actions = Vec::new();
        let ok = match accepted {
            Some(b) => b,
            None => false,
        };
        if ok {
            actions.push(RouteAction::Deliver { account_id: self.recipient_id, message: self.incoming() });
            self.phase = RoutePhase::AwaitingLocalDelivery;
        } else {
            actions.push(
                RouteAction::Deliver {
                    account_id: self.sender_id,
                    message: WsMessage::Error {
                        request_id: Some(self.request_id.clone()),
                        code: String::from_str("RECIPIENT_NOT_FOUND"),
                        message: String::from_str("Recipient does not exist or is not a contact"),
                    },
                },
            );
            self.phase = RoutePhase::Finished;
        }
        proof {
            reveal_strlit("RECIPIENT_NOT_FOUND");
            reveal_strlit("Recipient does not exist or is not a contact");
        }
        actions
    }

    /// Takes the outcome of handing the message to the recipient's local
    /// connections. When one took it, the sender is acknowledged with
    /// `delivered` and the routing ends; otherwise the recipient's global
    /// presence is looked up next.
    pub fn on_local_delivery(&mut self, delivered: bool) -> (actions: Vec<RouteAction>)
        requires
            old(self).phase is AwaitingLocalDelivery,
        ensures
            same_route(*old(self), *final(self)),
            delivered ==> final(self).phase is Finished && actions@.len() == 1 && is_ack_for(
                *old(self),
                "delivered"@,
                actions@[0],
            ),
            !delivered ==> final(self).phase is AwaitingPresence && actions@.len() == 1
                && actions@[0] == (RouteAction::CheckPresence {
                account_id: old(self).recipient_id,
            }),
    {
        let mut actions = Vec::new();
        if delivered {
            actions.push(self.ack("delivered"));
            self.phase = RoutePhase::Finished;
        } else {
            actions.push(RouteAction::CheckPresence { account_id: self.recipient_id });
            self.phase = RoutePhase::AwaitingPresence;
        }
        actions
    }

    /// Takes the recipient's global presence (`None` when the lookup failed,
    /// which counts as offline) and whether a message bus is connected, and
    /// ends the routing. An online recipient is reached by publishing the
    /// message on its subject; for an offline one the payload, if it is valid
    /// base64, is queued as the bytes it encodes, and a push wakeup is
    /// published. Either way the sender is acknowledged with `sent`, last.
    pub fn on_presence(&mut self, online: Option<bool>, bus_connected: bool) -> (actions: Vec<
        RouteAction,
    >)
        requires
            old(self).phase is AwaitingPresence,
        ensures
            same_route(*old(self), *final(self)),
            final(self).phase is Finished,
            actions@.len() >= 1,
            is_ack_for(*old(self), "sent"@, actions@.last()),
            online == Some(true) ==> (if bus_connected {
                actions@.len() == 2 && (actions@[0] matches RouteAction::Publish { subject, message }
                    && subject@ == user_subject_text(old(self).recipient_id) && is_incoming_for(
                    *old(self),
                    message,
                ))
            } else {
                actions@.len() == 1
            }),
            online != Some(true) ==> {
                let queued = exists|b: Seq<u8>| base64_text(b) == old(self).encrypted_payload@;
                let n: int = (if queued { 1int } else { 0int }) + (if bus_connected { 1int } else { 0int });
                &&& actions@.len() == n + 1
                &&& queued ==> (actions@[0] matches RouteAction::EnqueueOffline {
                    recipient_id,
                    message_id,
                    conversation_id,
                    sender_id,
                    payload,
                    payload_type,
                } && recipient_id == old(self).recipient_id && message_id == old(self).id && conversation_id
                    == old(self).conversation_id && sender_id == old(self).sender_id
                    && payload_type == old(self).payload_type && base64_text(payload@)
                    == old(self).encrypted_payload@)
                &&& bus_connected ==> actions@[n - 1] == (RouteAction::PushWakeup {
                    account_id: old(self).recipient_id,
                })
            },
    {
        let mut actions = Vec::new();
        let is_online = match online {
            Some(b) => b,
            None => false,
        };
        if is_online {
            if bus_connected {
                actions.push(
                    RouteAction::Publish {
                        subject: user_subject(self.recipient_id),
                        message: self.incoming(),
                    },
                );
            }
        } else {
            let decoded = base64_decode(self.encrypted_payload.as_str());
            proof {
                if exists|b: Seq<u8>| base64_text(b) == self.encrypted_payload@ {
                    let b = choose|b: Seq<u8>| base64_text(b) == self.encrypted_payload@;
                    assert(base64_text(b) == self.encrypted_payload@);
                }
            }
            match decoded {
                Some(payload) => {
                    actions.push(
                        RouteAction::EnqueueOffline {
                            recipient_id: self.recipient_id,
                            message_id: self.id,
                            conversation_id: self.conversation_id,
                            sender_id: self.sender_id,
                            payload,
                            payload_type: self.payload_type,
                        },
                    );
                },
                None => {},
            }
            if bus_connected {
                actions.push(RouteAction::PushWakeup { account_id: self.recipient_id });
            }
        }
        actions.push(self.ack("sent"));
        self.phase = RoutePhase::Finished;
        actions
    }
}

impl WsRouter {
    /// Starts routing a direct message that the server accepted under a new
    /// identifier at a given time: first, whether the recipient has accepted
    /// the sender as a contact is looked up.
    pub fn start_message_send(
        sender_id: u128,
        request_id: String,
        recipient_id: u128,
        conversation_id: u128,
        encrypted_payload: String,
        payload_type: u8,
        message_id: u128,
        created_at: String,
    ) -> (res: (MessageRoute, Vec<RouteAction>))
        ensures
            res.0.phase is AwaitingContactCheck,
            res.0.request_id == request_id,
            res.0.sender_id == sender_id,
            res.0.recipient_id == recipient_id,
            res.0.conversation_id == conversation_id,
            res.0.encrypted_payload == encrypted_payload,
            res.0.payload_type == payload_type,
            res.0.id == message_id,
            res.0.message_id@ == uuid_text(message_id),
            res.0.created_at == created_at,
            res.1@ == seq![RouteAction::CheckContact { owner_id: recipient_id, contact_id: sender_id }],
    {
        let route = MessageRoute {
            phase: RoutePhase::AwaitingContactCheck,
            request_id,
            sender_id,
            recipient_id,
            conversation_id,
            encrypted_payload,
            payload_type,
            id: message_id,
            message_id: uuid_to_string(message_id),
            created_at,
        };
        let mut actions = Vec::new();
        actions.push(RouteAction::CheckContact { owner_id: recipient_id, contact_id: sender_id });
        proof {
            assert(actions@ =~= seq![RouteAction::CheckContact { owner_id: recipient_id, contact_id: sender_id }]);
        }
        (route, actions)
    }

    /// Dispatches a message from an authenticated client. A direct message is
    /// given a fresh random (version 4) identifier and the current time and
    /// starts a route, which first checks that the recipient has accepted the
    /// sender as a contact; a
    /// ping is answered with a pong to the sender; typing indicators, read
    /// receipts, group messages and server-side kinds need no action.
    pub fn handle_message(sender_id: u128, msg: WsMessage) -> (res: (
        Option<MessageRoute>,
        Vec<RouteAction>,
    ))
        ensures
            match msg {
                WsMessage::MessageSend {
                    request_id,
                    recipient_id,
                    conversation_id,
                    encrypted_payload,
                    payload_type,
                } => res.0 matches Some(r) && r.phase is AwaitingContactCheck && r.request_id
                    == request_id && r.sender_id == sender_id && r.recipient_id == recipient_id
                    && r.conversation_id == conversation_id && r.encrypted_payload
                    == encrypted_payload && r.payload_type == payload_type && r.message_id@
                    == uuid_text(r.id) && r.id & 0xF000_8000_0000_0000_0000u128
                    == 0x4000_8000_0000_0000_0000u128 && r.id & 0x4000_0000_0000_0000u128 == 0
                    && res.1@ == seq![
                    RouteAction::CheckContact { owner_id: recipient_id, contact_id: sender_id },
                ],
                WsMessage::Ping => res.0 is None && res.1@.len() == 1 && res.1@[0]
                    == (RouteAction::Deliver { account_id: sender_id, message: WsMessage::Pong }),
                _ => res.0 is None && res.1@.len() == 0,
            },
    {
        match msg {
            WsMessage::MessageSend {
                request_id,
                recipient_id,
                conversation_id,
                encrypted_payload,
                payload_type,
            } => {
                let message_id = new_uuid_v4();
                let created_at = utc_now_rfc3339();
                let (route, actions) = WsRouter::start_message_send(
                    sender_id,
                    request_id,
                    recipient_id,
                    conversation_id,
                    encrypted_payload,
                    payload_type,
                    message_id,
                    created_at,
                );
                (Some(route), actions)
            },
            WsMessage::Ping => {
                let mut actions = Vec::new();
                actions.push(RouteAction::Deliver { account_id: sender_id, message: WsMessage::Pong });
                (None, actions)
            },
            _ => (None, Vec::new()),
        }
    }
}

/// A message queued for an offline recipient reaches it unchanged and under
/// the identifier its sender was acknowledged with: the queued bytes are
/// those the sender's base64 text encodes and are stored under the route's
/// identifier, so the queued message, whether pushed when the recipient
/// connects or fetched over REST, carries the very text the sender sent and
/// the identifier of the sender's acknowledgment.
pub proof fn queued_message_arrives_unchanged(
    r: MessageRoute,
    ack: RouteAction,
    status: Seq<char>,
    queued: Seq<u8>,
    m: OfflineMessage,
    pushed: WsMessage,
    fetched: OfflineMessageResponse,
)
    requires
        r.message_id@ == uuid_text(r.id),
        is_ack_for(r, status, ack),
        base64_text(queued) == r.encrypted_payload@,
        m.message_id == r.id,
        m.encrypted_payload@ == queued,
        is_delivery_of(m, pushed),
        is_response_for(m, fetched),
    ensures
        pushed matches WsMessage::MessageIncoming { encrypted_payload, message_id, .. }
            && encrypted_payload@ == r.encrypted_payload@ && (ack matches RouteAction::Deliver {
            message: WsMessage::MessageAck { message_id: acked, .. },
            ..
        } && message_id@ == acked@),
        fetched.encrypted_payload@ == r.encrypted_payload@,
        fetched.message_id == r.id,
{
}

} // verus!
