//! Encrypted messages, the offline queue and disappearing-message timers. The
//! server only ever holds ciphertext.
use vstd::prelude::*;
use crate::encoding::{base64_encode, base64_text};
use crate::ids::{uuid_text, uuid_to_string};
use crate::protocol::WsMessage;
use crate::time::{rfc3339_or_now, spec_rfc3339_of_millis};
use crate::types::{payload_type_code, payload_type_of_code, MessageStatus, PayloadType};

verus! {

/// A message of a conversation's history.
#[derive(Debug, Clone)]
pub struct Message {
    pub conversation_id: u128,
    pub message_id: u128,
    pub sender_id: u128,
    pub encrypted_payload: Vec<u8>,
    pub payload_type: PayloadType,
    pub status: MessageStatus,
    pub created_at_ms: i64,
}

/// A message queued for a recipient who was offline; it is dropped after
/// seven days or when the recipient acknowledges the queue.
#[derive(Debug, Clone)]
pub struct OfflineMessage {
    pub recipient_id: u128,
    pub message_id: u128,
    pub conversation_id: u128,
    pub sender_id: u128,
    pub encrypted_payload: Vec<u8>,
    pub payload_type: PayloadType,
    pub created_at_ms: i64,
}

/// How long queued messages live, in seconds (seven days).
pub const OFFLINE_QUEUE_TTL_SECS: i64 = 604800;

/// The payload type read from a stored byte: the byte's code read as
/// unsigned, and text when it is no payload type's code.
pub open spec fn payload_type_of_stored(v: i8) -> PayloadType {
    match payload_type_of_code(v as u8) {
        Some(p) => p,
        None => PayloadType::Text,
    }
}

/// Reads a queued message's stored payload type byte.
pub fn payload_type_from_stored(v: i8) -> (p: PayloadType)
    ensures
        p == payload_type_of_stored(v),
{
    match PayloadType::from_u8(v as u8) {
        Some(p) => p,
        None => PayloadType::Text,
    }
}

/// A queued message as the REST API returns it.
#[derive(Debug)]
pub struct OfflineMessageResponse {
    pub message_id: u128,
    pub conversation_id: u128,
    pub sender_id: u128,
    pub encrypted_payload: String,
    pub payload_type: PayloadType,
    pub created_at: String,
}

impl OfflineMessage {
    /// The queued message as the REST API returns it: the payload in base64
    /// and the time as RFC 3339 text.
    pub fn to_response(&self) -> (r: OfflineMessageResponse)
        ensures
            r.message_id == self.message_id,
            r.conversation_id == self.conversation_id,
            r.sender_id == self.sender_id,
            r.encrypted_payload@ == base64_text(self.encrypted_payload@),
            r.payload_type == self.payload_type,
            spec_rfc3339_of_millis(self.created_at_ms) matches Some(t) ==> r.created_at@ == t,
    {
        OfflineMessageResponse {
            message_id: self.message_id,
            conversation_id: self.conversation_id,
            sender_id: self.sender_id,
            encrypted_payload: base64_encode(self.encrypted_payload.as_slice()),
            payload_type: self.payload_type,
            created_at: rfc3339_or_now(self.created_at_ms),
        }
    }

    /// The queued message as it is pushed to its recipient when the recipient
    /// connects.
    pub fn to_incoming(&self) -> (m: WsMessage)
        ensures
            m matches WsMessage::MessageIncoming {
                message_id,
                conversation_id,
                sender_id,
                encrypted_payload,
                payload_type,
                created_at,
            } && message_id@ == uuid_text(self.message_id) && conversation_id
                == self.conversation_id && sender_id == self.sender_id && encrypted_payload@
                == base64_text(self.encrypted_payload@) && payload_type == payload_type_code(
                self.payload_type,
            ) && (spec_rfc3339_of_millis(self.created_at_ms) matches Some(t) ==> created_at@ == t),
    {
        WsMessage::MessageIncoming {
            message_id: uuid_to_string(self.message_id),
            conversation_id: self.conversation_id,
            sender_id: self.sender_id,
            encrypted_payload: base64_encode(self.encrypted_payload.as_slice()),
            payload_type: self.payload_type.to_u8(),
            created_at: rfc3339_or_now(self.created_at_ms),
        }
    }
}

/// A stored row of the offline queue, as the store hands it back: `None`
/// for a row that did not read as (recipient, message, conversation, sender,
/// payload, payload type byte, created at).
pub type OfflineRow = Option<(u128, u128, u128, u128, Vec<u8>, i8, i64)>;

/// The stored rows that read, in order.
pub open spec fn read_rows(rows: Seq<OfflineRow>) -> Seq<(u128, u128, u128, u128, Vec<u8>, i8, i64)>
    decreases rows.len(),
{
    if rows.len() == 0 {
        Seq::empty()
    } else {
        let rest = read_rows(rows.drop_last());
        match rows.last() {
            Some(r) => rest.push(r),
            None => rest,
        }
    }
}

/// `m` is the queued message that a stored row holds, its payload type byte
/// read as a payload type.
pub open spec fn is_message_of_row(m: OfflineMessage, r: (u128, u128, u128, u128, Vec<u8>, i8, i64)) -> bool {
    &&& m.recipient_id == r.0
    &&& m.message_id == r.1
    &&& m.conversation_id == r.2
    &&& m.sender_id == r.3
    &&& m.encrypted_payload@ == r.4@
    &&& m.payload_type == payload_type_of_stored(r.5)
    &&& m.created_at_ms == r.6
}

/// The queued messages of the stored rows of the offline queue, in order;
/// rows that did not read are left out.
pub fn offline_messages_from_rows(rows: Vec<OfflineRow>) -> (res: Vec<OfflineMessage>)
    ensures
        res@.len() == read_rows(rows@).len(),
        forall|i: int| 0 <= i < res@.len() ==> is_message_of_row(#[trigger] res@[i], read_rows(rows@)[i]),
{
    let mut res: Vec<OfflineMessage> = Vec::new();
    let mut i: usize = 0;
    while i < rows.len()
        invariant
            i <= rows.len(),
            res@.len() == read_rows(rows@.take(i as int)).len(),
            forall|j: int| 0 <= j < res@.len() ==> is_message_of_row(#[trigger] res@[j], read_rows(rows@.take(i as int))[j]),
        decreases rows.len() - i,
    {
        assert(rows@.take(i as int) == rows@.take((i + 1) as int).drop_last());
        match &rows[i] {
            Some((recipient_id, message_id, conversation_id, sender_id, encrypted_payload, pt, created_at_ms)) => {
                res.push(
                    OfflineMessage {
                        recipient_id: *recipient_id,
                        message_id: *message_id,
                        conversation_id: *conversation_id,
                        sender_id: *sender_id,
                        encrypted_payload: encrypted_payload.clone(),
                        payload_type: payload_type_from_stored(*pt),
                        created_at_ms: *created_at_ms,
                    },
                );
            },
            None => {},
        }
        i = i + 1;
    }
    assert(rows@.take(rows.len() as int) == rows@);
    res
}

/// Whether a stored row of the offline queue comes before another in the
/// store's order: by the time it was queued, then by message identifier.
pub open spec fn queued_before(
    a: (u128, u128, u128, u128, Vec<u8>, i8, i64),
    b: (u128, u128, u128, u128, Vec<u8>, i8, i64),
) -> bool {
    a.6 < b.6 || (a.6 == b.6 && a.1 < b.1)
}

/// The offline queue after a row is queued: the store keeps the rows in its
/// order, so the row goes after those that come before it.
pub open spec fn queue_row(
    queue: Seq<(u128, u128, u128, u128, Vec<u8>, i8, i64)>,
    row: (u128, u128, u128, u128, Vec<u8>, i8, i64),
) -> Seq<(u128, u128, u128, u128, Vec<u8>, i8, i64)>
    decreases queue.len(),
{
    if queue.len() == 0 || queued_before(queue.last(), row) {
        queue.push(row)
    } else {
        queue_row(queue.drop_last(), row).push(queue.last())
    }
}

/// The offline queue after rows are queued one after the other into an
/// empty queue.
pub open spec fn queue_rows(rows: Seq<(u128, u128, u128, u128, Vec<u8>, i8, i64)>) -> Seq<
    (u128, u128, u128, u128, Vec<u8>, i8, i64),
>
    decreases rows.len(),
{
    if rows.len() == 0 {
        Seq::empty()
    } else {
        queue_row(queue_rows(rows.drop_last()), rows.last())
    }
}

/// The offline queue is first in, first out: when each message is queued
/// later than the one before it (in the store's order), the store holds the
/// rows in the order they were queued, and a fetch, which reads every row
/// and changes none, gives the messages in that order
/// (`offline_messages_from_rows`).
pub proof fn offline_queue_is_fifo(rows: Seq<(u128, u128, u128, u128, Vec<u8>, i8, i64)>)
    requires
        forall|i: int, j: int| 0 <= i < j < rows.len() ==> queued_before(#[trigger] rows[i], #[trigger] rows[j]),
    ensures
        queue_rows(rows) == rows,
        read_rows(rows.map_values(|r: (u128, u128, u128, u128, Vec<u8>, i8, i64)| Some(r))) == rows,
    decreases rows.len(),
{
    if rows.len() > 0 {
        let rest = rows.drop_last();
        assert forall|i: int, j: int| 0 <= i < j < rest.len() implies queued_before(
            #[trigger] rest[i],
            #[trigger] rest[j],
        ) by {
            assert(rest[i] == rows[i] && rest[j] == rows[j]);
        }
        offline_queue_is_fifo(rest);
        if rest.len() > 0 {
            assert(rest.last() == rows[rows.len() - 2]);
            assert(queued_before(rows[rows.len() - 2], rows[rows.len() - 1]));
        }
        assert(rest.push(rows.last()) =~= rows);
        let wrapped = rows.map_values(|r: (u128, u128, u128, u128, Vec<u8>, i8, i64)| Some(r));
        assert(wrapped.drop_last() =~= rest.map_values(|r: (u128, u128, u128, u128, Vec<u8>, i8, i64)| Some(r)));
    } else {
        assert(rows.map_values(|r: (u128, u128, u128, u128, Vec<u8>, i8, i64)| Some(r)) =~= Seq::<OfflineRow>::empty());
    }
}

/// `r` is how the REST API returns queued message `m`.
pub open spec fn is_response_for(m: OfflineMessage, r: OfflineMessageResponse) -> bool {
    &&& r.message_id == m.message_id
    &&& r.conversation_id == m.conversation_id
    &&& r.sender_id == m.sender_id
    &&& r.encrypted_payload@ == base64_text(m.encrypted_payload@)
    &&& r.payload_type == m.payload_type
    &&& spec_rfc3339_of_millis(m.created_at_ms) matches Some(t) ==> r.created_at@ == t
}

/// The answer to `GET /messages/offline`: every queued message, in order, as
/// the REST API returns it.
pub fn offline_responses(messages: &Vec<OfflineMessage>) -> (res: Vec<OfflineMessageResponse>)
    ensures
        res@.len() == messages@.len(),
        forall|i: int| 0 <= i < messages@.len() ==> is_response_for(messages@[i], #[trigger] res@[i]),
{
    let mut res: Vec<OfflineMessageResponse> = Vec::new();
    let mut i: usize = 0;
    while i < messages.len()
        invariant
            i <= messages@.len(),
            res@.len() == i,
            forall|j: int| 0 <= j < i ==> is_response_for(messages@[j], #[trigger] res@[j]),
        decreases messages@.len() - i,
    {
        let r = messages[i].to_response();
        res.push(r);
        i = i + 1;
    }
    res
}

/// `w` is the WebSocket message that delivers queued message `m`.
pub open spec fn is_delivery_of(m: OfflineMessage, w: WsMessage) -> bool {
    w matches WsMessage::MessageIncoming {
        message_id,
        conversation_id,
        sender_id,
        encrypted_payload,
        payload_type,
        created_at,
    } && message_id@ == uuid_text(m.message_id) && conversation_id == m.conversation_id
        && sender_id == m.sender_id && encrypted_payload@ == base64_text(m.encrypted_payload@)
        && payload_type == payload_type_code(m.payload_type) && (spec_rfc3339_of_millis(
        m.created_at_ms,
    ) matches Some(t) ==> created_at@ == t)
}

/// What a recipient is sent when it connects: every queued message, in
/// order; the queue is cleared afterwards.
pub fn offline_deliveries(messages: &Vec<OfflineMessage>) -> (res: Vec<WsMessage>)
    ensures
        res@.len() == messages@.len(),
        forall|i: int| 0 <= i < messages@.len() ==> is_delivery_of(messages@[i], #[trigger] res@[i]),
{
    let mut res: Vec<WsMessage> = Vec::new();
    let mut i: usize = 0;
    while i < messages.len()
        invariant
            i <= messages@.len(),
            res@.len() == i,
            forall|j: int| 0 <= j < i ==> is_delivery_of(messages@[j], #[trigger] res@[j]),
        decreases messages@.len() - i,
    {
        let w = messages[i].to_incoming();
        res.push(w);
        i = i + 1;
    }
    res
}

/// Disappearing-message setting of a conversation.
#[derive(Debug, Clone, Copy, PartialEq, Eq, Structural)]
pub enum DisappearingTimer {
    Off,
    OneHour,
    TwentyFourHours,
    SevenDays,
    ThirtyDays,
}

/// The lifetime in seconds that each setting gives messages; none when off.
pub open spec fn timer_ttl(t: DisappearingTimer) -> Option<i64> {
    match t {
        DisappearingTimer::Off => None,
        DisappearingTimer::OneHour => Some(3600),
        DisappearingTimer::TwentyFourHours => Some(86400),
        DisappearingTimer::SevenDays => Some(604800),
        DisappearingTimer::ThirtyDays => Some(2592000),
    }
}

impl DisappearingTimer {
    /// The lifetime in seconds of messages under this setting; `None` when off.
    pub fn ttl_seconds(&self) -> (res: Option<i64>)
        ensures
            res == timer_ttl(*self),
    {
        match self {
            DisappearingTimer::Off => None,
            DisappearingTimer::OneHour => Some(3600),
            DisappearingTimer::TwentyFourHours => Some(86400),
            DisappearingTimer::SevenDays => Some(604800),
            DisappearingTimer::ThirtyDays => Some(2592000),
        }
    }
}

/// Every setting that is on gives a positive whole number of hours, the
/// settings grow strictly from one hour to thirty days, and the seven-day
/// setting equals the lifetime of the offline queue.
pub proof fn timer_lifetimes_grow(t: DisappearingTimer)
    ensures
        timer_ttl(t) matches Some(s) ==> s > 0 && s % 3600 == 0,
        timer_ttl(DisappearingTimer::OneHour)->0 < timer_ttl(DisappearingTimer::TwentyFourHours)->0,
        timer_ttl(DisappearingTimer::TwentyFourHours)->0 < timer_ttl(DisappearingTimer::SevenDays)->0,
        timer_ttl(DisappearingTimer::SevenDays)->0 < timer_ttl(DisappearingTimer::ThirtyDays)->0,
        timer_ttl(DisappearingTimer::SevenDays)->0 == OFFLINE_QUEUE_TTL_SECS,
{
}

} // verus!
