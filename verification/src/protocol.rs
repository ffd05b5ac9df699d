//! The WebSocket wire protocol: the messages exchanged with clients and the
//! subjects on which pods forward messages to each other.
use vstd::prelude::*;
use crate::ids::{parse_uuid, spec_parse_uuid, uuid_text, uuid_to_string};

verus! {

/// Every message of the WebSocket protocol. Clients send the first six kinds;
/// the server sends the others. Identifiers are the 128-bit values of UUIDs.
#[derive(Debug, Clone)]
pub enum WsMessage {
    /// Send an encrypted direct message.
    MessageSend {
        request_id: String,
        recipient_id: u128,
        conversation_id: u128,
        encrypted_payload: String,
        payload_type: u8,
    },
    /// Send an encrypted group message.
    GroupMessageSend {
        request_id: String,
        group_id: u128,
        encrypted_payload: String,
        payload_type: u8,
    },
    /// Typing started.
    TypingStart { conversation_id: u128 },
    /// Typing stopped.
    TypingStop { conversation_id: u128 },
    /// Mark messages as read.
    MessageRead { conversation_id: u128, last_read_message_id: String },
    /// Client keepalive.
    Ping,
    /// A message delivered to its recipient.
    MessageIncoming {
        message_id: String,
        conversation_id: u128,
        sender_id: u128,
        encrypted_payload: String,
        payload_type: u8,
        created_at: String,
    },
    /// Acknowledgment to the sender; `status` is "sent" or "delivered".
    MessageAck { request_id: String, message_id: String, status: String },
    /// Typing indicator.
    TypingIndicator { conversation_id: u128, account_id: u128, is_typing: bool },
    /// Server keepalive answer.
    Pong,
    /// Error report.
    Error { request_id: Option<String>, code: String, message: String },
}

/// The prefix of every per-account subject.
pub open spec fn user_subject_prefix() -> Seq<char> {
    seq!['u', 's', 'e', 'r', '.']
}

/// The subject `user.{account_id}` on which messages for an account are
/// forwarded between pods.
pub open spec fn user_subject_text(account_id: u128) -> Seq<char> {
    user_subject_prefix() + uuid_text(account_id)
}

/// The account that a forwarded message's subject names: the text after the
/// `user.` prefix, parsed as a UUID; a subject without the prefix is parsed as
/// the empty text.
pub open spec fn account_of_subject_text(subject: Seq<char>) -> Option<u128> {
    if subject.len() >= 5 && subject.subrange(0, 5) == user_subject_prefix() {
        spec_parse_uuid(subject.subrange(5, subject.len() as int))
    } else {
        spec_parse_uuid(Seq::empty())
    }
}

/// The subject on which messages for `account_id` are published.
pub fn user_subject(account_id: u128) -> (s: String)
    ensures
        s@ == user_subject_text(account_id),
{
    let mut s = String::from_str("user.");
    let id = uuid_to_string(account_id);
    s.append(id.as_str());
    proof {
        reveal_strlit("user.");
        assert(s@ == user_subject_text(account_id));
    }
    s
}

/// Whether the first five characters of `s` are `user.`.
fn has_user_prefix(s: &str) -> (res: bool)
    ensures
        res <==> (s@.len() >= 5 && s@.subrange(0, 5) == user_subject_prefix()),
{
    let n = s.unicode_len();
    if n < 5 {
        return false;
    }
    let expected = "user.";
    proof {
        reveal_strlit("user.");
    }
    let mut i: usize = 0;
    while i < 5
        invariant
            i <= 5,
            n == s@.len(),
            n >= 5,
            expected@ == user_subject_prefix(),
            forall|j: int| 0 <= j < i ==> s@[j] == user_subject_prefix()[j],
        decreases 5 - i,
    {
        if s.get_char(i) != expected.get_char(i) {
            assert(s@.subrange(0, 5)[i as int] != user_subject_prefix()[i as int]);
            return false;
        }
        i = i + 1;
    }
    assert(s@.subrange(0, 5) =~= user_subject_prefix());
    true
}

/// The account named by a forwarded message's subject, if the subject names
/// one. A message published for an account on its own subject is routed back
/// to that same account.
pub fn account_of_subject(subject: &str) -> (res: Option<u128>)
    ensures
        res == account_of_subject_text(subject@),
        forall|x: u128| #[trigger] user_subject_text(x) == subject@ ==> res == Some(x),
{
    if has_user_prefix(subject) {
        let n = subject.unicode_len();
        let rest = subject.substring_char(5, n);
        let res = parse_uuid(rest);
        assert forall|x: u128| #[trigger] user_subject_text(x) == subject@ implies res == Some(x) by {
            assert(rest@ =~= uuid_text(x));
        }
        res
    } else {
        let empty = "";
        proof {
            reveal_strlit("");
            assert(empty@ =~= Seq::<char>::empty());
            assert forall|x: u128| #[trigger] user_subject_text(x) != subject@ by {
                if user_subject_text(x) == subject@ {
                    assert(subject@.subrange(0, 5) =~= user_subject_prefix());
                }
            }
        }
        parse_uuid(empty)
    }
}

} // verus!
