//! Enumerations shared by storage, wire protocol and push notifications,
//! together with their one-byte codes.
use vstd::prelude::*;

verus! {

/// Payload type of an encrypted message.
#[derive(Debug, Clone, Copy, PartialEq, Eq, Structural)]
pub enum PayloadType {
    Text,
    Image,
    File,
    Voice,
    Video,
}

/// The one-byte code of each payload type (`Text` is 0 up to `Video` is 4).
pub open spec fn payload_type_code(p: PayloadType) -> u8 {
    match p {
        PayloadType::Text => 0,
        PayloadType::Image => 1,
        PayloadType::File => 2,
        PayloadType::Voice => 3,
        PayloadType::Video => 4,
    }
}

/// The payload type that a one-byte code stands for, if any.
pub open spec fn payload_type_of_code(v: u8) -> Option<PayloadType> {
    if v == 0 {
        Some(PayloadType::Text)
    } else if v == 1 {
        Some(PayloadType::Image)
    } else if v == 2 {
        Some(PayloadType::File)
    } else if v == 3 {
        Some(PayloadType::Voice)
    } else if v == 4 {
        Some(PayloadType::Video)
    } else {
        None
    }
}

impl PayloadType {
    /// Decodes a one-byte code; codes above 4 stand for no payload type.
    pub fn from_u8(val: u8) -> (res: Option<PayloadType>)
        ensures
            res == payload_type_of_code(val),
    {
        match val {
            0 => Some(PayloadType::Text),
            1 => Some(PayloadType::Image),
            2 => Some(PayloadType::File),
            3 => Some(PayloadType::Voice),
            4 => Some(PayloadType::Video),
            _ => None,
        }
    }

    /// The one-byte code of this payload type.
    pub fn to_u8(&self) -> (res: u8)
        ensures
            res == payload_type_code(*self),
    {
        match self {
            PayloadType::Text => 0,
            PayloadType::Image => 1,
            PayloadType::File => 2,
            PayloadType::Voice => 3,
            PayloadType::Video => 4,
        }
    }
}

/// Decoding the code of a payload type gives the payload type back, and every
/// code that decodes is the code of what it decodes to.
pub proof fn payload_type_code_round_trip(p: PayloadType, v: u8)
    ensures
        payload_type_of_code(payload_type_code(p)) == Some(p),
        payload_type_of_code(v) matches Some(q) ==> payload_type_code(q) == v,
        payload_type_of_code(v) is Some <==> v < 5,
{
}

/// Delivery status of a message.
#[derive(Debug, Clone, Copy, PartialEq, Eq, Structural)]
pub enum MessageStatus {
    Sent,
    Delivered,
    Read,
}

/// The one-byte code of each delivery status.
pub open spec fn message_status_code(s: MessageStatus) -> u8 {
    match s {
        MessageStatus::Sent => 0,
        MessageStatus::Delivered => 1,
        MessageStatus::Read => 2,
    }
}

/// The delivery status that a one-byte code stands for, if any.
pub open spec fn message_status_of_code(v: u8) -> Option<MessageStatus> {
    if v == 0 {
        Some(MessageStatus::Sent)
    } else if v == 1 {
        Some(MessageStatus::Delivered)
    } else if v == 2 {
        Some(MessageStatus::Read)
    } else {
        None
    }
}

impl MessageStatus {
    /// Decodes a one-byte code; codes above 2 stand for no status.
    pub fn from_u8(val: u8) -> (res: Option<MessageStatus>)
        ensures
            res == message_status_of_code(val),
    {
        match val {
            0 => Some(MessageStatus::Sent),
            1 => Some(MessageStatus::Delivered),
            2 => Some(MessageStatus::Read),
            _ => None,
        }
    }

    /// The one-byte code of this status.
    pub fn to_u8(&self) -> (res: u8)
        ensures
            res == message_status_code(*self),
    {
        match self {
            MessageStatus::Sent => 0,
            MessageStatus::Delivered => 1,
            MessageStatus::Read => 2,
        }
    }
}

/// Decoding the code of a delivery status gives the status back, and every code
/// that decodes is the code of what it decodes to.
pub proof fn message_status_code_round_trip(s: MessageStatus, v: u8)
    ensures
        message_status_of_code(message_status_code(s)) == Some(s),
        message_status_of_code(v) matches Some(t) ==> message_status_code(t) == v,
        message_status_of_code(v) is Some <==> v < 3,
{
}

/// Status of a contact relationship, as seen from its owner.
#[derive(Debug, Clone, Copy, PartialEq, Eq, Structural)]
pub enum ContactStatus {
    PendingSent,
    PendingReceived,
    Accepted,
    Blocked,
    Declined,
}

/// The status that a stored contact row's status byte is read as: 0, 1 and 2
/// are the pending and accepted states, 3 and 4 both read as blocked, and
/// every other byte reads as declined.
pub open spec fn contact_status_of_stored(v: i8) -> ContactStatus {
    if v == 0 {
        ContactStatus::PendingSent
    } else if v == 1 {
        ContactStatus::PendingReceived
    } else if v == 2 {
        ContactStatus::Accepted
    } else if v == 3 || v == 4 {
        ContactStatus::Blocked
    } else {
        ContactStatus::Declined
    }
}

/// The status byte that the contact store writes for a status; a declined
/// relationship is deleted, never written.
pub open spec fn contact_status_stored_code(s: ContactStatus) -> Option<i8> {
    match s {
        ContactStatus::PendingSent => Some(0i8),
        ContactStatus::PendingReceived => Some(1i8),
        ContactStatus::Accepted => Some(2i8),
        ContactStatus::Blocked => Some(4i8),
        ContactStatus::Declined => None,
    }
}

impl ContactStatus {
    /// Reads a stored status byte.
    pub fn from_stored(v: i8) -> (res: ContactStatus)
        ensures
            res == contact_status_of_stored(v),
    {
        match v {
            0 => ContactStatus::PendingSent,
            1 => ContactStatus::PendingReceived,
            2 => ContactStatus::Accepted,
            3 => ContactStatus::Blocked,
            4 => ContactStatus::Blocked,
            _ => ContactStatus::Declined,
        }
    }

    /// The status byte written for this status, if it is ever written.
    pub fn stored_code(&self) -> (res: Option<i8>)
        ensures
            res == contact_status_stored_code(*self),
    {
        match self {
            ContactStatus::PendingSent => Some(0),
            ContactStatus::PendingReceived => Some(1),
            ContactStatus::Accepted => Some(2),
            ContactStatus::Blocked => Some(4),
            ContactStatus::Declined => None,
        }
    }
}

/// Every status byte that the contact store writes is read back as the status
/// it was written for.
pub proof fn contact_status_stored_round_trip(s: ContactStatus)
    ensures
        contact_status_stored_code(s) matches Some(c) ==> contact_status_of_stored(c) == s,
        contact_status_stored_code(s) is None <==> s == ContactStatus::Declined,
{
}

/// Role of a member inside a group.
#[derive(Debug, Clone, Copy, PartialEq, Eq, Structural)]
pub enum GroupRole {
    Member,
    Admin,
    Owner,
}

/// The one-byte code of each group role.
pub open spec fn group_role_code(r: GroupRole) -> u8 {
    match r {
        GroupRole::Member => 0,
        GroupRole::Admin => 1,
        GroupRole::Owner => 2,
    }
}

/// The group role that a one-byte code stands for, if any.
pub open spec fn group_role_of_code(v: u8) -> Option<GroupRole> {
    if v == 0 {
        Some(GroupRole::Member)
    } else if v == 1 {
        Some(GroupRole::Admin)
    } else if v == 2 {
        Some(GroupRole::Owner)
    } else {
        None
    }
}

impl GroupRole {
    /// Decodes a one-byte code; codes above 2 stand for no role.
    pub fn from_u8(val: u8) -> (res: Option<GroupRole>)
        ensures
            res == group_role_of_code(val),
    {
        match val {
            0 => Some(GroupRole::Member),
            1 => Some(GroupRole::Admin),
            2 => Some(GroupRole::Owner),
            _ => None,
        }
    }

    /// The one-byte code of this role.
    pub fn to_u8(&self) -> (res: u8)
        ensures
            res == group_role_code(*self),
    {
        match self {
            GroupRole::Member => 0,
            GroupRole::Admin => 1,
            GroupRole::Owner => 2,
        }
    }

    /// Whether this role carries admin permissions (admins and the owner).
    pub fn is_admin_or_above(&self) -> (res: bool)
        ensures
            res <==> (*self == GroupRole::Admin || *self == GroupRole::Owner),
    {
        match self {
            GroupRole::Member => false,
            GroupRole::Admin => true,
            GroupRole::Owner => true,
        }
    }
}

/// Decoding the code of a group role gives the role back, every code that
/// decodes is the code of what it decodes to, and admin permissions grow with
/// the code: exactly the roles coded 1 and above carry them.
pub proof fn group_role_code_round_trip(r: GroupRole, v: u8)
    ensures
        group_role_of_code(group_role_code(r)) == Some(r),
        group_role_of_code(v) matches Some(q) ==> group_role_code(q) == v,
        group_role_of_code(v) is Some <==> v < 3,
        (r == GroupRole::Admin || r == GroupRole::Owner) <==> group_role_code(r) >= 1,
{
}

/// Mobile platform of a push token.
#[derive(Debug, Clone, Copy, PartialEq, Eq, Structural)]
pub enum Platform {
    Ios,
    Android,
}

/// The one-byte code of each platform.
pub open spec fn platform_code(p: Platform) -> u8 {
    match p {
        Platform::Ios => 0,
        Platform::Android => 1,
    }
}

/// The platform that a one-byte code stands for, if any.
pub open spec fn platform_of_code(v: u8) -> Option<Platform> {
    if v == 0 {
        Some(Platform::Ios)
    } else if v == 1 {
        Some(Platform::Android)
    } else {
        None
    }
}

impl Platform {
    /// Decodes a one-byte code; codes above 1 stand for no platform.
    pub fn from_u8(val: u8) -> (res: Option<Platform>)
        ensures
            res == platform_of_code(val),
    {
        match val {
            0 => Some(Platform::Ios),
            1 => Some(Platform::Android),
            _ => None,
        }
    }

    /// The one-byte code of this platform.
    pub fn to_u8(&self) -> (res: u8)
        ensures
            res == platform_code(*self),
    {
        match self {
            Platform::Ios => 0,
            Platform::Android => 1,
        }
    }
}

/// Decoding the code of a platform gives the platform back, and every code
/// that decodes is the code of what it decodes to.
pub proof fn platform_code_round_trip(p: Platform, v: u8)
    ensures
        platform_of_code(platform_code(p)) == Some(p),
        platform_of_code(v) matches Some(q) ==> platform_code(q) == v,
        platform_of_code(v) is Some <==> v < 2,
{
}

/// Classification of an uploaded media blob.
#[derive(Debug, Clone, Copy, PartialEq, Eq, Structural)]
pub enum MediaType {
    Image,
    Video,
    Audio,
    File,
}

/// What the owner of a pending contact request does with it.
#[derive(Debug, Clone, Copy, PartialEq, Eq, Structural)]
pub enum ContactAction {
    Accept,
    Decline,
    Block,
}

} // verus!
