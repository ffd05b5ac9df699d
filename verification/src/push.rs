//! Content-free push notifications that wake a device so that it fetches its
//! queued messages. A provider without credentials runs as a stub that sends
//! nothing.
use vstd::prelude::*;
use crate::types::Platform;

verus! {

/// What an APNs notification carries: a fixed alert, no message content.
#[derive(Debug)]
pub struct ApnsPayload {
    pub title: String,
    pub body: String,
    pub content_available: i32,
    pub sound: String,
}

/// What an FCM notification carries: the device token and a fixed type.
#[derive(Debug)]
pub struct FcmPayload {
    pub to: String,
    pub msg_type: String,
}

/// What sending a notification through a provider amounts to.
#[derive(Debug)]
pub enum PushSend<P> {
    /// No credentials are configured: nothing is sent.
    Stub,
    /// This payload is sent.
    Send(P),
}

/// `p` is the APNs wakeup: the fixed "GhostLink" / "New message" alert with
/// content-available set and the default sound.
pub open spec fn is_apns_wakeup(p: ApnsPayload) -> bool {
    p.title@ == "GhostLink"@ && p.body@ == "New message"@ && p.content_available == 1 && p.sound@
        == "default"@
}

/// `p` is the FCM wakeup for a device: addressed to its token, of type
/// `NEW_MESSAGE`.
pub open spec fn is_fcm_wakeup(p: FcmPayload, device_token: Seq<char>) -> bool {
    p.to@ == device_token && p.msg_type@ == "NEW_MESSAGE"@
}

/// The Apple Push Notification service client.
#[derive(Debug, Clone)]
pub struct ApnsClient {
    pub team_id: String,
    pub key_id: String,
    pub signing_key: String,
    pub initialized: bool,
}

/// An optional text, or the empty text.
fn text_or_empty(o: Option<String>) -> (s: String)
    ensures
        o matches Some(t) ==> s == t,
        o is None ==> s@ == Seq::<char>::empty(),
{
    match o {
        Some(t) => t,
        None => String::new(),
    }
}

impl ApnsClient {
    /// A client; it sends only when both a team and a key are configured.
    pub fn new(team_id: Option<String>, key_id: Option<String>) -> (c: ApnsClient)
        ensures
            c.initialized == (team_id is Some && key_id is Some),
            team_id matches Some(t) ==> c.team_id == t,
            team_id is None ==> c.team_id@ == Seq::<char>::empty(),
            key_id matches Some(k) ==> c.key_id == k,
            key_id is None ==> c.key_id@ == Seq::<char>::empty(),
            c.signing_key@ == Seq::<char>::empty(),
    {
        let initialized = team_id.is_some() && key_id.is_some();
        ApnsClient {
            team_id: text_or_empty(team_id),
            key_id: text_or_empty(key_id),
            signing_key: String::new(),
            initialized,
        }
    }

    /// The notification for a device: the fixed "GhostLink" / "New message"
    /// alert with content-available set and the default sound, or nothing
    /// in stub mode.
    pub fn send_notification(&self, device_token: &str) -> (res: PushSend<ApnsPayload>)
        ensures
            !self.initialized ==> res is Stub,
            self.initialized ==> (res matches PushSend::Send(p) && is_apns_wakeup(p)),
    {
        if !self.initialized {
            return PushSend::Stub;
        }
        PushSend::Send(
            ApnsPayload {
                title: String::from_str("GhostLink"),
                body: String::from_str("New message"),
                content_available: 1,
                sound: String::from_str("default"),
            },
        )
    }
}

/// The Firebase Cloud Messaging client.
#[derive(Debug, Clone)]
pub struct FcmClient {
    pub server_key: String,
    pub initialized: bool,
}

impl FcmClient {
    /// A client; it sends only when a server key is configured.
    pub fn new(server_key: Option<String>) -> (c: FcmClient)
        ensures
            c.initialized == server_key is Some,
            server_key matches Some(k) ==> c.server_key == k,
            server_key is None ==> c.server_key@ == Seq::<char>::empty(),
    {
        let initialized = server_key.is_some();
        FcmClient { server_key: text_or_empty(server_key), initialized }
    }

    /// The notification for a device: addressed to its token with the type
    /// `NEW_MESSAGE`, or nothing in stub mode.
    pub fn send_notification(&self, device_token: &str) -> (res: PushSend<FcmPayload>)
        ensures
            !self.initialized ==> res is Stub,
            self.initialized ==> (res matches PushSend::Send(p) && is_fcm_wakeup(p, device_token@)),
    {
        if !self.initialized {
            return PushSend::Stub;
        }
        PushSend::Send(FcmPayload { to: String::from_str(device_token), msg_type: String::from_str("NEW_MESSAGE") })
    }
}

/// The notification a dispatch produces, per provider.
#[derive(Debug)]
pub enum PushDelivery {
    Apns(PushSend<ApnsPayload>),
    Fcm(PushSend<FcmPayload>),
}

/// Routes wakeups to the provider of each platform.
#[derive(Debug, Clone)]
pub struct PushDispatcher {
    pub apns: ApnsClient,
    pub fcm: FcmClient,
}

impl PushDispatcher {
    /// A dispatcher with an APNs and an FCM client.
    pub fn new(apns_team_id: Option<String>, apns_key_id: Option<String>, fcm_server_key: Option<String>) -> (d: PushDispatcher)
        ensures
            d.apns.initialized == (apns_team_id is Some && apns_key_id is Some),
            apns_team_id matches Some(t) ==> d.apns.team_id == t,
            apns_team_id is None ==> d.apns.team_id@ == Seq::<char>::empty(),
            apns_key_id matches Some(k) ==> d.apns.key_id == k,
            apns_key_id is None ==> d.apns.key_id@ == Seq::<char>::empty(),
            d.apns.signing_key@ == Seq::<char>::empty(),
            d.fcm.initialized == fcm_server_key is Some,
            fcm_server_key matches Some(k) ==> d.fcm.server_key == k,
            fcm_server_key is None ==> d.fcm.server_key@ == Seq::<char>::empty(),
    {
        PushDispatcher { apns: ApnsClient::new(apns_team_id, apns_key_id), fcm: FcmClient::new(fcm_server_key) }
    }

    /// Dispatches a wakeup: iOS devices through APNs, Android devices through FCM.
    pub fn dispatch(&self, platform: Platform, device_token: &str) -> (res: PushDelivery)
        ensures
            platform == Platform::Ios ==> (res matches PushDelivery::Apns(s) && (if self.apns.initialized {
                s matches PushSend::Send(p) && is_apns_wakeup(p)
            } else {
                s is Stub
            })),
            platform == Platform::Android ==> (res matches PushDelivery::Fcm(s) && (if self.fcm.initialized {
                s matches PushSend::Send(p) && is_fcm_wakeup(p, device_token@)
            } else {
                s is Stub
            })),
    {
        match platform {
            Platform::Ios => PushDelivery::Apns(self.apns.send_notification(device_token)),
            Platform::Android => PushDelivery::Fcm(self.fcm.send_notification(device_token)),
        }
    }
}

} // verus!
