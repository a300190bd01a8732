//! Provisioning over an open access point: the phone joins
//! `SmartHome-XXXXXX`, opens the captive page, and posts SSID and password.

use vstd::prelude::*;
use crate::dp::types::utf8_len;
use crate::network::{get_mac_suffix, mac_suffix};

verus! {

/// How long the access point waits for credentials (ms): five minutes.
pub const SOFTAP_TIMEOUT_MS: u64 = 300_000;

/// Radio channel of the access point.
pub const SOFTAP_CHANNEL: u8 = 6;

/// Clients the access point admits at once.
pub const SOFTAP_MAX_CONNECTIONS: u16 = 4;

/// Longest access-point SSID, in bytes.
pub const AP_SSID_MAX_LEN: usize = 32;

/// Why the access point could not be set up.
#[derive(Debug, Clone, Copy, PartialEq, Eq, Structural)]
pub enum ProvisionError {
    /// The SSID is longer than [`AP_SSID_MAX_LEN`] bytes.
    ApSsidTooLong,
}

/// The configuration of the provisioning access point: open, no password.
#[derive(Debug)]
pub struct ApConfig {
    pub ssid: String,
    pub channel: u8,
    pub max_connections: u16,
}

/// Credentials posted by the user.
#[derive(Debug)]
pub struct ProvisionRequest {
    pub ssid: String,
    pub password: String,
}

/// The SSID of the provisioning access point: `SmartHome-` and the MAC
/// suffix.
pub open spec fn softap_ssid_text(mac: Seq<u8>) -> Seq<char> {
    "SmartHome-"@ + mac_suffix(mac)
}

/// The SSID of the provisioning access point for a device with station MAC
/// `mac`.
pub fn softap_ssid(mac: [u8; 6]) -> (res: String)
    ensures
        res@ == softap_ssid_text(mac@),
{
    let mut res = String::from_str("SmartHome-");
    res.append(get_mac_suffix(mac).as_str());
    res
}

/// The access-point configuration for `ap_ssid`, refused when the SSID is
/// too long.
pub fn ap_config(ap_ssid: &str) -> (res: Result<ApConfig, ProvisionError>)
    ensures
        utf8_len(ap_ssid@) > AP_SSID_MAX_LEN ==> res == Err::<ApConfig, ProvisionError>(
            ProvisionError::ApSsidTooLong,
        ),
        utf8_len(ap_ssid@) <= AP_SSID_MAX_LEN ==> (res matches Ok(c) && c.ssid@ == ap_ssid@
            && c.channel == SOFTAP_CHANNEL && c.max_connections == SOFTAP_MAX_CONNECTIONS),
{
    if ap_ssid.len() > AP_SSID_MAX_LEN {
        return Err(ProvisionError::ApSsidTooLong);
    }
    Ok(ApConfig {
        ssid: String::from_str(ap_ssid),
        channel: SOFTAP_CHANNEL,
        max_connections: SOFTAP_MAX_CONNECTIONS,
    })
}

/// The reply to a post that was taken.
pub open spec fn reply_ok() -> Seq<char> {
    "{\"ok\":true}"@
}

/// The reply to a post with an empty SSID.
pub open spec fn reply_ssid_empty() -> Seq<char> {
    "{\"ok\":false,\"error\":\"SSID empty\"}"@
}

/// The reply to a post whose body could not be read, with the reason.
pub open spec fn reply_malformed(reason: Seq<char>) -> Seq<char> {
    "{\"ok\":false,\"error\":\""@ + reason + "\"}"@
}

/// A post to the provisioning endpoint as values: the SSID and password
/// read from its body, or why the body could not be read.
pub open spec fn post_view(body: Result<ProvisionRequest, String>) -> Result<(Seq<char>, Seq<char>), Seq<char>> {
    match body {
        Ok(req) => Ok((req.ssid@, req.password@)),
        Err(reason) => Err(reason@),
    }
}

/// Whether a post is taken: its body was read and names a non-empty SSID.
pub open spec fn post_accepted(post: Result<(Seq<char>, Seq<char>), Seq<char>>) -> bool {
    post matches Ok((ssid, _)) && ssid.len() > 0
}

/// The credentials held after `post`, given those held before: a post that
/// is taken replaces them, any other leaves them.
pub open spec fn credentials_after_post(
    held: Option<(Seq<char>, Seq<char>)>,
    post: Result<(Seq<char>, Seq<char>), Seq<char>>,
) -> Option<(Seq<char>, Seq<char>)> {
    if post_accepted(post) {
        Some(post->Ok_0)
    } else {
        held
    }
}

/// The credentials held after the posts `posts`, in order, starting from
/// `held`.
pub open spec fn credentials_after_posts(
    held: Option<(Seq<char>, Seq<char>)>,
    posts: Seq<Result<(Seq<char>, Seq<char>), Seq<char>>>,
) -> Option<(Seq<char>, Seq<char>)>
    decreases posts.len(),
{
    if posts.len() == 0 {
        held
    } else {
        credentials_after_post(credentials_after_posts(held, posts.drop_last()), posts.last())
    }
}

/// After any run of posts, the credentials held are those of the latest post
/// that was taken; where none was, they are what was held before.
pub proof fn lemma_latest_accepted_post_wins(
    held: Option<(Seq<char>, Seq<char>)>,
    posts: Seq<Result<(Seq<char>, Seq<char>), Seq<char>>>,
)
    ensures
        (forall|i: int| 0 <= i < posts.len() ==> !post_accepted(#[trigger] posts[i]))
            ==> credentials_after_posts(held, posts) == held,
        forall|i: int|
            0 <= i < posts.len() && post_accepted(#[trigger] posts[i]) && (forall|j: int|
                i < j < posts.len() ==> !post_accepted(#[trigger] posts[j])) ==> credentials_after_posts(
                held,
                posts,
            ) == Some(posts[i]->Ok_0),
    decreases posts.len(),
{
    if posts.len() > 0 {
        let prefix = posts.drop_last();
        let n = posts.len() - 1;
        lemma_latest_accepted_post_wins(held, prefix);
        if (forall|i: int| 0 <= i < posts.len() ==> !post_accepted(#[trigger] posts[i])) {
            assert forall|i: int| 0 <= i < prefix.len() implies !post_accepted(#[trigger] prefix[i]) by {
                assert(prefix[i] == posts[i]);
            }
            assert(!post_accepted(posts[n]));
        }
        assert forall|i: int|
            0 <= i < posts.len() && post_accepted(#[trigger] posts[i]) && (forall|j: int|
                i < j < posts.len() ==> !post_accepted(#[trigger] posts[j])) implies credentials_after_posts(
            held,
            posts,
        ) == Some(posts[i]->Ok_0) by {
            if i < n {
                assert(!post_accepted(posts[n]));
                assert(prefix[i] == posts[i]);
                assert forall|j: int| i < j < prefix.len() implies !post_accepted(#[trigger] prefix[j]) by {
                    assert(prefix[j] == posts[j]);
                    assert(!post_accepted(posts[j]));
                }
            }
        }
    }
}

/// The provisioning session: the credentials received so far, and when the
/// access point started.
pub struct SoftApProvisioning {
    credentials: Option<(String, String)>,
    started_at_ms: u64,
}

impl SoftApProvisioning {
    /// The SSID and password received last.
    pub closed spec fn received(&self) -> Option<(Seq<char>, Seq<char>)> {
        match &self.credentials {
            Some((ssid, password)) => Some((ssid@, password@)),
            None => None,
        }
    }

    /// When the access point started (ms).
    pub closed spec fn start_time(&self) -> u64 {
        self.started_at_ms
    }

    /// A session that started at `started_at_ms` and has received nothing.
    pub fn new(started_at_ms: u64) -> (res: Self)
        ensures
            res.received() is None,
            res.start_time() == started_at_ms,
    {
        SoftApProvisioning { credentials: None, started_at_ms }
    }

    /// Handles a post to the provisioning endpoint, given the body read as a
    /// request or the reason it could not be; returns the JSON reply. A
    /// request with a non-empty SSID replaces the credentials held.
    pub fn handle_provision(&mut self, body: Result<ProvisionRequest, String>) -> (reply: String)
        ensures
            final(self).start_time() == old(self).start_time(),
            final(self).received() == credentials_after_post(old(self).received(), post_view(body)),
            match body {
                Ok(req) => if req.ssid@.len() > 0 {
                    final(self).received() == Some((req.ssid@, req.password@)) && reply@ == reply_ok()
                } else {
                    final(self).received() == old(self).received() && reply@ == reply_ssid_empty()
                },
                Err(reason) => final(self).received() == old(self).received() && reply@
                    == reply_malformed(reason@),
            },
    {
        match body {
            Ok(req) => {
                if !req.ssid.as_str().is_empty() {
                    self.credentials = Some((req.ssid, req.password));
                    String::from_str("{\"ok\":true}")
                } else {
                    String::from_str("{\"ok\":false,\"error\":\"SSID empty\"}")
                }
            },
            Err(reason) => {
                let mut reply = String::from_str("{\"ok\":false,\"error\":\"");
                reply.append(reason.as_str());
                reply.append("\"}");
                reply
            },
        }
    }

    /// The credentials received, if any.
    pub fn get_credentials(&self) -> (res: Option<(String, String)>)
        ensures
            match res {
                Some((ssid, password)) => self.received() == Some((ssid@, password@)),
                None => self.received() is None,
            },
    {
        match &self.credentials {
            Some((ssid, password)) => Some((ssid.clone(), password.clone())),
            None => None,
        }
    }

    /// Whether the access point has waited [`SOFTAP_TIMEOUT_MS`] by `now_ms`.
    pub fn is_timed_out(&self, now_ms: u64) -> (res: bool)
        ensures
            res == (now_ms >= self.start_time() && now_ms - self.start_time() >= SOFTAP_TIMEOUT_MS),
    {
        now_ms.saturating_sub(self.started_at_ms) >= SOFTAP_TIMEOUT_MS
    }
}

} // verus!
