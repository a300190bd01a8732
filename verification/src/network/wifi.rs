//! WiFi station: what a connection is configured with, how failed attempts
//! are retried, and what the manager knows of the link.

use vstd::prelude::*;
use crate::dp::types::utf8_len;

verus! {

/// Attempts to connect before giving up.
pub const MAX_RETRY: u32 = 5;

/// Pause between two attempts (ms).
pub const RETRY_DELAY_MS: u64 = 2000;

/// Time allowed for one attempt (ms).
pub const CONNECT_TIMEOUT_MS: u64 = 15_000;

/// Longest SSID, in bytes.
pub const SSID_MAX_LEN: usize = 32;

/// Longest password, in bytes.
pub const PASSWORD_MAX_LEN: usize = 64;

/// How the station authenticates.
#[derive(Debug, Clone, Copy, PartialEq, Eq, Structural)]
pub enum AuthMethod {
    /// Open network, no password.
    Open,
    WPA2Personal,
}

/// The station configuration for one network.
#[derive(Debug)]
pub struct ClientConfig {
    pub ssid: String,
    pub password: String,
    pub auth_method: AuthMethod,
}

/// Why connecting failed.
#[derive(Debug, Clone, Copy, PartialEq, Eq, Structural)]
pub enum WifiError {
    /// The SSID is longer than [`SSID_MAX_LEN`] bytes.
    SsidTooLong,
    /// The password is longer than [`PASSWORD_MAX_LEN`] bytes.
    PasswordTooLong,
    /// No attempt succeeded.
    ConnectFailed { attempts: u32 },
}

/// The outcome of building a station configuration: the error, if any, and
/// the authentication used otherwise.
pub open spec fn client_config_outcome(ssid: Seq<char>, password: Seq<char>) -> Result<AuthMethod, WifiError> {
    if utf8_len(ssid) > SSID_MAX_LEN {
        Err(WifiError::SsidTooLong)
    } else if utf8_len(password) > PASSWORD_MAX_LEN {
        Err(WifiError::PasswordTooLong)
    } else if password.len() == 0 {
        Ok(AuthMethod::Open)
    } else {
        Ok(AuthMethod::WPA2Personal)
    }
}

/// Any SSID of at most 32 bytes with any password of at most 64 bytes gives
/// a configuration: open for an empty password, WPA2 otherwise. An SSID is
/// refused only above 32 bytes, a password only above 64.
pub proof fn lemma_client_config_limits(ssid: Seq<char>, password: Seq<char>)
    ensures
        utf8_len(ssid) <= 32 && utf8_len(password) <= 64 ==> client_config_outcome(ssid, password) == (if password.len() == 0 {
            Ok::<AuthMethod, WifiError>(AuthMethod::Open)
        } else {
            Ok::<AuthMethod, WifiError>(AuthMethod::WPA2Personal)
        }),
        client_config_outcome(ssid, password) == Err::<AuthMethod, WifiError>(WifiError::SsidTooLong) <==> utf8_len(ssid) > 32,
        client_config_outcome(ssid, password) == Err::<AuthMethod, WifiError>(WifiError::PasswordTooLong) <==> (
            utf8_len(ssid) <= 32 && utf8_len(password) > 64),
{
}

/// The configuration for joining `ssid` with `password`: an open network
/// when the password is empty, WPA2 otherwise.
pub fn client_config(ssid: &str, password: &str) -> (res: Result<ClientConfig, WifiError>)
    ensures
        match client_config_outcome(ssid@, password@) {
            Ok(auth) => res matches Ok(c) && c.ssid@ == ssid@ && c.password@ == password@
                && c.auth_method == auth,
            Err(e) => res matches Err(f) && f == e,
        },
{
    if ssid.len() > SSID_MAX_LEN {
        return Err(WifiError::SsidTooLong);
    }
    if password.len() > PASSWORD_MAX_LEN {
        return Err(WifiError::PasswordTooLong);
    }
    let auth_method = if password.is_empty() {
        AuthMethod::Open
    } else {
        AuthMethod::WPA2Personal
    };
    Ok(ClientConfig { ssid: String::from_str(ssid), password: String::from_str(password), auth_method })
}

/// What to do after an attempt to connect.
#[derive(Debug, Clone, Copy, PartialEq, Eq, Structural)]
pub enum ConnectStep {
    /// Connected: wait for an address.
    Done,
    /// Wait this long (ms), then try again.
    RetryAfter(u64),
    /// Stop and report the failure.
    GiveUp,
}

/// After attempt number `attempt` (from 1), which connected or not.
pub fn after_attempt(attempt: u32, connected: bool) -> (res: ConnectStep)
    requires
        1 <= attempt <= MAX_RETRY,
    ensures
        connected ==> res == ConnectStep::Done,
        !connected && attempt < MAX_RETRY ==> res == ConnectStep::RetryAfter(RETRY_DELAY_MS),
        !connected && attempt == MAX_RETRY ==> res == ConnectStep::GiveUp,
{
    if connected {
        ConnectStep::Done
    } else if attempt < MAX_RETRY {
        ConnectStep::RetryAfter(RETRY_DELAY_MS)
    } else {
        ConnectStep::GiveUp
    }
}

/// The state of the WiFi station as the firmware knows it.
pub struct WifiManager {
    connected: bool,
    ssid: String,
    ip: Option<[u8; 4]>,
}

impl WifiManager {
    /// Whether the station is connected.
    pub closed spec fn connected(&self) -> bool {
        self.connected
    }

    /// The network joined last.
    pub closed spec fn ssid_view(&self) -> Seq<char> {
        self.ssid@
    }

    /// The address obtained last.
    pub closed spec fn ip_view(&self) -> Option<Seq<u8>> {
        match self.ip {
            Some(ip) => Some(ip@),
            None => None,
        }
    }

    /// Not connected, no network, no address.
    pub fn new() -> (res: Self)
        ensures
            !res.connected(),
            res.ssid_view() == Seq::<char>::empty(),
            res.ip_view() is None,
    {
        WifiManager { connected: false, ssid: String::new(), ip: None }
    }

    /// Records a successful connection to `config` with address `ip`.
    pub fn record_connected(&mut self, config: &ClientConfig, ip: [u8; 4])
        ensures
            final(self).connected(),
            final(self).ssid_view() == config.ssid@,
            final(self).ip_view() == Some(ip@),
    {
        self.connected = true;
        self.ssid = config.ssid.clone();
        self.ip = Some(ip);
    }

    /// Given whether the link is up now, whether to reconnect; a link found
    /// down marks the station disconnected.
    pub fn ensure_connected(&mut self, link_up: bool) -> (reconnect: bool)
        ensures
            reconnect == !link_up,
            final(self).connected() == (old(self).connected() && link_up),
            final(self).ssid_view() == old(self).ssid_view(),
            final(self).ip_view() == old(self).ip_view(),
    {
        if link_up {
            return false;
        }
        self.connected = false;
        true
    }

    /// Records that the station was stopped.
    pub fn disconnect(&mut self)
        ensures
            !final(self).connected(),
            final(self).ip_view() is None,
            final(self).ssid_view() == old(self).ssid_view(),
    {
        self.connected = false;
        self.ip = None;
    }

    /// Whether the station is connected.
    pub fn is_connected(&self) -> (res: bool)
        ensures
            res == self.connected(),
    {
        self.connected
    }

    /// The address obtained last; none once the station is stopped.
    pub fn ip_address(&self) -> (res: Option<[u8; 4]>)
        ensures
            match res {
                Some(ip) => self.ip_view() == Some(ip@),
                None => self.ip_view() is None,
            },
    {
        self.ip
    }

    /// The network joined last.
    pub fn ssid(&self) -> (res: &str)
        ensures
            res@ == self.ssid_view(),
    {
        self.ssid.as_str()
    }
}

} // verus!
