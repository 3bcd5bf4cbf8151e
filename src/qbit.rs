//! The torrent client's side of applying a port: what is sent to its Web API
//! and how its answers are read.
use crate::config::opt_view;
use crate::error::{QbitError, SyncError};
use crate::text::{trim_text, trimmed};
use vstd::prelude::*;
use vstd::string::StringExecFns;

verus! {

/// What applying a port left in effect on the client.
#[derive(Debug, Clone, Copy, PartialEq, Eq, Structural)]
pub struct PortUpdateResult {
    /// The listening port the client reports after the change.
    pub detected_port: u16,
    /// Whether the client reports the port that was asked for.
    pub verified: bool,
    pub random_port: Option<bool>,
    pub upnp: Option<bool>,
}

/// One network interface the client knows.
#[derive(Debug, Clone)]
pub struct NetworkInterfaceItem {
    pub name: String,
    pub interface: Option<String>,
    pub id: Option<String>,
}

/// The interface the client is told to bind to.
#[derive(Debug, Clone)]
pub struct InterfaceSelection {
    pub name: String,
    pub id: Option<String>,
}

/// Whether an interface answers to `requested` (trimmed, and not blank) by
/// its name, its interface name or its id.
pub open spec fn interface_matches(item: NetworkInterfaceItem, requested: Seq<char>) -> bool {
    let r = trimmed(requested);
    r.len() > 0 && (item.name@ == r || opt_view(item.interface) == Some(r) || opt_view(item.id)
        == Some(r))
}

fn same_as(v: &Option<String>, r: &String) -> (b: bool)
    ensures
        b == (opt_view(*v) == Some(r@)),
{
    match v {
        Some(s) => s.eq(r),
        None => false,
    }
}

pub fn matches_interface(item: &NetworkInterfaceItem, requested: &str) -> (r: bool)
    ensures
        r == interface_matches(*item, requested@),
{
    let t = trim_text(requested);
    if t.unicode_len() == 0 {
        return false;
    }
    let wanted = String::from_str(t);
    item.name.eq(&wanted) || same_as(&item.interface, &wanted) || same_as(&item.id, &wanted)
}

/// The id an interface is bound by: its id, else its interface name.
pub open spec fn binding_id(item: NetworkInterfaceItem) -> Option<String> {
    match item.id {
        Some(i) => Some(i),
        None => item.interface,
    }
}

/// Picks the first of the client's interfaces that answers to `requested`.
pub fn select_interface(items: &Vec<NetworkInterfaceItem>, requested: &str) -> (r: Option<
    InterfaceSelection,
>)
    ensures
        match r {
            Some(sel) => exists|i: int|
                0 <= i < items@.len() && interface_matches(items@[i], requested@) && sel.name
                    == items@[i].name && sel.id == binding_id(items@[i]) && forall|j: int|
                    0 <= j < i ==> !#[trigger] interface_matches(items@[j], requested@),
            None => forall|i: int|
                0 <= i < items@.len() ==> !#[trigger] interface_matches(items@[i], requested@),
        },
{
    let mut i: usize = 0;
    while i < items.len()
        invariant
            i <= items@.len(),
            forall|j: int| 0 <= j < i ==> !#[trigger] interface_matches(items@[j], requested@),
        decreases items@.len() - i,
    {
        let item = &items[i];
        if matches_interface(item, requested) {
            let id = match &item.id {
                Some(x) => Some(x.clone()),
                None => match &item.interface {
                    Some(x) => Some(x.clone()),
                    None => None,
                },
            };
            return Some(InterfaceSelection { name: item.name.clone(), id });
        }
        i += 1;
    }
    None
}

/// The value of one preference setting.
#[derive(Debug, Clone)]
pub enum PreferenceValue {
    Number(u16),
    Flag(bool),
    Text(String),
}

/// One preference setting sent to the client.
#[derive(Debug, Clone)]
pub struct PreferenceSetting {
    pub key: String,
    pub value: PreferenceValue,
}

pub open spec fn setting_is(s: PreferenceSetting, key: Seq<char>, value: PreferenceValue) -> bool {
    s.key@ == key && s.value == value
}

fn setting(key: &str, value: PreferenceValue) -> (r: PreferenceSetting)
    ensures
        r.key@ == key@,
        r.value == value,
{
    PreferenceSetting { key: String::from_str(key), value }
}

/// The preferences that apply `port`: the port itself, random port and UPnP
/// switched off, and the interface binding where one was selected.
pub fn port_preferences(port: u16, selection: Option<InterfaceSelection>) -> (r: Vec<
    PreferenceSetting,
>)
    ensures
        r@.len() >= 3,
        setting_is(r@[0], "listen_port"@, PreferenceValue::Number(port)),
        setting_is(r@[1], "random_port"@, PreferenceValue::Flag(false)),
        setting_is(r@[2], "upnp"@, PreferenceValue::Flag(false)),
        match selection {
            None => r@.len() == 3,
            Some(sel) => setting_is(r@[3], "network_interface"@, PreferenceValue::Text(sel.name))
                && match sel.id {
                Some(id) => r@.len() == 5 && setting_is(
                    r@[4],
                    "network_interface_id"@,
                    PreferenceValue::Text(id),
                ),
                None => r@.len() == 4,
            },
        },
{
    let mut r: Vec<PreferenceSetting> = Vec::new();
    r.push(setting("listen_port", PreferenceValue::Number(port)));
    r.push(setting("random_port", PreferenceValue::Flag(false)));
    r.push(setting("upnp", PreferenceValue::Flag(false)));
    match selection {
        Some(sel) => {
            r.push(setting("network_interface", PreferenceValue::Text(sel.name)));
            match sel.id {
                Some(id) => {
                    r.push(setting("network_interface_id", PreferenceValue::Text(id)));
                },
                None => {},
            }
        },
        None => {},
    }
    r
}

/// Reads the client's preferences after an update to `requested`:
/// `listen_port` must be there and fit a port; the port is verified when it
/// is the one asked for.
pub fn update_result(
    requested: u16,
    listen_port: Option<u64>,
    random_port: Option<bool>,
    upnp: Option<bool>,
) -> (r: Result<PortUpdateResult, SyncError>)
    ensures
        match listen_port {
            Some(p) if p <= 0xFFFF => r == Ok::<PortUpdateResult, SyncError>(
                PortUpdateResult {
                    detected_port: p as u16,
                    verified: p == requested as u64,
                    random_port,
                    upnp,
                },
            ),
            _ => r is Err && r->Err_0 is Other,
        },
{
    match listen_port {
        Some(p) => {
            if p <= 0xFFFF {
                let detected_port = p as u16;
                return Ok(
                    PortUpdateResult {
                        detected_port,
                        verified: detected_port == requested,
                        random_port,
                        upnp,
                    },
                );
            }
        },
        None => {},
    }
    Err(SyncError::Other(String::from_str("qBittorrent preferences missing listen_port")))
}

/// Reads the client's answer to a login: a failed status is an unexpected
/// response, and a body other than `Ok.` (ignoring surrounding whitespace) a
/// refused login.
pub fn login_result(success: bool, status: u16, body: String) -> (r: Result<(), SyncError>)
    ensures
        !success ==> r == Err::<(), SyncError>(
            SyncError::Qbit(QbitError::UnexpectedResponse { status, message: body }),
        ),
        success && trimmed(body@) != "Ok."@ ==> r == Err::<(), SyncError>(
            SyncError::Qbit(QbitError::Auth(body)),
        ),
        success && trimmed(body@) == "Ok."@ ==> r is Ok,
{
    if !success {
        return Err(SyncError::Qbit(QbitError::UnexpectedResponse { status, message: body }));
    }
    let accepted = String::from_str(trim_text(body.as_str())).eq(&String::from_str("Ok."));
    if !accepted {
        return Err(SyncError::Qbit(QbitError::Auth(body)));
    }
    Ok(())
}

/// Reads the status of any other call: a failed one is an unexpected response.
pub fn response_result(success: bool, status: u16, body: String) -> (r: Result<(), SyncError>)
    ensures
        success ==> r is Ok,
        !success ==> r == Err::<(), SyncError>(
            SyncError::Qbit(QbitError::UnexpectedResponse { status, message: body }),
        ),
{
    if success {
        Ok(())
    } else {
        Err(SyncError::Qbit(QbitError::UnexpectedResponse { status, message: body }))
    }
}

/// Whether a failure is the client refusing the credentials, which no retry mends.
pub open spec fn is_auth_failure(e: SyncError) -> bool {
    e is Qbit && e->Qbit_0 is Auth
}

pub fn is_authentication_failure(e: &SyncError) -> (r: bool)
    ensures
        r == is_auth_failure(*e),
{
    match e {
        SyncError::Qbit(QbitError::Auth(_)) => true,
        _ => false,
    }
}

} // verus!
