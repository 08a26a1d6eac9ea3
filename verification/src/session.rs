//! The add-then-activate protocol of one scanned result.
//!
//! The service itself is reached over a channel this crate never touches:
//! the driver that owns the channel performs each requested [`Action`] and
//! hands the observed completion back as an [`Event`]. Every decision of
//! the protocol — what to do next, when activation may be requested, which
//! error ends the run — is made here.

use crate::errors::{Error, ServiceError};
use vstd::prelude::*;

verus! {

/// Identifies a profile stored by the service.
#[derive(Debug, Clone)]
pub struct ConnectionHandle(pub String);

/// Identifies a network device object of the service.
#[derive(Debug, Clone)]
pub struct DeviceHandle(pub String);

/// Identifies a running activation.
#[derive(Debug, Clone)]
pub struct ActiveConnectionHandle(pub String);

/// What the service's device lookup reported for an interface name.
#[derive(Debug)]
pub enum DeviceLookup {
    /// The object path of the device bound to the name.
    Found(String),
    /// The service has no device bound to the name.
    NoSuchDevice,
    /// The channel failed; the detail is its wording.
    Failed(String),
}

/// Turn the reported outcome of the device lookup into a handle or the
/// error owed for it: a name with no bound device yields
/// `UnknownInterface`, never success.
pub fn resolve_device(outcome: DeviceLookup) -> (r: Result<DeviceHandle, ServiceError>)
    ensures
        outcome matches DeviceLookup::Found(p) ==> (r matches Ok(d) && d.0 == p),
        outcome is NoSuchDevice ==> (r matches Err(e) && e == ServiceError::UnknownInterface),
        outcome matches DeviceLookup::Failed(m) ==> (r matches Err(e) && e
            == ServiceError::Transport(m)),
        r is Ok <==> outcome is Found,
{
    match outcome {
        DeviceLookup::Found(p) => Ok(DeviceHandle(p)),
        DeviceLookup::NoSuchDevice => Err(ServiceError::UnknownInterface),
        DeviceLookup::Failed(m) => Err(ServiceError::Transport(m)),
    }
}

/// How far a session has got; a terminal outcome carries what the run
/// produced.
#[derive(Debug)]
pub enum SessionOutcome {
    Pending,
    Activated(ActiveConnectionHandle),
    Aborted(Error),
}

/// What the driver of a session must do next.
#[derive(Debug, PartialEq, Eq)]
pub enum Action {
    /// Submit the parsed profile to the service's connection store.
    AddConnection,
    /// Look up the device bound to the session's interface name.
    ResolveDevice,
    /// Request activation of the stored profile on the resolved device.
    ActivateConnection,
    /// The session is complete; report the active-connection handle.
    Report,
    /// The session failed; report the recorded error and move on.
    Fail,
}

/// What the driver observed the service do for the last requested action.
#[derive(Debug)]
pub enum Event {
    AddCompleted(Result<ConnectionHandle, ServiceError>),
    ResolveCompleted(DeviceLookup),
    ActivateCompleted(Result<ActiveConnectionHandle, ServiceError>),
}

/// One add-then-activate run. The stored handle and the resolved device are
/// reachable in either order, but both are required before activation.
pub struct Session {
    pub iface: String,
    pub conn: Option<ConnectionHandle>,
    pub dev: Option<DeviceHandle>,
    pub outcome: SessionOutcome,
}

/// The first step still owed, in the order the service wants them.
pub open spec fn next_needed(s: Session) -> Action {
    if s.conn is None {
        Action::AddConnection
    } else if s.dev is None {
        Action::ResolveDevice
    } else {
        Action::ActivateConnection
    }
}

impl Session {
    /// An activated session holds both the stored-profile handle and the
    /// resolved device: neither step can be skipped.
    pub open spec fn wf(self) -> bool {
        self.outcome is Activated ==> self.conn is Some && self.dev is Some
    }

    /// Open a session for one parsed profile on `iface`; the first action
    /// is to add the profile.
    pub fn start(iface: String) -> (r: (Session, Action))
        ensures
            r.0.iface == iface,
            r.0.conn is None,
            r.0.dev is None,
            r.0.outcome is Pending,
            r.1 == Action::AddConnection,
            r.0.wf(),
    {
        (
            Session { iface, conn: None, dev: None, outcome: SessionOutcome::Pending },
            Action::AddConnection,
        )
    }

    /// Advance the session on one observed completion. A successful step
    /// records its handle and asks for the first step still owed; any
    /// service failure ends the run with the error it owes, and an added
    /// profile is never rolled back.
    pub fn step(&mut self, e: Event) -> (a: Action)
        requires
            old(self).outcome is Pending,
            e is ActivateCompleted ==> old(self).conn is Some && old(self).dev is Some,
        ensures
            final(self).wf(),
            final(self).iface == old(self).iface,
            a == Action::ActivateConnection ==> final(self).conn is Some && final(self).dev
                is Some,
            match e {
                Event::AddCompleted(res) => {
                    &&& final(self).dev == old(self).dev
                    &&& match res {
                        Ok(h) => {
                            &&& final(self).conn == Some(h)
                            &&& final(self).outcome is Pending
                            &&& a == next_needed(*final(self))
                        },
                        Err(se) => {
                            &&& final(self).conn == old(self).conn
                            &&& final(self).outcome == SessionOutcome::Aborted(Error::Dbus(se))
                            &&& a == Action::Fail
                        },
                    }
                },
                Event::ResolveCompleted(look) => {
                    &&& final(self).conn == old(self).conn
                    &&& match look {
                        DeviceLookup::Found(p) => {
                            &&& final(self).dev matches Some(d) && d.0 == p
                            &&& final(self).outcome is Pending
                            &&& a == next_needed(*final(self))
                        },
                        DeviceLookup::NoSuchDevice => {
                            &&& final(self).dev == old(self).dev
                            &&& final(self).outcome == SessionOutcome::Aborted(
                                Error::Dbus(ServiceError::UnknownInterface),
                            )
                            &&& a == Action::Fail
                        },
                        DeviceLookup::Failed(m) => {
                            &&& final(self).dev == old(self).dev
                            &&& final(self).outcome == SessionOutcome::Aborted(
                                Error::Dbus(ServiceError::Transport(m)),
                            )
                            &&& a == Action::Fail
                        },
                    }
                },
                Event::ActivateCompleted(res) => {
                    &&& final(self).conn == old(self).conn
                    &&& final(self).dev == old(self).dev
                    &&& match res {
                        Ok(h) => {
                            &&& final(self).outcome == SessionOutcome::Activated(h)
                            &&& a == Action::Report
                        },
                        Err(se) => {
                            &&& final(self).outcome == SessionOutcome::Aborted(Error::Dbus(se))
                            &&& a == Action::Fail
                        },
                    }
                },
            },
    {
        match e {
            Event::AddCompleted(res) => match res {
                Ok(h) => {
                    self.conn = Some(h);
                    if self.dev.is_some() {
                        Action::ActivateConnection
                    } else {
                        Action::ResolveDevice
                    }
                },
                Err(se) => {
                    self.outcome = SessionOutcome::Aborted(Error::Dbus(se));
                    Action::Fail
                },
            },
            Event::ResolveCompleted(look) => {
                match resolve_device(look) {
                    Ok(d) => {
                        self.dev = Some(d);
                        if self.conn.is_some() {
                            Action::ActivateConnection
                        } else {
                            Action::AddConnection
                        }
                    },
                    Err(se) => {
                        self.outcome = SessionOutcome::Aborted(Error::Dbus(se));
                        Action::Fail
                    },
                }
            },
            Event::ActivateCompleted(res) => match res {
                Ok(h) => {
                    self.outcome = SessionOutcome::Activated(h);
                    Action::Report
                },
                Err(se) => {
                    self.outcome = SessionOutcome::Aborted(Error::Dbus(se));
                    Action::Fail
                },
            },
        }
    }
}

/// One D-Bus method call, described as plain values for the channel owner
/// to perform.
#[derive(Debug)]
pub struct MethodCall {
    pub destination: String,
    pub path: String,
    pub interface: String,
    pub member: String,
}

/// The call that removes a stored connection profile (cleanup and testing
/// only; the primary flow never rolls an added profile back).
pub fn delete_call(connection: &ConnectionHandle) -> (r: MethodCall)
    ensures
        r.destination@ == "org.freedesktop.NetworkManager"@,
        r.path@ == connection.0@,
        r.interface@ == "org.freedesktop.NetworkManager.Settings.Connection"@,
        r.member@ == "Delete"@,
{
    MethodCall {
        destination: String::from_str("org.freedesktop.NetworkManager"),
        path: connection.0.clone(),
        interface: String::from_str("org.freedesktop.NetworkManager.Settings.Connection"),
        member: String::from_str("Delete"),
    }
}

/// The access-point constraint handed to activation: the wildcard object,
/// meaning no specific access point.
pub fn wildcard_specific_object() -> (r: &'static str)
    ensures
        r@ == "/"@,
{
    "/"
}

} // verus!
