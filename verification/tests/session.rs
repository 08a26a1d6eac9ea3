use wifi_qr::session::{delete_call, resolve_device, wildcard_specific_object};
use wifi_qr::{
    Action, ActiveConnectionHandle, ConnectionHandle, DeviceLookup, Error, Event, ServiceError,
    Session, SessionOutcome,
};

#[test]
fn resolve_device_unknown_interface() {
    let r = resolve_device(DeviceLookup::NoSuchDevice);
    assert_eq!(r.unwrap_err(), ServiceError::UnknownInterface);
}

#[test]
fn resolve_device_found() {
    let r = resolve_device(DeviceLookup::Found(String::from(
        "/org/freedesktop/NetworkManager/Devices/2",
    )));
    assert_eq!(r.unwrap().0, "/org/freedesktop/NetworkManager/Devices/2");
}

#[test]
fn resolve_device_transport_failure() {
    let r = resolve_device(DeviceLookup::Failed(String::from("disconnected")));
    assert_eq!(r.unwrap_err(), ServiceError::Transport(String::from("disconnected")));
}

#[test]
fn session_happy_path() {
    let (mut s, a) = Session::start(String::from("wlan0"));
    assert_eq!(a, Action::AddConnection);

    let a = s.step(Event::AddCompleted(Ok(ConnectionHandle(String::from(
        "/org/freedesktop/NetworkManager/Settings/7",
    )))));
    assert_eq!(a, Action::ResolveDevice);

    let a = s.step(Event::ResolveCompleted(DeviceLookup::Found(String::from(
        "/org/freedesktop/NetworkManager/Devices/2",
    ))));
    assert_eq!(a, Action::ActivateConnection);
    assert_eq!(s.conn.as_ref().unwrap().0, "/org/freedesktop/NetworkManager/Settings/7");
    assert_eq!(s.dev.as_ref().unwrap().0, "/org/freedesktop/NetworkManager/Devices/2");

    let a = s.step(Event::ActivateCompleted(Ok(ActiveConnectionHandle(String::from(
        "/org/freedesktop/NetworkManager/ActiveConnection/4",
    )))));
    assert_eq!(a, Action::Report);
    match s.outcome {
        SessionOutcome::Activated(h) => {
            assert_eq!(h.0, "/org/freedesktop/NetworkManager/ActiveConnection/4")
        },
        _ => panic!("session must end activated"),
    }
}

#[test]
fn session_add_rejected_aborts() {
    let (mut s, _) = Session::start(String::from("wlan0"));
    let a = s.step(Event::AddCompleted(Err(ServiceError::Rejected(String::from(
        "malformed profile",
    )))));
    assert_eq!(a, Action::Fail);
    match s.outcome {
        SessionOutcome::Aborted(Error::Dbus(ServiceError::Rejected(m))) => {
            assert_eq!(m, "malformed profile")
        },
        _ => panic!("session must abort on a rejected add"),
    }
}

#[test]
fn session_unknown_interface_aborts() {
    let (mut s, _) = Session::start(String::from("blah0"));
    let a = s.step(Event::AddCompleted(Ok(ConnectionHandle(String::from(
        "/org/freedesktop/NetworkManager/Settings/7",
    )))));
    assert_eq!(a, Action::ResolveDevice);
    let a = s.step(Event::ResolveCompleted(DeviceLookup::NoSuchDevice));
    assert_eq!(a, Action::Fail);
    match s.outcome {
        SessionOutcome::Aborted(Error::Dbus(ServiceError::UnknownInterface)) => {},
        _ => panic!("an unbound interface must abort with UnknownInterface"),
    }
}

#[test]
fn session_resolve_before_add() {
    let (mut s, _) = Session::start(String::from("wlan0"));
    let a = s.step(Event::ResolveCompleted(DeviceLookup::Found(String::from(
        "/org/freedesktop/NetworkManager/Devices/2",
    ))));
    assert_eq!(a, Action::AddConnection);
    let a = s.step(Event::AddCompleted(Ok(ConnectionHandle(String::from(
        "/org/freedesktop/NetworkManager/Settings/7",
    )))));
    assert_eq!(a, Action::ActivateConnection);
}

#[test]
fn delete_call_names_the_service() {
    let call = delete_call(&ConnectionHandle(String::from(
        "/org/freedesktop/NetworkManager/Settings/7",
    )));
    assert_eq!(call.destination, "org.freedesktop.NetworkManager");
    assert_eq!(call.path, "/org/freedesktop/NetworkManager/Settings/7");
    assert_eq!(call.interface, "org.freedesktop.NetworkManager.Settings.Connection");
    assert_eq!(call.member, "Delete");
}

#[test]
fn wildcard_specific_object_is_root() {
    assert_eq!(wildcard_specific_object(), "/");
}

#[test]
fn scan_decision_cases() {
    assert_eq!(wifi_qr::default_retries(), 100);
    assert_eq!(wifi_qr::scan_decision(3, 2), wifi_qr::ScanStep::Deliver);
    assert_eq!(wifi_qr::scan_decision(3, 0), wifi_qr::ScanStep::Retry);
    assert_eq!(wifi_qr::scan_decision(0, 0), wifi_qr::ScanStep::GiveUp);
    assert_eq!(wifi_qr::scan_decision(0, 1), wifi_qr::ScanStep::Deliver);
}
