use notifyd::dbus::{BUS_NAME, OBJ_PATH};
use notifyd::{Error, Interface, NotificationStore, Reason, Signal, Urgency};

fn notify(interface: &mut Interface, replaces_id: u32, summary: &str, timeout: i32, now: i64) -> u32 {
    let (id, signal) = interface.notify_at(
        "a".to_string(),
        replaces_id,
        "".to_string(),
        summary.to_string(),
        "body".to_string(),
        Vec::new(),
        Urgency::Unspecified,
        timeout,
        now,
    );
    assert_eq!(signal, Signal::NewNotification(id));
    id
}

#[test]
fn end_to_end() {
    let mut interface = Interface::new(NotificationStore::new());
    let (id, signal) = interface.notify_at(
        "a".to_string(),
        0,
        "".to_string(),
        "hi".to_string(),
        "body".to_string(),
        Vec::new(),
        Urgency::Unspecified,
        0,
        5,
    );
    assert_eq!(id, 1);
    assert_eq!(signal, Signal::NewNotification(1));
    let all = interface.get_notifications();
    assert_eq!(all.len(), 1);
    assert_eq!(all[&1].id, 1);
    assert_eq!(all[&1].app_name, "a");
    assert_eq!(all[&1].summary, "hi");
    assert_eq!(all[&1].body, "body");
    assert_eq!(
        interface.close_notification(1),
        Some(Signal::NotificationClosed(1, Reason::Closed))
    );
    assert_eq!(interface.get_notification(1).err(), Some(Error::NotFound));
    assert!(interface.get_notifications().is_empty());
}

#[test]
fn expiry_sweep() {
    let mut interface = Interface::new(NotificationStore::new());
    let id = notify(&mut interface, 0, "short", 50, 1_000);
    assert!(interface.sweep_at(1_049).is_empty());
    assert!(interface.get_notification(id).is_ok());
    let signals = interface.sweep_at(1_050 + 3_000);
    assert_eq!(signals, vec![Signal::NotificationClosed(id, Reason::Expired)]);
    assert!(!interface.get_notifications().contains_key(&id));
    assert!(interface.sweep_at(1_050 + 6_000).is_empty());
}

#[test]
fn sweep_retires_every_expired_record_once() {
    let mut interface = Interface::new(NotificationStore::new());
    let a = notify(&mut interface, 0, "a", 10, 0);
    let b = notify(&mut interface, 0, "b", 20, 0);
    let c = notify(&mut interface, 0, "c", 0, 0);
    let d = notify(&mut interface, 0, "d", 30, 0);
    let mut signals = interface.sweep_at(25);
    signals.sort_by_key(|signal| match signal {
        Signal::NotificationClosed(id, _) => *id,
        Signal::NewNotification(id) => *id,
    });
    assert_eq!(
        signals,
        vec![
            Signal::NotificationClosed(a, Reason::Expired),
            Signal::NotificationClosed(b, Reason::Expired),
        ]
    );
    let left = interface.get_notifications();
    assert_eq!(left.len(), 2);
    assert!(left.contains_key(&c));
    assert!(left.contains_key(&d));
}

#[test]
fn notify_with_an_id_replaces() {
    let mut interface = Interface::new(NotificationStore::new());
    let id = notify(&mut interface, 0, "old", -1, 0);
    assert_eq!(notify(&mut interface, id, "new", 0, 10), id);
    let found = interface.get_notification(id).unwrap();
    assert_eq!(found.summary, "new");
    assert_eq!(found.created_at, 10);
    assert_eq!(found.lifetime, None);
    assert_eq!(interface.get_notifications().len(), 1);
    assert_eq!(notify(&mut interface, 40, "forty", 0, 10), 40);
    assert_eq!(interface.get_notification(40).unwrap().id, 40);
}

#[test]
fn replacing_sets_a_new_deadline() {
    let mut interface = Interface::new(NotificationStore::new());
    let id = notify(&mut interface, 0, "old", 50, 0);
    notify(&mut interface, id, "new", 50, 40);
    assert!(interface.sweep_at(60).is_empty());
    assert_eq!(
        interface.sweep_at(90),
        vec![Signal::NotificationClosed(id, Reason::Expired)]
    );
}

#[test]
fn notify_by_the_clock() {
    let mut interface = Interface::new(NotificationStore::new());
    let (id, signal) = interface.notify(
        "a".to_string(),
        0,
        "".to_string(),
        "hi".to_string(),
        "body".to_string(),
        Vec::new(),
        Urgency::Critical,
        -1,
    );
    assert_eq!(id, 1);
    assert_eq!(signal, Signal::NewNotification(1));
    let found = interface.get_notification(1).unwrap();
    assert_eq!(found.summary, "hi");
    assert_eq!(found.lifetime, None);
}

#[test]
fn closing_an_absent_id_owes_no_signal() {
    let mut interface = Interface::new(NotificationStore::new());
    assert_eq!(interface.close_notification(3), None);
    assert_eq!(interface.dismiss_notification(3), None);
    let id = notify(&mut interface, 0, "a", 0, 0);
    assert_eq!(
        interface.dismiss_notification(id),
        Some(Signal::NotificationClosed(id, Reason::Dismissed))
    );
    assert_eq!(interface.dismiss_notification(id), None);
    assert_eq!(interface.close_notification(id), None);
}

#[test]
fn delete_carries_the_reason() {
    let mut interface = Interface::new(NotificationStore::new());
    let id = notify(&mut interface, 0, "a", 0, 0);
    assert_eq!(
        interface.delete_notification(id, Reason::Undefined),
        Some(Signal::NotificationClosed(id, Reason::Undefined))
    );
    assert_eq!(interface.delete_notification(id, Reason::Undefined), None);
}

#[test]
fn interface_serves_the_store_it_was_given() {
    let mut store = NotificationStore::new();
    let id = store.insert_new(notifyd::Notification::at(
        0,
        "a".to_string(),
        "kept".to_string(),
        "body".to_string(),
        Urgency::Low,
        0,
        0,
    ));
    let interface = Interface::new(store);
    assert_eq!(interface.get_notification(id).unwrap().summary, "kept");
}

#[test]
fn many_notifications_fill_the_store() {
    let mut interface = Interface::new(NotificationStore::new());
    for k in 0..1_000 {
        notify(&mut interface, 0, "n", 0, k);
    }
    let all = interface.get_notifications();
    assert_eq!(all.len(), 1_000);
    for (id, n) in all.iter() {
        assert_eq!(n.id, *id);
        assert_eq!(n.app_name, "a");
        assert_eq!(n.summary, "n");
        assert_eq!(n.body, "body");
    }
}

#[test]
fn reasons_have_their_codes() {
    assert_eq!(Reason::Expired.code(), 1);
    assert_eq!(Reason::Dismissed.code(), 2);
    assert_eq!(Reason::Closed.code(), 3);
    assert_eq!(Reason::Undefined.code(), 4);
    assert_eq!(Reason::from_code(1), Reason::Expired);
    assert_eq!(Reason::from_code(2), Reason::Dismissed);
    assert_eq!(Reason::from_code(3), Reason::Closed);
    assert_eq!(Reason::from_code(4), Reason::Undefined);
    assert_eq!(Reason::from_code(0), Reason::Undefined);
    assert_eq!(Reason::from_code(5), Reason::Undefined);
}

#[test]
fn reasons_describe_themselves() {
    assert_eq!(Reason::Expired.to_str(), "expired");
    assert_eq!(Reason::Dismissed.to_str(), "dismissed by user");
    assert_eq!(Reason::Closed.to_str(), "closed by CloseNotification");
    assert_eq!(Reason::Undefined.to_str(), "undefined reason");
}

#[test]
fn not_found_has_its_message() {
    assert_eq!(Error::NotFound.message(), "Notification with given ID does not exist");
}

#[test]
fn capabilities_and_server_information() {
    let interface = Interface::new(NotificationStore::new());
    assert_eq!(interface.get_capabilities(), vec!["body", "persistence"]);
    assert_eq!(
        interface.get_server_information(),
        ("notifyd", "freedesktop.org", "0.1.0", "1.2")
    );
    assert_eq!(BUS_NAME, "org.freedesktop.Notifications");
    assert_eq!(OBJ_PATH, "/org/freedesktop/Notifications");
}

#[test]
fn sweep_by_the_clock() {
    let mut interface = Interface::new(NotificationStore::new());
    let past = notify(&mut interface, 0, "past", 1, 0);
    let (fresh, _) = interface.notify(
        "a".to_string(),
        0,
        "".to_string(),
        "fresh".to_string(),
        "body".to_string(),
        Vec::new(),
        Urgency::Low,
        i32::MAX,
    );
    assert_eq!(
        interface.sweep(),
        vec![Signal::NotificationClosed(past, Reason::Expired)]
    );
    assert!(interface.get_notification(past).is_err());
    assert!(interface.get_notification(fresh).is_ok());
}
