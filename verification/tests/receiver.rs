use katoptron::cli::{choose_config, local_name, parse_port, ConfigChoice, PortError, DEFAULT_PORT};
use katoptron::poll::{
    initial_watch, on_change_mode_error, watch_update, Event, WatchAction, WatchMode,
};
use katoptron::status::{Property, PropertyValue, StatusItem, FLASH_CUTOFF_INTERVAL, FLASH_EXPIRATION_INTERVAL};
use katoptron::wake::{wake_bytes, wake_count};

const SECOND: u64 = 1_000_000_000;

// ---------------------------------------------------------------------------
// Watch modes and events
// ---------------------------------------------------------------------------

#[test]
fn watch_modes_are_epoll_bits() {
    assert_eq!(WatchMode::ro(), WatchMode(libc::EPOLLIN));
    assert_eq!(WatchMode::wo(), WatchMode(libc::EPOLLOUT));
    assert_eq!(WatchMode::rw(), WatchMode(libc::EPOLLIN | libc::EPOLLOUT));
    assert_eq!(WatchMode::none(), WatchMode(0));
    assert_eq!(WatchMode::rw().bits(), 5);
}

#[test]
fn watch_mode_from_flags() {
    assert_eq!(WatchMode::from_bool_rw(true, true), WatchMode::rw());
    assert_eq!(WatchMode::from_bool_rw(true, false), WatchMode::ro());
    assert_eq!(WatchMode::from_bool_rw(false, true), WatchMode::wo());
    assert_eq!(WatchMode::from_bool_rw(false, false), WatchMode::none());
}

#[test]
fn watch_decisions() {
    assert_eq!(watch_update(false, false), WatchAction::Unwatch);
    assert_eq!(watch_update(true, false), WatchAction::ChangeMode(WatchMode::ro()));
    assert_eq!(watch_update(true, true), WatchAction::ChangeMode(WatchMode::rw()));
    assert_eq!(initial_watch(false, false), None);
    assert_eq!(initial_watch(false, true), Some(WatchMode::wo()));
    assert_eq!(on_change_mode_error(WatchMode::ro(), true), Some(WatchMode::ro()));
    assert_eq!(on_change_mode_error(WatchMode::ro(), false), None);
}

#[test]
fn event_from_epoll_record() {
    let e = Event::from_raw((libc::EPOLLIN | libc::EPOLLHUP) as u32, 42);
    assert_eq!(e.fd(), 42);
    assert!(e.relates_to(42));
    assert!(!e.relates_to(43));
    assert_eq!(e.dbus_flags(), dbus::WatchEvent::Readable as u32 | dbus::WatchEvent::Hangup as u32);
}

#[test]
fn dbus_flags_for_each_epoll_bit() {
    let flags = |bits: i32| Event { rawfd: 0, flags: bits }.dbus_flags();
    assert_eq!(flags(0), 0);
    assert_eq!(flags(libc::EPOLLIN), 1);
    assert_eq!(flags(libc::EPOLLOUT), 2);
    assert_eq!(flags(libc::EPOLLERR), 4);
    assert_eq!(flags(libc::EPOLLHUP), 8);
    assert_eq!(flags(libc::EPOLLIN | libc::EPOLLOUT | libc::EPOLLERR | libc::EPOLLHUP), 15);
    // Bits that D-Bus does not watch for are left out.
    assert_eq!(flags(libc::EPOLLPRI | libc::EPOLLRDHUP), 0);
}

#[test]
fn event_descriptor_is_cut_from_data_word() {
    let e = Event::from_raw(0, (1u64 << 32) | 7);
    assert_eq!(e.fd(), 7);
}

// ---------------------------------------------------------------------------
// Status item
// ---------------------------------------------------------------------------

#[test]
fn new_flash_is_shown_and_unread() {
    let mut item = StatusItem::new();
    assert_eq!(item.status(), "Active");
    assert_eq!(item.icon_name(), "dialog-information");
    assert!(item.would_show(&"Chat {X}".to_string(), 100 * SECOND));
    assert!(item.on_flash("Chat {X}".to_string(), 100 * SECOND));
    assert_eq!(item.unread(), 1);
    assert_eq!(item.status(), "NeedsAttention");
    assert_eq!(item.icon_name(), "dialog-error");
}

#[test]
fn repeated_flash_within_cutoff_suppressed() {
    let mut item = StatusItem::new();
    assert!(item.on_flash("a".to_string(), 0));
    assert!(!item.on_flash("a".to_string(), FLASH_CUTOFF_INTERVAL));
    assert_eq!(item.unread(), 1);
    // The suppressed flash moved the time: 31 s after the first, but only
    // 1 s after the second, is still suppressed.
    assert!(!item.on_flash("a".to_string(), FLASH_CUTOFF_INTERVAL + SECOND));
    assert!(item.on_flash("a".to_string(), 2 * FLASH_CUTOFF_INTERVAL + 2 * SECOND));
    assert_eq!(item.unread(), 2);
}

#[test]
fn different_flashes_do_not_suppress_each_other() {
    let mut item = StatusItem::new();
    assert!(item.on_flash("a".to_string(), 5 * SECOND));
    assert!(item.on_flash("b".to_string(), 6 * SECOND));
    assert!(!item.on_flash("a".to_string(), 7 * SECOND));
    assert_eq!(item.unread(), 2);
}

#[test]
fn expired_flashes_forgotten() {
    let mut item = StatusItem::new();
    assert!(item.on_flash("old".to_string(), 0));
    assert!(item.on_flash("new".to_string(), FLASH_EXPIRATION_INTERVAL + SECOND));
    assert!(item.on_flash("old".to_string(), FLASH_EXPIRATION_INTERVAL + 2 * SECOND));
}

#[test]
fn clock_going_back_counts_as_no_time() {
    let mut item = StatusItem::new();
    assert!(item.on_flash("a".to_string(), 100 * SECOND));
    assert!(!item.on_flash("a".to_string(), 50 * SECOND));
}

#[test]
fn activate_and_context_menu() {
    let mut item = StatusItem::new();
    item.on_flash("a".to_string(), 0);
    item.on_flash("b".to_string(), 0);
    assert_eq!(item.unread(), 2);
    assert_eq!(item.activate(), "Active");
    assert_eq!(item.unread(), 0);
    assert_eq!(item.context_menu(), "NeedsAttention");
    assert_eq!(item.unread(), 1);
}

#[test]
fn status_properties() {
    let mut item = StatusItem::new();
    assert_eq!(item.property(Property::Category), PropertyValue::Str("Communications"));
    assert_eq!(item.property(Property::AttentionIconName), PropertyValue::Str("dialog-error"));
    assert_eq!(item.property(Property::IconName), PropertyValue::Str("dialog-information"));
    assert_eq!(item.property(Property::OverlayIconName), PropertyValue::Str("dialog-error"));
    assert_eq!(item.property(Property::Id), PropertyValue::Str("katoptron"));
    assert_eq!(item.property(Property::Title), PropertyValue::Str("VM Notifications"));
    assert_eq!(item.property(Property::Status), PropertyValue::Str("Active"));
    assert_eq!(item.property(Property::WindowId), PropertyValue::U32(0));
    assert_eq!(item.property(Property::ItemIsMenu), PropertyValue::Bool(false));
    assert_eq!(item.property(Property::Menu), PropertyValue::Str(""));
    item.context_menu();
    assert_eq!(item.property(Property::IconName), PropertyValue::Str("dialog-error"));
    assert_eq!(item.property(Property::Status), PropertyValue::Str("NeedsAttention"));
}

// ---------------------------------------------------------------------------
// Command lines
// ---------------------------------------------------------------------------

#[test]
fn port_defaults_to_8888() {
    assert_eq!(parse_port(None).unwrap(), DEFAULT_PORT);
    assert_eq!(DEFAULT_PORT, 8888);
}

#[test]
fn port_numbers_accepted() {
    assert_eq!(parse_port(Some("8080")).unwrap(), 8080);
    assert_eq!(parse_port(Some("65535")).unwrap(), 65535);
    assert_eq!(parse_port(Some("+1")).unwrap(), 1);
    assert_eq!(parse_port(Some("007")).unwrap(), 7);
}

#[test]
fn port_zero_refused() {
    let e = parse_port(Some("0")).unwrap_err();
    assert!(matches!(e, PortError::Zero));
    assert_eq!(e.to_string(), "Port cannot be zero");
}

#[test]
fn port_non_numbers_refused() {
    for bad in ["abc", "", "65536", "-1", " 80", "80 ", "+"] {
        let e = parse_port(Some(bad)).unwrap_err();
        assert_eq!(e.to_string(), format!("Port must be a number but '{}' was supplied", bad));
    }
}

#[test]
fn config_file_choice() {
    assert_eq!(choose_config(Some(true), true, true), ConfigChoice::Given);
    assert_eq!(choose_config(Some(false), true, true), ConfigChoice::GivenMissing);
    assert_eq!(choose_config(None, true, true), ConfigChoice::Ron);
    assert_eq!(choose_config(None, false, true), ConfigChoice::Toml);
    assert_eq!(choose_config(None, false, false), ConfigChoice::CreateRon);
}

#[test]
fn local_name_falls_back() {
    assert_eq!(local_name(Some("vm".to_string()), "katoptron client"), "vm");
    assert_eq!(local_name(None, "katoptron server"), "katoptron server");
}

// ---------------------------------------------------------------------------
// Wake-up counter
// ---------------------------------------------------------------------------

#[test]
fn wake_bytes_are_one_in_native_order() {
    assert_eq!(wake_bytes(), 1u64.to_ne_bytes().to_vec());
}

#[test]
fn wake_count_reads_native_order() {
    assert_eq!(wake_count(&5u64.to_ne_bytes()), 5);
    assert_eq!(wake_count(&0x0102_0304_0506_0708u64.to_ne_bytes()), 0x0102_0304_0506_0708);
}
