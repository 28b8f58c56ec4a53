use smart_lock::command::{event_for, Notice};
use smart_lock::device::{
    device_lock, ACTUATION_MS, ERR_MQTT, ERR_WIFI, INIT, LOCK, LOCK_FAILURE, LOCK_SUCCESS, READY,
    RESET, UNLOCK, UNLOCK_FAILURE, UNLOCK_SUCCESS,
};
use smart_lock::telemetry::{
    heartbeat_message, heartbeat_period, parse_u64, DEFAULT_HEARTBEAT_MS,
};
use smart_lock::State;

#[test]
fn message_names_the_state() {
    assert_eq!(heartbeat_message(State::NONE), "Smart Lock: NONE");
    assert_eq!(heartbeat_message(State::INITIALIZING), "Smart Lock: INITIALIZING");
    assert_eq!(heartbeat_message(State::ERROR), "Smart Lock: ERROR");
    assert_eq!(heartbeat_message(State::LOCKED), "Smart Lock: LOCKED");
    assert_eq!(heartbeat_message(State::LOCKING), "Smart Lock: LOCKING");
    assert_eq!(heartbeat_message(State::UNLOCKED), "Smart Lock: UNLOCKED");
    assert_eq!(heartbeat_message(State::UNLOCKING), "Smart Lock: UNLOCKING");
}

#[test]
fn message_follows_the_lock() {
    let mut lock = device_lock();
    assert_eq!(heartbeat_message(lock.get_state()), "Smart Lock: NONE");
    lock.apply_event("init".to_string());
    assert_eq!(heartbeat_message(lock.get_state()), "Smart Lock: INITIALIZING");
    lock.apply_event("nonsense".to_string());
    assert_eq!(heartbeat_message(lock.get_state()), "Smart Lock: INITIALIZING");
    lock.apply_event("ready".to_string());
    assert_eq!(heartbeat_message(lock.get_state()), "Smart Lock: LOCKED");
}

#[test]
fn period_is_read_from_its_text() {
    assert_eq!(heartbeat_period("1500"), 1500);
    assert_eq!(heartbeat_period("0"), 0);
    assert_eq!(heartbeat_period("+5"), 5);
    assert_eq!(heartbeat_period("007"), 7);
    assert_eq!(heartbeat_period("18446744073709551615"), u64::MAX);
}

#[test]
fn period_falls_back_to_the_default() {
    assert_eq!(DEFAULT_HEARTBEAT_MS, 3000);
    for text in ["", " ", "abc", "-1", "1.5", "15 ", " 15", "0x10", "18446744073709551616", "+"] {
        assert_eq!(heartbeat_period(text), 3000);
    }
}

#[test]
fn numbers_are_read_as_decimal() {
    assert_eq!(parse_u64("0"), Some(0));
    assert_eq!(parse_u64("9"), Some(9));
    assert_eq!(parse_u64("10"), Some(10));
    assert_eq!(parse_u64("3000"), Some(3000));
    assert_eq!(parse_u64("+3000"), Some(3000));
    assert_eq!(parse_u64("+0"), Some(0));
    assert_eq!(parse_u64("000"), Some(0));
    assert_eq!(parse_u64("00000000000000000000000000042"), Some(42));
    assert_eq!(parse_u64("18446744073709551615"), Some(u64::MAX));
    assert_eq!(parse_u64("+18446744073709551615"), Some(u64::MAX));
}

#[test]
fn other_texts_are_no_numbers() {
    let texts = [
        "",
        "+",
        "-",
        "++1",
        "+-1",
        "-0",
        "-1",
        "1+",
        "1 ",
        " 1",
        "1_000",
        "1,5",
        "1.0",
        "1e3",
        "0x1f",
        "ff",
        "\u{663}",
        "1\u{e9}",
        "\u{ff11}",
        "18446744073709551616",
        "18446744073709551620",
        "99999999999999999999",
        "184467440737095516150",
    ];
    for text in texts {
        assert_eq!(parse_u64(text), None, "{:?}", text);
    }
}

#[test]
fn numbers_are_read_as_the_standard_library_reads_them() {
    let texts = [
        "", "0", "1", "+1", "-1", "+", "12345", "0012", "18446744073709551615",
        "18446744073709551616", "27670116110564327424", " 7", "7 ", "7a", "a7", "+-7", "--7",
        "7.", "\u{37}", "\u{666}",
    ];
    for text in texts {
        assert_eq!(parse_u64(text), text.parse::<u64>().ok(), "{:?}", text);
    }
}

#[test]
fn subscription_signals_ready() {
    assert_eq!(event_for(Notice::Subscribed), Some("ready".to_string()));
}

#[test]
fn command_is_passed_on_as_it_is() {
    assert_eq!(event_for(Notice::Received("unlock".to_string())), Some("unlock".to_string()));
    assert_eq!(event_for(Notice::Received("foo bar".to_string())), Some("foo bar".to_string()));
    assert_eq!(event_for(Notice::Received(" ".to_string())), Some(" ".to_string()));
}

#[test]
fn empty_command_injects_nothing() {
    assert_eq!(event_for(Notice::Received(String::new())), None);
}

#[test]
fn other_notices_inject_nothing() {
    assert_eq!(event_for(Notice::Connected), None);
    assert_eq!(event_for(Notice::Published), None);
    assert_eq!(event_for(Notice::Other), None);
}

#[test]
fn ready_notice_completes_the_startup() {
    let mut lock = device_lock();
    lock.apply_event("init".to_string());
    let event = event_for(Notice::Subscribed).unwrap();
    lock.apply_event(event);
    assert_eq!(lock.get_state(), State::LOCKED);
}

#[test]
fn actuation_delay() {
    assert_eq!(ACTUATION_MS, 1500);
}

#[test]
fn event_names_of_the_device() {
    assert_eq!(INIT, "init");
    assert_eq!(READY, "ready");
    assert_eq!(ERR_WIFI, "err-wifi");
    assert_eq!(ERR_MQTT, "err-mqtt");
    assert_eq!(UNLOCK, "unlock");
    assert_eq!(UNLOCK_SUCCESS, "unlock-success");
    assert_eq!(UNLOCK_FAILURE, "unlock-failure");
    assert_eq!(LOCK, "lock");
    assert_eq!(LOCK_SUCCESS, "lock-success");
    assert_eq!(LOCK_FAILURE, "lock-failure");
    assert_eq!(RESET, "reset");
}
