use input_poll::classify::{
    category_text, coded_line_text, is_forwarded, plain_line_text, render, render_batch,
};
use input_poll::decimal::decimal_string;
use input_poll::event::{
    EventKind, RawEvent, EV_ABS, EV_KEY, EV_LED, EV_MSC, EV_REL, EV_SND, EV_SW, EV_SYN, MSC_SCAN,
};
use input_poll::names::code_text;

#[test]
fn kind_follows_the_kernel_type() {
    assert_eq!(RawEvent::new(EV_SYN, 0, 0).kind(), EventKind::Synchronization(0));
    assert_eq!(RawEvent::new(EV_KEY, 30, 1).kind(), EventKind::Key(30));
    assert_eq!(RawEvent::new(EV_REL, 1, -3).kind(), EventKind::RelativeAxis(1));
    assert_eq!(RawEvent::new(EV_ABS, 53, 900).kind(), EventKind::AbsoluteAxis(53));
    assert_eq!(RawEvent::new(EV_MSC, 4, 458756).kind(), EventKind::Miscellaneous(4));
    assert_eq!(RawEvent::new(EV_SW, 0, 1).kind(), EventKind::Switch(0));
    assert_eq!(RawEvent::new(EV_LED, 1, 1).kind(), EventKind::Led(1));
    assert_eq!(RawEvent::new(EV_SND, 2, 440).kind(), EventKind::Sound(2));
}

#[test]
fn kind_keeps_the_code_not_the_type() {
    assert_eq!(RawEvent::new(EV_KEY, 0xffff, 0).kind(), EventKind::Key(0xffff));
    assert_eq!(RawEvent::new(EV_LED, 0x11, 0).kind(), EventKind::Led(0x11));
    assert_ne!(RawEvent::new(EV_KEY, 2, 0).kind(), EventKind::Key(1));
}

#[test]
fn types_without_a_kind_are_other() {
    for event_type in [0x06u16, 0x10, 0x13, 0x14, 0x15, 0x16, 0x17, 0x18, 0x0101, 0xffff] {
        assert_eq!(RawEvent::new(event_type, 7, 9).kind(), EventKind::Other);
    }
}

#[test]
fn kind_numbers_are_the_kernels() {
    assert_eq!(
        (EV_SYN, EV_KEY, EV_REL, EV_ABS, EV_MSC, EV_SW, EV_LED, EV_SND),
        (0x00, 0x01, 0x02, 0x03, 0x04, 0x05, 0x11, 0x12)
    );
    assert_eq!(MSC_SCAN, 4);
}

#[test]
fn code_names_are_evdevs() {
    assert_eq!(code_text(EventKind::Key(30)), "KEY_A");
    assert_eq!(code_text(EventKind::Key(1)), "KEY_ESC");
    assert_eq!(code_text(EventKind::Key(0x110)), "BTN_LEFT");
    assert_eq!(code_text(EventKind::RelativeAxis(0)), "REL_X");
    assert_eq!(code_text(EventKind::RelativeAxis(8)), "REL_WHEEL");
    assert_eq!(code_text(EventKind::AbsoluteAxis(0x35)), "ABS_MT_POSITION_X");
    assert_eq!(code_text(EventKind::Switch(0)), "SW_LID");
    assert_eq!(code_text(EventKind::Led(1)), "LED_CAPSL");
}

#[test]
fn misc_and_sound_names_are_the_written_tables() {
    let misc = ["MSC_SERIAL", "MSC_PULSELED", "MSC_GESTURE", "MSC_RAW", "MSC_SCAN", "MSC_TIMESTAMP"];
    for (code, name) in misc.iter().enumerate() {
        assert_eq!(code_text(EventKind::Miscellaneous(code as u16)), *name);
    }
    let sound = ["SND_CLICK", "SND_BELL", "SND_TONE"];
    for (code, name) in sound.iter().enumerate() {
        assert_eq!(code_text(EventKind::Sound(code as u16)), *name);
    }
}

#[test]
fn codes_without_a_constant_are_unknown() {
    assert_eq!(code_text(EventKind::Miscellaneous(6)), "unknown key: 6");
    assert_eq!(code_text(EventKind::Miscellaneous(65535)), "unknown key: 65535");
    assert_eq!(code_text(EventKind::Sound(3)), "unknown key: 3");
    assert_eq!(code_text(EventKind::Sound(100)), "unknown key: 100");
    assert_eq!(code_text(EventKind::RelativeAxis(0x40)), "unknown key: 64");
    assert_eq!(code_text(EventKind::Led(0x0b)), "unknown key: 11");
}

#[test]
fn kinds_shown_without_a_code_have_no_code_name() {
    assert_eq!(code_text(EventKind::Other), "");
    assert_eq!(code_text(EventKind::Synchronization(0)), "");
}

#[test]
fn decimal_text_of_values() {
    assert_eq!(decimal_string(0), "0");
    assert_eq!(decimal_string(7), "7");
    assert_eq!(decimal_string(10), "10");
    assert_eq!(decimal_string(1234567890), "1234567890");
    assert_eq!(decimal_string(-1), "-1");
    assert_eq!(decimal_string(-120), "-120");
    assert_eq!(decimal_string(i32::MAX), "2147483647");
    assert_eq!(decimal_string(i32::MIN), "-2147483648");
}

#[test]
fn decimal_text_agrees_with_std() {
    for value in [-100001, -99, -10, -9, 1, 9, 11, 99, 100, 101, 65535, 65536, 999999999] {
        assert_eq!(decimal_string(value), format!("{}", value));
    }
}

#[test]
fn categories() {
    assert_eq!(category_text(EventKind::Key(0)), "key");
    assert_eq!(category_text(EventKind::RelativeAxis(0)), "relative axis");
    assert_eq!(category_text(EventKind::AbsoluteAxis(0)), "absolute axis");
    assert_eq!(category_text(EventKind::Miscellaneous(0)), "misc");
    assert_eq!(category_text(EventKind::Switch(0)), "switch");
    assert_eq!(category_text(EventKind::Led(0)), "led");
    assert_eq!(category_text(EventKind::Sound(0)), "sound");
    assert_eq!(category_text(EventKind::Other), "other");
}

#[test]
fn line_formats() {
    assert_eq!(coded_line_text("kbd", "key", "KEY_A", 1), "kbd: key: KEY_A 1");
    assert_eq!(coded_line_text("", "", "", 0), ": :  0");
    assert_eq!(coded_line_text("a b", "relative axis", "REL_X", -12), "a b: relative axis: REL_X -12");
    assert_eq!(plain_line_text("pad", "other", 42), "pad: other 42");
    assert_eq!(plain_line_text("pad", "other", -42), "pad: other -42");
}

#[test]
fn one_line_for_each_kind() {
    let shown = |event_type: u16, code: u16, value: i32| {
        render("dev", &RawEvent::new(event_type, code, value))
    };
    assert_eq!(shown(EV_KEY, 30, 1).unwrap(), "dev: key: KEY_A 1");
    assert_eq!(shown(EV_REL, 0, -5).unwrap(), "dev: relative axis: REL_X -5");
    assert_eq!(shown(EV_ABS, 1, 512).unwrap(), "dev: absolute axis: ABS_Y 512");
    assert_eq!(shown(EV_MSC, 3, 8).unwrap(), "dev: misc: MSC_RAW 8");
    assert_eq!(shown(EV_SW, 1, 0).unwrap(), "dev: switch: SW_TABLET_MODE 0");
    assert_eq!(shown(EV_LED, 0, 1).unwrap(), "dev: led: LED_NUML 1");
    assert_eq!(shown(EV_SND, 1, 1).unwrap(), "dev: sound: SND_BELL 1");
    assert_eq!(shown(0x15, 80, 3).unwrap(), "dev: other 3");
    assert_eq!(shown(EV_KEY, 0x2ff, 2).unwrap(), "dev: key: unknown key: 767 2");
}

#[test]
fn synchronization_is_never_shown() {
    for code in [0u16, 1, 2, 3, 4, 1000, u16::MAX] {
        for value in [i32::MIN, -1, 0, 1, i32::MAX] {
            assert_eq!(render("dev", &RawEvent::new(EV_SYN, code, value)), None);
            assert!(!is_forwarded(EventKind::Synchronization(code)));
        }
    }
}

#[test]
fn scan_code_echo_is_never_shown_other_misc_always() {
    for value in [i32::MIN, -1, 0, 458756, i32::MAX] {
        assert_eq!(render("dev", &RawEvent::new(EV_MSC, MSC_SCAN, value)), None);
        for code in [0u16, 1, 2, 3, 5, 6, 77, u16::MAX] {
            assert!(render("dev", &RawEvent::new(EV_MSC, code, value)).is_some());
            assert!(is_forwarded(EventKind::Miscellaneous(code)));
        }
    }
    assert!(!is_forwarded(EventKind::Miscellaneous(MSC_SCAN)));
    // a scan code is only suppressed as a miscellaneous event
    assert!(is_forwarded(EventKind::Key(MSC_SCAN)));
    assert!(is_forwarded(EventKind::Other));
}

#[test]
fn batch_is_shown_in_device_order() {
    let events = vec![
        RawEvent::new(EV_MSC, MSC_SCAN, 30),
        RawEvent::new(EV_KEY, 30, 1),
        RawEvent::new(EV_SYN, 0, 0),
        RawEvent::new(EV_REL, 1, 4),
        RawEvent::new(EV_REL, 0, -4),
        RawEvent::new(EV_SYN, 0, 0),
    ];
    assert_eq!(
        render_batch("m", &events),
        vec!["m: key: KEY_A 1", "m: relative axis: REL_Y 4", "m: relative axis: REL_X -4"]
    );
    assert_eq!(render_batch("m", &Vec::new()), Vec::<String>::new());
    assert_eq!(render_batch("m", &vec![RawEvent::new(EV_SYN, 3, 0)]), Vec::<String>::new());
}

#[test]
fn splitting_a_batch_does_not_change_its_lines() {
    let events = vec![
        RawEvent::new(EV_KEY, 16, 1),
        RawEvent::new(EV_SYN, 0, 0),
        RawEvent::new(EV_KEY, 16, 0),
        RawEvent::new(EV_LED, 2, 1),
    ];
    let whole = render_batch("k", &events);
    for cut in 0..=events.len() {
        let mut parts = render_batch("k", &events[..cut].to_vec());
        parts.extend(render_batch("k", &events[cut..].to_vec()));
        assert_eq!(parts, whole);
    }
}
