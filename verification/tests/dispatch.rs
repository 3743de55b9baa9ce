use input_poll::dispatch::Dispatcher;
use input_poll::event::{RawEvent, EV_KEY, EV_MSC, EV_REL, EV_SYN, MSC_SCAN};
use input_poll::registry::{discover, DeviceInfo, RegistryEntry, Selection};
use input_poll::source::{FetchOutcome, NonBlockingSource, Progress, Setup};

fn source_for(descriptor: i32, tag: u64) -> NonBlockingSource {
    let mut setup = Setup::begin(descriptor, tag);
    loop {
        setup = match setup.advance(Ok(100 + descriptor)) {
            Progress::Next(next) => next,
            Progress::Ready(source) => return source,
            Progress::Failed(error) => panic!("{:?}", error),
        };
    }
}

fn registry(devices: &Vec<DeviceInfo>) -> Vec<RegistryEntry> {
    discover(devices)
        .into_iter()
        .map(|chosen| {
            let source = source_for(chosen.index as i32, chosen.tag());
            RegistryEntry::new(chosen, source).unwrap()
        })
        .collect()
}

fn named(names: &[Option<&str>]) -> Vec<DeviceInfo> {
    names
        .iter()
        .map(|name| DeviceInfo { has_keys: true, name: name.map(|n| n.to_string()) })
        .collect()
}

fn events(batch: &[(u16, u16, i32)]) -> FetchOutcome {
    FetchOutcome::Events(batch.iter().map(|(t, c, v)| RawEvent::new(*t, *c, *v)).collect())
}

#[test]
fn entry_is_tagged_with_its_position() {
    let entries = registry(&named(&[Some("a"), Some("b"), None]));
    assert_eq!(entries.len(), 3);
    for (place, entry) in entries.iter().enumerate() {
        assert_eq!(entry.index(), place);
        assert_eq!(entry.source().tag(), place as u64);
    }
    assert_eq!(entries[1].name(), "b");
    assert_eq!(entries[2].name(), "unnamed");
}

#[test]
fn source_with_another_tag_makes_no_entry() {
    let chosen = Selection { index: 2, name: "kbd".to_string() };
    assert!(RegistryEntry::new(chosen.clone(), source_for(5, 3)).is_none());
    assert!(RegistryEntry::new(chosen, source_for(5, 2)).is_some());
}

#[test]
fn three_devices_one_round() {
    let mut dispatcher = Dispatcher::new(registry(&named(&[Some("zero"), Some("one"), Some("two")])));
    let mut printed: Vec<String> = Vec::new();
    let mut reported: Vec<String> = Vec::new();
    let outcomes = vec![
        events(&[(EV_KEY, 30, 1)]),
        FetchOutcome::WouldBlock,
        events(&[(EV_REL, 1, 5), (EV_SYN, 0, 0)]),
    ];
    for (place, outcome) in outcomes.into_iter().enumerate() {
        assert_eq!(dispatcher.due().map(|(due, _)| due), Some(place));
        let output = dispatcher.step(outcome);
        printed.extend(output.lines);
        reported.extend(output.report);
    }
    assert_eq!(printed, vec!["zero: key: KEY_A 1", "two: relative axis: REL_Y 5"]);
    assert!(reported.is_empty());
    assert_eq!(dispatcher.due().map(|(due, _)| due), Some(0));
}

#[test]
fn gaps_lose_and_double_nothing() {
    let batches: Vec<Vec<(u16, u16, i32)>> = vec![
        vec![(EV_MSC, MSC_SCAN, 16), (EV_KEY, 16, 1), (EV_SYN, 0, 0)],
        vec![],
        vec![(EV_KEY, 16, 0)],
        vec![(EV_REL, 0, 1), (EV_REL, 0, 2), (EV_REL, 0, 3)],
    ];
    let expected = vec![
        "k: key: KEY_Q 1",
        "k: key: KEY_Q 0",
        "k: relative axis: REL_X 1",
        "k: relative axis: REL_X 2",
        "k: relative axis: REL_X 3",
    ];
    // every way of putting gaps before, between and after the four batches
    for gaps in 0..32u32 {
        let mut dispatcher = Dispatcher::new(registry(&named(&[Some("k")])));
        let mut printed: Vec<String> = Vec::new();
        for slot in 0..5 {
            if gaps & (1 << slot) != 0 {
                let output = dispatcher.step(FetchOutcome::WouldBlock);
                assert!(output.lines.is_empty() && output.report.is_none());
            }
            if slot < 4 {
                printed.extend(dispatcher.step(events(&batches[slot])).lines);
            }
        }
        assert_eq!(printed, expected);
    }
}

#[test]
fn failing_device_does_not_stop_the_others() {
    let mut dispatcher = Dispatcher::new(registry(&named(&[Some("bad"), Some("good")])));
    let first = dispatcher.step(FetchOutcome::Failed("No such device (os error 19)".to_string()));
    assert!(first.lines.is_empty());
    assert_eq!(first.report, Some("No such device (os error 19)".to_string()));
    let second = dispatcher.step(events(&[(EV_KEY, 1, 1)]));
    assert_eq!(second.lines, vec!["good: key: KEY_ESC 1"]);
    assert_eq!(second.report, None);
}

#[test]
fn devices_take_turns_in_list_order() {
    let mut dispatcher = Dispatcher::new(registry(&named(&[Some("a"), Some("b"), Some("c")])));
    assert_eq!(dispatcher.len(), 3);
    for poll in 0..10usize {
        let (place, entry) = dispatcher.due().unwrap();
        assert_eq!(place, poll % 3);
        assert_eq!(entry.name(), ["a", "b", "c"][poll % 3]);
        dispatcher.step(FetchOutcome::WouldBlock);
    }
}

#[test]
fn dispatcher_without_devices_puts_nothing_out() {
    let mut dispatcher = Dispatcher::new(Vec::new());
    assert_eq!(dispatcher.len(), 0);
    assert!(dispatcher.due().is_none());
    let output = dispatcher.step(events(&[(EV_KEY, 1, 1)]));
    assert!(output.lines.is_empty());
    assert_eq!(output.report, None);
    let output = dispatcher.step(FetchOutcome::Failed("gone".to_string()));
    assert!(output.lines.is_empty());
    assert_eq!(output.report, None);
    assert!(dispatcher.due().is_none());
}

#[test]
fn filtered_devices_keep_their_enumeration_index_in_the_loop() {
    let mut devices = named(&[Some("a"), Some("b"), Some("c")]);
    devices[1].has_keys = false;
    let mut dispatcher = Dispatcher::new(registry(&devices));
    assert_eq!(dispatcher.len(), 2);
    let (place, entry) = dispatcher.due().unwrap();
    assert_eq!((place, entry.index(), entry.name()), (0, 0, "a"));
    dispatcher.step(FetchOutcome::WouldBlock);
    let (place, entry) = dispatcher.due().unwrap();
    assert_eq!((place, entry.index(), entry.name()), (1, 2, "c"));
}
