use hyprrust::events::HyprlandEvent;
use hyprrust::filter::EventFilter;
use hyprrust::stream::{parse_event_bytes, pull_step, LineBuffer, ListenerAction, PullStep, ReadOutcome};
use hyprrust::codec::ParseError;

#[test]
fn lines_are_joined_across_chunks() {
    let mut b = LineBuffer::new();
    assert!(b.push_chunk(b"works").is_empty());
    let lines = b.push_chunk(b"pace>>1\nsubmap>>x\nurg");
    assert_eq!(lines, vec![b"workspace>>1".to_vec(), b"submap>>x".to_vec()]);
    let lines = b.push_chunk(b"ent>>a\n");
    assert_eq!(lines, vec![b"urgent>>a".to_vec()]);
    assert!(b.push_chunk(b"").is_empty());
}

#[test]
fn chunk_events_come_in_line_order() {
    let mut b = LineBuffer::new();
    let f = EventFilter::new_include_all();
    let evs = b.decode_chunk(b"workspace>>1\nnonsense\nworkspace>>2\nworkspace>>", &f);
    assert_eq!(evs.events.len(), 2);
    assert!(matches!(&evs.events[0], HyprlandEvent::Workspace { name } if name == "1"));
    assert!(matches!(&evs.events[1], HyprlandEvent::Workspace { name } if name == "2"));
    let evs = b.decode_chunk(b"3\n", &f);
    assert_eq!(evs.events.len(), 1);
    assert!(matches!(&evs.events[0], HyprlandEvent::Workspace { name } if name == "3"));
}

#[test]
fn a_character_split_between_reads_survives() {
    let mut b = LineBuffer::new();
    let f = EventFilter::new_include_all();
    let line = "submap>>résumé\n".as_bytes();
    let evs = b.decode_chunk(&line[..10], &f);
    assert!(evs.events.is_empty());
    let evs = b.decode_chunk(&line[10..], &f);
    assert!(matches!(&evs.events[0], HyprlandEvent::Submap { name } if name == "résumé"));
}

#[test]
fn bytes_that_are_not_utf8_are_malformed() {
    let f = EventFilter::new_include_all();
    assert_eq!(parse_event_bytes(&[0x73, 0xff, 0x3e, 0x3e], &f).unwrap_err(), ParseError::MalformedEvent);
    assert!(parse_event_bytes(b"pin>>a,1", &f).is_ok());
}

#[test]
fn filtered_lines_are_skipped() {
    let mut b = LineBuffer::new();
    let mut f = EventFilter::new_exclude_all();
    f.add_event(&hyprrust::events::HyprlandEventType::Urgent);
    let evs = b.decode_chunk(b"workspace>>1\nurgent>>ab\n", &f);
    assert_eq!(evs.events.len(), 1);
    assert!(matches!(&evs.events[0], HyprlandEvent::Urgent { window_address } if window_address == "ab"));
}

#[test]
fn read_outcomes_decide_the_next_step() {
    let mut b = LineBuffer::new();
    let f = EventFilter::new_include_all();
    assert!(matches!(b.after_read(ReadOutcome::WouldBlock, b"", &f), ListenerAction::Backoff));
    assert!(matches!(b.after_read(ReadOutcome::Failed, b"", &f), ListenerAction::Backoff));
    match b.after_read(ReadOutcome::Data, b"submap>>a\nsub", &f) {
        ListenerAction::Publish(evs) => assert_eq!(evs.events.len(), 1),
        _ => panic!("expected events"),
    }
    match b.after_read(ReadOutcome::Data, b"map>>b\n", &f) {
        ListenerAction::Publish(evs) => {
            assert!(matches!(&evs.events[0], HyprlandEvent::Submap { name } if name == "b"))
        }
        _ => panic!("expected events"),
    }
    assert!(matches!(b.after_read(ReadOutcome::Closed, b"", &f), ListenerAction::Finish));
}

#[test]
fn faulty_and_unknown_lines_are_counted() {
    let mut b = LineBuffer::new();
    let mut f = EventFilter::new_include_all();
    f.add_event(&hyprrust::events::HyprlandEventType::Submap);
    let rep = b.decode_chunk(
        b"no delimiter\nworkspacev2>>x,y\nsubmap>>a\nfooevent>>1\ncustom>>2\nworkspace>>3\n",
        &f,
    );
    assert_eq!(rep.events.len(), 3);
    assert_eq!(rep.faults, 2);
    assert_eq!(rep.unknown_names, 1);
    assert!(matches!(&rep.events[0], HyprlandEvent::Custom { data } if data == "1"));
    assert!(matches!(&rep.events[2], HyprlandEvent::Workspace { name } if name == "3"));
}

#[test]
fn pull_step_skips_what_gives_no_event() {
    let f = EventFilter::new_include_all();
    assert!(matches!(pull_step(0, "", &f), PullStep::EndOfStream));
    assert!(matches!(pull_step(4, "bad\n", &f), PullStep::Skip(ParseError::MalformedEvent)));
    match pull_step(13, "workspace>>3\n", &f) {
        PullStep::Deliver { event: HyprlandEvent::Workspace { name }, unknown_name } => {
            assert_eq!(name, "3");
            assert!(!unknown_name);
        }
        _ => panic!("expected an event"),
    }
    assert!(matches!(pull_step(8, "foo>>x\n", &f), PullStep::Deliver { unknown_name: true, .. }));
    let none = EventFilter::new_exclude_all();
    assert!(matches!(pull_step(13, "workspace>>3\n", &none), PullStep::Skip(ParseError::FilteredOut)));
}
