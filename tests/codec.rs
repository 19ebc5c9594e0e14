use hyprrust::codec::{parse_event, ParseError};
use hyprrust::events::{HyprlandEvent, HyprlandEventType};
use hyprrust::filter::EventFilter;

fn all() -> EventFilter {
    EventFilter::new_include_all()
}

#[test]
fn workspace_line_decodes() {
    match parse_event("workspace>>3\n", &all()) {
        Ok(HyprlandEvent::Workspace { name }) => assert_eq!(name, "3"),
        other => panic!("unexpected {:?}", other),
    }
}

#[test]
fn workspacev2_line_decodes() {
    match parse_event("workspacev2>>4,three\n", &all()) {
        Ok(HyprlandEvent::WorkspaceV2 { id, name }) => {
            assert_eq!(id, 4);
            assert_eq!(name, "three");
        }
        other => panic!("unexpected {:?}", other),
    }
}

#[test]
fn unknown_name_gives_custom_payload() {
    match parse_event("fooevent>>a,b,c\n", &all()) {
        Ok(HyprlandEvent::Custom { data }) => assert_eq!(data, "a,b,c"),
        other => panic!("unexpected {:?}", other),
    }
}

#[test]
fn line_without_delimiter_is_malformed() {
    assert_eq!(parse_event("workspace 3\n", &all()).unwrap_err(), ParseError::MalformedEvent);
    assert_eq!(parse_event("", &all()).unwrap_err(), ParseError::MalformedEvent);
    assert_eq!(parse_event("a>b", &all()).unwrap_err(), ParseError::MalformedEvent);
}

#[test]
fn decoded_kind_keeps_the_line_name() {
    let lines = [
        "activewindow>>kitty,~\n",
        "openwindow>>80a0,2,kitty,a title\n",
        "configreloaded>>\n",
        "pin>>80a0,1\n",
        "custom>>x\n",
    ];
    for line in lines {
        let ev = parse_event(line, &all()).unwrap();
        let name = line.split_once(">>").unwrap().0;
        assert_eq!(ev.event_type().get_name(), name);
        assert_eq!(HyprlandEventType::from_name(name), Some(ev.event_type()));
    }
}

#[test]
fn filtered_name_is_reported_as_filtered() {
    let mut f = EventFilter::new_include_all();
    f.add_event(&HyprlandEventType::Workspace);
    assert_eq!(parse_event("workspace>>3\n", &f).unwrap_err(), ParseError::FilteredOut);
    assert!(parse_event("workspacev2>>3,x\n", &f).is_ok());
}

#[test]
fn non_numeric_integer_fails() {
    assert_eq!(parse_event("workspacev2>>four,x\n", &all()).unwrap_err(), ParseError::InvalidField);
    assert_eq!(
        parse_event("workspacev2>>99999999999999999999,x\n", &all()).unwrap_err(),
        ParseError::InvalidField
    );
}

#[test]
fn missing_field_fails() {
    assert_eq!(parse_event("workspacev2>>4\n", &all()).unwrap_err(), ParseError::InvalidField);
    assert_eq!(parse_event("fullscreen>>\n", &all()).unwrap_err(), ParseError::InvalidField);
}

#[test]
fn integer_fields_take_signs_and_extremes() {
    match parse_event("renameworkspace>>-9223372036854775808,x\n", &all()) {
        Ok(HyprlandEvent::RenameWorkspace { id, name }) => {
            assert_eq!(id, i64::MIN);
            assert_eq!(name, "x");
        }
        other => panic!("unexpected {:?}", other),
    }
    match parse_event("createworkspacev2>>+12,y\n", &all()) {
        Ok(HyprlandEvent::CreateWorkspaceV2 { id, .. }) => assert_eq!(id, 12),
        other => panic!("unexpected {:?}", other),
    }
}

#[test]
fn flags_read_the_first_character() {
    match parse_event("fullscreen>>1\n", &all()) {
        Ok(HyprlandEvent::Fullscreen { is_fullscreen }) => assert!(is_fullscreen),
        other => panic!("unexpected {:?}", other),
    }
    match parse_event("changefloatingmode>>80a0,0\n", &all()) {
        Ok(HyprlandEvent::ChangeFloatingMode { window_address, floating }) => {
            assert_eq!(window_address, "80a0");
            assert!(!floating);
        }
        other => panic!("unexpected {:?}", other),
    }
}

#[test]
fn togglegroup_keeps_every_handle() {
    match parse_event("togglegroup>>1,a1,b2,c3\n", &all()) {
        Ok(HyprlandEvent::ToggleGroup { state, handles }) => {
            assert!(state);
            assert_eq!(handles, vec!["a1".to_string(), "b2".to_string(), "c3".to_string()]);
        }
        other => panic!("unexpected {:?}", other),
    }
    match parse_event("togglegroup>>0\n", &all()) {
        Ok(HyprlandEvent::ToggleGroup { state, handles }) => {
            assert!(!state);
            assert!(handles.is_empty());
        }
        other => panic!("unexpected {:?}", other),
    }
}

#[test]
fn moveworkspacev2_reads_three_fields() {
    match parse_event("moveworkspacev2>>2,two,DP-1\n", &all()) {
        Ok(HyprlandEvent::MoveWorkspaceV2 { id, name, mon_name }) => {
            assert_eq!(id, 2);
            assert_eq!(name, "two");
            assert_eq!(mon_name, "DP-1");
        }
        other => panic!("unexpected {:?}", other),
    }
}

#[test]
fn first_delimiter_splits_and_trailing_space_is_trimmed() {
    match parse_event("windowtitlev2>>80a0,a >> b  \r\n", &all()) {
        Ok(HyprlandEvent::WindowTitleV2 { address, title }) => {
            assert_eq!(address, "80a0");
            assert_eq!(title, "a >> b");
        }
        other => panic!("unexpected {:?}", other),
    }
}

#[test]
fn configreloaded_has_no_fields() {
    assert!(matches!(
        parse_event("configreloaded>>\n", &all()),
        Ok(HyprlandEvent::ConfigReloaded)
    ));
}
