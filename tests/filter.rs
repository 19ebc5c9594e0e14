use hyprrust::events::HyprlandEventType;
use hyprrust::filter::EventFilter;

#[test]
fn membership_and_polarity_combine_by_xor() {
    let mut f = EventFilter::new(false);
    f.add_event(&HyprlandEventType::Submap);
    // listed, excluding: rejected
    assert!(!f.includes("submap"));
    // unlisted, excluding: accepted
    assert!(f.includes("urgent"));
    f.set_include(true);
    // listed, including: accepted
    assert!(f.includes("submap"));
    // unlisted, including: rejected
    assert!(!f.includes("urgent"));
}

#[test]
fn from_iter_with_default_polarity_rejects_exactly_the_listed() {
    let f = EventFilter::from_iter(&[HyprlandEventType::ActiveWindow, HyprlandEventType::Workspace]);
    assert!(!f.includes("activewindow"));
    assert!(!f.includes("workspace"));
    assert!(f.includes("workspacev2"));
    assert!(f.includes("activewindowv2"));
    assert!(f.includes("fooevent"));
    assert!(f.includes(""));
}

#[test]
fn from_iter_flipped_keeps_only_the_listed() {
    let mut f = EventFilter::from_iter(&[HyprlandEventType::ActiveWindow, HyprlandEventType::Workspace]);
    f.set_include(true);
    assert!(f.includes("activewindow"));
    assert!(f.includes("workspace"));
    assert!(!f.includes("workspacev2"));
    assert!(!f.includes("fooevent"));
}

#[test]
fn include_all_and_exclude_all() {
    let all = EventFilter::new_include_all();
    let none = EventFilter::new_exclude_all();
    assert!(all.includes("workspace"));
    assert!(all.includes("fooevent"));
    assert!(!none.includes("workspace"));
    assert!(!none.includes("fooevent"));
    assert!(none.filters_everything());
    assert!(!all.filters_everything());
    assert!(!EventFilter::default().filters_everything());
    assert!(EventFilter::default().includes("pin"));
}

#[test]
fn a_listed_name_stops_filtering_everything() {
    let mut f = EventFilter::new_exclude_all();
    f.add_event(&HyprlandEventType::Pin);
    f.add_event(&HyprlandEventType::Pin);
    assert!(!f.filters_everything());
    assert!(f.includes("pin"));
    assert!(!f.includes("pins"));
}

#[test]
fn names_match_the_wire() {
    assert_eq!(HyprlandEventType::FocusedMonitor.get_name(), "focusedmon");
    assert_eq!(HyprlandEventType::Custom.get_name(), "custom");
    assert_eq!(HyprlandEventType::from_name("focusedmonv2"), Some(HyprlandEventType::FocusedMonitorV2));
    assert_eq!(HyprlandEventType::from_name("focusedmonitor"), None);
}
