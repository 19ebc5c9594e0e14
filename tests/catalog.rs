use hyprrust::arguments::{
    BoolChangeArgument, ColorArgument, CycleNextArguments, FullscreenState,
    MonitorArgument, NotifyIconArgument, NumPercent, ResizeArgument, WindowArgument,
    WorkspaceArgument, ZHeightArgument,
};
use hyprrust::catalog::{
    alt_zorder, cycle_next, go_to_work_space, kill_active, move_cursor, move_to_workspace, notify,
    reload_config, resize_window, set_config_value, set_fullscreen_state, set_ignore_group_lock,
    swap_active_workspaces, swap_with_prev,
};
use hyprrust::commands::get_batch_from_recipe;

#[test]
fn dispatchers_are_prefixed() {
    assert_eq!(kill_active().get_message(), "dispatch killactive");
    assert_eq!(swap_with_prev().get_message(), "dispatch swapnext prev");
    assert_eq!(go_to_work_space(WorkspaceArgument::ID(3)).get_message(), "dispatch workspace 3");
    assert_eq!(
        move_to_workspace(WorkspaceArgument::Name("web".to_string()), WindowArgument::ActiveWindow)
            .get_message(),
        "dispatch movetoworkspace name:web activewindow"
    );
    assert_eq!(
        swap_active_workspaces(MonitorArgument::ID(0), MonitorArgument::Current).get_message(),
        "dispatch swapactiveworkspaces 0 current"
    );
    assert_eq!(
        set_fullscreen_state(FullscreenState::NoFullscreen, FullscreenState::Max).get_message(),
        "dispatch fullscreenstate 0 3"
    );
    assert_eq!(
        set_ignore_group_lock(BoolChangeArgument::Toggle).get_message(),
        "dispatch setignoregrouplock toggle"
    );
    assert_eq!(move_cursor(-5, 10).get_message(), "dispatch movecursor -5 10");
}

#[test]
fn comma_separated_dispatchers() {
    assert_eq!(
        resize_window(
            ResizeArgument::Exact(NumPercent::Number(100), NumPercent::Number(50)),
            WindowArgument::Title("x".to_string())
        )
        .get_message(),
        "dispatch resizewindowpixel exact 100 50,title:x"
    );
    assert_eq!(
        alt_zorder(ZHeightArgument::Top, WindowArgument::Floating).get_message(),
        "dispatch alterzorder top,floating"
    );
}

#[test]
fn direct_commands_are_not_prefixed() {
    assert_eq!(reload_config().get_message(), "reload");
    assert_eq!(
        set_config_value("misc:vfr".to_string(), "1".to_string()).get_message(),
        "keyword misc:vfr 1"
    );
    assert_eq!(
        notify(NotifyIconArgument::Info, 5000, ColorArgument::new(0, 0, 0, 255), "hi".to_string())
            .get_message(),
        "notify 1 5000 rgba(000000ff) hi"
    );
}

#[test]
fn cycle_next_with_nothing_set_has_no_trailing_space() {
    assert_eq!(cycle_next(CycleNextArguments::with_all_off()).get_message(), "dispatch cyclenext");
    assert_eq!(
        cycle_next(CycleNextArguments::new(false, false, true, false)).get_message(),
        "dispatch cyclenext visible"
    );
}

#[test]
fn batch_of_catalogue_commands() {
    let recipe = vec![go_to_work_space(WorkspaceArgument::Previous), reload_config()];
    assert_eq!(
        get_batch_from_recipe(&recipe),
        "/[[BATCH]]dispatch workspace previous;reload;"
    );
}
