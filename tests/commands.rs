use hyprrust::arguments::{
    Argument, ColorArgument, CornerArgument, CycleNextArguments, DirectionArgument, KeyArgument,
    MonitorArgument, NumPercent, RelAbs, ResizeArgument, TagArgument, WindowArgument,
    WorkspaceArgument,
};
use hyprrust::commands::{
    check_hyprland_response, check_recipe_response, get_batch_from_recipe, get_command_prefix,
    move_window_in_direction, move_window_to_monitor, Command, CommandType, MoveWindow,
    SetConfigValue,
};
use hyprrust::errors::{CommandError, HyprlandError};
use hyprrust::text::{i64_to_string, parse_i64, u64_to_string};

fn rejection(e: &CommandError) -> &str {
    match e {
        CommandError::HyprlandError(h) => h.message(),
        CommandError::IOError(_) => panic!("unexpected transport error"),
    }
}

#[test]
fn recipe_with_second_command_rejected() {
    let recipe = vec![
        Command::dispatch("workspace 1".to_string()),
        Command::dispatch("bogus".to_string()),
        Command::new("reload".to_string()),
    ];
    assert_eq!(
        get_batch_from_recipe(&recipe),
        "/[[BATCH]]dispatch workspace 1;dispatch bogus;reload;"
    );
    let errs = check_recipe_response(Ok("ok\n\n\nInvalid dispatcher\n\n\nok".to_string())).unwrap_err();
    assert_eq!(errs.len(), 1);
    assert_eq!(rejection(&errs[0]), "Invalid dispatcher");
}

#[test]
fn recipe_all_ok_succeeds() {
    assert!(check_recipe_response(Ok("ok\n\n\nok\n\n\nok".to_string())).is_ok());
    assert!(check_recipe_response(Ok("ok".to_string())).is_ok());
}

#[test]
fn recipe_errors_keep_their_order() {
    let errs = check_recipe_response(Ok("first\n\n\nok\n\n\nthird".to_string())).unwrap_err();
    assert_eq!(errs.len(), 2);
    assert_eq!(rejection(&errs[0]), "first");
    assert_eq!(rejection(&errs[1]), "third");
    let errs = check_recipe_response(Ok(String::new())).unwrap_err();
    assert_eq!(errs.len(), 1);
    assert_eq!(rejection(&errs[0]), "");
}

#[test]
fn recipe_transport_error_is_the_one_error() {
    let e = std::io::Error::new(std::io::ErrorKind::NotFound, "gone");
    let errs = check_recipe_response(Err(e)).unwrap_err();
    assert_eq!(errs.len(), 1);
    assert!(matches!(errs[0], CommandError::IOError(_)));
}

#[test]
fn single_response_is_ok_only_when_exactly_ok() {
    assert!(check_hyprland_response(Ok("ok".to_string())).is_ok());
    match check_hyprland_response(Ok("okay".to_string())) {
        Err(CommandError::HyprlandError(h)) => assert_eq!(h.message(), "okay"),
        other => panic!("unexpected {:?}", other),
    }
    let e = std::io::Error::new(std::io::ErrorKind::BrokenPipe, "pipe");
    assert!(matches!(check_hyprland_response(Err(e)), Err(CommandError::IOError(_))));
}

#[test]
fn prefix_follows_the_command_type() {
    let d = Command::dispatch("killactive".to_string());
    let n = Command::new("reload".to_string());
    assert_eq!(d.get_type(), CommandType::DispatchCommand);
    assert_eq!(n.get_type(), CommandType::DirectCommand);
    assert_eq!(get_command_prefix(&d), "dispatch ");
    assert_eq!(get_command_prefix(&n), "");
    assert_eq!(d.get_message(), "dispatch killactive");
    assert_eq!(n.get_message(), "reload");
    assert_eq!(d.get_command(), "killactive");
    assert_eq!(get_batch_from_recipe(&[]), "/[[BATCH]]");
}

#[test]
fn move_window_commands() {
    let c = move_window_in_direction(DirectionArgument::Left, false);
    assert_eq!(c.get_message(), "dispatch movewindow l");
    let c = move_window_to_monitor(MonitorArgument::Name("DP-1".to_string()), true);
    assert_eq!(c.get_message(), "dispatch movewindow mon:DP-1 silent");
    let m = MoveWindow::with_monitor(MonitorArgument::Relative(-1), false);
    assert_eq!(m.to_command().get_message(), "dispatch movewindow mon:-1");
    let m = MoveWindow::with_direction(DirectionArgument::Up, true);
    assert_eq!(m.to_command().get_message(), "dispatch movewindow u silent");
}

#[test]
fn config_value_command() {
    let c = SetConfigValue::new("general:gaps_in".to_string(), "5".to_string()).to_command();
    assert_eq!(c.get_message(), "keyword general:gaps_in 5");
    assert_eq!(HyprlandError::new("x".to_string()).message(), "x");
}

#[test]
fn argument_strings() {
    assert_eq!(WindowArgument::Class("kitty".to_string()).to_argument_string(), "class:kitty");
    assert_eq!(WindowArgument::Pid(-42).to_argument_string(), "pid:-42");
    assert_eq!(WorkspaceArgument::ID(7).to_argument_string(), "7");
    assert_eq!(WorkspaceArgument::RelativeID(3).to_argument_string(), "+3");
    assert_eq!(WorkspaceArgument::RelativeID(-3).to_argument_string(), "-3");
    assert_eq!(WorkspaceArgument::WorkspaceOnMonitor(RelAbs::Absolute(2)).to_argument_string(), "m~2");
    assert_eq!(WorkspaceArgument::Special(None).to_argument_string(), "special");
    assert_eq!(WorkspaceArgument::Special(Some("mail".to_string())).to_argument_string(), "special:mail");
    assert_eq!(
        ResizeArgument::Exact(NumPercent::Number(-50), NumPercent::Percent(20)).to_argument_string(),
        "exact -50 20%"
    );
    assert_eq!(KeyArgument::Char('é').to_argument_string(), "é");
    assert_eq!(KeyArgument::Code(4294967295).to_argument_string(), "code:4294967295");
    assert_eq!(TagArgument::SetTag("a".to_string()).to_argument_string(), "+a");
    assert_eq!(CornerArgument::TopLeft.to_argument_string(), "3");
    assert_eq!(true.to_argument_string(), "1");
    assert_eq!(i32::MIN.to_argument_string(), "-2147483648");
}

#[test]
fn colour_is_lower_case_hex() {
    assert_eq!(ColorArgument::new(255, 0, 16, 171).to_argument_string(), "rgba(ff0010ab)");
}

#[test]
fn cycle_next_joins_the_set_flags() {
    assert_eq!(CycleNextArguments::with_all_off().to_argument_string(), "");
    assert_eq!(CycleNextArguments::new(true, false, true, true).to_argument_string(), "visible tiled hist");
    assert_eq!(CycleNextArguments::new(false, true, false, false).to_argument_string(), "floating");
}

#[test]
fn decimal_round_trips() {
    assert_eq!(i64_to_string(i64::MIN), "-9223372036854775808");
    assert_eq!(i64_to_string(0), "0");
    assert_eq!(u64_to_string(u64::MAX), "18446744073709551615");
    assert_eq!(parse_i64("9223372036854775807"), Some(i64::MAX));
    assert_eq!(parse_i64("9223372036854775808"), None);
    assert_eq!(parse_i64("-9223372036854775809"), None);
    assert_eq!(parse_i64("-"), None);
    assert_eq!(parse_i64("+"), None);
    assert_eq!(parse_i64(" 1"), None);
    assert_eq!(parse_i64("007"), Some(7));
}
