//! The catalogue of commands: one constructor per action of the control
//! socket, each stating the exact text it sends.
use vstd::prelude::*;

use crate::arguments::{
    Argument, BoolChangeArgument, ChangeGroupActiveArgument, ColorArgument, CornerArgument, CycleNextArguments, DirectionArgument, FullscreenState, KeyArgument, LockGroupArgument, ModArgument, MonitorArgument, NotifyIconArgument, ResizeArgument, TagArgument, WindowArgument, WorkspaceArgument, ZHeightArgument,
};
use crate::commands::{command_with_args, with_args, Command, CommandType, CommandView};
use crate::events::string_views;

verus! {

/// Passes the key press through to the window `to`.
pub fn pass(to: WindowArgument) -> (r: Command)
    ensures
        r@ == (CommandView {
            kind: CommandType::DispatchCommand,
            text: with_args("pass"@, seq![to.arg()], " "@),
        }),
{
    let args = vec![to.to_argument_string()];
    assert(string_views(args@) =~= seq![to.arg()]);
    command_with_args(CommandType::DispatchCommand, "pass", &args, " ")
}

/// Sends the shortcut `modifier`+`key` to `window`.
pub fn send_shortcut(modifier: ModArgument, key: KeyArgument, window: WindowArgument) -> (r: Command)
    ensures
        r@ == (CommandView {
            kind: CommandType::DispatchCommand,
            text: with_args("sendshortcut"@, seq![modifier.arg(), key.arg(), window.arg()], " "@),
        }),
{
    let args = vec![modifier.to_argument_string(), key.to_argument_string(), window.to_argument_string()];
    assert(string_views(args@) =~= seq![modifier.arg(), key.arg(), window.arg()]);
    command_with_args(CommandType::DispatchCommand, "sendshortcut", &args, " ")
}

/// Closes the active window.
pub fn kill_active() -> (r: Command)
    ensures
        r@ == (CommandView {
            kind: CommandType::DispatchCommand,
            text: with_args("killactive"@, Seq::<Seq<char>>::empty(), " "@),
        }),
{
    let args: Vec<String> = Vec::new();
    assert(string_views(args@) =~= Seq::<Seq<char>>::empty());
    command_with_args(CommandType::DispatchCommand, "killactive", &args, " ")
}

/// Kills the active window's process.
pub fn force_kill_active() -> (r: Command)
    ensures
        r@ == (CommandView {
            kind: CommandType::DispatchCommand,
            text: with_args("forcekillactive"@, Seq::<Seq<char>>::empty(), " "@),
        }),
{
    let args: Vec<String> = Vec::new();
    assert(string_views(args@) =~= Seq::<Seq<char>>::empty());
    command_with_args(CommandType::DispatchCommand, "forcekillactive", &args, " ")
}

/// Closes the window `which`.
pub fn close_window(which: WindowArgument) -> (r: Command)
    ensures
        r@ == (CommandView {
            kind: CommandType::DispatchCommand,
            text: with_args("closewindow"@, seq![which.arg()], " "@),
        }),
{
    let args = vec![which.to_argument_string()];
    assert(string_views(args@) =~= seq![which.arg()]);
    command_with_args(CommandType::DispatchCommand, "closewindow", &args, " ")
}

/// Kills the window `which`.
pub fn kill_window(which: WindowArgument) -> (r: Command)
    ensures
        r@ == (CommandView {
            kind: CommandType::DispatchCommand,
            text: with_args("killwindow"@, seq![which.arg()], " "@),
        }),
{
    let args = vec![which.to_argument_string()];
    assert(string_views(args@) =~= seq![which.arg()]);
    command_with_args(CommandType::DispatchCommand, "killwindow", &args, " ")
}

/// Switches to the workspace `to`.
pub fn go_to_work_space(to: WorkspaceArgument) -> (r: Command)
    ensures
        r@ == (CommandView {
            kind: CommandType::DispatchCommand,
            text: with_args("workspace"@, seq![to.arg()], " "@),
        }),
{
    let args = vec![to.to_argument_string()];
    assert(string_views(args@) =~= seq![to.arg()]);
    command_with_args(CommandType::DispatchCommand, "workspace", &args, " ")
}

/// Moves the window `which` to the workspace `to`, and follows it.
pub fn move_to_workspace(to: WorkspaceArgument, which: WindowArgument) -> (r: Command)
    ensures
        r@ == (CommandView {
            kind: CommandType::DispatchCommand,
            text: with_args("movetoworkspace"@, seq![to.arg(), which.arg()], " "@),
        }),
{
    let args = vec![to.to_argument_string(), which.to_argument_string()];
    assert(string_views(args@) =~= seq![to.arg(), which.arg()]);
    command_with_args(CommandType::DispatchCommand, "movetoworkspace", &args, " ")
}

/// Moves the window `which` to the workspace `to`, and stays.
pub fn move_to_workspace_silent(to: WorkspaceArgument, which: WindowArgument) -> (r: Command)
    ensures
        r@ == (CommandView {
            kind: CommandType::DispatchCommand,
            text: with_args("movetoworkspacesilent"@, seq![to.arg(), which.arg()], " "@),
        }),
{
    let args = vec![to.to_argument_string(), which.to_argument_string()];
    assert(string_views(args@) =~= seq![to.arg(), which.arg()]);
    command_with_args(CommandType::DispatchCommand, "movetoworkspacesilent", &args, " ")
}

/// Toggles whether the window `which` floats.
pub fn toggle_floating(which: WindowArgument) -> (r: Command)
    ensures
        r@ == (CommandView {
            kind: CommandType::DispatchCommand,
            text: with_args("togglefloating"@, seq![which.arg()], " "@),
        }),
{
    let args = vec![which.to_argument_string()];
    assert(string_views(args@) =~= seq![which.arg()]);
    command_with_args(CommandType::DispatchCommand, "togglefloating", &args, " ")
}

/// Makes the window `which` float.
pub fn set_floating(which: WindowArgument) -> (r: Command)
    ensures
        r@ == (CommandView {
            kind: CommandType::DispatchCommand,
            text: with_args("setfloating"@, seq![which.arg()], " "@),
        }),
{
    let args = vec![which.to_argument_string()];
    assert(string_views(args@) =~= seq![which.arg()]);
    command_with_args(CommandType::DispatchCommand, "setfloating", &args, " ")
}

/// Makes the window `which` tiled.
pub fn set_tiled(which: WindowArgument) -> (r: Command)
    ensures
        r@ == (CommandView {
            kind: CommandType::DispatchCommand,
            text: with_args("settiled"@, seq![which.arg()], " "@),
        }),
{
    let args = vec![which.to_argument_string()];
    assert(string_views(args@) =~= seq![which.arg()]);
    command_with_args(CommandType::DispatchCommand, "settiled", &args, " ")
}

/// Makes the active window full-screen.
pub fn fullscreen() -> (r: Command)
    ensures
        r@ == (CommandView {
            kind: CommandType::DispatchCommand,
            text: with_args("fullscreen 0"@, Seq::<Seq<char>>::empty(), " "@),
        }),
{
    let args: Vec<String> = Vec::new();
    assert(string_views(args@) =~= Seq::<Seq<char>>::empty());
    command_with_args(CommandType::DispatchCommand, "fullscreen 0", &args, " ")
}

/// Maximises the active window.
pub fn fullscreen_maximize() -> (r: Command)
    ensures
        r@ == (CommandView {
            kind: CommandType::DispatchCommand,
            text: with_args("fullscreen 1"@, Seq::<Seq<char>>::empty(), " "@),
        }),
{
    let args: Vec<String> = Vec::new();
    assert(string_views(args@) =~= Seq::<Seq<char>>::empty());
    command_with_args(CommandType::DispatchCommand, "fullscreen 1", &args, " ")
}

/// Sets the full-screen state the compositor keeps and the one the client sees.
pub fn set_fullscreen_state(internal: FullscreenState, client: FullscreenState) -> (r: Command)
    ensures
        r@ == (CommandView {
            kind: CommandType::DispatchCommand,
            text: with_args("fullscreenstate"@, seq![internal.arg(), client.arg()], " "@),
        }),
{
    let args = vec![internal.to_argument_string(), client.to_argument_string()];
    assert(string_views(args@) =~= seq![internal.arg(), client.arg()]);
    command_with_args(CommandType::DispatchCommand, "fullscreenstate", &args, " ")
}

/// Pins the floating window `which` to every workspace.
pub fn pin_window(which: WindowArgument) -> (r: Command)
    ensures
        r@ == (CommandView {
            kind: CommandType::DispatchCommand,
            text: with_args("pin"@, seq![which.arg()], " "@),
        }),
{
    let args = vec![which.to_argument_string()];
    assert(string_views(args@) =~= seq![which.arg()]);
    command_with_args(CommandType::DispatchCommand, "pin", &args, " ")
}

/// Moves the focus towards `to`.
pub fn move_focus(to: DirectionArgument) -> (r: Command)
    ensures
        r@ == (CommandView {
            kind: CommandType::DispatchCommand,
            text: with_args("movefocus"@, seq![to.arg()], " "@),
        }),
{
    let args = vec![to.to_argument_string()];
    assert(string_views(args@) =~= seq![to.arg()]);
    command_with_args(CommandType::DispatchCommand, "movefocus", &args, " ")
}

/// Swaps the active window with its neighbour towards `to`.
pub fn swap_window(to: DirectionArgument) -> (r: Command)
    ensures
        r@ == (CommandView {
            kind: CommandType::DispatchCommand,
            text: with_args("swapwindow"@, seq![to.arg()], " "@),
        }),
{
    let args = vec![to.to_argument_string()];
    assert(string_views(args@) =~= seq![to.arg()]);
    command_with_args(CommandType::DispatchCommand, "swapwindow", &args, " ")
}

/// Centres the floating active window; with `with_exclude`, inside the reserved area.
pub fn center_window(with_exclude: bool) -> (r: Command)
    ensures
        r@ == (CommandView {
            kind: CommandType::DispatchCommand,
            text: with_args("centerwindow"@, seq![with_exclude.arg()], " "@),
        }),
{
    let args = vec![with_exclude.to_argument_string()];
    assert(string_views(args@) =~= seq![with_exclude.arg()]);
    command_with_args(CommandType::DispatchCommand, "centerwindow", &args, " ")
}

/// Resizes the active window.
pub fn resize_active_window(to: ResizeArgument) -> (r: Command)
    ensures
        r@ == (CommandView {
            kind: CommandType::DispatchCommand,
            text: with_args("resizeactive"@, seq![to.arg()], " "@),
        }),
{
    let args = vec![to.to_argument_string()];
    assert(string_views(args@) =~= seq![to.arg()]);
    command_with_args(CommandType::DispatchCommand, "resizeactive", &args, " ")
}

/// Moves the active window.
pub fn move_active_window(to: ResizeArgument) -> (r: Command)
    ensures
        r@ == (CommandView {
            kind: CommandType::DispatchCommand,
            text: with_args("moveactive"@, seq![to.arg()], " "@),
        }),
{
    let args = vec![to.to_argument_string()];
    assert(string_views(args@) =~= seq![to.arg()]);
    command_with_args(CommandType::DispatchCommand, "moveactive", &args, " ")
}

/// Resizes the window `which`.
pub fn resize_window(to: ResizeArgument, which: WindowArgument) -> (r: Command)
    ensures
        r@ == (CommandView {
            kind: CommandType::DispatchCommand,
            text: with_args("resizewindowpixel"@, seq![to.arg(), which.arg()], ","@),
        }),
{
    let args = vec![to.to_argument_string(), which.to_argument_string()];
    assert(string_views(args@) =~= seq![to.arg(), which.arg()]);
    command_with_args(CommandType::DispatchCommand, "resizewindowpixel", &args, ",")
}

/// Moves the window `which`.
pub fn move_window_by(by: ResizeArgument, which: WindowArgument) -> (r: Command)
    ensures
        r@ == (CommandView {
            kind: CommandType::DispatchCommand,
            text: with_args("movewindowpixel"@, seq![by.arg(), which.arg()], ","@),
        }),
{
    let args = vec![by.to_argument_string(), which.to_argument_string()];
    assert(string_views(args@) =~= seq![by.arg(), which.arg()]);
    command_with_args(CommandType::DispatchCommand, "movewindowpixel", &args, ",")
}

/// Focuses the next window among those that `options` allows.
pub fn cycle_next(options: CycleNextArguments) -> (r: Command)
    ensures
        r@ == (CommandView {
            kind: CommandType::DispatchCommand,
            text: with_args("cyclenext"@, seq![options.arg()], " "@),
        }),
{
    let args = vec![options.to_argument_string()];
    assert(string_views(args@) =~= seq![options.arg()]);
    command_with_args(CommandType::DispatchCommand, "cyclenext", &args, " ")
}

/// Swaps the focused window with the next one.
pub fn swap_with_next() -> (r: Command)
    ensures
        r@ == (CommandView {
            kind: CommandType::DispatchCommand,
            text: with_args("swapnext"@, Seq::<Seq<char>>::empty(), " "@),
        }),
{
    let args: Vec<String> = Vec::new();
    assert(string_views(args@) =~= Seq::<Seq<char>>::empty());
    command_with_args(CommandType::DispatchCommand, "swapnext", &args, " ")
}

/// Swaps the focused window with the previous one.
pub fn swap_with_prev() -> (r: Command)
    ensures
        r@ == (CommandView {
            kind: CommandType::DispatchCommand,
            text: with_args("swapnext prev"@, Seq::<Seq<char>>::empty(), " "@),
        }),
{
    let args: Vec<String> = Vec::new();
    assert(string_views(args@) =~= Seq::<Seq<char>>::empty());
    command_with_args(CommandType::DispatchCommand, "swapnext prev", &args, " ")
}

/// Changes a tag of the window `which`.
pub fn tag_window(tag: TagArgument, which: WindowArgument) -> (r: Command)
    ensures
        r@ == (CommandView {
            kind: CommandType::DispatchCommand,
            text: with_args("tagwindow"@, seq![tag.arg(), which.arg()], " "@),
        }),
{
    let args = vec![tag.to_argument_string(), which.to_argument_string()];
    assert(string_views(args@) =~= seq![tag.arg(), which.arg()]);
    command_with_args(CommandType::DispatchCommand, "tagwindow", &args, " ")
}

/// Focuses the window `which`.
pub fn focus_window(which: WindowArgument) -> (r: Command)
    ensures
        r@ == (CommandView {
            kind: CommandType::DispatchCommand,
            text: with_args("focuswindow"@, seq![which.arg()], " "@),
        }),
{
    let args = vec![which.to_argument_string()];
    assert(string_views(args@) =~= seq![which.arg()]);
    command_with_args(CommandType::DispatchCommand, "focuswindow", &args, " ")
}

/// Focuses the monitor `which`.
pub fn focus_monitor(which: MonitorArgument) -> (r: Command)
    ensures
        r@ == (CommandView {
            kind: CommandType::DispatchCommand,
            text: with_args("focusmonitor"@, seq![which.arg()], " "@),
        }),
{
    let args = vec![which.to_argument_string()];
    assert(string_views(args@) =~= seq![which.arg()]);
    command_with_args(CommandType::DispatchCommand, "focusmonitor", &args, " ")
}

/// Moves the cursor to a corner of the active window.
pub fn move_cursor_to_corner(which: CornerArgument) -> (r: Command)
    ensures
        r@ == (CommandView {
            kind: CommandType::DispatchCommand,
            text: with_args("movecursortocorner"@, seq![which.arg()], " "@),
        }),
{
    let args = vec![which.to_argument_string()];
    assert(string_views(args@) =~= seq![which.arg()]);
    command_with_args(CommandType::DispatchCommand, "movecursortocorner", &args, " ")
}

/// Moves the cursor to `x`, `y`.
pub fn move_cursor(x: i32, y: i32) -> (r: Command)
    ensures
        r@ == (CommandView {
            kind: CommandType::DispatchCommand,
            text: with_args("movecursor"@, seq![x.arg(), y.arg()], " "@),
        }),
{
    let args = vec![x.to_argument_string(), y.to_argument_string()];
    assert(string_views(args@) =~= seq![x.arg(), y.arg()]);
    command_with_args(CommandType::DispatchCommand, "movecursor", &args, " ")
}

/// Renames the workspace with id `which_id`.
pub fn rename_workspace(which_id: String, new_name: String) -> (r: Command)
    ensures
        r@ == (CommandView {
            kind: CommandType::DispatchCommand,
            text: with_args("renameworkspace"@, seq![which_id.arg(), new_name.arg()], " "@),
        }),
{
    let args = vec![which_id.to_argument_string(), new_name.to_argument_string()];
    assert(string_views(args@) =~= seq![which_id.arg(), new_name.arg()]);
    command_with_args(CommandType::DispatchCommand, "renameworkspace", &args, " ")
}

/// Exits the compositor.
pub fn exit_hyprland() -> (r: Command)
    ensures
        r@ == (CommandView {
            kind: CommandType::DispatchCommand,
            text: with_args("exit"@, Seq::<Seq<char>>::empty(), " "@),
        }),
{
    let args: Vec<String> = Vec::new();
    assert(string_views(args@) =~= Seq::<Seq<char>>::empty());
    command_with_args(CommandType::DispatchCommand, "exit", &args, " ")
}

/// Forces the renderer to reload its resources.
pub fn force_render_reload() -> (r: Command)
    ensures
        r@ == (CommandView {
            kind: CommandType::DispatchCommand,
            text: with_args("forcerenderreload"@, Seq::<Seq<char>>::empty(), " "@),
        }),
{
    let args: Vec<String> = Vec::new();
    assert(string_views(args@) =~= Seq::<Seq<char>>::empty());
    command_with_args(CommandType::DispatchCommand, "forcerenderreload", &args, " ")
}

/// Moves the active workspace to the monitor `to`.
pub fn move_current_workspace_to_monitor(to: MonitorArgument) -> (r: Command)
    ensures
        r@ == (CommandView {
            kind: CommandType::DispatchCommand,
            text: with_args("movecurrentworkspacetomonitor"@, seq![to.arg()], " "@),
        }),
{
    let args = vec![to.to_argument_string()];
    assert(string_views(args@) =~= seq![to.arg()]);
    command_with_args(CommandType::DispatchCommand, "movecurrentworkspacetomonitor", &args, " ")
}

/// Shows the workspace `which` on the focused monitor.
pub fn focus_workspace_on_current_monitor(which: WorkspaceArgument) -> (r: Command)
    ensures
        r@ == (CommandView {
            kind: CommandType::DispatchCommand,
            text: with_args("focusworkspaceoncurrentmonitor"@, seq![which.arg()], " "@),
        }),
{
    let args = vec![which.to_argument_string()];
    assert(string_views(args@) =~= seq![which.arg()]);
    command_with_args(CommandType::DispatchCommand, "focusworkspaceoncurrentmonitor", &args, " ")
}

/// Moves the workspace `which` to the monitor `to`.
pub fn move_workspace_to_monitor(which: WorkspaceArgument, to: MonitorArgument) -> (r: Command)
    ensures
        r@ == (CommandView {
            kind: CommandType::DispatchCommand,
            text: with_args("moveworkspacetomonitor"@, seq![which.arg(), to.arg()], " "@),
        }),
{
    let args = vec![which.to_argument_string(), to.to_argument_string()];
    assert(string_views(args@) =~= seq![which.arg(), to.arg()]);
    command_with_args(CommandType::DispatchCommand, "moveworkspacetomonitor", &args, " ")
}

/// Swaps the active workspaces of two monitors.
pub fn swap_active_workspaces(first: MonitorArgument, second: MonitorArgument) -> (r: Command)
    ensures
        r@ == (CommandView {
            kind: CommandType::DispatchCommand,
            text: with_args("swapactiveworkspaces"@, seq![first.arg(), second.arg()], " "@),
        }),
{
    let args = vec![first.to_argument_string(), second.to_argument_string()];
    assert(string_views(args@) =~= seq![first.arg(), second.arg()]);
    command_with_args(CommandType::DispatchCommand, "swapactiveworkspaces", &args, " ")
}

/// Moves the window `which` to the top or bottom of the stacking order.
pub fn alt_zorder(zheight: ZHeightArgument, which: WindowArgument) -> (r: Command)
    ensures
        r@ == (CommandView {
            kind: CommandType::DispatchCommand,
            text: with_args("alterzorder"@, seq![zheight.arg(), which.arg()], ","@),
        }),
{
    let args = vec![zheight.to_argument_string(), which.to_argument_string()];
    assert(string_views(args@) =~= seq![zheight.arg(), which.arg()]);
    command_with_args(CommandType::DispatchCommand, "alterzorder", &args, ",")
}

/// Toggles the special workspace `which`.
pub fn toggle_special_workspace(which: String) -> (r: Command)
    ensures
        r@ == (CommandView {
            kind: CommandType::DispatchCommand,
            text: with_args("togglespecialworkspace"@, seq![which.arg()], " "@),
        }),
{
    let args = vec![which.to_argument_string()];
    assert(string_views(args@) =~= seq![which.arg()]);
    command_with_args(CommandType::DispatchCommand, "togglespecialworkspace", &args, " ")
}

/// Focuses the urgent window, or else the one focused last.
pub fn focus_urgent_or_last() -> (r: Command)
    ensures
        r@ == (CommandView {
            kind: CommandType::DispatchCommand,
            text: with_args("focusurgentorlast"@, Seq::<Seq<char>>::empty(), " "@),
        }),
{
    let args: Vec<String> = Vec::new();
    assert(string_views(args@) =~= Seq::<Seq<char>>::empty());
    command_with_args(CommandType::DispatchCommand, "focusurgentorlast", &args, " ")
}

/// Turns the active window into a group, or ungroups it.
pub fn toggle_group() -> (r: Command)
    ensures
        r@ == (CommandView {
            kind: CommandType::DispatchCommand,
            text: with_args("togglegroup"@, Seq::<Seq<char>>::empty(), " "@),
        }),
{
    let args: Vec<String> = Vec::new();
    assert(string_views(args@) =~= Seq::<Seq<char>>::empty());
    command_with_args(CommandType::DispatchCommand, "togglegroup", &args, " ")
}

/// Changes which window of the group is active.
pub fn change_group_active(to: ChangeGroupActiveArgument) -> (r: Command)
    ensures
        r@ == (CommandView {
            kind: CommandType::DispatchCommand,
            text: with_args("changegroupactive"@, seq![to.arg()], " "@),
        }),
{
    let args = vec![to.to_argument_string()];
    assert(string_views(args@) =~= seq![to.arg()]);
    command_with_args(CommandType::DispatchCommand, "changegroupactive", &args, " ")
}

/// Switches focus between the current window and the one focused last.
pub fn focus_current_or_last() -> (r: Command)
    ensures
        r@ == (CommandView {
            kind: CommandType::DispatchCommand,
            text: with_args("focuscurrentorlast"@, Seq::<Seq<char>>::empty(), " "@),
        }),
{
    let args: Vec<String> = Vec::new();
    assert(string_views(args@) =~= Seq::<Seq<char>>::empty());
    command_with_args(CommandType::DispatchCommand, "focuscurrentorlast", &args, " ")
}

/// Locks or unlocks every group.
pub fn lock_groups(lock_state: LockGroupArgument) -> (r: Command)
    ensures
        r@ == (CommandView {
            kind: CommandType::DispatchCommand,
            text: with_args("lockgroups"@, seq![lock_state.arg()], " "@),
        }),
{
    let args = vec![lock_state.to_argument_string()];
    assert(string_views(args@) =~= seq![lock_state.arg()]);
    command_with_args(CommandType::DispatchCommand, "lockgroups", &args, " ")
}

/// Locks or unlocks the active group.
pub fn lock_active_group(lock_state: LockGroupArgument) -> (r: Command)
    ensures
        r@ == (CommandView {
            kind: CommandType::DispatchCommand,
            text: with_args("lockactivegroup"@, seq![lock_state.arg()], " "@),
        }),
{
    let args = vec![lock_state.to_argument_string()];
    assert(string_views(args@) =~= seq![lock_state.arg()]);
    command_with_args(CommandType::DispatchCommand, "lockactivegroup", &args, " ")
}

/// Moves the active window into the group towards `direction`.
pub fn move_into_group(direction: DirectionArgument) -> (r: Command)
    ensures
        r@ == (CommandView {
            kind: CommandType::DispatchCommand,
            text: with_args("moveintogroup"@, seq![direction.arg()], " "@),
        }),
{
    let args = vec![direction.to_argument_string()];
    assert(string_views(args@) =~= seq![direction.arg()]);
    command_with_args(CommandType::DispatchCommand, "moveintogroup", &args, " ")
}

/// Moves the window `which` out of its group.
pub fn move_out_of_group(which: WindowArgument) -> (r: Command)
    ensures
        r@ == (CommandView {
            kind: CommandType::DispatchCommand,
            text: with_args("moveoutofgroup"@, seq![which.arg()], " "@),
        }),
{
    let args = vec![which.to_argument_string()];
    assert(string_views(args@) =~= seq![which.arg()]);
    command_with_args(CommandType::DispatchCommand, "moveoutofgroup", &args, " ")
}

/// Moves the active window into or out of groups towards `direction`.
pub fn move_window_or_group(direction: DirectionArgument) -> (r: Command)
    ensures
        r@ == (CommandView {
            kind: CommandType::DispatchCommand,
            text: with_args("movewindoworgroup"@, seq![direction.arg()], " "@),
        }),
{
    let args = vec![direction.to_argument_string()];
    assert(string_views(args@) =~= seq![direction.arg()]);
    command_with_args(CommandType::DispatchCommand, "movewindoworgroup", &args, " ")
}

/// Sets whether the active window may be added to groups.
pub fn deny_window_from_group(set: BoolChangeArgument) -> (r: Command)
    ensures
        r@ == (CommandView {
            kind: CommandType::DispatchCommand,
            text: with_args("denywindowfromgroup"@, seq![set.arg()], " "@),
        }),
{
    let args = vec![set.to_argument_string()];
    assert(string_views(args@) =~= seq![set.arg()]);
    command_with_args(CommandType::DispatchCommand, "denywindowfromgroup", &args, " ")
}

/// Sets whether group locks are ignored.
pub fn set_ignore_group_lock(set: BoolChangeArgument) -> (r: Command)
    ensures
        r@ == (CommandView {
            kind: CommandType::DispatchCommand,
            text: with_args("setignoregrouplock"@, seq![set.arg()], " "@),
        }),
{
    let args = vec![set.to_argument_string()];
    assert(string_views(args@) =~= seq![set.arg()]);
    command_with_args(CommandType::DispatchCommand, "setignoregrouplock", &args, " ")
}

/// Runs the global shortcut `which`.
pub fn execute_global_shortcut(which: String) -> (r: Command)
    ensures
        r@ == (CommandView {
            kind: CommandType::DispatchCommand,
            text: with_args("global"@, seq![which.arg()], " "@),
        }),
{
    let args = vec![which.to_argument_string()];
    assert(string_views(args@) =~= seq![which.arg()]);
    command_with_args(CommandType::DispatchCommand, "global", &args, " ")
}

/// Emits a `custom` event carrying `data`.
pub fn send_custom_event(data: String) -> (r: Command)
    ensures
        r@ == (CommandView {
            kind: CommandType::DispatchCommand,
            text: with_args("event"@, seq![data.arg()], " "@),
        }),
{
    let args = vec![data.to_argument_string()];
    assert(string_views(args@) =~= seq![data.arg()]);
    command_with_args(CommandType::DispatchCommand, "event", &args, " ")
}

/// Sets the property `name` of `window` to `value`.
pub fn set_property(window: WindowArgument, name: String, value: String) -> (r: Command)
    ensures
        r@ == (CommandView {
            kind: CommandType::DispatchCommand,
            text: with_args("setprop"@, seq![window.arg(), name.arg(), value.arg()], " "@),
        }),
{
    let args = vec![window.to_argument_string(), name.to_argument_string(), value.to_argument_string()];
    assert(string_views(args@) =~= seq![window.arg(), name.arg(), value.arg()]);
    command_with_args(CommandType::DispatchCommand, "setprop", &args, " ")
}

/// Toggles swallowing for the active window.
pub fn toggle_swallow() -> (r: Command)
    ensures
        r@ == (CommandView {
            kind: CommandType::DispatchCommand,
            text: with_args("toggleswallow"@, Seq::<Seq<char>>::empty(), " "@),
        }),
{
    let args: Vec<String> = Vec::new();
    assert(string_views(args@) =~= Seq::<Seq<char>>::empty());
    command_with_args(CommandType::DispatchCommand, "toggleswallow", &args, " ")
}

/// Sets the configuration variable `variable` to `value`.
pub fn set_config_value(variable: String, value: String) -> (r: Command)
    ensures
        r@ == (CommandView {
            kind: CommandType::DirectCommand,
            text: with_args("keyword"@, seq![variable.arg(), value.arg()], " "@),
        }),
{
    let args = vec![variable.to_argument_string(), value.to_argument_string()];
    assert(string_views(args@) =~= seq![variable.arg(), value.arg()]);
    command_with_args(CommandType::DirectCommand, "keyword", &args, " ")
}

/// Reloads the configuration.
pub fn reload_config() -> (r: Command)
    ensures
        r@ == (CommandView {
            kind: CommandType::DirectCommand,
            text: with_args("reload"@, Seq::<Seq<char>>::empty(), " "@),
        }),
{
    let args: Vec<String> = Vec::new();
    assert(string_views(args@) =~= Seq::<Seq<char>>::empty());
    command_with_args(CommandType::DirectCommand, "reload", &args, " ")
}

/// Enters the mode in which a click kills a window.
pub fn kill_window_mode() -> (r: Command)
    ensures
        r@ == (CommandView {
            kind: CommandType::DirectCommand,
            text: with_args("kill"@, Seq::<Seq<char>>::empty(), " "@),
        }),
{
    let args: Vec<String> = Vec::new();
    assert(string_views(args@) =~= Seq::<Seq<char>>::empty());
    command_with_args(CommandType::DirectCommand, "kill", &args, " ")
}

/// Sets the cursor theme and size.
pub fn set_cursor_theme(theme_name: String, size: i32) -> (r: Command)
    ensures
        r@ == (CommandView {
            kind: CommandType::DirectCommand,
            text: with_args("setcursor"@, seq![theme_name.arg(), size.arg()], " "@),
        }),
{
    let args = vec![theme_name.to_argument_string(), size.to_argument_string()];
    assert(string_views(args@) =~= seq![theme_name.arg(), size.arg()]);
    command_with_args(CommandType::DirectCommand, "setcursor", &args, " ")
}

/// Shows an error bar in `color`; an empty message hides it.
pub fn set_error(color: ColorArgument, message: String) -> (r: Command)
    ensures
        r@ == (CommandView {
            kind: CommandType::DirectCommand,
            text: with_args("seterror"@, seq![color.arg(), message.arg()], " "@),
        }),
{
    let args = vec![color.to_argument_string(), message.to_argument_string()];
    assert(string_views(args@) =~= seq![color.arg(), message.arg()]);
    command_with_args(CommandType::DirectCommand, "seterror", &args, " ")
}

/// Shows a notification for `time_ms` milliseconds.
pub fn notify(icon: NotifyIconArgument, time_ms: i32, color: ColorArgument, message: String) -> (r: Command)
    ensures
        r@ == (CommandView {
            kind: CommandType::DirectCommand,
            text: with_args("notify"@, seq![icon.arg(), time_ms.arg(), color.arg(), message.arg()], " "@),
        }),
{
    let args = vec![icon.to_argument_string(), time_ms.to_argument_string(), color.to_argument_string(), message.to_argument_string()];
    assert(string_views(args@) =~= seq![icon.arg(), time_ms.arg(), color.arg(), message.arg()]);
    command_with_args(CommandType::DirectCommand, "notify", &args, " ")
}

} // verus!
