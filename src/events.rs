//! The events that the compositor announces on its event socket, their kinds
//! and wire names, and the model that contracts state them over.
use vstd::prelude::*;

use crate::text::str_equal;

verus! {

/// The kind of an event, without its fields.
#[derive(Clone, Copy, Debug, PartialEq, Eq, Hash, Structural)]
pub enum HyprlandEventType {
    Workspace,
    WorkspaceV2,
    FocusedMonitor,
    FocusedMonitorV2,
    ActiveWindow,
    ActiveWindowV2,
    Fullscreen,
    MonitorRemoved,
    MonitorAdded,
    MonitorAddedV2,
    CreateWorkspace,
    CreateWorkspaceV2,
    DestroyWorkspace,
    DestroyWorkspaceV2,
    MoveWorkspace,
    MoveWorkspaceV2,
    RenameWorkspace,
    ActiveSpecial,
    ActiveLayout,
    OpenWindow,
    CloseWindow,
    MoveWindow,
    MoveWindowV2,
    OpenLayer,
    CloseLayer,
    Submap,
    ChangeFloatingMode,
    Urgent,
    Screencast,
    WindowTitle,
    WindowTitleV2,
    ToggleGroup,
    MoveIntoGroup,
    MoveOutOfGroup,
    IgnoreGroupLock,
    LockGroups,
    ConfigReloaded,
    Pin,
    Custom,
}

/// How one field of an event is read from its comma-separated payload.
#[derive(Clone, Copy, Debug, PartialEq, Eq, Structural)]
pub enum FieldKind {
    /// The field verbatim.
    Text,
    /// A 64-bit signed integer in decimal.
    Int,
    /// `1` or `0`, read from the first character.
    Flag,
    /// This field and all that follow, verbatim.
    Rest,
}

/// The value of one field, as contracts see it.
pub enum FieldValue {
    Text(Seq<char>),
    Int(i64),
    Flag(bool),
    Texts(Seq<Seq<char>>),
}

/// An event as contracts see it: its kind and its fields in wire order.
pub struct EventModel {
    pub kind: HyprlandEventType,
    pub fields: Seq<FieldValue>,
}

/// The kind whose wire name is `n`, if any.
pub open spec fn type_of_name(n: Seq<char>) -> Option<HyprlandEventType> {
    if n == "workspace"@ {
        Some(HyprlandEventType::Workspace)
    } else if n == "workspacev2"@ {
        Some(HyprlandEventType::WorkspaceV2)
    } else if n == "focusedmon"@ {
        Some(HyprlandEventType::FocusedMonitor)
    } else if n == "focusedmonv2"@ {
        Some(HyprlandEventType::FocusedMonitorV2)
    } else if n == "activewindow"@ {
        Some(HyprlandEventType::ActiveWindow)
    } else if n == "activewindowv2"@ {
        Some(HyprlandEventType::ActiveWindowV2)
    } else if n == "fullscreen"@ {
        Some(HyprlandEventType::Fullscreen)
    } else if n == "monitorremoved"@ {
        Some(HyprlandEventType::MonitorRemoved)
    } else if n == "monitoradded"@ {
        Some(HyprlandEventType::MonitorAdded)
    } else if n == "monitoraddedv2"@ {
        Some(HyprlandEventType::MonitorAddedV2)
    } else if n == "createworkspace"@ {
        Some(HyprlandEventType::CreateWorkspace)
    } else if n == "createworkspacev2"@ {
        Some(HyprlandEventType::CreateWorkspaceV2)
    } else if n == "destroyworkspace"@ {
        Some(HyprlandEventType::DestroyWorkspace)
    } else if n == "destroyworkspacev2"@ {
        Some(HyprlandEventType::DestroyWorkspaceV2)
    } else if n == "moveworkspace"@ {
        Some(HyprlandEventType::MoveWorkspace)
    } else if n == "moveworkspacev2"@ {
        Some(HyprlandEventType::MoveWorkspaceV2)
    } else if n == "renameworkspace"@ {
        Some(HyprlandEventType::RenameWorkspace)
    } else if n == "activespecial"@ {
        Some(HyprlandEventType::ActiveSpecial)
    } else if n == "activelayout"@ {
        Some(HyprlandEventType::ActiveLayout)
    } else if n == "openwindow"@ {
        Some(HyprlandEventType::OpenWindow)
    } else if n == "closewindow"@ {
        Some(HyprlandEventType::CloseWindow)
    } else if n == "movewindow"@ {
        Some(HyprlandEventType::MoveWindow)
    } else if n == "movewindowv2"@ {
        Some(HyprlandEventType::MoveWindowV2)
    } else if n == "openlayer"@ {
        Some(HyprlandEventType::OpenLayer)
    } else if n == "closelayer"@ {
        Some(HyprlandEventType::CloseLayer)
    } else if n == "submap"@ {
        Some(HyprlandEventType::Submap)
    } else if n == "changefloatingmode"@ {
        Some(HyprlandEventType::ChangeFloatingMode)
    } else if n == "urgent"@ {
        Some(HyprlandEventType::Urgent)
    } else if n == "screencast"@ {
        Some(HyprlandEventType::Screencast)
    } else if n == "windowtitle"@ {
        Some(HyprlandEventType::WindowTitle)
    } else if n == "windowtitlev2"@ {
        Some(HyprlandEventType::WindowTitleV2)
    } else if n == "togglegroup"@ {
        Some(HyprlandEventType::ToggleGroup)
    } else if n == "moveintogroup"@ {
        Some(HyprlandEventType::MoveIntoGroup)
    } else if n == "moveoutofgroup"@ {
        Some(HyprlandEventType::MoveOutOfGroup)
    } else if n == "ignoregrouplock"@ {
        Some(HyprlandEventType::IgnoreGroupLock)
    } else if n == "lockgroups"@ {
        Some(HyprlandEventType::LockGroups)
    } else if n == "configreloaded"@ {
        Some(HyprlandEventType::ConfigReloaded)
    } else if n == "pin"@ {
        Some(HyprlandEventType::Pin)
    } else if n == "custom"@ {
        Some(HyprlandEventType::Custom)
    } else {
        None
    }
}

impl HyprlandEventType {
    /// The name that the wire protocol gives this kind.
    pub open spec fn name(self) -> Seq<char> {
        match self {
            HyprlandEventType::Workspace => "workspace"@,
            HyprlandEventType::WorkspaceV2 => "workspacev2"@,
            HyprlandEventType::FocusedMonitor => "focusedmon"@,
            HyprlandEventType::FocusedMonitorV2 => "focusedmonv2"@,
            HyprlandEventType::ActiveWindow => "activewindow"@,
            HyprlandEventType::ActiveWindowV2 => "activewindowv2"@,
            HyprlandEventType::Fullscreen => "fullscreen"@,
            HyprlandEventType::MonitorRemoved => "monitorremoved"@,
            HyprlandEventType::MonitorAdded => "monitoradded"@,
            HyprlandEventType::MonitorAddedV2 => "monitoraddedv2"@,
            HyprlandEventType::CreateWorkspace => "createworkspace"@,
            HyprlandEventType::CreateWorkspaceV2 => "createworkspacev2"@,
            HyprlandEventType::DestroyWorkspace => "destroyworkspace"@,
            HyprlandEventType::DestroyWorkspaceV2 => "destroyworkspacev2"@,
            HyprlandEventType::MoveWorkspace => "moveworkspace"@,
            HyprlandEventType::MoveWorkspaceV2 => "moveworkspacev2"@,
            HyprlandEventType::RenameWorkspace => "renameworkspace"@,
            HyprlandEventType::ActiveSpecial => "activespecial"@,
            HyprlandEventType::ActiveLayout => "activelayout"@,
            HyprlandEventType::OpenWindow => "openwindow"@,
            HyprlandEventType::CloseWindow => "closewindow"@,
            HyprlandEventType::MoveWindow => "movewindow"@,
            HyprlandEventType::MoveWindowV2 => "movewindowv2"@,
            HyprlandEventType::OpenLayer => "openlayer"@,
            HyprlandEventType::CloseLayer => "closelayer"@,
            HyprlandEventType::Submap => "submap"@,
            HyprlandEventType::ChangeFloatingMode => "changefloatingmode"@,
            HyprlandEventType::Urgent => "urgent"@,
            HyprlandEventType::Screencast => "screencast"@,
            HyprlandEventType::WindowTitle => "windowtitle"@,
            HyprlandEventType::WindowTitleV2 => "windowtitlev2"@,
            HyprlandEventType::ToggleGroup => "togglegroup"@,
            HyprlandEventType::MoveIntoGroup => "moveintogroup"@,
            HyprlandEventType::MoveOutOfGroup => "moveoutofgroup"@,
            HyprlandEventType::IgnoreGroupLock => "ignoregrouplock"@,
            HyprlandEventType::LockGroups => "lockgroups"@,
            HyprlandEventType::ConfigReloaded => "configreloaded"@,
            HyprlandEventType::Pin => "pin"@,
            HyprlandEventType::Custom => "custom"@,
        }
    }

    /// The shape of this kind's payload, field by field.
    pub open spec fn kinds(self) -> Seq<FieldKind> {
        match self {
            HyprlandEventType::Workspace => seq![FieldKind::Text],
            HyprlandEventType::WorkspaceV2 => seq![FieldKind::Int, FieldKind::Text],
            HyprlandEventType::FocusedMonitor => seq![FieldKind::Text, FieldKind::Text],
            HyprlandEventType::FocusedMonitorV2 => seq![FieldKind::Text, FieldKind::Int],
            HyprlandEventType::ActiveWindow => seq![FieldKind::Text, FieldKind::Text],
            HyprlandEventType::ActiveWindowV2 => seq![FieldKind::Text],
            HyprlandEventType::Fullscreen => seq![FieldKind::Flag],
            HyprlandEventType::MonitorRemoved => seq![FieldKind::Text],
            HyprlandEventType::MonitorAdded => seq![FieldKind::Text],
            HyprlandEventType::MonitorAddedV2 => seq![FieldKind::Int, FieldKind::Text, FieldKind::Text],
            HyprlandEventType::CreateWorkspace => seq![FieldKind::Text],
            HyprlandEventType::CreateWorkspaceV2 => seq![FieldKind::Int, FieldKind::Text],
            HyprlandEventType::DestroyWorkspace => seq![FieldKind::Text],
            HyprlandEventType::DestroyWorkspaceV2 => seq![FieldKind::Int, FieldKind::Text],
            HyprlandEventType::MoveWorkspace => seq![FieldKind::Text, FieldKind::Text],
            HyprlandEventType::MoveWorkspaceV2 => seq![FieldKind::Int, FieldKind::Text, FieldKind::Text],
            HyprlandEventType::RenameWorkspace => seq![FieldKind::Int, FieldKind::Text],
            HyprlandEventType::ActiveSpecial => seq![FieldKind::Text, FieldKind::Text],
            HyprlandEventType::ActiveLayout => seq![FieldKind::Text, FieldKind::Text],
            HyprlandEventType::OpenWindow => seq![FieldKind::Text, FieldKind::Text, FieldKind::Text, FieldKind::Text],
            HyprlandEventType::CloseWindow => seq![FieldKind::Text],
            HyprlandEventType::MoveWindow => seq![FieldKind::Text, FieldKind::Text],
            HyprlandEventType::MoveWindowV2 => seq![FieldKind::Text, FieldKind::Int, FieldKind::Text],
            HyprlandEventType::OpenLayer => seq![FieldKind::Text],
            HyprlandEventType::CloseLayer => seq![FieldKind::Text],
            HyprlandEventType::Submap => seq![FieldKind::Text],
            HyprlandEventType::ChangeFloatingMode => seq![FieldKind::Text, FieldKind::Flag],
            HyprlandEventType::Urgent => seq![FieldKind::Text],
            HyprlandEventType::Screencast => seq![FieldKind::Flag, FieldKind::Text],
            HyprlandEventType::WindowTitle => seq![FieldKind::Text],
            HyprlandEventType::WindowTitleV2 => seq![FieldKind::Text, FieldKind::Text],
            HyprlandEventType::ToggleGroup => seq![FieldKind::Flag, FieldKind::Rest],
            HyprlandEventType::MoveIntoGroup => seq![FieldKind::Text],
            HyprlandEventType::MoveOutOfGroup => seq![FieldKind::Text],
            HyprlandEventType::IgnoreGroupLock => seq![FieldKind::Flag],
            HyprlandEventType::LockGroups => seq![FieldKind::Flag],
            HyprlandEventType::ConfigReloaded => seq![],
            HyprlandEventType::Pin => seq![FieldKind::Text, FieldKind::Flag],
            HyprlandEventType::Custom => seq![FieldKind::Text],
        }
    }

    pub fn get_name(&self) -> (r: &'static str)
        ensures
            r@ == self.name(),
    {
        match self {
            HyprlandEventType::Workspace => "workspace",
            HyprlandEventType::WorkspaceV2 => "workspacev2",
            HyprlandEventType::FocusedMonitor => "focusedmon",
            HyprlandEventType::FocusedMonitorV2 => "focusedmonv2",
            HyprlandEventType::ActiveWindow => "activewindow",
            HyprlandEventType::ActiveWindowV2 => "activewindowv2",
            HyprlandEventType::Fullscreen => "fullscreen",
            HyprlandEventType::MonitorRemoved => "monitorremoved",
            HyprlandEventType::MonitorAdded => "monitoradded",
            HyprlandEventType::MonitorAddedV2 => "monitoraddedv2",
            HyprlandEventType::CreateWorkspace => "createworkspace",
            HyprlandEventType::CreateWorkspaceV2 => "createworkspacev2",
            HyprlandEventType::DestroyWorkspace => "destroyworkspace",
            HyprlandEventType::DestroyWorkspaceV2 => "destroyworkspacev2",
            HyprlandEventType::MoveWorkspace => "moveworkspace",
            HyprlandEventType::MoveWorkspaceV2 => "moveworkspacev2",
            HyprlandEventType::RenameWorkspace => "renameworkspace",
            HyprlandEventType::ActiveSpecial => "activespecial",
            HyprlandEventType::ActiveLayout => "activelayout",
            HyprlandEventType::OpenWindow => "openwindow",
            HyprlandEventType::CloseWindow => "closewindow",
            HyprlandEventType::MoveWindow => "movewindow",
            HyprlandEventType::MoveWindowV2 => "movewindowv2",
            HyprlandEventType::OpenLayer => "openlayer",
            HyprlandEventType::CloseLayer => "closelayer",
            HyprlandEventType::Submap => "submap",
            HyprlandEventType::ChangeFloatingMode => "changefloatingmode",
            HyprlandEventType::Urgent => "urgent",
            HyprlandEventType::Screencast => "screencast",
            HyprlandEventType::WindowTitle => "windowtitle",
            HyprlandEventType::WindowTitleV2 => "windowtitlev2",
            HyprlandEventType::ToggleGroup => "togglegroup",
            HyprlandEventType::MoveIntoGroup => "moveintogroup",
            HyprlandEventType::MoveOutOfGroup => "moveoutofgroup",
            HyprlandEventType::IgnoreGroupLock => "ignoregrouplock",
            HyprlandEventType::LockGroups => "lockgroups",
            HyprlandEventType::ConfigReloaded => "configreloaded",
            HyprlandEventType::Pin => "pin",
            HyprlandEventType::Custom => "custom",
        }
    }

    pub fn field_kinds(&self) -> (r: Vec<FieldKind>)
        ensures
            r@ == self.kinds(),
    {
        let r = match self {
            HyprlandEventType::Workspace => vec![FieldKind::Text],
            HyprlandEventType::WorkspaceV2 => vec![FieldKind::Int, FieldKind::Text],
            HyprlandEventType::FocusedMonitor => vec![FieldKind::Text, FieldKind::Text],
            HyprlandEventType::FocusedMonitorV2 => vec![FieldKind::Text, FieldKind::Int],
            HyprlandEventType::ActiveWindow => vec![FieldKind::Text, FieldKind::Text],
            HyprlandEventType::ActiveWindowV2 => vec![FieldKind::Text],
            HyprlandEventType::Fullscreen => vec![FieldKind::Flag],
            HyprlandEventType::MonitorRemoved => vec![FieldKind::Text],
            HyprlandEventType::MonitorAdded => vec![FieldKind::Text],
            HyprlandEventType::MonitorAddedV2 => vec![FieldKind::Int, FieldKind::Text, FieldKind::Text],
            HyprlandEventType::CreateWorkspace => vec![FieldKind::Text],
            HyprlandEventType::CreateWorkspaceV2 => vec![FieldKind::Int, FieldKind::Text],
            HyprlandEventType::DestroyWorkspace => vec![FieldKind::Text],
            HyprlandEventType::DestroyWorkspaceV2 => vec![FieldKind::Int, FieldKind::Text],
            HyprlandEventType::MoveWorkspace => vec![FieldKind::Text, FieldKind::Text],
            HyprlandEventType::MoveWorkspaceV2 => vec![FieldKind::Int, FieldKind::Text, FieldKind::Text],
            HyprlandEventType::RenameWorkspace => vec![FieldKind::Int, FieldKind::Text],
            HyprlandEventType::ActiveSpecial => vec![FieldKind::Text, FieldKind::Text],
            HyprlandEventType::ActiveLayout => vec![FieldKind::Text, FieldKind::Text],
            HyprlandEventType::OpenWindow => vec![FieldKind::Text, FieldKind::Text, FieldKind::Text, FieldKind::Text],
            HyprlandEventType::CloseWindow => vec![FieldKind::Text],
            HyprlandEventType::MoveWindow => vec![FieldKind::Text, FieldKind::Text],
            HyprlandEventType::MoveWindowV2 => vec![FieldKind::Text, FieldKind::Int, FieldKind::Text],
            HyprlandEventType::OpenLayer => vec![FieldKind::Text],
            HyprlandEventType::CloseLayer => vec![FieldKind::Text],
            HyprlandEventType::Submap => vec![FieldKind::Text],
            HyprlandEventType::ChangeFloatingMode => vec![FieldKind::Text, FieldKind::Flag],
            HyprlandEventType::Urgent => vec![FieldKind::Text],
            HyprlandEventType::Screencast => vec![FieldKind::Flag, FieldKind::Text],
            HyprlandEventType::WindowTitle => vec![FieldKind::Text],
            HyprlandEventType::WindowTitleV2 => vec![FieldKind::Text, FieldKind::Text],
            HyprlandEventType::ToggleGroup => vec![FieldKind::Flag, FieldKind::Rest],
            HyprlandEventType::MoveIntoGroup => vec![FieldKind::Text],
            HyprlandEventType::MoveOutOfGroup => vec![FieldKind::Text],
            HyprlandEventType::IgnoreGroupLock => vec![FieldKind::Flag],
            HyprlandEventType::LockGroups => vec![FieldKind::Flag],
            HyprlandEventType::ConfigReloaded => vec![],
            HyprlandEventType::Pin => vec![FieldKind::Text, FieldKind::Flag],
            HyprlandEventType::Custom => vec![FieldKind::Text],
        };
        assert(r@ =~= self.kinds());
        r
    }

    /// The kind whose wire name is `name`, if any.
    pub fn from_name(name: &str) -> (r: Option<HyprlandEventType>)
        ensures
            r == type_of_name(name@),
    {
        if str_equal(name, "workspace") {
            return Some(HyprlandEventType::Workspace);
        }
        if str_equal(name, "workspacev2") {
            return Some(HyprlandEventType::WorkspaceV2);
        }
        if str_equal(name, "focusedmon") {
            return Some(HyprlandEventType::FocusedMonitor);
        }
        if str_equal(name, "focusedmonv2") {
            return Some(HyprlandEventType::FocusedMonitorV2);
        }
        if str_equal(name, "activewindow") {
            return Some(HyprlandEventType::ActiveWindow);
        }
        if str_equal(name, "activewindowv2") {
            return Some(HyprlandEventType::ActiveWindowV2);
        }
        if str_equal(name, "fullscreen") {
            return Some(HyprlandEventType::Fullscreen);
        }
        if str_equal(name, "monitorremoved") {
            return Some(HyprlandEventType::MonitorRemoved);
        }
        if str_equal(name, "monitoradded") {
            return Some(HyprlandEventType::MonitorAdded);
        }
        if str_equal(name, "monitoraddedv2") {
            return Some(HyprlandEventType::MonitorAddedV2);
        }
        if str_equal(name, "createworkspace") {
            return Some(HyprlandEventType::CreateWorkspace);
        }
        if str_equal(name, "createworkspacev2") {
            return Some(HyprlandEventType::CreateWorkspaceV2);
        }
        if str_equal(name, "destroyworkspace") {
            return Some(HyprlandEventType::DestroyWorkspace);
        }
        if str_equal(name, "destroyworkspacev2") {
            return Some(HyprlandEventType::DestroyWorkspaceV2);
        }
        if str_equal(name, "moveworkspace") {
            return Some(HyprlandEventType::MoveWorkspace);
        }
        if str_equal(name, "moveworkspacev2") {
            return Some(HyprlandEventType::MoveWorkspaceV2);
        }
        if str_equal(name, "renameworkspace") {
            return Some(HyprlandEventType::RenameWorkspace);
        }
        if str_equal(name, "activespecial") {
            return Some(HyprlandEventType::ActiveSpecial);
        }
        if str_equal(name, "activelayout") {
            return Some(HyprlandEventType::ActiveLayout);
        }
        if str_equal(name, "openwindow") {
            return Some(HyprlandEventType::OpenWindow);
        }
        if str_equal(name, "closewindow") {
            return Some(HyprlandEventType::CloseWindow);
        }
        if str_equal(name, "movewindow") {
            return Some(HyprlandEventType::MoveWindow);
        }
        if str_equal(name, "movewindowv2") {
            return Some(HyprlandEventType::MoveWindowV2);
        }
        if str_equal(name, "openlayer") {
            return Some(HyprlandEventType::OpenLayer);
        }
        if str_equal(name, "closelayer") {
            return Some(HyprlandEventType::CloseLayer);
        }
        if str_equal(name, "submap") {
            return Some(HyprlandEventType::Submap);
        }
        if str_equal(name, "changefloatingmode") {
            return Some(HyprlandEventType::ChangeFloatingMode);
        }
        if str_equal(name, "urgent") {
            return Some(HyprlandEventType::Urgent);
        }
        if str_equal(name, "screencast") {
            return Some(HyprlandEventType::Screencast);
        }
        if str_equal(name, "windowtitle") {
            return Some(HyprlandEventType::WindowTitle);
        }
        if str_equal(name, "windowtitlev2") {
            return Some(HyprlandEventType::WindowTitleV2);
        }
        if str_equal(name, "togglegroup") {
            return Some(HyprlandEventType::ToggleGroup);
        }
        if str_equal(name, "moveintogroup") {
            return Some(HyprlandEventType::MoveIntoGroup);
        }
        if str_equal(name, "moveoutofgroup") {
            return Some(HyprlandEventType::MoveOutOfGroup);
        }
        if str_equal(name, "ignoregrouplock") {
            return Some(HyprlandEventType::IgnoreGroupLock);
        }
        if str_equal(name, "lockgroups") {
            return Some(HyprlandEventType::LockGroups);
        }
        if str_equal(name, "configreloaded") {
            return Some(HyprlandEventType::ConfigReloaded);
        }
        if str_equal(name, "pin") {
            return Some(HyprlandEventType::Pin);
        }
        if str_equal(name, "custom") {
            return Some(HyprlandEventType::Custom);
        }
        None
    }
}

/// Distinct kinds have distinct wire names, so a kind is found again from its name.
pub proof fn lemma_type_of_name(t: HyprlandEventType)
    ensures
        type_of_name(t.name()) == Some(t),
{
    // each name's length, and the letters that set it apart from the names
    // of the same length
    reveal_strlit("workspace");
    assert("workspace"@.len() == 9 && "workspace"@[0] == 'w');
    reveal_strlit("workspacev2");
    assert("workspacev2"@.len() == 11 && "workspacev2"@[0] == 'w' && "workspacev2"@[1] == 'o');
    reveal_strlit("focusedmon");
    assert("focusedmon"@.len() == 10 && "focusedmon"@[0] == 'f' && "focusedmon"@[1] == 'o');
    reveal_strlit("focusedmonv2");
    assert("focusedmonv2"@.len() == 12 && "focusedmonv2"@[0] == 'f');
    reveal_strlit("activewindow");
    assert("activewindow"@.len() == 12 && "activewindow"@[0] == 'a' && "activewindow"@[6] == 'w');
    reveal_strlit("activewindowv2");
    assert("activewindowv2"@.len() == 14 && "activewindowv2"@[0] == 'a');
    reveal_strlit("fullscreen");
    assert("fullscreen"@.len() == 10 && "fullscreen"@[0] == 'f' && "fullscreen"@[1] == 'u');
    reveal_strlit("monitorremoved");
    assert("monitorremoved"@.len() == 14 && "monitorremoved"@[0] == 'm' && "monitorremoved"@[2] == 'n' && "monitorremoved"@[7] == 'r');
    reveal_strlit("monitoradded");
    assert("monitoradded"@.len() == 12 && "monitoradded"@[0] == 'm' && "monitoradded"@[2] == 'n');
    reveal_strlit("monitoraddedv2");
    assert("monitoraddedv2"@.len() == 14 && "monitoraddedv2"@[0] == 'm' && "monitoraddedv2"@[2] == 'n' && "monitoraddedv2"@[7] == 'a');
    reveal_strlit("createworkspace");
    assert("createworkspace"@.len() == 15 && "createworkspace"@[0] == 'c');
    reveal_strlit("createworkspacev2");
    assert("createworkspacev2"@.len() == 17);
    reveal_strlit("destroyworkspace");
    assert("destroyworkspace"@.len() == 16);
    reveal_strlit("destroyworkspacev2");
    assert("destroyworkspacev2"@.len() == 18 && "destroyworkspacev2"@[0] == 'd');
    reveal_strlit("moveworkspace");
    assert("moveworkspace"@.len() == 13 && "moveworkspace"@[0] == 'm' && "moveworkspace"@[4] == 'w');
    reveal_strlit("moveworkspacev2");
    assert("moveworkspacev2"@.len() == 15 && "moveworkspacev2"@[0] == 'm');
    reveal_strlit("renameworkspace");
    assert("renameworkspace"@.len() == 15 && "renameworkspace"@[0] == 'r');
    reveal_strlit("activespecial");
    assert("activespecial"@.len() == 13 && "activespecial"@[0] == 'a');
    reveal_strlit("activelayout");
    assert("activelayout"@.len() == 12 && "activelayout"@[0] == 'a' && "activelayout"@[6] == 'l');
    reveal_strlit("openwindow");
    assert("openwindow"@.len() == 10 && "openwindow"@[0] == 'o');
    reveal_strlit("closewindow");
    assert("closewindow"@.len() == 11 && "closewindow"@[0] == 'c');
    reveal_strlit("movewindow");
    assert("movewindow"@.len() == 10 && "movewindow"@[0] == 'm');
    reveal_strlit("movewindowv2");
    assert("movewindowv2"@.len() == 12 && "movewindowv2"@[0] == 'm' && "movewindowv2"@[2] == 'v');
    reveal_strlit("openlayer");
    assert("openlayer"@.len() == 9 && "openlayer"@[0] == 'o');
    reveal_strlit("closelayer");
    assert("closelayer"@.len() == 10 && "closelayer"@[0] == 'c');
    reveal_strlit("submap");
    assert("submap"@.len() == 6 && "submap"@[0] == 's');
    reveal_strlit("changefloatingmode");
    assert("changefloatingmode"@.len() == 18 && "changefloatingmode"@[0] == 'c');
    reveal_strlit("urgent");
    assert("urgent"@.len() == 6 && "urgent"@[0] == 'u');
    reveal_strlit("screencast");
    assert("screencast"@.len() == 10 && "screencast"@[0] == 's');
    reveal_strlit("windowtitle");
    assert("windowtitle"@.len() == 11 && "windowtitle"@[0] == 'w' && "windowtitle"@[1] == 'i');
    reveal_strlit("windowtitlev2");
    assert("windowtitlev2"@.len() == 13 && "windowtitlev2"@[0] == 'w');
    reveal_strlit("togglegroup");
    assert("togglegroup"@.len() == 11 && "togglegroup"@[0] == 't');
    reveal_strlit("moveintogroup");
    assert("moveintogroup"@.len() == 13 && "moveintogroup"@[0] == 'm' && "moveintogroup"@[4] == 'i');
    reveal_strlit("moveoutofgroup");
    assert("moveoutofgroup"@.len() == 14 && "moveoutofgroup"@[0] == 'm' && "moveoutofgroup"@[2] == 'v');
    reveal_strlit("ignoregrouplock");
    assert("ignoregrouplock"@.len() == 15 && "ignoregrouplock"@[0] == 'i');
    reveal_strlit("lockgroups");
    assert("lockgroups"@.len() == 10 && "lockgroups"@[0] == 'l');
    reveal_strlit("configreloaded");
    assert("configreloaded"@.len() == 14 && "configreloaded"@[0] == 'c');
    reveal_strlit("pin");
    assert("pin"@.len() == 3);
    reveal_strlit("custom");
    assert("custom"@.len() == 6 && "custom"@[0] == 'c');
    match t {
        HyprlandEventType::Workspace => {
            assert(t.name() == "workspace"@);
            assert(t.name().len() == 9);
        },
        HyprlandEventType::WorkspaceV2 => {},
        HyprlandEventType::FocusedMonitor => {},
        HyprlandEventType::FocusedMonitorV2 => {},
        HyprlandEventType::ActiveWindow => {},
        HyprlandEventType::ActiveWindowV2 => {},
        HyprlandEventType::Fullscreen => {},
        HyprlandEventType::MonitorRemoved => {},
        HyprlandEventType::MonitorAdded => {},
        HyprlandEventType::MonitorAddedV2 => {},
        HyprlandEventType::CreateWorkspace => {},
        HyprlandEventType::CreateWorkspaceV2 => {},
        HyprlandEventType::DestroyWorkspace => {},
        HyprlandEventType::DestroyWorkspaceV2 => {},
        HyprlandEventType::MoveWorkspace => {},
        HyprlandEventType::MoveWorkspaceV2 => {},
        HyprlandEventType::RenameWorkspace => {},
        HyprlandEventType::ActiveSpecial => {},
        HyprlandEventType::ActiveLayout => {},
        HyprlandEventType::OpenWindow => {},
        HyprlandEventType::CloseWindow => {},
        HyprlandEventType::MoveWindow => {},
        HyprlandEventType::MoveWindowV2 => {},
        HyprlandEventType::OpenLayer => {},
        HyprlandEventType::CloseLayer => {},
        HyprlandEventType::Submap => {},
        HyprlandEventType::ChangeFloatingMode => {},
        HyprlandEventType::Urgent => {},
        HyprlandEventType::Screencast => {},
        HyprlandEventType::WindowTitle => {},
        HyprlandEventType::WindowTitleV2 => {},
        HyprlandEventType::ToggleGroup => {},
        HyprlandEventType::MoveIntoGroup => {},
        HyprlandEventType::MoveOutOfGroup => {},
        HyprlandEventType::IgnoreGroupLock => {},
        HyprlandEventType::LockGroups => {},
        HyprlandEventType::ConfigReloaded => {},
        HyprlandEventType::Pin => {},
        HyprlandEventType::Custom => {},
    }
}

/// No wire name is empty.
pub proof fn lemma_name_len(t: HyprlandEventType)
    ensures
        t.name().len() > 0,
{
    reveal_strlit("workspace");
    assert("workspace"@.len() == 9);
    reveal_strlit("workspacev2");
    assert("workspacev2"@.len() == 11);
    reveal_strlit("focusedmon");
    assert("focusedmon"@.len() == 10);
    reveal_strlit("focusedmonv2");
    assert("focusedmonv2"@.len() == 12);
    reveal_strlit("activewindow");
    assert("activewindow"@.len() == 12);
    reveal_strlit("activewindowv2");
    assert("activewindowv2"@.len() == 14);
    reveal_strlit("fullscreen");
    assert("fullscreen"@.len() == 10);
    reveal_strlit("monitorremoved");
    assert("monitorremoved"@.len() == 14);
    reveal_strlit("monitoradded");
    assert("monitoradded"@.len() == 12);
    reveal_strlit("monitoraddedv2");
    assert("monitoraddedv2"@.len() == 14);
    reveal_strlit("createworkspace");
    assert("createworkspace"@.len() == 15);
    reveal_strlit("createworkspacev2");
    assert("createworkspacev2"@.len() == 17);
    reveal_strlit("destroyworkspace");
    assert("destroyworkspace"@.len() == 16);
    reveal_strlit("destroyworkspacev2");
    assert("destroyworkspacev2"@.len() == 18);
    reveal_strlit("moveworkspace");
    assert("moveworkspace"@.len() == 13);
    reveal_strlit("moveworkspacev2");
    assert("moveworkspacev2"@.len() == 15);
    reveal_strlit("renameworkspace");
    assert("renameworkspace"@.len() == 15);
    reveal_strlit("activespecial");
    assert("activespecial"@.len() == 13);
    reveal_strlit("activelayout");
    assert("activelayout"@.len() == 12);
    reveal_strlit("openwindow");
    assert("openwindow"@.len() == 10);
    reveal_strlit("closewindow");
    assert("closewindow"@.len() == 11);
    reveal_strlit("movewindow");
    assert("movewindow"@.len() == 10);
    reveal_strlit("movewindowv2");
    assert("movewindowv2"@.len() == 12);
    reveal_strlit("openlayer");
    assert("openlayer"@.len() == 9);
    reveal_strlit("closelayer");
    assert("closelayer"@.len() == 10);
    reveal_strlit("submap");
    assert("submap"@.len() == 6);
    reveal_strlit("changefloatingmode");
    assert("changefloatingmode"@.len() == 18);
    reveal_strlit("urgent");
    assert("urgent"@.len() == 6);
    reveal_strlit("screencast");
    assert("screencast"@.len() == 10);
    reveal_strlit("windowtitle");
    assert("windowtitle"@.len() == 11);
    reveal_strlit("windowtitlev2");
    assert("windowtitlev2"@.len() == 13);
    reveal_strlit("togglegroup");
    assert("togglegroup"@.len() == 11);
    reveal_strlit("moveintogroup");
    assert("moveintogroup"@.len() == 13);
    reveal_strlit("moveoutofgroup");
    assert("moveoutofgroup"@.len() == 14);
    reveal_strlit("ignoregrouplock");
    assert("ignoregrouplock"@.len() == 15);
    reveal_strlit("lockgroups");
    assert("lockgroups"@.len() == 10);
    reveal_strlit("configreloaded");
    assert("configreloaded"@.len() == 14);
    reveal_strlit("pin");
    assert("pin"@.len() == 3);
    reveal_strlit("custom");
    assert("custom"@.len() == 6);
    assert(t.name().len() > 0);
}

/// A name that maps to a kind is that kind's name.
pub proof fn lemma_name_of_type(n: Seq<char>)
    ensures
        type_of_name(n) matches Some(t) ==> t.name() == n,
{
}

/// A state change announced by the compositor.
#[derive(Clone, Debug)]
pub enum HyprlandEvent {
    Workspace {
        name: String,
    },
    WorkspaceV2 {
        id: i64,
        name: String,
    },
    FocusedMonitor {
        name: String,
        workspace_name: String,
    },
    FocusedMonitorV2 {
        name: String,
        workspace_id: i64,
    },
    ActiveWindow {
        class: String,
        title: String,
    },
    ActiveWindowV2 {
        address: String,
    },
    Fullscreen {
        is_fullscreen: bool,
    },
    MonitorRemoved {
        name: String,
    },
    MonitorAdded {
        name: String,
    },
    MonitorAddedV2 {
        id: i64,
        name: String,
        description: String,
    },
    CreateWorkspace {
        name: String,
    },
    CreateWorkspaceV2 {
        id: i64,
        name: String,
    },
    DestroyWorkspace {
        name: String,
    },
    DestroyWorkspaceV2 {
        id: i64,
        name: String,
    },
    MoveWorkspace {
        name: String,
        mon_name: String,
    },
    MoveWorkspaceV2 {
        id: i64,
        name: String,
        mon_name: String,
    },
    RenameWorkspace {
        id: i64,
        name: String,
    },
    ActiveSpecial {
        name: String,
        mon_name: String,
    },
    ActiveLayout {
        keyboard_name: String,
        layout_name: String,
    },
    OpenWindow {
        address: String,
        workspace_name: String,
        class: String,
        title: String,
    },
    CloseWindow {
        address: String,
    },
    MoveWindow {
        address: String,
        workspace_name: String,
    },
    MoveWindowV2 {
        address: String,
        workspace_id: i64,
        workspace_name: String,
    },
    OpenLayer {
        namespace: String,
    },
    CloseLayer {
        namespace: String,
    },
    Submap {
        name: String,
    },
    ChangeFloatingMode {
        window_address: String,
        floating: bool,
    },
    Urgent {
        window_address: String,
    },
    Screencast {
        state: bool,
        owner: String,
    },
    WindowTitle {
        address: String,
    },
    WindowTitleV2 {
        address: String,
        title: String,
    },
    ToggleGroup {
        state: bool,
        handles: Vec<String>,
    },
    MoveIntoGroup {
        address: String,
    },
    MoveOutOfGroup {
        address: String,
    },
    IgnoreGroupLock {
        is_on: bool,
    },
    LockGroups {
        is_on: bool,
    },
    ConfigReloaded,
    Pin {
        address: String,
        pin_state: bool,
    },
    Custom {
        data: String,
    },
}

/// The views of a sequence of strings.
pub open spec fn string_views(v: Seq<String>) -> Seq<Seq<char>> {
    v.map_values(|s: String| s@)
}

impl View for HyprlandEvent {
    type V = EventModel;

    open spec fn view(&self) -> EventModel {
        match self {
            HyprlandEvent::Workspace { name } => EventModel {
                kind: HyprlandEventType::Workspace,
                fields: seq![FieldValue::Text(name@)],
            },
            HyprlandEvent::WorkspaceV2 { id, name } => EventModel {
                kind: HyprlandEventType::WorkspaceV2,
                fields: seq![FieldValue::Int(*id), FieldValue::Text(name@)],
            },
            HyprlandEvent::FocusedMonitor { name, workspace_name } => EventModel {
                kind: HyprlandEventType::FocusedMonitor,
                fields: seq![FieldValue::Text(name@), FieldValue::Text(workspace_name@)],
            },
            HyprlandEvent::FocusedMonitorV2 { name, workspace_id } => EventModel {
                kind: HyprlandEventType::FocusedMonitorV2,
                fields: seq![FieldValue::Text(name@), FieldValue::Int(*workspace_id)],
            },
            HyprlandEvent::ActiveWindow { class, title } => EventModel {
                kind: HyprlandEventType::ActiveWindow,
                fields: seq![FieldValue::Text(class@), FieldValue::Text(title@)],
            },
            HyprlandEvent::ActiveWindowV2 { address } => EventModel {
                kind: HyprlandEventType::ActiveWindowV2,
                fields: seq![FieldValue::Text(address@)],
            },
            HyprlandEvent::Fullscreen { is_fullscreen } => EventModel {
                kind: HyprlandEventType::Fullscreen,
                fields: seq![FieldValue::Flag(*is_fullscreen)],
            },
            HyprlandEvent::MonitorRemoved { name } => EventModel {
                kind: HyprlandEventType::MonitorRemoved,
                fields: seq![FieldValue::Text(name@)],
            },
            HyprlandEvent::MonitorAdded { name } => EventModel {
                kind: HyprlandEventType::MonitorAdded,
                fields: seq![FieldValue::Text(name@)],
            },
            HyprlandEvent::MonitorAddedV2 { id, name, description } => EventModel {
                kind: HyprlandEventType::MonitorAddedV2,
                fields: seq![FieldValue::Int(*id), FieldValue::Text(name@), FieldValue::Text(description@)],
            },
            HyprlandEvent::CreateWorkspace { name } => EventModel {
                kind: HyprlandEventType::CreateWorkspace,
                fields: seq![FieldValue::Text(name@)],
            },
            HyprlandEvent::CreateWorkspaceV2 { id, name } => EventModel {
                kind: HyprlandEventType::CreateWorkspaceV2,
                fields: seq![FieldValue::Int(*id), FieldValue::Text(name@)],
            },
            HyprlandEvent::DestroyWorkspace { name } => EventModel {
                kind: HyprlandEventType::DestroyWorkspace,
                fields: seq![FieldValue::Text(name@)],
            },
            HyprlandEvent::DestroyWorkspaceV2 { id, name } => EventModel {
                kind: HyprlandEventType::DestroyWorkspaceV2,
                fields: seq![FieldValue::Int(*id), FieldValue::Text(name@)],
            },
            HyprlandEvent::MoveWorkspace { name, mon_name } => EventModel {
                kind: HyprlandEventType::MoveWorkspace,
                fields: seq![FieldValue::Text(name@), FieldValue::Text(mon_name@)],
            },
            HyprlandEvent::MoveWorkspaceV2 { id, name, mon_name } => EventModel {
                kind: HyprlandEventType::MoveWorkspaceV2,
                fields: seq![FieldValue::Int(*id), FieldValue::Text(name@), FieldValue::Text(mon_name@)],
            },
            HyprlandEvent::RenameWorkspace { id, name } => EventModel {
                kind: HyprlandEventType::RenameWorkspace,
                fields: seq![FieldValue::Int(*id), FieldValue::Text(name@)],
            },
            HyprlandEvent::ActiveSpecial { name, mon_name } => EventModel {
                kind: HyprlandEventType::ActiveSpecial,
                fields: seq![FieldValue::Text(name@), FieldValue::Text(mon_name@)],
            },
            HyprlandEvent::ActiveLayout { keyboard_name, layout_name } => EventModel {
                kind: HyprlandEventType::ActiveLayout,
                fields: seq![FieldValue::Text(keyboard_name@), FieldValue::Text(layout_name@)],
            },
            HyprlandEvent::OpenWindow { address, workspace_name, class, title } => EventModel {
                kind: HyprlandEventType::OpenWindow,
                fields: seq![FieldValue::Text(address@), FieldValue::Text(workspace_name@), FieldValue::Text(class@), FieldValue::Text(title@)],
            },
            HyprlandEvent::CloseWindow { address } => EventModel {
                kind: HyprlandEventType::CloseWindow,
                fields: seq![FieldValue::Text(address@)],
            },
            HyprlandEvent::MoveWindow { address, workspace_name } => EventModel {
                kind: HyprlandEventType::MoveWindow,
                fields: seq![FieldValue::Text(address@), FieldValue::Text(workspace_name@)],
            },
            HyprlandEvent::MoveWindowV2 { address, workspace_id, workspace_name } => EventModel {
                kind: HyprlandEventType::MoveWindowV2,
                fields: seq![FieldValue::Text(address@), FieldValue::Int(*workspace_id), FieldValue::Text(workspace_name@)],
            },
            HyprlandEvent::OpenLayer { namespace } => EventModel {
                kind: HyprlandEventType::OpenLayer,
                fields: seq![FieldValue::Text(namespace@)],
            },
            HyprlandEvent::CloseLayer { namespace } => EventModel {
                kind: HyprlandEventType::CloseLayer,
                fields: seq![FieldValue::Text(namespace@)],
            },
            HyprlandEvent::Submap { name } => EventModel {
                kind: HyprlandEventType::Submap,
                fields: seq![FieldValue::Text(name@)],
            },
            HyprlandEvent::ChangeFloatingMode { window_address, floating } => EventModel {
                kind: HyprlandEventType::ChangeFloatingMode,
                fields: seq![FieldValue::Text(window_address@), FieldValue::Flag(*floating)],
            },
            HyprlandEvent::Urgent { window_address } => EventModel {
                kind: HyprlandEventType::Urgent,
                fields: seq![FieldValue::Text(window_address@)],
            },
            HyprlandEvent::Screencast { state, owner } => EventModel {
                kind: HyprlandEventType::Screencast,
                fields: seq![FieldValue::Flag(*state), FieldValue::Text(owner@)],
            },
            HyprlandEvent::WindowTitle { address } => EventModel {
                kind: HyprlandEventType::WindowTitle,
                fields: seq![FieldValue::Text(address@)],
            },
            HyprlandEvent::WindowTitleV2 { address, title } => EventModel {
                kind: HyprlandEventType::WindowTitleV2,
                fields: seq![FieldValue::Text(address@), FieldValue::Text(title@)],
            },
            HyprlandEvent::ToggleGroup { state, handles } => EventModel {
                kind: HyprlandEventType::ToggleGroup,
                fields: seq![FieldValue::Flag(*state), FieldValue::Texts(string_views(handles@))],
            },
            HyprlandEvent::MoveIntoGroup { address } => EventModel {
                kind: HyprlandEventType::MoveIntoGroup,
                fields: seq![FieldValue::Text(address@)],
            },
            HyprlandEvent::MoveOutOfGroup { address } => EventModel {
                kind: HyprlandEventType::MoveOutOfGroup,
                fields: seq![FieldValue::Text(address@)],
            },
            HyprlandEvent::IgnoreGroupLock { is_on } => EventModel {
                kind: HyprlandEventType::IgnoreGroupLock,
                fields: seq![FieldValue::Flag(*is_on)],
            },
            HyprlandEvent::LockGroups { is_on } => EventModel {
                kind: HyprlandEventType::LockGroups,
                fields: seq![FieldValue::Flag(*is_on)],
            },
            HyprlandEvent::ConfigReloaded => EventModel { kind: HyprlandEventType::ConfigReloaded, fields: seq![] },
            HyprlandEvent::Pin { address, pin_state } => EventModel {
                kind: HyprlandEventType::Pin,
                fields: seq![FieldValue::Text(address@), FieldValue::Flag(*pin_state)],
            },
            HyprlandEvent::Custom { data } => EventModel {
                kind: HyprlandEventType::Custom,
                fields: seq![FieldValue::Text(data@)],
            },
        }
    }
}

impl HyprlandEvent {
    /// The kind of this event.
    pub fn event_type(&self) -> (r: HyprlandEventType)
        ensures
            r == self@.kind,
    {
        match self {
            HyprlandEvent::Workspace { .. } => HyprlandEventType::Workspace,
            HyprlandEvent::WorkspaceV2 { .. } => HyprlandEventType::WorkspaceV2,
            HyprlandEvent::FocusedMonitor { .. } => HyprlandEventType::FocusedMonitor,
            HyprlandEvent::FocusedMonitorV2 { .. } => HyprlandEventType::FocusedMonitorV2,
            HyprlandEvent::ActiveWindow { .. } => HyprlandEventType::ActiveWindow,
            HyprlandEvent::ActiveWindowV2 { .. } => HyprlandEventType::ActiveWindowV2,
            HyprlandEvent::Fullscreen { .. } => HyprlandEventType::Fullscreen,
            HyprlandEvent::MonitorRemoved { .. } => HyprlandEventType::MonitorRemoved,
            HyprlandEvent::MonitorAdded { .. } => HyprlandEventType::MonitorAdded,
            HyprlandEvent::MonitorAddedV2 { .. } => HyprlandEventType::MonitorAddedV2,
            HyprlandEvent::CreateWorkspace { .. } => HyprlandEventType::CreateWorkspace,
            HyprlandEvent::CreateWorkspaceV2 { .. } => HyprlandEventType::CreateWorkspaceV2,
            HyprlandEvent::DestroyWorkspace { .. } => HyprlandEventType::DestroyWorkspace,
            HyprlandEvent::DestroyWorkspaceV2 { .. } => HyprlandEventType::DestroyWorkspaceV2,
            HyprlandEvent::MoveWorkspace { .. } => HyprlandEventType::MoveWorkspace,
            HyprlandEvent::MoveWorkspaceV2 { .. } => HyprlandEventType::MoveWorkspaceV2,
            HyprlandEvent::RenameWorkspace { .. } => HyprlandEventType::RenameWorkspace,
            HyprlandEvent::ActiveSpecial { .. } => HyprlandEventType::ActiveSpecial,
            HyprlandEvent::ActiveLayout { .. } => HyprlandEventType::ActiveLayout,
            HyprlandEvent::OpenWindow { .. } => HyprlandEventType::OpenWindow,
            HyprlandEvent::CloseWindow { .. } => HyprlandEventType::CloseWindow,
            HyprlandEvent::MoveWindow { .. } => HyprlandEventType::MoveWindow,
            HyprlandEvent::MoveWindowV2 { .. } => HyprlandEventType::MoveWindowV2,
            HyprlandEvent::OpenLayer { .. } => HyprlandEventType::OpenLayer,
            HyprlandEvent::CloseLayer { .. } => HyprlandEventType::CloseLayer,
            HyprlandEvent::Submap { .. } => HyprlandEventType::Submap,
            HyprlandEvent::ChangeFloatingMode { .. } => HyprlandEventType::ChangeFloatingMode,
            HyprlandEvent::Urgent { .. } => HyprlandEventType::Urgent,
            HyprlandEvent::Screencast { .. } => HyprlandEventType::Screencast,
            HyprlandEvent::WindowTitle { .. } => HyprlandEventType::WindowTitle,
            HyprlandEvent::WindowTitleV2 { .. } => HyprlandEventType::WindowTitleV2,
            HyprlandEvent::ToggleGroup { .. } => HyprlandEventType::ToggleGroup,
            HyprlandEvent::MoveIntoGroup { .. } => HyprlandEventType::MoveIntoGroup,
            HyprlandEvent::MoveOutOfGroup { .. } => HyprlandEventType::MoveOutOfGroup,
            HyprlandEvent::IgnoreGroupLock { .. } => HyprlandEventType::IgnoreGroupLock,
            HyprlandEvent::LockGroups { .. } => HyprlandEventType::LockGroups,
            HyprlandEvent::ConfigReloaded => HyprlandEventType::ConfigReloaded,
            HyprlandEvent::Pin { .. } => HyprlandEventType::Pin,
            HyprlandEvent::Custom { .. } => HyprlandEventType::Custom,
        }
    }
}

} // verus!
