//! The arguments that commands take, and the text each stands for on the wire.
use vstd::prelude::*;

use crate::text::{i64_to_string, int_decimal, join_step, joined, nat_decimal, u64_to_string};

verus! {

/// A value that a command writes as one argument.
pub trait Argument {
    /// The text that stands for this value.
    spec fn arg(&self) -> Seq<char>;

    fn to_argument_string(&self) -> (r: String)
        ensures
            r@ == self.arg(),
    ;
}

/// `a` followed by `b`, as a new string.
pub fn concat_str(a: &str, b: &str) -> (r: String)
    ensures
        r@ == a@ + b@,
{
    let mut s = String::from_str(a);
    s.append(b);
    s
}

/// Relies on `char::to_string`: the one-character string holding `c`.
#[verifier::external_body]
fn char_string(c: char) -> (r: String)
    ensures
        r@ == seq![c],
{
    c.to_string()
}

/// Selects a window.
#[derive(Debug, Clone)]
pub enum WindowArgument {
    Class(String),
    InitialClass(String),
    Title(String),
    InitialTitle(String),
    Tag(String),
    Pid(i32),
    Address(String),
    ActiveWindow,
    Floating,
    Tiled,
}

impl Argument for WindowArgument {
    open spec fn arg(&self) -> Seq<char> {
        match self {
            WindowArgument::Class(s) => "class:"@ + s@,
            WindowArgument::InitialClass(s) => "initialclass:"@ + s@,
            WindowArgument::Title(s) => "title:"@ + s@,
            WindowArgument::InitialTitle(s) => "initialtitle:"@ + s@,
            WindowArgument::Tag(s) => "tag:"@ + s@,
            WindowArgument::Pid(p) => "pid:"@ + int_decimal(*p as int),
            WindowArgument::Address(s) => "address:"@ + s@,
            WindowArgument::ActiveWindow => "activewindow"@,
            WindowArgument::Floating => "floating"@,
            WindowArgument::Tiled => "tiled"@,
        }
    }

    fn to_argument_string(&self) -> (r: String) {
        match self {
            WindowArgument::Class(s) => concat_str("class:", s.as_str()),
            WindowArgument::InitialClass(s) => concat_str("initialclass:", s.as_str()),
            WindowArgument::Title(s) => concat_str("title:", s.as_str()),
            WindowArgument::InitialTitle(s) => concat_str("initialtitle:", s.as_str()),
            WindowArgument::Tag(s) => concat_str("tag:", s.as_str()),
            WindowArgument::Pid(p) => concat_str("pid:", i64_to_string(*p as i64).as_str()),
            WindowArgument::Address(s) => concat_str("address:", s.as_str()),
            WindowArgument::ActiveWindow => String::from_str("activewindow"),
            WindowArgument::Floating => String::from_str("floating"),
            WindowArgument::Tiled => String::from_str("tiled"),
        }
    }
}

/// A step relative to the current item, or an absolute position.
#[derive(Debug, Clone, Copy)]
pub enum RelAbs {
    Relative(i32),
    Absolute(u32),
}

impl Argument for RelAbs {
    open spec fn arg(&self) -> Seq<char> {
        match self {
            RelAbs::Relative(n) => if *n >= 0 {
                "+"@ + int_decimal(*n as int)
            } else {
                int_decimal(*n as int)
            },
            RelAbs::Absolute(n) => "~"@ + nat_decimal(*n as nat),
        }
    }

    fn to_argument_string(&self) -> (r: String) {
        match self {
            RelAbs::Relative(n) => {
                if *n >= 0 {
                    concat_str("+", i64_to_string(*n as i64).as_str())
                } else {
                    i64_to_string(*n as i64)
                }
            },
            RelAbs::Absolute(n) => concat_str("~", u64_to_string(*n as u64).as_str()),
        }
    }
}

/// Selects a workspace.
#[derive(Debug, Clone)]
pub enum WorkspaceArgument {
    ID(i64),
    RelativeID(i32),
    WorkspaceOnMonitor(RelAbs),
    WorkspaceOnMonitorWithEmpty(RelAbs),
    OpenWorkspace(RelAbs),
    Name(String),
    Previous,
    PreviousPerMonitor,
    Empty,
    EmptyOnMonitor,
    EmptyNext,
    EmptyNextOnMonitor,
    Special(Option<String>),
}

impl Argument for WorkspaceArgument {
    open spec fn arg(&self) -> Seq<char> {
        match self {
            WorkspaceArgument::ID(n) => int_decimal(*n as int),
            WorkspaceArgument::RelativeID(n) => RelAbs::Relative(*n).arg(),
            WorkspaceArgument::WorkspaceOnMonitor(r) => "m"@ + r.arg(),
            WorkspaceArgument::WorkspaceOnMonitorWithEmpty(r) => "r"@ + r.arg(),
            WorkspaceArgument::OpenWorkspace(r) => "e"@ + r.arg(),
            WorkspaceArgument::Name(s) => "name:"@ + s@,
            WorkspaceArgument::Previous => "previous"@,
            WorkspaceArgument::PreviousPerMonitor => "previous_per_monitor"@,
            WorkspaceArgument::Empty => "empty"@,
            WorkspaceArgument::EmptyOnMonitor => "emptym"@,
            WorkspaceArgument::EmptyNext => "emptyn"@,
            WorkspaceArgument::EmptyNextOnMonitor => "emptymn"@,
            WorkspaceArgument::Special(None) => "special"@,
            WorkspaceArgument::Special(Some(s)) => "special:"@ + s@,
        }
    }

    fn to_argument_string(&self) -> (r: String) {
        match self {
            WorkspaceArgument::ID(n) => i64_to_string(*n),
            WorkspaceArgument::RelativeID(n) => RelAbs::Relative(*n).to_argument_string(),
            WorkspaceArgument::WorkspaceOnMonitor(r) => concat_str(
                "m",
                r.to_argument_string().as_str(),
            ),
            WorkspaceArgument::WorkspaceOnMonitorWithEmpty(r) => concat_str(
                "r",
                r.to_argument_string().as_str(),
            ),
            WorkspaceArgument::OpenWorkspace(r) => concat_str("e", r.to_argument_string().as_str()),
            WorkspaceArgument::Name(s) => concat_str("name:", s.as_str()),
            WorkspaceArgument::Previous => String::from_str("previous"),
            WorkspaceArgument::PreviousPerMonitor => String::from_str("previous_per_monitor"),
            WorkspaceArgument::Empty => String::from_str("empty"),
            WorkspaceArgument::EmptyOnMonitor => String::from_str("emptym"),
            WorkspaceArgument::EmptyNext => String::from_str("emptyn"),
            WorkspaceArgument::EmptyNextOnMonitor => String::from_str("emptymn"),
            WorkspaceArgument::Special(None) => String::from_str("special"),
            WorkspaceArgument::Special(Some(s)) => concat_str("special:", s.as_str()),
        }
    }
}

/// One of the four directions.
#[derive(Debug, Clone, Copy)]
pub enum DirectionArgument {
    Left,
    Right,
    Up,
    Down,
}

impl Argument for DirectionArgument {
    open spec fn arg(&self) -> Seq<char> {
        match self {
            DirectionArgument::Left => "l"@,
            DirectionArgument::Right => "r"@,
            DirectionArgument::Up => "u"@,
            DirectionArgument::Down => "d"@,
        }
    }

    fn to_argument_string(&self) -> (r: String) {
        match self {
            DirectionArgument::Left => String::from_str("l"),
            DirectionArgument::Right => String::from_str("r"),
            DirectionArgument::Up => String::from_str("u"),
            DirectionArgument::Down => String::from_str("d"),
        }
    }
}

/// Selects a monitor.
#[derive(Debug, Clone)]
pub enum MonitorArgument {
    Direction(DirectionArgument),
    ID(i64),
    Name(String),
    Current,
    Relative(i32),
}

impl Argument for MonitorArgument {
    open spec fn arg(&self) -> Seq<char> {
        match self {
            MonitorArgument::Direction(d) => d.arg(),
            MonitorArgument::ID(n) => int_decimal(*n as int),
            MonitorArgument::Name(s) => s@,
            MonitorArgument::Current => "current"@,
            MonitorArgument::Relative(n) => RelAbs::Relative(*n).arg(),
        }
    }

    fn to_argument_string(&self) -> (r: String) {
        match self {
            MonitorArgument::Direction(d) => d.to_argument_string(),
            MonitorArgument::ID(n) => i64_to_string(*n),
            MonitorArgument::Name(s) => s.clone(),
            MonitorArgument::Current => String::from_str("current"),
            MonitorArgument::Relative(n) => RelAbs::Relative(*n).to_argument_string(),
        }
    }
}

/// A number of pixels, or a percentage.
#[derive(Debug, Clone, Copy)]
pub enum NumPercent {
    Number(i32),
    Percent(i32),
}

impl Argument for NumPercent {
    open spec fn arg(&self) -> Seq<char> {
        match self {
            NumPercent::Number(n) => int_decimal(*n as int),
            NumPercent::Percent(n) => int_decimal(*n as int) + "%"@,
        }
    }

    fn to_argument_string(&self) -> (r: String) {
        match self {
            NumPercent::Number(n) => i64_to_string(*n as i64),
            NumPercent::Percent(n) => {
                let mut s = i64_to_string(*n as i64);
                s.append("%");
                s
            },
        }
    }
}

/// A size or a move, by how much or to where.
#[derive(Debug, Clone, Copy)]
pub enum ResizeArgument {
    Relative(NumPercent, NumPercent),
    Exact(NumPercent, NumPercent),
}

/// `a`, a space, then `b`.
pub open spec fn spaced(a: Seq<char>, b: Seq<char>) -> Seq<char> {
    a + " "@ + b
}

fn spaced_str(a: &str, b: &str) -> (r: String)
    ensures
        r@ == spaced(a@, b@),
{
    let mut s = String::from_str(a);
    s.append(" ");
    s.append(b);
    s
}

impl Argument for ResizeArgument {
    open spec fn arg(&self) -> Seq<char> {
        match self {
            ResizeArgument::Relative(w, h) => spaced(w.arg(), h.arg()),
            ResizeArgument::Exact(w, h) => "exact "@ + spaced(w.arg(), h.arg()),
        }
    }

    fn to_argument_string(&self) -> (r: String) {
        match self {
            ResizeArgument::Relative(w, h) => spaced_str(
                w.to_argument_string().as_str(),
                h.to_argument_string().as_str(),
            ),
            ResizeArgument::Exact(w, h) => {
                let pair = spaced_str(
                    w.to_argument_string().as_str(),
                    h.to_argument_string().as_str(),
                );
                concat_str("exact ", pair.as_str())
            },
        }
    }
}

/// Which way to move a window in the stacking order.
#[derive(Debug, Clone, Copy)]
pub enum ZHeightArgument {
    Top,
    Bottom,
}

impl Argument for ZHeightArgument {
    open spec fn arg(&self) -> Seq<char> {
        match self {
            ZHeightArgument::Top => "top"@,
            ZHeightArgument::Bottom => "bottom"@,
        }
    }

    fn to_argument_string(&self) -> (r: String) {
        match self {
            ZHeightArgument::Top => String::from_str("top"),
            ZHeightArgument::Bottom => String::from_str("bottom"),
        }
    }
}

/// A modifier key.
#[derive(Debug, Clone, Copy)]
pub enum ModArgument {
    Shift,
    Caps,
    Ctrl,
    AltMod,
    Mod2,
    Mod3,
    Super,
    Mod5,
}

impl Argument for ModArgument {
    open spec fn arg(&self) -> Seq<char> {
        match self {
            ModArgument::Shift => "SHIFT"@,
            ModArgument::Caps => "CAPS"@,
            ModArgument::Ctrl => "CTRL"@,
            ModArgument::AltMod => "ALT"@,
            ModArgument::Mod2 => "MOD2"@,
            ModArgument::Mod3 => "MOD3"@,
            ModArgument::Super => "SUPER"@,
            ModArgument::Mod5 => "MOD5"@,
        }
    }

    fn to_argument_string(&self) -> (r: String) {
        match self {
            ModArgument::Shift => String::from_str("SHIFT"),
            ModArgument::Caps => String::from_str("CAPS"),
            ModArgument::Ctrl => String::from_str("CTRL"),
            ModArgument::AltMod => String::from_str("ALT"),
            ModArgument::Mod2 => String::from_str("MOD2"),
            ModArgument::Mod3 => String::from_str("MOD3"),
            ModArgument::Super => String::from_str("SUPER"),
            ModArgument::Mod5 => String::from_str("MOD5"),
        }
    }
}

/// A key: a character, a key code or a mouse button.
#[derive(Debug, Clone, Copy)]
pub enum KeyArgument {
    Char(char),
    Code(u32),
    Mouse(u32),
}

impl Argument for KeyArgument {
    open spec fn arg(&self) -> Seq<char> {
        match self {
            KeyArgument::Char(c) => seq![*c],
            KeyArgument::Code(n) => "code:"@ + nat_decimal(*n as nat),
            KeyArgument::Mouse(n) => "mouse:"@ + nat_decimal(*n as nat),
        }
    }

    fn to_argument_string(&self) -> (r: String) {
        match self {
            KeyArgument::Char(c) => char_string(*c),
            KeyArgument::Code(n) => concat_str("code:", u64_to_string(*n as u64).as_str()),
            KeyArgument::Mouse(n) => concat_str("mouse:", u64_to_string(*n as u64).as_str()),
        }
    }
}

impl Argument for bool {
    open spec fn arg(&self) -> Seq<char> {
        if *self {
            "1"@
        } else {
            "0"@
        }
    }

    fn to_argument_string(&self) -> (r: String) {
        if *self {
            String::from_str("1")
        } else {
            String::from_str("0")
        }
    }
}

impl Argument for i32 {
    open spec fn arg(&self) -> Seq<char> {
        int_decimal(*self as int)
    }

    fn to_argument_string(&self) -> (r: String) {
        i64_to_string(*self as i64)
    }
}

impl Argument for String {
    open spec fn arg(&self) -> Seq<char> {
        self@
    }

    fn to_argument_string(&self) -> (r: String) {
        self.clone()
    }
}

/// Which windows `cyclenext` goes through.
#[derive(Debug, Clone, Copy)]
pub struct CycleNextArguments {
    pub use_focus_history: bool,
    pub visible: bool,
    pub floating: bool,
    pub tiled: bool,
}

impl CycleNextArguments {
    pub fn new(tiled: bool, floating: bool, visible: bool, use_focus_history: bool) -> (r: Self)
        ensures
            r.tiled == tiled,
            r.floating == floating,
            r.visible == visible,
            r.use_focus_history == use_focus_history,
    {
        CycleNextArguments { tiled, floating, visible, use_focus_history }
    }

    pub fn with_all_off() -> (r: Self)
        ensures
            !r.tiled && !r.floating && !r.visible && !r.use_focus_history,
    {
        Self::new(false, false, false, false)
    }
}

impl Default for CycleNextArguments {
    fn default() -> (r: Self)
        ensures
            !r.tiled && !r.floating && !r.visible && !r.use_focus_history,
    {
        Self::with_all_off()
    }
}

/// `s` when `cond` holds, else the empty string.
pub fn str_if(cond: bool, s: &str) -> (r: &str)
    ensures
        r@ == (if cond {
            s@
        } else {
            Seq::<char>::empty()
        }),
{
    proof {
        reveal_strlit("");
    }
    if cond {
        s
    } else {
        ""
    }
}

/// Adds the word `w` to the space-joined words in `s`.
fn push_word(s: &mut String, w: &str)
    ensures
        final(s)@ == join_step(old(s)@, w@, " "@),
{
    if w.unicode_len() > 0 {
        if s.as_str().unicode_len() > 0 {
            s.append(" ");
        }
        s.append(w);
    }
}

impl Argument for CycleNextArguments {
    open spec fn arg(&self) -> Seq<char> {
        joined(
            seq![
                if self.visible { "visible"@ } else { Seq::empty() },
                if self.floating { "floating"@ } else { Seq::empty() },
                if self.tiled { "tiled"@ } else { Seq::empty() },
                if self.use_focus_history { "hist"@ } else { Seq::empty() },
            ],
            " "@,
        )
    }

    fn to_argument_string(&self) -> (r: String) {
        let a = str_if(self.visible, "visible");
        let b = str_if(self.floating, "floating");
        let c = str_if(self.tiled, "tiled");
        let d = str_if(self.use_focus_history, "hist");
        let mut s = String::new();
        push_word(&mut s, a);
        push_word(&mut s, b);
        push_word(&mut s, c);
        push_word(&mut s, d);
        proof {
            let w = seq![a@, b@, c@, d@];
            assert(w.drop_last() =~= seq![a@, b@, c@]);
            assert(w.drop_last().drop_last() =~= seq![a@, b@]);
            assert(w.drop_last().drop_last().drop_last() =~= seq![a@]);
            assert(seq![a@].drop_last() =~= Seq::<Seq<char>>::empty());
            reveal_with_fuel(joined, 5);
        }
        s
    }
}

/// Sets, clears or toggles a tag.
#[derive(Debug, Clone)]
pub enum TagArgument {
    SetTag(String),
    Unset(String),
    Toggle(String),
}

impl Argument for TagArgument {
    open spec fn arg(&self) -> Seq<char> {
        match self {
            TagArgument::SetTag(t) => "+"@ + t@,
            TagArgument::Unset(t) => "-"@ + t@,
            TagArgument::Toggle(t) => t@,
        }
    }

    fn to_argument_string(&self) -> (r: String) {
        match self {
            TagArgument::SetTag(t) => concat_str("+", t.as_str()),
            TagArgument::Unset(t) => concat_str("-", t.as_str()),
            TagArgument::Toggle(t) => t.clone(),
        }
    }
}

/// A corner of the window, numbered as the protocol numbers them.
#[derive(Debug, Clone, Copy)]
pub enum CornerArgument {
    BottomLeft,
    BottomRight,
    TopRight,
    TopLeft,
}

impl Argument for CornerArgument {
    open spec fn arg(&self) -> Seq<char> {
        match self {
            CornerArgument::BottomLeft => "0"@,
            CornerArgument::BottomRight => "1"@,
            CornerArgument::TopRight => "2"@,
            CornerArgument::TopLeft => "3"@,
        }
    }

    fn to_argument_string(&self) -> (r: String) {
        match self {
            CornerArgument::BottomLeft => String::from_str("0"),
            CornerArgument::BottomRight => String::from_str("1"),
            CornerArgument::TopRight => String::from_str("2"),
            CornerArgument::TopLeft => String::from_str("3"),
        }
    }
}

/// The lower-case hexadecimal digit for `d`.
pub open spec fn hex_digit(d: int) -> char {
    if d < 10 {
        crate::text::digit_char(d)
    } else if d == 10 {
        'a'
    } else if d == 11 {
        'b'
    } else if d == 12 {
        'c'
    } else if d == 13 {
        'd'
    } else if d == 14 {
        'e'
    } else {
        'f'
    }
}

/// `b` as two lower-case hexadecimal digits.
pub open spec fn hex_byte(b: u8) -> Seq<char> {
    seq![hex_digit(b as int / 16), hex_digit(b as int % 16)]
}

fn hex_digit_str(d: u8) -> (r: &'static str)
    requires
        d < 16,
    ensures
        r@ == seq![hex_digit(d as int)],
{
    proof {
        reveal_strlit("0");
        reveal_strlit("1");
        reveal_strlit("2");
        reveal_strlit("3");
        reveal_strlit("4");
        reveal_strlit("5");
        reveal_strlit("6");
        reveal_strlit("7");
        reveal_strlit("8");
        reveal_strlit("9");
        reveal_strlit("a");
        reveal_strlit("b");
        reveal_strlit("c");
        reveal_strlit("d");
        reveal_strlit("e");
        reveal_strlit("f");
    }
    let r = match d {
        0 => "0",
        1 => "1",
        2 => "2",
        3 => "3",
        4 => "4",
        5 => "5",
        6 => "6",
        7 => "7",
        8 => "8",
        9 => "9",
        10 => "a",
        11 => "b",
        12 => "c",
        13 => "d",
        14 => "e",
        _ => "f",
    };
    assert(r@ =~= seq![hex_digit(d as int)]);
    r
}

fn push_hex_byte(s: &mut String, b: u8)
    ensures
        final(s)@ == old(s)@ + hex_byte(b),
{
    s.append(hex_digit_str(b / 16));
    s.append(hex_digit_str(b % 16));
    assert(final(s)@ =~= old(s)@ + hex_byte(b));
}

/// A colour, written `rgba(rrggbbaa)`.
#[derive(Debug, Clone)]
pub struct ColorArgument {
    hex_str: String,
}

impl ColorArgument {
    pub fn new(r: u8, g: u8, b: u8, a: u8) -> (c: Self)
        ensures
            c.arg() == "rgba("@ + hex_byte(r) + hex_byte(g) + hex_byte(b) + hex_byte(a) + ")"@,
    {
        let mut s = String::from_str("rgba(");
        push_hex_byte(&mut s, r);
        push_hex_byte(&mut s, g);
        push_hex_byte(&mut s, b);
        push_hex_byte(&mut s, a);
        s.append(")");
        ColorArgument { hex_str: s }
    }
}

impl Argument for ColorArgument {
    closed spec fn arg(&self) -> Seq<char> {
        self.hex_str@
    }

    fn to_argument_string(&self) -> (r: String) {
        self.hex_str.clone()
    }
}

/// The icon of a notification.
#[derive(Debug, Clone)]
pub enum NotifyIconArgument {
    NoIcon,
    Warning,
    Info,
    Hint,
    Error,
    Confused,
    Success,
}

impl Argument for NotifyIconArgument {
    open spec fn arg(&self) -> Seq<char> {
        match self {
            NotifyIconArgument::NoIcon => "-1"@,
            NotifyIconArgument::Warning => "0"@,
            NotifyIconArgument::Info => "1"@,
            NotifyIconArgument::Hint => "2"@,
            NotifyIconArgument::Error => "3"@,
            NotifyIconArgument::Confused => "4"@,
            NotifyIconArgument::Success => "5"@,
        }
    }

    fn to_argument_string(&self) -> (r: String) {
        match self {
            NotifyIconArgument::NoIcon => String::from_str("-1"),
            NotifyIconArgument::Warning => String::from_str("0"),
            NotifyIconArgument::Info => String::from_str("1"),
            NotifyIconArgument::Hint => String::from_str("2"),
            NotifyIconArgument::Error => String::from_str("3"),
            NotifyIconArgument::Confused => String::from_str("4"),
            NotifyIconArgument::Success => String::from_str("5"),
        }
    }
}

/// Whether a monitor query lists every monitor or only the active ones.
pub enum MonitorsDataArgument {
    All,
    JustActive,
}

impl Argument for MonitorsDataArgument {
    open spec fn arg(&self) -> Seq<char> {
        match self {
            MonitorsDataArgument::All => "all"@,
            MonitorsDataArgument::JustActive => Seq::empty(),
        }
    }

    fn to_argument_string(&self) -> (r: String) {
        match self {
            MonitorsDataArgument::All => String::from_str("all"),
            MonitorsDataArgument::JustActive => String::new(),
        }
    }
}

/// Which member of a group becomes active.
pub enum ChangeGroupActiveArgument {
    Index(i32),
    Back,
    Forward,
}

impl Argument for ChangeGroupActiveArgument {
    open spec fn arg(&self) -> Seq<char> {
        match self {
            ChangeGroupActiveArgument::Index(i) => int_decimal(*i as int),
            ChangeGroupActiveArgument::Back => "b"@,
            ChangeGroupActiveArgument::Forward => "f"@,
        }
    }

    fn to_argument_string(&self) -> (r: String) {
        match self {
            ChangeGroupActiveArgument::Index(i) => i64_to_string(*i as i64),
            ChangeGroupActiveArgument::Back => String::from_str("b"),
            ChangeGroupActiveArgument::Forward => String::from_str("f"),
        }
    }
}

/// Locks, unlocks or toggles the lock of groups.
pub enum LockGroupArgument {
    Lock,
    Unlock,
    Toggle,
}

impl Argument for LockGroupArgument {
    open spec fn arg(&self) -> Seq<char> {
        match self {
            LockGroupArgument::Lock => "lock"@,
            LockGroupArgument::Unlock => "unlock"@,
            LockGroupArgument::Toggle => "toggle"@,
        }
    }

    fn to_argument_string(&self) -> (r: String) {
        match self {
            LockGroupArgument::Lock => String::from_str("lock"),
            LockGroupArgument::Unlock => String::from_str("unlock"),
            LockGroupArgument::Toggle => String::from_str("toggle"),
        }
    }
}

/// Turns a setting on, off, or over.
pub enum BoolChangeArgument {
    On,
    Off,
    Toggle,
}

impl Argument for BoolChangeArgument {
    open spec fn arg(&self) -> Seq<char> {
        match self {
            BoolChangeArgument::On => "on"@,
            BoolChangeArgument::Off => "off"@,
            BoolChangeArgument::Toggle => "toggle"@,
        }
    }

    fn to_argument_string(&self) -> (r: String) {
        match self {
            BoolChangeArgument::On => String::from_str("on"),
            BoolChangeArgument::Off => String::from_str("off"),
            BoolChangeArgument::Toggle => String::from_str("toggle"),
        }
    }
}

/// How full-screen a window is.
#[derive(Debug, Clone, Copy, PartialEq, Eq, Structural)]
pub enum FullscreenState {
    NoFullscreen,
    Maximized,
    Fullscreen,
    Max,
}

impl Argument for FullscreenState {
    open spec fn arg(&self) -> Seq<char> {
        match self {
            FullscreenState::NoFullscreen => "0"@,
            FullscreenState::Maximized => "1"@,
            FullscreenState::Fullscreen => "2"@,
            FullscreenState::Max => "3"@,
        }
    }

    fn to_argument_string(&self) -> (r: String) {
        match self {
            FullscreenState::NoFullscreen => String::from_str("0"),
            FullscreenState::Maximized => String::from_str("1"),
            FullscreenState::Fullscreen => String::from_str("2"),
            FullscreenState::Max => String::from_str("3"),
        }
    }
}

} // verus!
