//! Commands for the control socket: how one command or a batch of them is
//! framed, and how the compositor's answer becomes success or errors.
use vstd::prelude::*;

use crate::arguments::{Argument, DirectionArgument, MonitorArgument};
use crate::errors::{CommandError, HyprlandError};
use crate::events::string_views;
use crate::text::{chars_of, joined, str_equal, views_of};

verus! {

/// Whether a command is a dispatcher, sent after the word `dispatch`, or a
/// verb of the protocol itself, sent as it is.
#[derive(Clone, Copy, Debug, PartialEq, Eq, Structural)]
pub enum CommandType {
    DispatchCommand,
    DirectCommand,
}

/// What is sent before a command of type `t`.
pub open spec fn prefix_of(t: CommandType) -> Seq<char> {
    match t {
        CommandType::DispatchCommand => "dispatch "@,
        CommandType::DirectCommand => Seq::empty(),
    }
}

/// One action for the compositor: its text and its type.
#[derive(Clone, Debug)]
pub struct Command {
    kind: CommandType,
    text: String,
}

/// A command as contracts see it.
pub struct CommandView {
    pub kind: CommandType,
    pub text: Seq<char>,
}

impl CommandView {
    /// What goes on the wire for this command.
    pub open spec fn message(self) -> Seq<char> {
        prefix_of(self.kind) + self.text
    }
}

impl View for Command {
    type V = CommandView;

    closed spec fn view(&self) -> CommandView {
        CommandView { kind: self.kind, text: self.text@ }
    }
}

impl Command {
    /// A command sent exactly as `cmd` reads.
    pub fn new(cmd: String) -> (r: Self)
        ensures
            r@ == (CommandView { kind: CommandType::DirectCommand, text: cmd@ }),
    {
        Command { kind: CommandType::DirectCommand, text: cmd }
    }

    /// A dispatcher: `action` is sent after the word `dispatch`.
    pub fn dispatch(action: String) -> (r: Self)
        ensures
            r@ == (CommandView { kind: CommandType::DispatchCommand, text: action@ }),
    {
        Command { kind: CommandType::DispatchCommand, text: action }
    }

    /// The command's text, without what its type puts before it.
    pub fn get_command(&self) -> (r: &str)
        ensures
            r@ == self@.text,
    {
        self.text.as_str()
    }

    pub fn get_type(&self) -> (r: CommandType)
        ensures
            r == self@.kind,
    {
        self.kind
    }

    /// What is written to the control socket for this command alone.
    pub fn get_message(&self) -> (r: String)
        ensures
            r@ == self@.message(),
    {
        let mut s = String::from_str(get_command_prefix(self));
        s.append(self.text.as_str());
        s
    }
}

/// What is sent before `cmd`: `dispatch ` for a dispatcher, nothing otherwise.
pub fn get_command_prefix(cmd: &Command) -> (r: &'static str)
    ensures
        r@ == prefix_of(cmd@.kind),
{
    proof {
        reveal_strlit("");
    }
    match cmd.kind {
        CommandType::DispatchCommand => "dispatch ",
        CommandType::DirectCommand => "",
    }
}

pub open spec fn command_views(cs: Seq<Command>) -> Seq<CommandView> {
    cs.map_values(|c: Command| c@)
}

/// Each command's message followed by `;`, in order.
pub open spec fn batch_body(cs: Seq<CommandView>) -> Seq<char>
    decreases cs.len(),
{
    if cs.len() == 0 {
        Seq::empty()
    } else {
        batch_body(cs.drop_last()) + cs.last().message() + ";"@
    }
}

/// The one message that sends all of `cs` at once.
pub open spec fn batch_of(cs: Seq<CommandView>) -> Seq<char> {
    "/[[BATCH]]"@ + batch_body(cs)
}

/// The message that sends every command of `recipe` in one round trip, in order.
pub fn get_batch_from_recipe(recipe: &[Command]) -> (r: String)
    ensures
        r@ == batch_of(command_views(recipe@)),
{
    let ghost cs = command_views(recipe@);
    let mut full = String::from_str("/[[BATCH]]");
    let mut i: usize = 0;
    while i < recipe.len()
        invariant
            i <= recipe@.len(),
            cs == command_views(recipe@),
            full@ == "/[[BATCH]]"@ + batch_body(cs.take(i as int)),
        decreases recipe@.len() - i,
    {
        let c = &recipe[i];
        full.append(get_command_prefix(c));
        full.append(c.text.as_str());
        full.append(";");
        assert(cs.take(i + 1).drop_last() =~= cs.take(i as int));
        assert(full@ =~= "/[[BATCH]]"@ + batch_body(cs.take(i + 1)));
        i = i + 1;
    }
    assert(cs.take(i as int) =~= cs);
    full
}

/// The answer that means success.
pub open spec fn is_success(resp: Seq<char>) -> bool {
    resp == "ok"@
}

/// Turns the compositor's answer to one command into success or an error:
/// `ok` succeeds, any other answer is a rejection carrying it verbatim, and
/// a failure to talk to the socket stays what it was.
pub fn check_hyprland_response(resp: Result<String, std::io::Error>) -> (r: Result<(), CommandError>)
    ensures
        resp matches Ok(s) ==> (r is Ok <==> is_success(s@)),
        resp matches Ok(s) ==> (!is_success(s@) ==> (r matches Err(CommandError::HyprlandError(h))
            && h@ == s@)),
        resp matches Err(e) ==> r == Err::<(), CommandError>(CommandError::IOError(e)),
{
    match resp {
        Ok(s) => {
            if str_equal(s.as_str(), "ok") {
                Ok(())
            } else {
                Err(CommandError::HyprlandError(HyprlandError::new(s)))
            }
        },
        Err(e) => Err(CommandError::IOError(e)),
    }
}

/// Whether a triple newline starts at `i` in `s`.
pub open spec fn separator_at(s: Seq<char>, i: int) -> bool {
    0 <= i && i + 3 <= s.len() && s[i] == '\n' && s[i + 1] == '\n' && s[i + 2] == '\n'
}

/// The pieces of `s` from `start` on, between triple newlines, looking for
/// the next one from `i`; each match is taken left to right and none overlap.
pub open spec fn segments_from(s: Seq<char>, start: int, i: int) -> Seq<Seq<char>>
    decreases s.len() - i,
{
    if i < 0 || i + 3 > s.len() {
        seq![s.subrange(start, s.len() as int)]
    } else if separator_at(s, i) {
        seq![s.subrange(start, i)] + segments_from(s, i + 3, i + 3)
    } else {
        segments_from(s, start, i + 1)
    }
}

/// The answers to the commands of a batch, in order: the response cut at
/// every triple newline.
pub open spec fn response_segments(s: Seq<char>) -> Seq<Seq<char>> {
    segments_from(s, 0, 0)
}

/// The answers among `segs` that are not success, in order.
pub open spec fn rejections(segs: Seq<Seq<char>>) -> Seq<Seq<char>>
    decreases segs.len(),
{
    if segs.len() == 0 {
        Seq::empty()
    } else if is_success(segs.last()) {
        rejections(segs.drop_last())
    } else {
        rejections(segs.drop_last()).push(segs.last())
    }
}

/// Whether `errs` are the rejections `rej`, one for one and in order.
pub open spec fn are_rejections(errs: Seq<CommandError>, rej: Seq<Seq<char>>) -> bool {
    &&& errs.len() == rej.len()
    &&& forall|i: int|
        0 <= i < errs.len() ==> (#[trigger] errs[i] matches CommandError::HyprlandError(h) && h@
            == rej[i])
}

/// The answers of a batch response, cut at every triple newline.
fn split_response<'a>(body: &'a str) -> (r: Vec<&'a str>)
    ensures
        views_of(r@) == response_segments(body@),
{
    let v = chars_of(body);
    let n = v.len();
    let mut pieces: Vec<&'a str> = Vec::new();
    let mut start: usize = 0;
    let mut i: usize = 0;
    while n >= 3 && i <= n - 3
        invariant
            v@ == body@,
            n == v@.len(),
            start <= i,
            i <= n,
            views_of(pieces@) + segments_from(v@, start as int, i as int) == response_segments(
                v@,
            ),
        decreases n - i,
    {
        if v[i] == '\n' && v[i + 1] == '\n' && v[i + 2] == '\n' {
            let ghost before = pieces@;
            let piece = body.substring_char(start, i);
            pieces.push(piece);
            assert(views_of(pieces@) =~= views_of(before).push(piece@));
            assert(views_of(pieces@) + segments_from(v@, i + 3, i + 3) =~= views_of(before)
                + segments_from(v@, start as int, i as int));
            start = i + 3;
            i = i + 3;
        } else {
            i = i + 1;
        }
    }
    let ghost before = pieces@;
    let piece = body.substring_char(start, n);
    pieces.push(piece);
    assert(views_of(pieces@) =~= views_of(before) + segments_from(v@, start as int, i as int));
    pieces
}

/// Turns the compositor's answer to a batch into success or the list of
/// rejections, in the order of the commands that caused them; a failure to
/// talk to the socket is the one error.
pub fn check_recipe_response(resp: Result<String, std::io::Error>) -> (r: Result<(), Vec<CommandError>>)
    ensures
        resp matches Ok(s) ==> (r is Ok <==> rejections(response_segments(s@)).len() == 0),
        resp matches Ok(s) ==> (r matches Err(errs) ==> are_rejections(
            errs@,
            rejections(response_segments(s@)),
        )),
        resp matches Err(e) ==> (r matches Err(errs) && errs@ == seq![CommandError::IOError(e)]),
{
    match resp {
        Err(e) => {
            let errs = vec![CommandError::IOError(e)];
            assert(errs@ =~= seq![CommandError::IOError(e)]);
            Err(errs)
        },
        Ok(s) => {
            let pieces = split_response(s.as_str());
            let ghost segs = views_of(pieces@);
            let mut errs: Vec<CommandError> = Vec::new();
            let mut i: usize = 0;
            while i < pieces.len()
                invariant
                    i <= pieces@.len(),
                    segs == views_of(pieces@),
                    are_rejections(errs@, rejections(segs.take(i as int))),
                decreases pieces@.len() - i,
            {
                assert(segs.take(i + 1).drop_last() =~= segs.take(i as int));
                let piece = pieces[i];
                if !str_equal(piece, "ok") {
                    let ghost before = errs@;
                    errs.push(CommandError::HyprlandError(HyprlandError::new(piece.to_owned())));
                    proof {
                        let rej = rejections(segs.take(i + 1));
                        assert forall|j: int| 0 <= j < errs@.len() implies (
                        #[trigger] errs@[j] matches CommandError::HyprlandError(h) && h@ == rej[j]) by {
                            if j < before.len() {
                                assert(errs@[j] == before[j]);
                            }
                        }
                    }
                }
                i = i + 1;
            }
            assert(segs.take(i as int) =~= segs);
            if errs.len() == 0 {
                Ok(())
            } else {
                Err(errs)
            }
        },
    }
}

/// The text of `action` with `args`: the action, then a space and the
/// arguments that are not empty joined by `sep`, when there are any.
pub open spec fn with_args(action: Seq<char>, args: Seq<Seq<char>>, sep: Seq<char>) -> Seq<char> {
    if joined(args, sep).len() == 0 {
        action
    } else {
        action + " "@ + joined(args, sep)
    }
}

/// The command of type `kind` that performs `action` with `args`.
pub fn command_with_args(kind: CommandType, action: &str, args: &Vec<String>, sep: &str) -> (r: Command)
    ensures
        r@ == (CommandView { kind, text: with_args(action@, string_views(args@), sep@) }),
{
    let ghost a = string_views(args@);
    let mut text = String::from_str(action);
    let mut started = false;
    let mut i: usize = 0;
    while i < args.len()
        invariant
            i <= args@.len(),
            a == string_views(args@),
            started == (joined(a.take(i as int), sep@).len() > 0),
            text@ == with_args(action@, a.take(i as int), sep@),
        decreases args@.len() - i,
    {
        assert(a.take(i + 1).drop_last() =~= a.take(i as int));
        let arg = args[i].as_str();
        if arg.unicode_len() > 0 {
            if started {
                text.append(sep);
            } else {
                text.append(" ");
            }
            text.append(arg);
            started = true;
        }
        assert(text@ =~= with_args(action@, a.take(i + 1), sep@));
        i = i + 1;
    }
    assert(a.take(i as int) =~= a);
    Command { kind, text }
}

proof fn lemma_segments_skip(s: Seq<char>, start: int, i: int, j: int)
    requires
        0 <= i <= j,
        forall|k: int| i <= k < j && k < s.len() ==> s[k] != '\n',
    ensures
        segments_from(s, start, i) == segments_from(s, start, j),
    decreases j - i,
{
    if i < j {
        if i + 3 <= s.len() {
            assert(s[i] != '\n');
            lemma_segments_skip(s, start, i + 1, j);
        } else {
            lemma_segments_skip(s, start, i + 1, j);
        }
    }
}

/// A batch of three commands whose answers are `ok`, then a rejection `m`
/// that holds no newline, then `ok`, gives exactly the one rejection `m`:
/// the first and third commands count as successful.
pub proof fn lemma_second_of_three_rejected(m: Seq<char>)
    requires
        !is_success(m),
        forall|k: int| 0 <= k < m.len() ==> m[k] != '\n',
    ensures
        ({
            let sep = seq!['\n', '\n', '\n'];
            rejections(response_segments("ok"@ + sep + m + sep + "ok"@)) == seq![m]
        }),
{
    reveal_strlit("ok");
    let sep = seq!['\n', '\n', '\n'];
    let s = "ok"@ + sep + m + sep + "ok"@;
    let l = m.len() as int;
    assert(s.len() == 10 + l);
    assert(s[0] == 'o' && s[1] == 'k');
    assert(separator_at(s, 2));
    lemma_segments_skip(s, 0, 0, 2);
    assert forall|k: int| 5 <= k < 5 + l && k < s.len() implies s[k] != '\n' by {
        assert(s[k] == m[k - 5]);
    }
    lemma_segments_skip(s, 5, 5, 5 + l);
    assert(separator_at(s, 5 + l));
    assert(segments_from(s, 8 + l, 8 + l) == seq![s.subrange(8 + l, 10 + l)]);
    assert(s.subrange(0, 2) =~= "ok"@);
    assert(s.subrange(5, 5 + l) =~= m);
    assert(s.subrange(8 + l, 10 + l) =~= "ok"@);
    let segs = response_segments(s);
    assert(segs =~= seq!["ok"@, m, "ok"@]);
    assert(segs.drop_last() =~= seq!["ok"@, m]);
    assert(segs.drop_last().drop_last() =~= seq!["ok"@]);
    assert(segs.drop_last().drop_last().drop_last() =~= Seq::<Seq<char>>::empty());
    let one = segs.drop_last().drop_last();
    let two = segs.drop_last();
    assert(rejections(one.drop_last()) == Seq::<Seq<char>>::empty());
    assert(is_success(one.last()));
    assert(rejections(one) == Seq::<Seq<char>>::empty());
    assert(two.last() == m);
    assert(rejections(two) == Seq::<Seq<char>>::empty().push(m));
    assert(is_success(segs.last()));
    assert(rejections(segs) == rejections(two));
    assert(rejections(segs) =~= seq![m]);
}

/// One of two things.
#[derive(Debug, Clone)]
pub enum Either<T, U> {
    First(T),
    Second(U),
}

/// The text of `movewindow` towards `target`, silent or not.
pub open spec fn move_window_text(target: Seq<char>, silent: bool) -> Seq<char> {
    if silent {
        "movewindow "@ + target + " silent"@
    } else {
        "movewindow "@ + target
    }
}

fn move_window_command(target: String, silent: bool) -> (r: Command)
    ensures
        r@ == (CommandView {
            kind: CommandType::DispatchCommand,
            text: move_window_text(target@, silent),
        }),
{
    let mut s = String::from_str("movewindow ");
    s.append(target.as_str());
    if silent {
        s.append(" silent");
    }
    Command::dispatch(s)
}

/// Moves the active window in `direction`, or swaps it with the window there.
pub fn move_window_in_direction(direction: DirectionArgument, silent: bool) -> (r: Command)
    ensures
        r@ == (CommandView {
            kind: CommandType::DispatchCommand,
            text: move_window_text(direction.arg(), silent),
        }),
{
    move_window_command(direction.to_argument_string(), silent)
}

/// Moves the active window to `monitor`.
pub fn move_window_to_monitor(monitor: MonitorArgument, silent: bool) -> (r: Command)
    ensures
        r@ == (CommandView {
            kind: CommandType::DispatchCommand,
            text: move_window_text("mon:"@ + monitor.arg(), silent),
        }),
{
    let target = crate::arguments::concat_str("mon:", monitor.to_argument_string().as_str());
    move_window_command(target, silent)
}

/// A window move, towards a direction or to a monitor.
#[derive(Debug, Clone)]
pub struct MoveWindow {
    pub what: Either<DirectionArgument, MonitorArgument>,
    pub silent: bool,
}

impl MoveWindow {
    pub fn with_direction(direction: DirectionArgument, silent: bool) -> (r: Self)
        ensures
            r.what matches Either::First(d) && d == direction,
            r.silent == silent,
    {
        MoveWindow { what: Either::First(direction), silent }
    }

    pub fn with_monitor(monitor: MonitorArgument, silent: bool) -> (r: Self)
        ensures
            r.what matches Either::Second(m) && m == monitor,
            r.silent == silent,
    {
        MoveWindow { what: Either::Second(monitor), silent }
    }

    /// The command that performs this move.
    pub fn to_command(&self) -> (r: Command)
        ensures
            r@ == (CommandView {
                kind: CommandType::DispatchCommand,
                text: match self.what {
                    Either::First(d) => move_window_text(d.arg(), self.silent),
                    Either::Second(m) => move_window_text("mon:"@ + m.arg(), self.silent),
                },
            }),
    {
        match &self.what {
            Either::First(d) => move_window_in_direction(*d, self.silent),
            Either::Second(m) => {
                let target = crate::arguments::concat_str("mon:", m.to_argument_string().as_str());
                move_window_command(target, self.silent)
            },
        }
    }
}

/// Sets a configuration variable until the configuration is next loaded.
#[derive(Debug, Clone)]
pub struct SetConfigValue {
    pub variable: String,
    pub value: String,
}

impl SetConfigValue {
    pub fn new(variable: String, value: String) -> (r: Self)
        ensures
            r.variable@ == variable@,
            r.value@ == value@,
    {
        SetConfigValue { variable, value }
    }

    /// The command `keyword <variable> <value>`.
    pub fn to_command(&self) -> (r: Command)
        ensures
            r@ == (CommandView {
                kind: CommandType::DirectCommand,
                text: "keyword "@ + self.variable@ + " "@ + self.value@,
            }),
    {
        let mut s = String::from_str("keyword ");
        s.append(self.variable.as_str());
        s.append(" ");
        s.append(self.value.as_str());
        Command::new(s)
    }
}

} // verus!
