//! Decoding one line of the event protocol, `name>>field,field,...`, into an event.
use vstd::prelude::*;

use crate::events::{
    lemma_name_of_type, string_views, type_of_name, EventModel, FieldKind, FieldValue,
    HyprlandEvent, HyprlandEventType,
};
use crate::filter::{EventFilter, FilterView};
use crate::text::{
    chars_of, delimiter, find_delimiter, parse_i64, parse_int, split_commas, split_on, trim_end,
    trimmed_end, views_of,
};

verus! {

/// Why a line gave no event.
#[derive(Clone, Copy, Debug, PartialEq, Eq, Structural)]
pub enum ParseError {
    /// The line has no `>>` between the name and the payload.
    MalformedEvent,
    /// The filter does not let the event's name pass.
    FilteredOut,
    /// A field that the event's kind needs is missing, or is not of its type.
    InvalidField,
}

/// Whether field `i` of `argv` can be read as `k`.
pub open spec fn field_fits(k: FieldKind, argv: Seq<Seq<char>>, i: int) -> bool {
    match k {
        FieldKind::Text => 0 <= i < argv.len(),
        FieldKind::Int => 0 <= i < argv.len() && parse_int(argv[i]) is Some,
        FieldKind::Flag => 0 <= i < argv.len() && argv[i].len() > 0,
        FieldKind::Rest => 0 <= i <= argv.len(),
    }
}

/// Field `i` of `argv` read as `k`.
pub open spec fn field_value(k: FieldKind, argv: Seq<Seq<char>>, i: int) -> FieldValue {
    match k {
        FieldKind::Text => FieldValue::Text(argv[i]),
        FieldKind::Int => FieldValue::Int(parse_int(argv[i])->0),
        FieldKind::Flag => FieldValue::Flag(argv[i][0] == '1'),
        FieldKind::Rest => FieldValue::Texts(argv.skip(i)),
    }
}

/// Whether `argv` has every field of the shape `ks`.
pub open spec fn fields_fit(ks: Seq<FieldKind>, argv: Seq<Seq<char>>) -> bool {
    forall|i: int| 0 <= i < ks.len() ==> field_fits(#[trigger] ks[i], argv, i)
}

/// The fields of `argv` read by the shape `ks`.
pub open spec fn field_values(ks: Seq<FieldKind>, argv: Seq<Seq<char>>) -> Seq<FieldValue> {
    Seq::new(ks.len(), |i: int| field_value(ks[i], argv, i))
}

/// The event that `payload` gives for an event named `name`: a known kind
/// reads its fields from the comma-separated payload, any other name gives
/// `Custom` with the payload verbatim.
pub open spec fn decode_payload(name: Seq<char>, payload: Seq<char>) -> Result<EventModel, ParseError> {
    match type_of_name(name) {
        Some(t) if t != HyprlandEventType::Custom => {
            let argv = split_on(payload, ',');
            if fields_fit(t.kinds(), argv) {
                Ok(EventModel { kind: t, fields: field_values(t.kinds(), argv) })
            } else {
                Err(ParseError::InvalidField)
            }
        },
        _ => Ok(EventModel { kind: HyprlandEventType::Custom, fields: seq![FieldValue::Text(payload)] }),
    }
}

/// The name part of a line: what stands before the first `>>`.
pub open spec fn line_name(line: Seq<char>) -> Seq<char> {
    line.take(delimiter(line)->0)
}

/// The payload part of a line: what follows the first `>>`, without trailing
/// whitespace.
pub open spec fn line_payload(line: Seq<char>) -> Seq<char> {
    trim_end(line.skip(delimiter(line)->0 + 2))
}

/// What decoding `line` through `filter` gives.
pub open spec fn decode_line(line: Seq<char>, filter: FilterView) -> Result<EventModel, ParseError> {
    if delimiter(line) is None {
        Err(ParseError::MalformedEvent)
    } else if !filter.accepts(line_name(line)) {
        Err(ParseError::FilteredOut)
    } else {
        decode_payload(line_name(line), line_payload(line))
    }
}

/// One decoded field.
pub enum Field {
    Text(String),
    Int(i64),
    Flag(bool),
    Texts(Vec<String>),
}

impl View for Field {
    type V = FieldValue;

    open spec fn view(&self) -> FieldValue {
        match self {
            Field::Text(s) => FieldValue::Text(s@),
            Field::Int(n) => FieldValue::Int(*n),
            Field::Flag(b) => FieldValue::Flag(*b),
            Field::Texts(v) => FieldValue::Texts(string_views(v@)),
        }
    }
}

/// Whether a decoded field is of kind `k`.
pub open spec fn is_of_kind(f: Field, k: FieldKind) -> bool {
    match k {
        FieldKind::Text => f is Text,
        FieldKind::Int => f is Int,
        FieldKind::Flag => f is Flag,
        FieldKind::Rest => f is Texts,
    }
}

pub open spec fn field_views(fs: Seq<Field>) -> Seq<FieldValue> {
    fs.map_values(|f: Field| f@)
}

fn text_at(fs: &Vec<Field>, i: usize) -> (r: String)
    requires
        i < fs@.len(),
        fs@[i as int] is Text,
    ensures
        FieldValue::Text(r@) == fs@[i as int]@,
{
    match &fs[i] {
        Field::Text(s) => s.clone(),
        _ => unreached(),
    }
}

fn int_at(fs: &Vec<Field>, i: usize) -> (r: i64)
    requires
        i < fs@.len(),
        fs@[i as int] is Int,
    ensures
        FieldValue::Int(r) == fs@[i as int]@,
{
    match &fs[i] {
        Field::Int(n) => *n,
        _ => unreached(),
    }
}

fn flag_at(fs: &Vec<Field>, i: usize) -> (r: bool)
    requires
        i < fs@.len(),
        fs@[i as int] is Flag,
    ensures
        FieldValue::Flag(r) == fs@[i as int]@,
{
    match &fs[i] {
        Field::Flag(b) => *b,
        _ => unreached(),
    }
}

fn texts_at(fs: &Vec<Field>, i: usize) -> (r: Vec<String>)
    requires
        i < fs@.len(),
        fs@[i as int] is Texts,
    ensures
        FieldValue::Texts(string_views(r@)) == fs@[i as int]@,
{
    match &fs[i] {
        Field::Texts(v) => clone_strings(v),
        _ => unreached(),
    }
}

fn clone_strings(v: &Vec<String>) -> (r: Vec<String>)
    ensures
        string_views(r@) == string_views(v@),
{
    let mut out: Vec<String> = Vec::new();
    let mut i: usize = 0;
    while i < v.len()
        invariant
            i <= v@.len(),
            out@ == v@.take(i as int),
        decreases v@.len() - i,
    {
        out.push(v[i].clone());
        assert(v@.take(i + 1) =~= v@.take(i as int).push(v@[i as int]));
        assert(out@ =~= v@.take(i + 1));
        i = i + 1;
    }
    assert(v@.take(i as int) =~= v@);
    out
}

/// Builds the event of kind `t` from fields that have its shape.
fn from_fields(t: HyprlandEventType, fs: &Vec<Field>) -> (r: HyprlandEvent)
    requires
        t != HyprlandEventType::Custom,
        fs@.len() == t.kinds().len(),
        forall|i: int| 0 <= i < fs@.len() ==> is_of_kind(#[trigger] fs@[i], t.kinds()[i]),
    ensures
        r@.kind == t,
        r@.fields =~= field_views(fs@),
{
    match t {
        HyprlandEventType::Workspace => HyprlandEvent::Workspace {
            name: text_at(fs, 0),
        },
        HyprlandEventType::WorkspaceV2 => HyprlandEvent::WorkspaceV2 {
            id: int_at(fs, 0),
            name: text_at(fs, 1),
        },
        HyprlandEventType::FocusedMonitor => HyprlandEvent::FocusedMonitor {
            name: text_at(fs, 0),
            workspace_name: text_at(fs, 1),
        },
        HyprlandEventType::FocusedMonitorV2 => HyprlandEvent::FocusedMonitorV2 {
            name: text_at(fs, 0),
            workspace_id: int_at(fs, 1),
        },
        HyprlandEventType::ActiveWindow => HyprlandEvent::ActiveWindow {
            class: text_at(fs, 0),
            title: text_at(fs, 1),
        },
        HyprlandEventType::ActiveWindowV2 => HyprlandEvent::ActiveWindowV2 {
            address: text_at(fs, 0),
        },
        HyprlandEventType::Fullscreen => HyprlandEvent::Fullscreen {
            is_fullscreen: flag_at(fs, 0),
        },
        HyprlandEventType::MonitorRemoved => HyprlandEvent::MonitorRemoved {
            name: text_at(fs, 0),
        },
        HyprlandEventType::MonitorAdded => HyprlandEvent::MonitorAdded {
            name: text_at(fs, 0),
        },
        HyprlandEventType::MonitorAddedV2 => HyprlandEvent::MonitorAddedV2 {
            id: int_at(fs, 0),
            name: text_at(fs, 1),
            description: text_at(fs, 2),
        },
        HyprlandEventType::CreateWorkspace => HyprlandEvent::CreateWorkspace {
            name: text_at(fs, 0),
        },
        HyprlandEventType::CreateWorkspaceV2 => HyprlandEvent::CreateWorkspaceV2 {
            id: int_at(fs, 0),
            name: text_at(fs, 1),
        },
        HyprlandEventType::DestroyWorkspace => HyprlandEvent::DestroyWorkspace {
            name: text_at(fs, 0),
        },
        HyprlandEventType::DestroyWorkspaceV2 => HyprlandEvent::DestroyWorkspaceV2 {
            id: int_at(fs, 0),
            name: text_at(fs, 1),
        },
        HyprlandEventType::MoveWorkspace => HyprlandEvent::MoveWorkspace {
            name: text_at(fs, 0),
            mon_name: text_at(fs, 1),
        },
        HyprlandEventType::MoveWorkspaceV2 => HyprlandEvent::MoveWorkspaceV2 {
            id: int_at(fs, 0),
            name: text_at(fs, 1),
            mon_name: text_at(fs, 2),
        },
        HyprlandEventType::RenameWorkspace => HyprlandEvent::RenameWorkspace {
            id: int_at(fs, 0),
            name: text_at(fs, 1),
        },
        HyprlandEventType::ActiveSpecial => HyprlandEvent::ActiveSpecial {
            name: text_at(fs, 0),
            mon_name: text_at(fs, 1),
        },
        HyprlandEventType::ActiveLayout => HyprlandEvent::ActiveLayout {
            keyboard_name: text_at(fs, 0),
            layout_name: text_at(fs, 1),
        },
        HyprlandEventType::OpenWindow => HyprlandEvent::OpenWindow {
            address: text_at(fs, 0),
            workspace_name: text_at(fs, 1),
            class: text_at(fs, 2),
            title: text_at(fs, 3),
        },
        HyprlandEventType::CloseWindow => HyprlandEvent::CloseWindow {
            address: text_at(fs, 0),
        },
        HyprlandEventType::MoveWindow => HyprlandEvent::MoveWindow {
            address: text_at(fs, 0),
            workspace_name: text_at(fs, 1),
        },
        HyprlandEventType::MoveWindowV2 => HyprlandEvent::MoveWindowV2 {
            address: text_at(fs, 0),
            workspace_id: int_at(fs, 1),
            workspace_name: text_at(fs, 2),
        },
        HyprlandEventType::OpenLayer => HyprlandEvent::OpenLayer {
            namespace: text_at(fs, 0),
        },
        HyprlandEventType::CloseLayer => HyprlandEvent::CloseLayer {
            namespace: text_at(fs, 0),
        },
        HyprlandEventType::Submap => HyprlandEvent::Submap {
            name: text_at(fs, 0),
        },
        HyprlandEventType::ChangeFloatingMode => HyprlandEvent::ChangeFloatingMode {
            window_address: text_at(fs, 0),
            floating: flag_at(fs, 1),
        },
        HyprlandEventType::Urgent => HyprlandEvent::Urgent {
            window_address: text_at(fs, 0),
        },
        HyprlandEventType::Screencast => HyprlandEvent::Screencast {
            state: flag_at(fs, 0),
            owner: text_at(fs, 1),
        },
        HyprlandEventType::WindowTitle => HyprlandEvent::WindowTitle {
            address: text_at(fs, 0),
        },
        HyprlandEventType::WindowTitleV2 => HyprlandEvent::WindowTitleV2 {
            address: text_at(fs, 0),
            title: text_at(fs, 1),
        },
        HyprlandEventType::ToggleGroup => HyprlandEvent::ToggleGroup {
            state: flag_at(fs, 0),
            handles: texts_at(fs, 1),
        },
        HyprlandEventType::MoveIntoGroup => HyprlandEvent::MoveIntoGroup {
            address: text_at(fs, 0),
        },
        HyprlandEventType::MoveOutOfGroup => HyprlandEvent::MoveOutOfGroup {
            address: text_at(fs, 0),
        },
        HyprlandEventType::IgnoreGroupLock => HyprlandEvent::IgnoreGroupLock {
            is_on: flag_at(fs, 0),
        },
        HyprlandEventType::LockGroups => HyprlandEvent::LockGroups {
            is_on: flag_at(fs, 0),
        },
        HyprlandEventType::ConfigReloaded => HyprlandEvent::ConfigReloaded,
        HyprlandEventType::Pin => HyprlandEvent::Pin {
            address: text_at(fs, 0),
            pin_state: flag_at(fs, 1),
        },
        HyprlandEventType::Custom => unreached(),
    }
}

/// Owned copies of `argv[i..]`.
fn owned_from(argv: &Vec<&str>, i: usize) -> (r: Vec<String>)
    requires
        i <= argv@.len(),
    ensures
        string_views(r@) == views_of(argv@).skip(i as int),
{
    let mut out: Vec<String> = Vec::new();
    let mut j = i;
    while j < argv.len()
        invariant
            i <= j <= argv@.len(),
            string_views(out@) =~= views_of(argv@).subrange(i as int, j as int),
        decreases argv@.len() - j,
    {
        let ghost before = out@;
        out.push(argv[j].to_owned());
        assert(string_views(out@) =~= string_views(before).push(argv@[j as int]@));
        j = j + 1;
    }
    out
}

/// Reads the fields of `argv` by the shape `kinds`.
fn read_fields(kinds: &Vec<FieldKind>, argv: &Vec<&str>) -> (r: Option<Vec<Field>>)
    ensures
        r matches Some(fs) ==> {
            &&& fields_fit(kinds@, views_of(argv@))
            &&& fs@.len() == kinds@.len()
            &&& forall|i: int| 0 <= i < fs@.len() ==> is_of_kind(#[trigger] fs@[i], kinds@[i])
            &&& field_views(fs@) == field_values(kinds@, views_of(argv@))
        },
        r is None ==> !fields_fit(kinds@, views_of(argv@)),
{
    let ghost a = views_of(argv@);
    let mut fs: Vec<Field> = Vec::new();
    let mut i: usize = 0;
    while i < kinds.len()
        invariant
            i <= kinds@.len(),
            a == views_of(argv@),
            fs@.len() == i,
            forall|j: int| 0 <= j < i ==> field_fits(#[trigger] kinds@[j], a, j),
            forall|j: int| 0 <= j < i ==> is_of_kind(#[trigger] fs@[j], kinds@[j]),
            forall|j: int| 0 <= j < i ==> (#[trigger] fs@[j])@ == field_value(kinds@[j], a, j),
        decreases kinds@.len() - i,
    {
        let k = kinds[i];
        let f = match k {
            FieldKind::Text => {
                if i >= argv.len() {
                    return None;
                }
                Field::Text(argv[i].to_owned())
            },
            FieldKind::Int => {
                if i >= argv.len() {
                    return None;
                }
                match parse_i64(argv[i]) {
                    None => {
                        return None;
                    },
                    Some(n) => Field::Int(n),
                }
            },
            FieldKind::Flag => {
                if i >= argv.len() || argv[i].unicode_len() == 0 {
                    return None;
                }
                Field::Flag(argv[i].get_char(0) == '1')
            },
            FieldKind::Rest => {
                if i > argv.len() {
                    return None;
                }
                Field::Texts(owned_from(argv, i))
            },
        };
        fs.push(f);
        i = i + 1;
    }
    assert(field_views(fs@) =~= field_values(kinds@, a));
    Some(fs)
}

/// Whether `line` has a name, and that name is no known kind: such a line
/// decodes to `Custom`, and a listener reports it.
pub open spec fn name_unknown(line: Seq<char>) -> bool {
    delimiter(line) is Some && type_of_name(line_name(line)) is None
}

/// Decodes one line of the event protocol, `name>>payload`, through `filter`.
pub fn parse_event(msg: &str, filter: &EventFilter) -> (r: Result<HyprlandEvent, ParseError>)
    ensures
        r matches Ok(e) ==> decode_line(msg@, filter@) == Ok::<EventModel, ParseError>(e@),
        r matches Err(x) ==> decode_line(msg@, filter@) == Err::<EventModel, ParseError>(x),
{
    parse_event_noting(msg, filter).0
}

/// Decodes one line as `parse_event` does, and tells besides whether the
/// line's name is no known kind.
pub fn parse_event_noting(msg: &str, filter: &EventFilter) -> (r: (
    Result<HyprlandEvent, ParseError>,
    bool,
))
    ensures
        r.0 matches Ok(e) ==> decode_line(msg@, filter@) == Ok::<EventModel, ParseError>(e@),
        r.0 matches Err(x) ==> decode_line(msg@, filter@) == Err::<EventModel, ParseError>(x),
        r.1 == name_unknown(msg@),
{
    let v = chars_of(msg);
    let i = match find_delimiter(&v) {
        None => {
            return (Err(ParseError::MalformedEvent), false);
        },
        Some(i) => i,
    };
    let name = msg.substring_char(0, i);
    assert(name@ =~= line_name(msg@));
    let kind = HyprlandEventType::from_name(name);
    let unknown = kind.is_none();
    if !filter.includes(name) {
        return (Err(ParseError::FilteredOut), unknown);
    }
    let end = trimmed_end(&v, i + 2, v.len());
    assert(v@.subrange(i + 2, v@.len() as int) =~= msg@.skip(i + 2));
    let known = match kind {
        Some(t) => t != HyprlandEventType::Custom,
        None => false,
    };
    if known {
        let t = kind.unwrap();
        let argv = split_commas(msg, &v, i + 2, end);
        let kinds = t.field_kinds();
        match read_fields(&kinds, &argv) {
            None => (Err(ParseError::InvalidField), unknown),
            Some(fs) => {
                let e = from_fields(t, &fs);
                assert(e@ == EventModel { kind: t, fields: field_views(fs@) });
                (Ok(e), unknown)
            },
        }
    } else {
        let data = msg.substring_char(i + 2, end).to_owned();
        (Ok(HyprlandEvent::Custom { data }), unknown)
    }
}

/// For a line whose name is a known kind, decoding gives an event whose kind
/// has that very name, the one the filter was asked about.
pub proof fn lemma_decode_keeps_name(line: Seq<char>, filter: FilterView)
    requires
        decode_line(line, filter) is Ok,
        type_of_name(line_name(line)) is Some,
    ensures
        decode_line(line, filter)->Ok_0.kind.name() == line_name(line),
        filter.accepts(decode_line(line, filter)->Ok_0.kind.name()),
{
    lemma_name_of_type(line_name(line));
}

/// A line whose name is not a known kind decodes, once the filter lets it
/// pass, to `Custom` carrying the payload verbatim: no name makes decoding fail.
pub proof fn lemma_unknown_name_is_custom(line: Seq<char>, filter: FilterView)
    requires
        delimiter(line) is Some,
        filter.accepts(line_name(line)),
        type_of_name(line_name(line)) is None,
    ensures
        decode_line(line, filter) == Ok::<EventModel, ParseError>(
            EventModel {
                kind: HyprlandEventType::Custom,
                fields: seq![FieldValue::Text(line_payload(line))],
            },
        ),
{
}

/// A line without `>>` is malformed, whatever the filter.
pub proof fn lemma_no_delimiter_is_malformed(line: Seq<char>, filter: FilterView)
    requires
        forall|i: int| 0 <= i < line.len() - 1 ==> !(#[trigger] line[i] == '>' && line[i + 1] == '>'),
    ensures
        decode_line(line, filter) == Err::<EventModel, ParseError>(ParseError::MalformedEvent),
{
    lemma_no_delimiter_from(line, 0);
}

proof fn lemma_no_delimiter_from(line: Seq<char>, i: int)
    requires
        0 <= i,
        forall|j: int| 0 <= j < line.len() - 1 ==> !(#[trigger] line[j] == '>' && line[j + 1] == '>'),
    ensures
        crate::text::delimiter_from(line, i) is None,
    decreases line.len() - i,
{
    if i + 1 < line.len() {
        lemma_no_delimiter_from(line, i + 1);
    }
}

} // verus!
