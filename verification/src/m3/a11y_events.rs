//! Accessibility events.
//!
//! Events of the accessibility interface are published on the event bus. The interface is listened
//! to only where a subscription can see what it says.

use vstd::prelude::*;

use crate::json::{json_i64, json_int, json_optional_text, json_text, json_u64, Json, JsonView,
    ObjectBuilder};
use crate::m1::observation::{ElementId, ForegroundContext};
use crate::m3::activity_recorder::WindowEventKind;
use crate::m3::events::{args_of, lemma_arg_is_smaller, EventFilter, EventSource};
use crate::text::{ascii_lower, blank, chars_of, is_blank, is_white_space, optional_view, text_equal,
    text_of, to_ascii_lower, trim, trimmed};

verus! {

/// What an accessibility event says.
#[derive(Clone, Copy, Debug, PartialEq, Eq, Structural)]
pub enum AccessibleEventKind {
    ForegroundChanged,
    FocusChanged,
    ValueChanged,
    NameChanged,
    ElementAppeared,
    ElementDisappeared,
    SelectionChanged,
    MenuStart,
    MenuEnd,
    Alert,
}

/// An event of the accessibility interface.
#[derive(Debug)]
pub struct AccessibleEvent {
    pub seq: u64,
    pub at_ms: u64,
    pub window_id: i64,
    pub element_id: Option<ElementId>,
    pub kind: AccessibleEventKind,
    pub name: Option<String>,
    pub value: Option<String>,
}

/// The name of a kind.
pub open spec fn kind_name(kind: AccessibleEventKind) -> Seq<char> {
    match kind {
        AccessibleEventKind::ForegroundChanged => "foreground-changed"@,
        AccessibleEventKind::FocusChanged => "focus-changed"@,
        AccessibleEventKind::ValueChanged => "value-changed"@,
        AccessibleEventKind::NameChanged => "name-changed"@,
        AccessibleEventKind::ElementAppeared => "element-appeared"@,
        AccessibleEventKind::ElementDisappeared => "element-disappeared"@,
        AccessibleEventKind::SelectionChanged => "selection-changed"@,
        AccessibleEventKind::MenuStart => "menustart"@,
        AccessibleEventKind::MenuEnd => "menuend"@,
        AccessibleEventKind::Alert => "alert"@,
    }
}

/// The name of a kind.
pub fn event_kind_name(kind: AccessibleEventKind) -> (r: &'static str)
    ensures
        r@ == kind_name(kind),
{
    match kind {
        AccessibleEventKind::ForegroundChanged => "foreground-changed",
        AccessibleEventKind::FocusChanged => "focus-changed",
        AccessibleEventKind::ValueChanged => "value-changed",
        AccessibleEventKind::NameChanged => "name-changed",
        AccessibleEventKind::ElementAppeared => "element-appeared",
        AccessibleEventKind::ElementDisappeared => "element-disappeared",
        AccessibleEventKind::SelectionChanged => "selection-changed",
        AccessibleEventKind::MenuStart => "menustart",
        AccessibleEventKind::MenuEnd => "menuend",
        AccessibleEventKind::Alert => "alert",
    }
}

/// What the activity recorder makes of a kind.
pub fn recorded_kind(kind: AccessibleEventKind) -> (r: WindowEventKind)
    ensures
        r == (match kind {
            AccessibleEventKind::ForegroundChanged => WindowEventKind::ForegroundChanged,
            AccessibleEventKind::NameChanged => WindowEventKind::NameChanged,
            _ => WindowEventKind::Other,
        }),
{
    match kind {
        AccessibleEventKind::ForegroundChanged => WindowEventKind::ForegroundChanged,
        AccessibleEventKind::NameChanged => WindowEventKind::NameChanged,
        _ => WindowEventKind::Other,
    }
}

// ---------------------------------------------------------------------------------------------
// Who needs the interface
// ---------------------------------------------------------------------------------------------

/// A text with hyphens for underscores.
pub open spec fn hyphenated(s: Seq<char>) -> Seq<char> {
    s.map_values(
        |c: char|
            if c == '_' {
                '-'
            } else {
                c
            },
    )
}

/// A kind in its plain form: without the blanks around it, with hyphens for underscores, in lower
/// case.
pub open spec fn normal_kind(kind: Seq<char>) -> Seq<char> {
    ascii_lower(hyphenated(trimmed(kind)))
}

fn hyphenate(s: &str) -> (r: String)
    ensures
        r@ == hyphenated(s@),
{
    let mut chars = chars_of(s);
    let mut i: usize = 0;
    while i < chars.len()
        invariant
            i <= chars@.len(),
            chars@.len() == s@.len(),
            forall|k: int| 0 <= k < i ==> #[trigger] chars@[k] == hyphenated(s@)[k],
            forall|k: int| i <= k < chars@.len() ==> #[trigger] chars@[k] == s@[k],
        decreases chars@.len() - i,
    {
        if chars[i] == '_' {
            chars.set(i, '-');
        }
        i += 1;
    }
    assert(chars@ =~= hyphenated(s@));
    text_of(chars.as_slice())
}

/// A kind in its plain form.
pub fn normalize_kind(kind: &str) -> (r: String)
    ensures
        r@ == normal_kind(kind@),
{
    let bare = trim(kind);
    let dashed = hyphenate(bare.as_str());
    to_ascii_lower(dashed.as_str())
}

/// Whether a kind in its plain form is one of the accessibility interface's.
pub open spec fn is_interface_kind(kind: Seq<char>) -> bool {
    ||| kind == "foreground-changed"@
    ||| kind == "focus-changed"@
    ||| kind == "value-changed"@
    ||| kind == "name-changed"@
    ||| kind == "element-appeared"@
    ||| kind == "element-disappeared"@
    ||| kind == "selection-changed"@
    ||| kind == "menustart"@
    ||| kind == "menuend"@
    ||| kind == "alert"@
}

/// Whether a kind names an event of the accessibility interface.
pub fn is_a11y_event_kind(kind: &str) -> (r: bool)
    ensures
        r == is_interface_kind(normal_kind(kind@)),
{
    let normalized = normalize_kind(kind);
    let name: &str = normalized.as_str();
    text_equal(name, "foreground-changed") || text_equal(name, "focus-changed")
        || text_equal(name, "value-changed") || text_equal(name, "name-changed")
        || text_equal(name, "element-appeared") || text_equal(name, "element-disappeared")
        || text_equal(name, "selection-changed") || text_equal(name, "menustart")
        || text_equal(name, "menuend") || text_equal(name, "alert")
}

/// Whether some kind names an event of the accessibility interface.
pub fn kinds_require_a11y_bridge(kinds: &[String]) -> (r: bool)
    ensures
        r == exists|i: int|
            0 <= i < kinds@.len() && is_interface_kind(normal_kind((#[trigger] kinds@[i])@)),
{
    let mut i: usize = 0;
    while i < kinds.len()
        invariant
            i <= kinds@.len(),
            forall|k: int|
                0 <= k < i ==> !is_interface_kind(normal_kind((#[trigger] kinds@[k])@)),
        decreases kinds@.len() - i,
    {
        if is_a11y_event_kind(kinds[i].as_str()) {
            assert(is_interface_kind(normal_kind(kinds@[i as int]@)));
            return true;
        }
        i += 1;
    }
    false
}

/// Whether a filter asks for events of the accessibility interface: it names such a source or kind,
/// or some filter within it does. What a negation leaves is not looked at.
pub open spec fn needs_interface<U, Q>(filter: EventFilter<U, Q>) -> bool
    decreases filter,
{
    match filter {
        EventFilter::Source { source } => source is A11yUia || source is A11yWinEvent
            || source is A11yCdp,
        EventFilter::Kind { kind } => is_interface_kind(normal_kind(kind@)),
        EventFilter::And { args } => exists|i: int|
            0 <= i < args@.len() && needs_interface(#[trigger] args@[i]),
        EventFilter::Or { args } => exists|i: int|
            0 <= i < args@.len() && needs_interface(#[trigger] args@[i]),
        _ => false,
    }
}

/// Says whether a filter asks for events of the accessibility interface.
pub fn event_filter_requires_a11y_bridge<U, Q>(filter: &EventFilter<U, Q>) -> (r: bool)
    ensures
        r == needs_interface(*filter),
    decreases filter,
{
    match filter {
        EventFilter::Source { source } => *source == EventSource::A11yUia || *source
            == EventSource::A11yWinEvent || *source == EventSource::A11yCdp,
        EventFilter::Kind { kind } => is_a11y_event_kind(kind.as_str()),
        EventFilter::And { args } => {
            let mut i: usize = 0;
            while i < args.len()
                invariant
                    i <= args@.len(),
                    *filter == (EventFilter::And { args: *args }),
                    forall|k: int| 0 <= k < i ==> !needs_interface(#[trigger] args@[k]),
                decreases args@.len() - i,
            {
                proof {
                    assert(args_of(*filter)[i as int] == args@[i as int]);
                    lemma_arg_is_smaller(*filter, i as int);
                }
                if event_filter_requires_a11y_bridge(&args[i]) {
                    assert(needs_interface(args@[i as int]));
                    return true;
                }
                i += 1;
            }
            false
        },
        EventFilter::Or { args } => {
            let mut i: usize = 0;
            while i < args.len()
                invariant
                    i <= args@.len(),
                    *filter == (EventFilter::Or { args: *args }),
                    forall|k: int| 0 <= k < i ==> !needs_interface(#[trigger] args@[k]),
                decreases args@.len() - i,
            {
                proof {
                    assert(args_of(*filter)[i as int] == args@[i as int]);
                    lemma_arg_is_smaller(*filter, i as int);
                }
                if event_filter_requires_a11y_bridge(&args[i]) {
                    assert(needs_interface(args@[i as int]));
                    return true;
                }
                i += 1;
            }
            false
        },
        _ => false,
    }
}

// ---------------------------------------------------------------------------------------------
// Publishing
// ---------------------------------------------------------------------------------------------

/// An event as it is published, but for the instant at which it is.
#[derive(Debug)]
pub struct PublishedEvent {
    pub seq: u64,
    pub source: EventSource,
    pub kind: String,
    pub data: Json,
}

/// The window that an event is about: that of the event where it has a title, otherwise the one in
/// the foreground, otherwise that of the event.
pub open spec fn foreground_of(
    event_context: Option<ForegroundContext>,
    current: Option<ForegroundContext>,
) -> Option<ForegroundContext> {
    if event_context matches Some(context) && !is_blank(context.window_title@) {
        event_context
    } else if current is Some {
        current
    } else {
        event_context
    }
}

/// Picks the window that an event is about. `event_context` is what was read of the event's window,
/// `current` of the window in the foreground.
pub fn event_foreground_context(
    event_context: Option<ForegroundContext>,
    current: Option<ForegroundContext>,
) -> (r: Option<ForegroundContext>)
    ensures
        r == foreground_of(event_context, current),
{
    let titled: bool = match &event_context {
        Some(context) => !blank(context.window_title.as_str()),
        None => false,
    };
    if titled {
        return event_context;
    }
    match current {
        Some(context) => Some(context),
        None => event_context,
    }
}

/// What is published of an event.
pub open spec fn event_data(
    event: AccessibleEvent,
    event_kind: JsonView,
    foreground: Option<ForegroundContext>,
) -> JsonView {
    JsonView::Object(
        seq![
            (
                "element_id"@,
                match event.element_id {
                    Some(id) => JsonView::Text(id.text()),
                    None => JsonView::Null,
                },
            ),
            ("event_kind"@, event_kind),
            (
                "foreground_window_id"@,
                match foreground {
                    Some(context) => json_int(context.hwnd as int),
                    None => JsonView::Null,
                },
            ),
            ("name"@, json_optional_text(optional_view(event.name))),
            (
                "pid"@,
                json_int(
                    match foreground {
                        Some(context) => context.pid as int,
                        None => 0,
                    },
                ),
            ),
            (
                "process_name"@,
                JsonView::Text(
                    match foreground {
                        Some(context) => context.process_name@,
                        None => Seq::empty(),
                    },
                ),
            ),
            ("value"@, json_optional_text(optional_view(event.value))),
            ("win_event_at_ms"@, json_int(event.at_ms as int)),
            ("win_event_seq"@, json_int(event.seq as int)),
            ("window_id"@, json_int(event.window_id as int)),
            (
                "window_title"@,
                JsonView::Text(
                    match foreground {
                        Some(context) => context.window_title@,
                        None => Seq::empty(),
                    },
                ),
            ),
        ],
    )
}

fn optional_text(text: &Option<String>) -> (r: Json)
    ensures
        r@ == json_optional_text(optional_view(*text)),
{
    match text {
        Some(s) => json_text(s.as_str()),
        None => Json::Null,
    }
}

/// Turns an event of the accessibility interface into one to publish. `event_kind` is the kind as it
/// is written, `foreground` the window that the event is about.
pub fn event_from_accessible(
    event: &AccessibleEvent,
    event_kind: Json,
    foreground: &Option<ForegroundContext>,
    seq: u64,
) -> (r: PublishedEvent)
    ensures
        r.seq == seq,
        r.source == EventSource::A11yWinEvent,
        r.kind@ == kind_name(event.kind),
        r.data@ == event_data(*event, event_kind@, *foreground),
{
    let element_id: Json = match &event.element_id {
        Some(id) => {
            let text = id.to_text();
            json_text(text.as_str())
        },
        None => Json::Null,
    };
    let (window_id, pid, process_name, window_title): (Json, u64, String, String) = match foreground {
        Some(context) => (
            json_i64(context.hwnd),
            context.pid as u64,
            context.process_name.clone(),
            context.window_title.clone(),
        ),
        None => (Json::Null, 0, String::new(), String::new()),
    };
    assert(foreground is None ==> process_name@ =~= Seq::<char>::empty());
    assert(foreground is None ==> window_title@ =~= Seq::<char>::empty());
    let data = ObjectBuilder::new().with("element_id", element_id).with(
        "event_kind",
        event_kind,
    ).with("foreground_window_id", window_id).with("name", optional_text(&event.name)).with(
        "pid",
        json_u64(pid),
    ).with("process_name", json_text(process_name.as_str())).with(
        "value",
        optional_text(&event.value),
    ).with("win_event_at_ms", json_u64(event.at_ms)).with("win_event_seq", json_u64(event.seq)).with(
        "window_id",
        json_i64(event.window_id),
    ).with("window_title", json_text(window_title.as_str())).build();
    assert(data@->Object_0 =~= event_data(*event, event_kind@, *foreground)->Object_0);
    PublishedEvent {
        seq,
        source: EventSource::A11yWinEvent,
        kind: event_kind_name(event.kind).to_owned(),
        data,
    }
}

/// The numbering of published events.
#[derive(Debug)]
pub struct EventNumbers {
    pub next_seq: u64,
}

impl EventNumbers {
    /// Numbers begin at one.
    pub fn new() -> (r: EventNumbers)
        ensures
            r.next_seq == 1,
    {
        EventNumbers { next_seq: 1 }
    }

    /// Takes the next number.
    pub fn take(&mut self) -> (r: u64)
        ensures
            r == old(self).next_seq,
            final(self).next_seq == (if old(self).next_seq < u64::MAX {
                (old(self).next_seq + 1) as u64
            } else {
                u64::MAX
            }),
    {
        let seq: u64 = self.next_seq;
        self.next_seq = self.next_seq.saturating_add(1);
        seq
    }
}

// ---------------------------------------------------------------------------------------------
// Laws
// ---------------------------------------------------------------------------------------------

/// A text that is in plain form already: it begins and ends with no blank, and holds neither an
/// underscore nor an upper-case letter.
pub open spec fn is_plain(s: Seq<char>) -> bool {
    &&& s.len() > 0
    &&& !is_white_space(s[0])
    &&& !is_white_space(s.last())
    &&& forall|i: int| 0 <= i < s.len() ==> (#[trigger] s[i]) != '_' && !('A' <= s[i] <= 'Z')
}

/// A kind in plain form is its own plain form.
pub proof fn law_plain_kinds_are_normal(kind: Seq<char>)
    requires
        is_plain(kind),
    ensures
        normal_kind(kind) == kind,
{
    assert(trimmed(kind) == kind);
    assert(hyphenated(kind) =~= kind);
    assert(ascii_lower(kind) =~= kind);
}

proof fn lemma_kind_names_are_plain(kind: AccessibleEventKind)
    ensures
        is_plain(kind_name(kind)),
{
    reveal_strlit("foreground-changed");
    reveal_strlit("focus-changed");
    reveal_strlit("value-changed");
    reveal_strlit("name-changed");
    reveal_strlit("element-appeared");
    reveal_strlit("element-disappeared");
    reveal_strlit("selection-changed");
    reveal_strlit("menustart");
    reveal_strlit("menuend");
    reveal_strlit("alert");
}

/// Every kind of event that is published is one that a subscription to it is recognised by.
pub proof fn law_published_kinds_are_recognised(kind: AccessibleEventKind)
    ensures
        is_interface_kind(normal_kind(kind_name(kind))),
{
    lemma_kind_names_are_plain(kind);
    law_plain_kinds_are_normal(kind_name(kind));
}

/// A conjunction or alternative asks for the interface exactly if one of its filters does; a negation
/// never does.
pub proof fn law_filters_need_what_their_parts_need<U, Q>(filter: EventFilter<U, Q>)
    ensures
        filter is And || filter is Or ==> (needs_interface(filter) <==> exists|i: int|
            0 <= i < args_of(filter).len() && needs_interface(#[trigger] args_of(filter)[i])),
        filter is Not ==> !needs_interface(filter),
{
    match filter {
        EventFilter::And { args } => {
            assert(args_of(filter) == args@);
            if needs_interface(filter) {
                let i = choose|i: int| 0 <= i < args@.len() && needs_interface(#[trigger] args@[i]);
                assert(needs_interface(args_of(filter)[i]));
            }
        },
        EventFilter::Or { args } => {
            assert(args_of(filter) == args@);
            if needs_interface(filter) {
                let i = choose|i: int| 0 <= i < args@.len() && needs_interface(#[trigger] args@[i]);
                assert(needs_interface(args_of(filter)[i]));
            }
        },
        _ => {},
    }
}

/// Case, blanks round it and underscores for hyphens make no difference to a kind.
pub proof fn law_kinds_are_told_whatever_their_spelling(kind: &str, r: String, i: int)
    requires
        call_ensures(normalize_kind, (kind,), r),
        0 <= i < trimmed(kind@).len(),
    ensures
        r@.len() == trimmed(kind@).len(),
        trimmed(kind@)[i] == '_' ==> r@[i] == '-',
        65 <= trimmed(kind@)[i] as u32 <= 90 ==> r@[i] as u32 == trimmed(kind@)[i] as u32 + 32,
        trimmed(kind@)[i] != '_' && !(65 <= trimmed(kind@)[i] as u32 <= 90) ==> r@[i] == trimmed(
            kind@,
        )[i],
{
}

/// The kinds of the interface's events are these ten.
pub proof fn law_interface_has_ten_kinds(kind: &str, normal: String, r: bool)
    requires
        call_ensures(normalize_kind, (kind,), normal),
        call_ensures(is_a11y_event_kind, (kind,), r),
    ensures
        r <==> normal@ == "foreground-changed"@ || normal@ == "focus-changed"@ || normal@
            == "value-changed"@ || normal@ == "name-changed"@ || normal@ == "element-appeared"@
            || normal@ == "element-disappeared"@ || normal@ == "selection-changed"@ || normal@
            == "menustart"@ || normal@ == "menuend"@ || normal@ == "alert"@,
{
}

/// An event is published under its own kind, and recorded where it is of the window in front or of a
/// name.
pub proof fn law_events_are_published_by_kind(
    kind: AccessibleEventKind,
    name: &'static str,
    recorded: WindowEventKind,
)
    requires
        call_ensures(event_kind_name, (kind,), name),
        call_ensures(recorded_kind, (kind,), recorded),
    ensures
        kind is ForegroundChanged ==> name@ == "foreground-changed"@,
        kind is FocusChanged ==> name@ == "focus-changed"@,
        kind is ValueChanged ==> name@ == "value-changed"@,
        kind is NameChanged ==> name@ == "name-changed"@,
        kind is ElementAppeared ==> name@ == "element-appeared"@,
        kind is ElementDisappeared ==> name@ == "element-disappeared"@,
        kind is SelectionChanged ==> name@ == "selection-changed"@,
        kind is MenuStart ==> name@ == "menustart"@,
        kind is MenuEnd ==> name@ == "menuend"@,
        kind is Alert ==> name@ == "alert"@,
        recorded is ForegroundChanged <==> kind is ForegroundChanged,
        recorded is NameChanged <==> kind is NameChanged,
{
}

/// A filter needs the interface's events where it asks for one of their sources or kinds, or where one
/// of the filters it joins does; one that negates or leaves things open does not.
pub proof fn law_filters_need_the_interface<U, Q>(
    filter: &EventFilter<U, Q>,
    spelt: &str,
    r: bool,
    known: bool,
)
    requires
        call_ensures(event_filter_requires_a11y_bridge::<U, Q>, (filter,), r),
        call_ensures(is_a11y_event_kind, (spelt,), known),
    ensures
        *filter matches EventFilter::Source { source } ==> (r <==> source is A11yUia || source
            is A11yWinEvent || source is A11yCdp),
        *filter matches EventFilter::Kind { kind } ==> (kind@ == spelt@ ==> r == known),
        *filter is Everything || *filter is Nothing || *filter is Not || *filter is OtherSource
            || *filter is Data ==> !r,
        *filter matches EventFilter::And { args } ==> (args@.len() == 0 ==> !r),
        *filter matches EventFilter::Or { args } ==> (args@.len() == 0 ==> !r),
{
}

/// A filter that joins others needs the interface's events exactly if one of them does.
pub proof fn law_joined_filters_need_what_one_needs<U, Q>(
    filter: &EventFilter<U, Q>,
    part: &EventFilter<U, Q>,
    r: bool,
    needs: bool,
    i: int,
)
    requires
        call_ensures(event_filter_requires_a11y_bridge::<U, Q>, (filter,), r),
        call_ensures(event_filter_requires_a11y_bridge::<U, Q>, (part,), needs),
        *filter is And || *filter is Or,
        0 <= i < args_of(*filter).len(),
        args_of(*filter)[i] == *part,
    ensures
        needs ==> r,
        args_of(*filter).len() == 1 ==> r == needs,
{
}

/// An event is told with the window it came from where that has a title, or else with the window in
/// front, or else with what is known.
pub proof fn law_events_are_told_with_their_window(
    event_context: Option<ForegroundContext>,
    current: Option<ForegroundContext>,
    r: Option<ForegroundContext>,
)
    requires
        call_ensures(event_foreground_context, (event_context, current), r),
    ensures
        event_context is Some && !is_blank(event_context->Some_0.window_title@) ==> r
            == event_context,
        (event_context is None || is_blank(event_context->Some_0.window_title@)) && current is Some
            ==> r == current,
        current is None ==> r == event_context,
{
}

/// A published event has its number, its kind and its data: of the event its element, name, value, time,
/// sequence and window, and of the window in front its handle, process and title.
pub proof fn law_events_are_published_whole(
    event: &AccessibleEvent,
    event_kind: Json,
    foreground: &Option<ForegroundContext>,
    seq: u64,
    r: PublishedEvent,
)
    requires
        call_ensures(event_from_accessible, (event, event_kind, foreground, seq), r),
    ensures
        r.seq == seq,
        r.source is A11yWinEvent,
        r.data@ is Object,
        ({
            let data = r.data@->Object_0;
            &&& data.len() == 11
            &&& data[0].0 == "element_id"@
            &&& (event.element_id is None ==> data[0].1 is Null)
            &&& (event.element_id is Some ==> data[0].1 == JsonView::Text(
                event.element_id->Some_0.text(),
            ))
            &&& data[1] == ("event_kind"@, event_kind@)
            &&& data[2].0 == "foreground_window_id"@
            &&& (*foreground is None ==> data[2].1 is Null)
            &&& (*foreground is Some ==> data[2].1 == json_int((*foreground)->Some_0.hwnd as int))
            &&& data[3].0 == "name"@
            &&& (event.name is Some ==> data[3].1 == JsonView::Text(event.name->Some_0@))
            &&& (event.name is None ==> data[3].1 is Null)
            &&& data[4].0 == "pid"@
            &&& (*foreground is Some ==> data[4].1 == json_int((*foreground)->Some_0.pid as int))
            &&& (*foreground is None ==> data[4].1 == json_int(0))
            &&& data[5].0 == "process_name"@
            &&& (*foreground is Some ==> data[5].1 == JsonView::Text(
                (*foreground)->Some_0.process_name@,
            ))
            &&& data[6].0 == "value"@
            &&& (event.value is Some ==> data[6].1 == JsonView::Text(event.value->Some_0@))
            &&& (event.value is None ==> data[6].1 is Null)
            &&& data[7] == ("win_event_at_ms"@, json_int(event.at_ms as int))
            &&& data[8] == ("win_event_seq"@, json_int(event.seq as int))
            &&& data[9] == ("window_id"@, json_int(event.window_id as int))
            &&& data[10].0 == "window_title"@
            &&& (*foreground is Some ==> data[10].1 == JsonView::Text(
                (*foreground)->Some_0.window_title@,
            ))
        }),
{
}

/// Events are numbered from one on, without a gap.
pub proof fn law_events_are_numbered(first: EventNumbers, numbers: &mut EventNumbers, r: u64)
    requires
        call_ensures(EventNumbers::new, (), first),
        call_ensures(EventNumbers::take, (numbers,), r),
    ensures
        first.next_seq == 1,
        r == old(numbers).next_seq,
        old(numbers).next_seq < u64::MAX ==> final(numbers).next_seq == r + 1,
{
}

} // verus!
