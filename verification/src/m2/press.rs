//! The key-press tool.

use vstd::prelude::*;

use crate::error::{invalid, params_invalid, ToolError};
use crate::m2::action::{backend_used_name, cap_ms, capped_ms, key_label, label_of_key, used_name,
    ActError, ActionError, Backend, Key};
use crate::numerals::{decimal, decimal_text};
use crate::text::{cat2, cat3, join_texts, joined_with, views};

verus! {

/// Longest time, in milliseconds, for which keys are held.
pub const MAX_HOLD_MS: u32 = 30_000;

/// The time, in milliseconds, for which keys are held where a call names none.
pub const DEFAULT_HOLD_MS: u32 = 33;

/// A call of the tool.
#[derive(Debug)]
pub struct ActPressParams {
    pub keys: Vec<String>,
    pub hold_ms: u32,
    pub backend: PressBackend,
}

/// What presses the keys.
#[derive(Clone, Copy, Debug, PartialEq, Eq, Structural)]
pub enum PressBackend {
    Software,
    Hardware,
    Auto,
}

/// The answer to a call.
#[derive(Debug, PartialEq, Eq)]
pub struct ActPressResponse {
    pub ok: bool,
    pub keys_pressed: u32,
    pub elapsed_ms: u32,
    pub backend_used: String,
}

impl PressBackend {
    /// What presses the keys, among all that perform actions.
    pub open spec fn backend(self) -> Backend {
        match self {
            PressBackend::Software => Backend::Software,
            PressBackend::Hardware => Backend::Hardware,
            PressBackend::Auto => Backend::Auto,
        }
    }

    /// What presses the keys, among all that perform actions.
    pub fn to_backend(self) -> (r: Backend)
        ensures
            r == self.backend(),
    {
        match self {
            PressBackend::Software => Backend::Software,
            PressBackend::Hardware => Backend::Hardware,
            PressBackend::Auto => Backend::Auto,
        }
    }
}

/// The time for which keys are held where a call names none.
pub fn default_hold_ms() -> (r: u32)
    ensures
        r == DEFAULT_HOLD_MS,
{
    DEFAULT_HOLD_MS
}

/// What presses the keys where a call names nothing.
pub fn default_press_backend() -> (r: PressBackend)
    ensures
        r == PressBackend::Auto,
{
    PressBackend::Auto
}

// ---------------------------------------------------------------------------------------------
// Planning
// ---------------------------------------------------------------------------------------------

/// The error for a time to hold that is not allowed.
pub open spec fn is_hold_error(e: ActError, hold_ms: u32) -> bool {
    if hold_ms == 0 {
        e matches ActError::Tool(refused) && refused@ == params_invalid(
            "act_press hold_ms must be at least 1"@,
        )
    } else {
        e matches ActError::Action(ActionError::HoldExceededMax { detail }) && detail@
            == "act_press hold_ms "@ + decimal(hold_ms as nat) + " exceeds max 30000"@
    }
}

/// Checks the time for which keys are held: from one millisecond to thirty seconds.
pub fn validate_hold_ms(hold_ms: u32) -> (r: Result<(), ActError>)
    ensures
        match r {
            Ok(_) => 1 <= hold_ms <= MAX_HOLD_MS,
            Err(e) => !(1 <= hold_ms <= MAX_HOLD_MS) && is_hold_error(e, hold_ms),
        },
{
    if hold_ms == 0 {
        return Err(ActError::Tool(invalid("act_press hold_ms must be at least 1".to_owned())));
    }
    if hold_ms > MAX_HOLD_MS {
        let number = decimal_text(hold_ms as u64);
        return Err(
            ActError::Action(
                ActionError::HoldExceededMax {
                    detail: cat3("act_press hold_ms ", number.as_str(), " exceeds max 30000"),
                },
            ),
        );
    }
    Ok(())
}

/// Keys to press.
#[derive(Debug, PartialEq, Eq)]
pub enum PressAction {
    KeyPress { key: Key, hold_ms: u32, backend: Backend },
    KeyChord { keys: Vec<Key>, hold_ms: u32, backend: Backend },
}

/// The action that presses keys: a single key is pressed, any other number are pressed together.
pub open spec fn presses(
    action: PressAction,
    keys: Seq<Key>,
    hold_ms: u32,
    backend: Backend,
) -> bool {
    if keys.len() == 1 {
        action == (PressAction::KeyPress { key: keys[0], hold_ms, backend })
    } else {
        action matches PressAction::KeyChord { keys: k, hold_ms: h, backend: b } && k@ == keys && h
            == hold_ms && b == backend
    }
}

/// A copy of a list of keys.
pub fn copy_keys(keys: &Vec<Key>) -> (r: Vec<Key>)
    ensures
        r@ == keys@,
{
    let mut out: Vec<Key> = Vec::new();
    let mut i: usize = 0;
    while i < keys.len()
        invariant
            i <= keys@.len(),
            out@ == keys@.subrange(0, i as int),
        decreases keys@.len() - i,
    {
        proof {
            assert(keys@.subrange(0, i as int).push(keys@[i as int]) =~= keys@.subrange(0, i + 1));
        }
        out.push(keys[i].clone());
        i += 1;
    }
    assert(keys@.subrange(0, keys@.len() as int) =~= keys@);
    out
}

/// The action that presses keys.
pub fn press_action(keys: Vec<Key>, hold_ms: u32, backend: Backend) -> (r: PressAction)
    ensures
        presses(r, keys@, hold_ms, backend),
{
    if keys.len() == 1 {
        return PressAction::KeyPress { key: keys[0].clone(), hold_ms, backend };
    }
    PressAction::KeyChord { keys, hold_ms, backend }
}

/// What a call does.
#[derive(Debug)]
pub struct PressPlan {
    pub keys: Vec<Key>,
    pub key_count: u32,
    pub backend: Backend,
    pub action: PressAction,
}

/// Plans a call. `keys` is what the names in the call were read as.
pub fn plan_press(params: &ActPressParams, keys: Result<Vec<Key>, ToolError>) -> (r: Result<
    PressPlan,
    ActError,
>)
    ensures
        if !(1 <= params.hold_ms <= MAX_HOLD_MS) {
            r matches Err(e) && is_hold_error(e, params.hold_ms)
        } else {
            match keys {
                Err(e) => r == Err::<PressPlan, ActError>(ActError::Tool(e)),
                Ok(keys) => if keys@.len() > u32::MAX {
                    r matches Err(ActError::Tool(e)) && e@ == params_invalid(
                        "act_press keys length exceeds u32::MAX"@,
                    )
                } else {
                    &&& r matches Ok(plan)
                    &&& plan.keys@ == keys@
                    &&& plan.key_count == keys@.len()
                    &&& plan.backend == params.backend.backend()
                    &&& presses(plan.action, keys@, params.hold_ms, params.backend.backend())
                },
            }
        },
{
    if let Err(e) = validate_hold_ms(params.hold_ms) {
        return Err(e);
    }
    let pressed: Vec<Key> = match keys {
        Ok(pressed) => pressed,
        Err(e) => {
            return Err(ActError::Tool(e));
        },
    };
    if pressed.len() as u64 > u32::MAX as u64 {
        return Err(ActError::Tool(invalid("act_press keys length exceeds u32::MAX".to_owned())));
    }
    let key_count: u32 = pressed.len() as u32;
    let backend = params.backend.to_backend();
    let copies = copy_keys(&pressed);
    let action = press_action(copies, params.hold_ms, backend);
    Ok(PressPlan { keys: pressed, key_count, backend, action })
}

/// Answers a planned call. `executed` is how pressing the keys went.
pub fn act_press_with_handle(
    plan: &PressPlan,
    executed: Result<(), ToolError>,
    elapsed_ms: u128,
) -> (r: Result<ActPressResponse, ToolError>)
    ensures
        match executed {
            Err(e) => r == Err::<ActPressResponse, ToolError>(e),
            Ok(_) => {
                &&& r matches Ok(response)
                &&& response.ok
                &&& response.keys_pressed == plan.key_count
                &&& response.elapsed_ms == capped_ms(elapsed_ms)
                &&& response.backend_used@ == used_name(plan.backend)
            },
        },
{
    if let Err(e) = executed {
        return Err(e);
    }
    Ok(
        ActPressResponse {
            ok: true,
            keys_pressed: plan.key_count,
            elapsed_ms: cap_ms(elapsed_ms),
            backend_used: backend_used_name(plan.backend).to_owned(),
        },
    )
}

// ---------------------------------------------------------------------------------------------
// The log of recorded input
// ---------------------------------------------------------------------------------------------

/// One recorded input.
#[derive(Debug)]
pub enum PressEvent {
    KeyDown { key: Key },
    KeyUp { key: Key },
    DelayMs { ms: u32 },
    /// Any other input, as it prints itself.
    Other { text: String },
}

/// One recorded input as the log prints it.
pub open spec fn label_of_event(event: PressEvent) -> Seq<char> {
    match event {
        PressEvent::KeyDown { key } => "down:"@ + label_of_key(key),
        PressEvent::KeyUp { key } => "up:"@ + label_of_key(key),
        PressEvent::DelayMs { ms } => "delay:"@ + decimal(ms as nat),
        PressEvent::Other { text } => text@,
    }
}

/// The recorded inputs as the log prints them.
pub open spec fn labels_of_events(events: Seq<PressEvent>) -> Seq<Seq<char>> {
    Seq::new(events.len(), |i: int| label_of_event(events[i]))
}

/// Prints one recorded input.
pub fn event_label(event: &PressEvent) -> (r: String)
    ensures
        r@ == label_of_event(*event),
{
    match event {
        PressEvent::KeyDown { key } => {
            let label = key_label(key);
            cat2("down:", label.as_str())
        },
        PressEvent::KeyUp { key } => {
            let label = key_label(key);
            cat2("up:", label.as_str())
        },
        PressEvent::DelayMs { ms } => {
            let number = decimal_text(*ms as u64);
            cat2("delay:", number.as_str())
        },
        PressEvent::Other { text } => text.clone(),
    }
}

/// Prints the recorded inputs.
pub fn event_sequence(events: &Vec<PressEvent>) -> (r: String)
    ensures
        r@ == joined_with(labels_of_events(events@), ">"@),
{
    let mut labels: Vec<String> = Vec::new();
    let mut i: usize = 0;
    while i < events.len()
        invariant
            i <= events@.len(),
            labels@.len() == i,
            forall|k: int| 0 <= k < i ==> (#[trigger] labels@[k])@ == label_of_event(events@[k]),
        decreases events@.len() - i,
    {
        labels.push(event_label(&events[i]));
        i += 1;
    }
    assert(views(labels@) =~= labels_of_events(events@));
    join_texts(&labels, ">")
}

// ---------------------------------------------------------------------------------------------
// Laws
// ---------------------------------------------------------------------------------------------

/// One action presses all keys of a call, and nothing else.
pub proof fn law_action_presses_all_keys(
    action: PressAction,
    keys: Seq<Key>,
    hold_ms: u32,
    backend: Backend,
)
    requires
        presses(action, keys, hold_ms, backend),
    ensures
        match action {
            PressAction::KeyPress { key, hold_ms: h, backend: b } => keys == seq![key] && h
                == hold_ms && b == backend,
            PressAction::KeyChord { keys: k, hold_ms: h, backend: b } => k@ == keys && keys.len()
                != 1 && h == hold_ms && b == backend,
        },
{
    if keys.len() == 1 {
        assert(keys =~= seq![keys[0]]);
    }
}

/// A key can be held from one millisecond to thirty seconds; a hold of nothing and a longer one are
/// refused, the first as a wrong call and the second as an action.
pub proof fn law_holds_last_up_to_thirty_seconds(hold_ms: u32, r: Result<(), ActError>)
    requires
        call_ensures(validate_hold_ms, (hold_ms,), r),
    ensures
        r is Ok <==> 1 <= hold_ms <= 30_000,
        hold_ms == 0 ==> r is Err && r->Err_0 is Tool,
        hold_ms > 30_000 ==> r is Err && r->Err_0 is Action && (r->Err_0)->Action_0
            is HoldExceededMax,
{
}

/// A press is planned for all the keys of the call, for as long as the call says and by the backend it
/// names: a single key as a key press, several as a chord.
pub proof fn law_presses_are_planned_as_asked(
    params: &ActPressParams,
    keys: Result<Vec<Key>, ToolError>,
    r: Result<PressPlan, ActError>,
)
    requires
        call_ensures(plan_press, (params, keys), r),
    ensures
        r is Ok <==> 1 <= params.hold_ms <= 30_000 && keys is Ok && keys->Ok_0@.len()
            <= 0xffff_ffff,
        1 <= params.hold_ms <= 30_000 && keys is Err ==> r->Err_0 == ActError::Tool(keys->Err_0),
        r is Ok ==> {
            let plan = r->Ok_0;
            &&& plan.keys@ == keys->Ok_0@
            &&& plan.key_count == keys->Ok_0@.len()
            &&& (params.backend is Software ==> plan.backend is Software)
            &&& (params.backend is Hardware ==> plan.backend is Hardware)
            &&& (params.backend is Auto ==> plan.backend is Auto)
            &&& (plan.action is KeyPress <==> keys->Ok_0@.len() == 1)
            &&& (plan.action matches PressAction::KeyPress { key, hold_ms, backend } ==> key
                == keys->Ok_0@[0] && hold_ms == params.hold_ms && backend == plan.backend)
            &&& (plan.action matches PressAction::KeyChord { keys: pressed, hold_ms, backend }
                ==> pressed@ == keys->Ok_0@ && hold_ms == params.hold_ms && backend
                == plan.backend)
        },
{
}

/// A response tells how many keys were pressed, by what and how long it took; a failure is passed on.
pub proof fn law_presses_are_reported(
    plan: &PressPlan,
    executed: Result<(), ToolError>,
    elapsed_ms: u128,
    r: Result<ActPressResponse, ToolError>,
)
    requires
        call_ensures(act_press_with_handle, (plan, executed, elapsed_ms), r),
    ensures
        r is Ok <==> executed is Ok,
        executed is Err ==> r->Err_0 == executed->Err_0,
        r is Ok ==> (r->Ok_0).ok && (r->Ok_0).keys_pressed == plan.key_count,
        r is Ok && elapsed_ms <= 0xffff_ffff ==> (r->Ok_0).elapsed_ms == elapsed_ms,
        r is Ok && elapsed_ms > 0xffff_ffff ==> (r->Ok_0).elapsed_ms == 0xffff_ffff,
        r is Ok ==> (r->Ok_0).backend_used@ == (match plan.backend {
            Backend::Auto => "software"@,
            Backend::Software => "software"@,
            Backend::Vigem => "vigem"@,
            Backend::Hardware => "hardware"@,
        }),
{
}

/// What is not said of a press: it is held for 33 milliseconds, by the backend that is at hand.
pub proof fn law_press_defaults(hold_ms: u32, backend: PressBackend)
    requires
        call_ensures(default_hold_ms, (), hold_ms),
        call_ensures(default_press_backend, (), backend),
    ensures
        hold_ms == 33,
        backend is Auto,
{
}

/// An input is labelled by what it does and to which key; a sequence by the labels in order.
pub proof fn law_inputs_are_labelled(event: &PressEvent, r: String)
    requires
        call_ensures(event_label, (event,), r),
    ensures
        *event matches PressEvent::KeyDown { key } ==> r@ == "down:"@ + label_of_key(key),
        *event matches PressEvent::KeyUp { key } ==> r@ == "up:"@ + label_of_key(key),
        *event matches PressEvent::DelayMs { ms } ==> r@ == "delay:"@ + decimal(ms as nat),
        *event matches PressEvent::Other { text } ==> r@ == text@,
{
}

} // verus!
