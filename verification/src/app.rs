use vstd::prelude::*;
use crate::text::{
    chars_eq_str, chars_of, lemma_trim_end, lemma_trim_start, owned, trim_chars, trimmed,
};
use crate::types::{KeyboardLayout, SystemCheck, SystemCheckItem, UiEvent};

verus! {

/// What the window knows of the jobs it started.
#[derive(Clone, Copy, Debug, PartialEq, Eq, Structural)]
pub struct AppState {
    /// Whether a typing job is running.
    pub running: bool,
    /// Characters typed so far by the last job.
    pub progress: usize,
    /// Characters in the last job's text.
    pub total: usize,
    /// Whether the last system check found typing possible.
    pub can_type: bool,
    /// Whether the last system check found text recognition possible.
    pub can_ocr: bool,
    /// Whether the report of the running system check is to be shown when it arrives.
    pub check_popup_pending: bool,
}

/// What the window changes in answer to an event. `None` leaves a thing as it is.
pub struct UiUpdate {
    /// New status line.
    pub status: Option<String>,
    /// New progress: characters done and in total.
    pub progress: Option<(usize, usize)>,
    /// Whether the start button can be pressed.
    pub start_sensitive: Option<bool>,
    /// Whether the stop button can be pressed.
    pub stop_sensitive: Option<bool>,
    /// Whether the clipboard image button can be pressed.
    pub ocr_sensitive: Option<bool>,
    /// Whether the system check button can be pressed.
    pub check_sensitive: Option<bool>,
    /// Text to insert at the cursor, before the status changes.
    pub insert_text: Option<String>,
    /// A system readiness report to keep as the latest.
    pub latest_check: Option<SystemCheck>,
    /// Whether to show the latest system readiness report.
    pub show_check_popup: bool,
}

/// The state at start: nothing running, nothing checked yet.
pub open spec fn initial_state() -> AppState {
    AppState {
        running: false,
        progress: 0,
        total: 0,
        can_type: false,
        can_ocr: false,
        check_popup_pending: false,
    }
}

/// The state before anything has happened.
pub fn new_app_state() -> (s: AppState)
    ensures
        s == initial_state(),
{
    AppState {
        running: false,
        progress: 0,
        total: 0,
        can_type: false,
        can_ocr: false,
        check_popup_pending: false,
    }
}

/// The status shown after a system check.
pub open spec fn check_status(can_type: bool) -> Seq<char> {
    if can_type {
        "Ready to type."@
    } else {
        "Some system checks failed."@
    }
}

/// Whether `u` changes nothing but what `event` says it changes, and how. The state moves
/// as `next_state` says.
pub open spec fn update_fits(state: AppState, event: UiEvent, u: UiUpdate) -> bool {
    match event {
        UiEvent::Status(message) => {
            &&& u.status == Some(message)
            &&& u.progress is None
            &&& u.start_sensitive is None
            &&& u.stop_sensitive is None
            &&& u.ocr_sensitive is None
            &&& u.check_sensitive is None
            &&& u.insert_text is None
            &&& u.latest_check is None
            &&& !u.show_check_popup
        },
        UiEvent::Progress { done, total, status } => {
            &&& u.status == Some(status)
            &&& u.progress == Some((done, total))
            &&& u.start_sensitive is None
            &&& u.stop_sensitive is None
            &&& u.ocr_sensitive is None
            &&& u.check_sensitive is None
            &&& u.insert_text is None
            &&& u.latest_check is None
            &&& !u.show_check_popup
        },
        UiEvent::Finished { status, done, total } => {
            &&& u.status == Some(status)
            &&& u.progress == Some((done, total))
            &&& u.start_sensitive == Some(state.can_type)
            &&& u.stop_sensitive == Some(false)
            &&& u.ocr_sensitive is None
            &&& u.check_sensitive is None
            &&& u.insert_text is None
            &&& u.latest_check is None
            &&& !u.show_check_popup
        },
        UiEvent::OcrFinished { status, text } => {
            &&& u.status == Some(status)
            &&& u.progress is None
            &&& u.start_sensitive is None
            &&& u.stop_sensitive is None
            &&& u.ocr_sensitive == Some(state.can_ocr)
            &&& u.check_sensitive is None
            &&& u.insert_text == text
            &&& u.latest_check is None
            &&& !u.show_check_popup
        },
        UiEvent::SystemCheckFinished(check) => {
            &&& u.status is Some && u.status->0@ == check_status(check.can_type)
            &&& u.progress is None
            &&& u.start_sensitive == Some(check.can_type && !state.running)
            &&& u.stop_sensitive is None
            &&& u.ocr_sensitive == Some(check.can_ocr)
            &&& u.check_sensitive == Some(true)
            &&& u.insert_text is None
            &&& u.latest_check == Some(check)
            &&& u.show_check_popup == state.check_popup_pending
        },
    }
}

/// The state after `event`.
pub open spec fn next_state(state: AppState, event: UiEvent) -> AppState {
    match event {
        UiEvent::Progress { done, total, .. } => AppState { progress: done, total, ..state },
        UiEvent::Finished { done, total, .. } => AppState {
            running: false,
            progress: done,
            total,
            ..state
        },
        UiEvent::SystemCheckFinished(check) => AppState {
            can_type: check.can_type,
            can_ocr: check.can_ocr,
            check_popup_pending: false,
            ..state
        },
        _ => state,
    }
}

fn no_update() -> (u: UiUpdate)
    ensures
        u.status is None,
        u.progress is None,
        u.start_sensitive is None,
        u.stop_sensitive is None,
        u.ocr_sensitive is None,
        u.check_sensitive is None,
        u.insert_text is None,
        u.latest_check is None,
        !u.show_check_popup,
{
    UiUpdate {
        status: None,
        progress: None,
        start_sensitive: None,
        stop_sensitive: None,
        ocr_sensitive: None,
        check_sensitive: None,
        insert_text: None,
        latest_check: None,
        show_check_popup: false,
    }
}

/// Takes in an event from a background job: records what it says and says what the
/// window shows in answer.
pub fn handle_ui_event(state: &mut AppState, event: UiEvent) -> (u: UiUpdate)
    ensures
        *final(state) == next_state(*old(state), event),
        update_fits(*old(state), event, u),
{
    let mut u = no_update();
    match event {
        UiEvent::Status(message) => {
            u.status = Some(message);
        },
        UiEvent::Progress { done, total, status } => {
            state.progress = done;
            state.total = total;
            u.status = Some(status);
            u.progress = Some((done, total));
        },
        UiEvent::Finished { status, done, total } => {
            state.running = false;
            state.progress = done;
            state.total = total;
            u.status = Some(status);
            u.progress = Some((done, total));
            u.start_sensitive = Some(state.can_type);
            u.stop_sensitive = Some(false);
        },
        UiEvent::OcrFinished { status, text } => {
            u.insert_text = text;
            u.status = Some(status);
            u.ocr_sensitive = Some(state.can_ocr);
        },
        UiEvent::SystemCheckFinished(check) => {
            let show = state.check_popup_pending;
            state.check_popup_pending = false;
            state.can_type = check.can_type;
            state.can_ocr = check.can_ocr;
            u.start_sensitive = Some(check.can_type && !state.running);
            u.ocr_sensitive = Some(check.can_ocr);
            u.check_sensitive = Some(true);
            u.status = Some(
                if check.can_type {
                    owned("Ready to type.")
                } else {
                    owned("Some system checks failed.")
                },
            );
            u.latest_check = Some(check);
            u.show_check_popup = show;
        },
    }
    u
}

/// Marks a typing job of `total` characters as running, unless one already runs; says
/// whether it did.
pub fn begin_typing(state: &mut AppState, total: usize) -> (started: bool)
    ensures
        started == !old(state).running,
        started ==> *final(state) == (AppState { running: true, progress: 0, total, ..*old(state) }),
        !started ==> *final(state) == *old(state),
{
    if state.running {
        return false;
    }
    state.running = true;
    state.progress = 0;
    state.total = total;
    true
}

/// Marks that the report of the system check about to run is to be shown.
pub fn request_system_check(state: &mut AppState)
    ensures
        *final(state) == (AppState { check_popup_pending: true, ..*old(state) }),
{
    state.check_popup_pending = true;
}

/// The layout chosen by its index in the layout list: 1 is US, anything else Norwegian.
pub fn keyboard_layout_from_index(index: u32) -> (layout: KeyboardLayout)
    ensures
        layout == (if index == 1 { KeyboardLayout::Us } else { KeyboardLayout::Norwegian }),
{
    match index {
        1 => KeyboardLayout::Us,
        _ => KeyboardLayout::Norwegian,
    }
}

/// The layout index that a saved settings text stands for: 1 where it reads `US` once
/// trimmed, else 0.
pub open spec fn saved_layout_index(text: Seq<char>) -> u32 {
    if trimmed(text) == "US"@ {
        1
    } else {
        0
    }
}

/// The settings text that saves a layout index.
pub open spec fn layout_label_spec(index: u32) -> Seq<char> {
    if index == 1 {
        "US"@
    } else {
        "Norwegian"@
    }
}

/// The layout index from the saved settings text: 1 where it reads `US` once trimmed,
/// else 0.
pub fn layout_index_from_saved(text: &str) -> (index: u32)
    ensures
        index == saved_layout_index(text@),
{
    let chars = chars_of(text);
    let t = trim_chars(&chars);
    if chars_eq_str(&t, "US") {
        1
    } else {
        0
    }
}

/// The settings text that saves a layout index: `US` for 1, else `Norwegian`.
pub fn layout_label(index: u32) -> (label: String)
    ensures
        label@ == layout_label_spec(index),
{
    if index == 1 {
        owned("US")
    } else {
        owned("Norwegian")
    }
}

/// The message where there is no text to type.
pub open spec fn empty_text_message() -> Seq<char> {
    "Paste or write text before starting."@
}

/// Whether there is text to type: an error where it is empty.
pub fn check_text(text: &str) -> (r: Result<(), String>)
    ensures
        text@.len() == 0 ==> r is Err && r->Err_0@ == empty_text_message(),
        text@.len() > 0 ==> r is Ok,
{
    if text.is_empty() {
        Err(owned("Paste or write text before starting."))
    } else {
        Ok(())
    }
}

/// Whether some check in the list failed.
pub open spec fn has_failures(items: Seq<SystemCheckItem>) -> bool {
    exists|i: int| 0 <= i < items.len() && !(#[trigger] items[i]).ok
}

/// The summary line above the system check list.
pub open spec fn check_summary_spec(check: Option<SystemCheck>) -> Seq<char> {
    match check {
        Some(c) => if has_failures(c.items@) {
            "Fix the red items before starting."@
        } else {
            "Everything looks ready."@
        },
        None => "Running system checks..."@,
    }
}

/// The summary line above the system check list: a call to fix failed items, an all-clear,
/// or a notice that the check still runs.
pub fn check_summary(check: Option<&SystemCheck>) -> (r: String)
    ensures
        r@ == check_summary_spec(match check {
            Some(c) => Some(*c),
            None => None,
        }),
{
    match check {
        Some(c) => {
            let n = c.items.len();
            let mut i: usize = 0;
            while i < n
                invariant
                    check == Some(c),
                    n == c.items@.len(),
                    i <= n,
                    forall|j: int| 0 <= j < i ==> (#[trigger] c.items@[j]).ok,
                decreases n - i,
            {
                if !c.items[i].ok {
                    assert(!c.items@[i as int].ok);
                    assert(has_failures(c.items@));
                    return owned("Fix the red items before starting.");
                }
                i = i + 1;
            }
            owned("Everything looks ready.")
        },
        None => owned("Running system checks..."),
    }
}

/// A saved layout is read back as it was saved: the label written with a line break after
/// it gives the index back (any index other than 1 saves and reads back as 0, Norwegian).
pub proof fn lemma_layout_round_trip(index: u32)
    ensures
        saved_layout_index(layout_label_spec(index) + seq!['\n']) == (if index == 1 { 1u32 } else { 0u32 }),
{
    reveal_strlit("US");
    reveal_strlit("Norwegian");
    let s = layout_label_spec(index) + seq!['\n'];
    lemma_trim_start(s);
    lemma_trim_end(s);
    assert(s.drop_last() =~= layout_label_spec(index));
    lemma_trim_end(s.drop_last());
    assert(trimmed(s) == layout_label_spec(index));
}

/// Whether the start and stop buttons can be pressed.
#[derive(Clone, Copy, Debug, PartialEq, Eq, Structural)]
pub struct Buttons {
    pub start: bool,
    pub stop: bool,
}

/// The buttons agree with the state: Stop can be pressed exactly while a job runs, and
/// Start only while none runs and typing is possible.
pub open spec fn buttons_consistent(b: Buttons, s: AppState) -> bool {
    &&& b.stop == s.running
    &&& b.start ==> s.can_type && !s.running
}

/// The buttons after an update.
pub open spec fn apply_buttons(b: Buttons, u: UiUpdate) -> Buttons {
    Buttons {
        start: match u.start_sensitive {
            Some(x) => x,
            None => b.start,
        },
        stop: match u.stop_sensitive {
            Some(x) => x,
            None => b.stop,
        },
    }
}

/// The buttons and the state agree at the start (both buttons disabled, nothing
/// running), and they keep agreeing: after every background event taken in by
/// `handle_ui_event`, and after a job begins with Start disabled and Stop enabled. A
/// refused start changes nothing. So at most one typing job runs at a time, Stop works
/// exactly while one runs, and Start works only when typing is possible.
pub proof fn lemma_buttons_follow_state(
    b: Buttons,
    s: AppState,
    event: UiEvent,
    u: UiUpdate,
    total: usize,
)
    requires
        buttons_consistent(b, s),
    ensures
        buttons_consistent(Buttons { start: false, stop: false }, initial_state()),
        update_fits(s, event, u) ==> buttons_consistent(apply_buttons(b, u), next_state(s, event)),
        !s.running ==> buttons_consistent(
            Buttons { start: false, stop: true },
            AppState { running: true, progress: 0, total, ..s },
        ),
{
}

/// What a press of the configured keybind does.
#[derive(Clone, Copy, Debug, PartialEq, Eq, Structural)]
pub enum KeybindAction {
    /// Press Start.
    Start,
    /// Press Stop.
    Stop,
    /// Nothing.
    Ignore,
}

/// The keybind starts typing when none runs and stops it while one runs; a key press that
/// is not the keybind does nothing.
pub fn keybind_action(state: &AppState, matched: bool) -> (a: KeybindAction)
    ensures
        a == (if !matched {
            KeybindAction::Ignore
        } else if state.running {
            KeybindAction::Stop
        } else {
            KeybindAction::Start
        }),
{
    if !matched {
        KeybindAction::Ignore
    } else if state.running {
        KeybindAction::Stop
    } else {
        KeybindAction::Start
    }
}

} // verus!
