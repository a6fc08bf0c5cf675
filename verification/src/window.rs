//! The overlay window: when it shows, when it takes input, which game it
//! follows, and the welcome message. The application watches the processes
//! and the focused window and hands over what it saw; these functions decide.

use vstd::prelude::*;
use crate::overlay::UIState;
use crate::clock::{instant_now, elapsed_secs};

verus! {

/// How the overlay window is shown.
#[derive(Clone, Copy, Debug, PartialEq, Eq, Structural)]
pub enum ViewState {
    Hidden,
    Visible,
    /// Should not change without the user's control
    Interactable,
}

/// The overlay hotkey was pressed: an interactive overlay goes back to
/// merely visible (returns `false`); otherwise it becomes interactive
/// (returns `true`).
pub fn overlay_key(view_state: &mut ViewState) -> (r: bool)
    ensures
        *old(view_state) == ViewState::Interactable ==> !r && *final(view_state) == ViewState::Visible,
        *old(view_state) != ViewState::Interactable ==> r && *final(view_state) == ViewState::Interactable,
{
    if *view_state == ViewState::Interactable {
        *view_state = ViewState::Visible;
        false
    } else {
        *view_state = ViewState::Interactable;
        true
    }
}

/// Whether the game is in front: the focused window belongs to the game's
/// process (when one was found), or carries the game's name.
pub open spec fn game_in_front(target: Seq<char>, game_pid: Option<u32>, active_pid: u64, active_name: Seq<char>) -> bool {
    (game_pid matches Some(p) && active_pid == p) || active_name == target
}

pub fn game_is_active(target: &String, game_pid: Option<u32>, active_pid: u64, active_name: &String) -> (r: bool)
    ensures
        r == game_in_front(target@, game_pid, active_pid, active_name@),
{
    let by_pid = match game_pid {
        Some(p) => active_pid == p as u64,
        None => false,
    };
    by_pid || *active_name == *target
}

/// The game counts as in front when the focused window carries the game's
/// name, whether or not the game's process was found and whatever process
/// owns the window; it also counts when the focused window belongs to the
/// game's process; and only then.
pub proof fn law_game_in_front(target: Seq<char>, game_pid: Option<u32>, active_pid: u64, active_name: Seq<char>)
    ensures
        active_name == target ==> game_in_front(target, game_pid, active_pid, active_name),
        active_name == target ==> game_in_front(target, None, active_pid, active_name) && forall|p: u32|
            #[trigger] game_in_front(target, Some(p), active_pid, active_name),
        game_pid == Some(active_pid as u32) && active_pid <= u32::MAX ==> game_in_front(
            target,
            game_pid,
            active_pid,
            active_name,
        ),
        game_in_front(target, game_pid, active_pid, active_name) ==> active_name == target || (game_pid
            is Some && game_pid->0 == active_pid),
{
}

/// What the process check does to the window.
#[derive(Clone, Copy, Debug, PartialEq, Eq, Structural)]
pub enum WindowChange {
    Unchanged,
    Hide,
    Show,
}

/// The state after one process check: a visible overlay hides when the game
/// is not in front, a hidden one shows when it is; an interactive overlay is
/// left alone.
pub open spec fn next_view(v: ViewState, active: bool) -> ViewState {
    match v {
        ViewState::Visible => if active { ViewState::Visible } else { ViewState::Hidden },
        ViewState::Hidden => if active { ViewState::Visible } else { ViewState::Hidden },
        ViewState::Interactable => ViewState::Interactable,
    }
}

pub fn apply_activity(view_state: &mut ViewState, active: bool) -> (r: WindowChange)
    ensures
        *final(view_state) == next_view(*old(view_state), active),
        r == change_between(*old(view_state), *final(view_state)),
{
    if *view_state != ViewState::Interactable {
        if *view_state == ViewState::Visible && !active {
            *view_state = ViewState::Hidden;
            return WindowChange::Hide;
        } else if *view_state == ViewState::Hidden && active {
            *view_state = ViewState::Visible;
            return WindowChange::Show;
        }
    }
    WindowChange::Unchanged
}

/// The window change that goes with a change of view state.
pub open spec fn change_between(before: ViewState, after: ViewState) -> WindowChange {
    if after == before {
        WindowChange::Unchanged
    } else if after == ViewState::Hidden {
        WindowChange::Hide
    } else {
        WindowChange::Show
    }
}

/// One pass of the process check. `focused` is the focused window's process
/// id and name, `None` when no window is focused; the pass is skipped then,
/// and when the focused window is the overlay's own (`own_pid`). Otherwise
/// the overlay follows whether the game is in front, and the window change
/// to make is returned with, when the game's process was found and is in
/// front, its id (the application reports that process's data).
pub fn process_check_step(
    view_state: &mut ViewState,
    own_pid: u64,
    focused: Option<(u64, String)>,
    target: &String,
    game_pid: Option<u32>,
) -> (r: (WindowChange, Option<u32>))
    ensures
        match focused {
            None => r == (WindowChange::Unchanged, None::<u32>) && *final(view_state) == *old(view_state),
            Some((pid, name)) => if pid == own_pid {
                r == (WindowChange::Unchanged, None::<u32>) && *final(view_state) == *old(view_state)
            } else {
                let active = game_in_front(target@, game_pid, pid, name@);
                &&& *final(view_state) == next_view(*old(view_state), active)
                &&& r.0 == change_between(*old(view_state), *final(view_state))
                &&& r.1 == (if active && game_pid is Some {
                    game_pid
                } else {
                    None
                })
            },
        },
{
    match focused {
        None => (WindowChange::Unchanged, None),
        Some((pid, name)) => {
            if pid == own_pid {
                (WindowChange::Unchanged, None)
            } else {
                let active = game_is_active(target, game_pid, pid, &name);
                let change = apply_activity(view_state, active);
                let report = if active {
                    game_pid
                } else {
                    None
                };
                (change, report)
            }
        },
    }
}

/// An interactive overlay stays interactive through any number of process
/// checks, and no check hides or shows it: only the user leaves that state,
/// with the hotkey.
pub proof fn law_interactable_is_kept(focused: Seq<Option<(u64, Seq<char>)>>, own_pid: u64, target: Seq<char>, game_pid: Option<u32>)
    ensures
        views_after(ViewState::Interactable, focused, own_pid, target, game_pid) == ViewState::Interactable,
        forall|active: bool|
            #[trigger] next_view(ViewState::Interactable, active) == ViewState::Interactable && change_between(
                ViewState::Interactable,
                next_view(ViewState::Interactable, active),
            ) == WindowChange::Unchanged,
    decreases focused.len(),
{
    if focused.len() > 0 {
        law_interactable_is_kept(focused.drop_last(), own_pid, target, game_pid);
    }
}

/// The state after the process checks that saw `focused`, in order.
pub open spec fn views_after(
    v: ViewState,
    focused: Seq<Option<(u64, Seq<char>)>>,
    own_pid: u64,
    target: Seq<char>,
    game_pid: Option<u32>,
) -> ViewState
    decreases focused.len(),
{
    if focused.len() == 0 {
        v
    } else {
        let before = views_after(v, focused.drop_last(), own_pid, target, game_pid);
        match focused.last() {
            None => before,
            Some((pid, name)) => if pid == own_pid {
                before
            } else {
                next_view(before, game_in_front(target, game_pid, pid, name))
            },
        }
    }
}

/// Pressing the hotkey twice brings the overlay back to where it was, when
/// it was visible or interactive; a hidden overlay comes back visible.
pub proof fn law_overlay_key_twice(v: ViewState)
    ensures
        key_pressed(key_pressed(v)) == (if v == ViewState::Hidden { ViewState::Visible } else { v }),
{
}

/// The state after the hotkey.
pub open spec fn key_pressed(v: ViewState) -> ViewState {
    if v == ViewState::Interactable {
        ViewState::Visible
    } else {
        ViewState::Interactable
    }
}

/// The process the overlay follows when none is configured.
pub fn default_target_process(on_windows: bool) -> (r: String)
    ensures
        on_windows ==> r@ == "left4dead2.exe"@,
        !on_windows ==> r@ == "left4dead2"@,
{
    if on_windows {
        String::from_str("left4dead2.exe")
    } else {
        String::from_str("left4dead2")
    }
}

/// The process the overlay follows: the configured name, else the default.
pub fn target_process(configured: Option<String>, on_windows: bool) -> (r: String)
    ensures
        match configured {
            Some(c) => r == c,
            None => (on_windows ==> r@ == "left4dead2.exe"@) && (!on_windows ==> r@ == "left4dead2"@),
        },
{
    match configured {
        Some(c) => c,
        None => default_target_process(on_windows),
    }
}

/// The game process to follow: with the always-active setting, the process
/// id 0 whatever was found; otherwise the one found, if any.
pub fn check_for_process(always_active: bool, found: Option<u32>) -> (r: Option<u32>)
    ensures
        always_active ==> r == Some(0u32),
        !always_active ==> r == found,
{
    if always_active {
        return Some(0);
    }
    found
}

/// The state of the UI child process, as the supervisor sees it.
#[derive(Clone, Copy, Debug, PartialEq, Eq, Structural)]
pub enum ChildState {
    /// No child is running.
    Absent,
    Running,
    /// The child was started and has ended.
    Ended,
}

/// What the supervisor does on one pass.
#[derive(Clone, Copy, Debug, PartialEq, Eq, Structural)]
pub enum SupervisorAction {
    Nothing,
    /// Start the UI child.
    Spawn,
    /// Forget the ended child, so that the next pass starts a new one.
    Forget,
    /// Stop the child and wait for it.
    Terminate,
}

/// One pass of the supervisor: while the game runs there is a UI child (an
/// ended one is replaced); when the game is gone, a child that is still
/// there is stopped.
pub fn supervise(game_running: bool, child: ChildState) -> (r: SupervisorAction)
    ensures
        game_running && child == ChildState::Absent ==> r == SupervisorAction::Spawn,
        game_running && child == ChildState::Ended ==> r == SupervisorAction::Forget,
        game_running && child == ChildState::Running ==> r == SupervisorAction::Nothing,
        !game_running && child != ChildState::Absent ==> r == SupervisorAction::Terminate,
        !game_running && child == ChildState::Absent ==> r == SupervisorAction::Nothing,
{
    if game_running {
        match child {
            ChildState::Absent => SupervisorAction::Spawn,
            ChildState::Ended => SupervisorAction::Forget,
            ChildState::Running => SupervisorAction::Nothing,
        }
    } else if child != ChildState::Absent {
        SupervisorAction::Terminate
    } else {
        SupervisorAction::Nothing
    }
}

/// Whether the overlay lets the mouse and keyboard through to the game: never
/// in the detail view, otherwise when the UI wants neither.
pub fn passthrough(ui_state: UIState, wants_pointer: bool, wants_keyboard: bool) -> (r: bool)
    ensures
        r == (ui_state != UIState::DetailActive && !wants_pointer && !wants_keyboard),
{
    if ui_state == UIState::DetailActive {
        false
    } else {
        !wants_pointer && !wants_keyboard
    }
}

/// The welcome message, shown for the first seconds of the overlay.
#[derive(Debug)]
pub struct StartupMessage {
    remaining_time: Option<std::time::Instant>,
}

impl StartupMessage {
    /// The instant the message started at, while it is shown.
    pub closed spec fn spec_started(&self) -> Option<std::time::Instant> {
        self.remaining_time
    }

    /// Whether the message is still shown.
    pub open spec fn spec_showing(&self) -> bool {
        self.spec_started() is Some
    }

    /// The message starts out shown, timed from now.
    pub fn new() -> (r: StartupMessage)
        ensures
            r.spec_showing(),
    {
        StartupMessage { remaining_time: Some(instant_now()) }
    }

    pub fn is_showing(&self) -> (r: bool)
        ensures
            r == self.spec_showing(),
    {
        self.remaining_time.is_some()
    }

    /// After the message was drawn, `elapsed_secs` after it started: it ends
    /// once more than 8 seconds have passed, and otherwise keeps its start.
    pub fn after_shown(&mut self, elapsed_secs: u64)
        ensures
            final(self).spec_started() == (if elapsed_secs <= 8 {
                old(self).spec_started()
            } else {
                None
            }),
    {
        if elapsed_secs > 8 {
            self.remaining_time = None;
        }
    }

    /// One frame: returns whether the message is drawn this frame, and ends
    /// it once its time is up, as the clock tells of the time since its
    /// start. A message that goes on showing keeps its start; a message that
    /// has ended stays ended.
    pub fn run_ui(&mut self) -> (r: bool)
        ensures
            r == old(self).spec_showing(),
            final(self).spec_started() is None || final(self).spec_started() == old(self).spec_started(),
    {
        match &self.remaining_time {
            Some(t) => {
                let e = elapsed_secs(t);
                self.after_shown(e);
                true
            },
            None => false,
        }
    }
}

/// The desktop application's settings; it has none yet.
#[derive(Debug)]
pub struct AppConfig {}

impl AppConfig {
    pub fn new() -> (r: AppConfig)
        ensures
            r == (AppConfig {}),
    {
        AppConfig {}
    }
}

} // verus!
