//! The event model and the main-loop router: one ordered stream of timer
//! ticks and logical keys, routed to the navigation controller or the
//! command processor by the current mode. The router performs every pure
//! transition itself and hands each side effect — quitting, spawning the
//! opener, reading a directory, running a command — back to the caller as a
//! plain value.

use vstd::prelude::*;
use crate::entry::FileData;
use crate::entry::FileType;
use crate::input::Input;
use crate::input::InputMode;
use crate::input::backspace_view;
use crate::input::starts_with_colon;
use crate::nav::DirectoryState;
use crate::nav::moved_selection;

verus! {

/// A logical key, decoupled from the physical key codes of the terminal.
/// `Other` stands for every key the browser does not bind.
#[derive(Debug, Clone, Copy, PartialEq, Eq, Structural)]
pub enum Key {
    Up,
    Down,
    Left,
    Right,
    Char(char),
    Ctrl(char),
    Backspace,
    Esc,
    Other,
}

/// One item of the event stream: a periodic redraw cue, or a key.
#[derive(Debug, Clone, Copy, PartialEq, Eq, Structural)]
pub enum Event {
    Tick,
    Key(Key),
}

/// The side effect one routed event asks of the surrounding program. Every
/// variant but `Quit` is followed by a redraw.
#[derive(Debug, Clone, PartialEq, Eq)]
pub enum Effect {
    /// Nothing beyond the redraw.
    Nothing,
    /// Leave the main loop.
    Quit,
    /// Spawn the external opener on the named regular file, fire-and-forget.
    OpenFile(String),
    /// Read the named subdirectory of the current path; on success descend
    /// with `enter_dir`, on failure report and leave the state alone.
    EnterDir(String),
    /// Read the parent directory, the one `leave_target` names; on success
    /// ascend with `leave_to`, on failure report and leave the state alone.
    Leave,
    /// Run the command the buffer held against the selected entry.
    RunCommand { buffer: String, selected: Option<String> },
}

/// What pressing Right asks for: opening the selected regular file,
/// descending into the selected directory, nothing otherwise.
pub open spec fn enter_effect(d: DirectoryState) -> Effect {
    match d.selected {
        Option::Some(i) => {
            let e = d.entries@[i as int];
            if e.file_type == FileType::RegularFile {
                Effect::OpenFile(e.name)
            } else if e.file_type == FileType::Directory {
                Effect::EnterDir(e.name)
            } else {
                Effect::Nothing
            }
        },
        Option::None => Effect::Nothing,
    }
}

/// What pressing Enter while editing asks for: the buffer as it stood,
/// against the name of the selected entry.
pub open spec fn run_command_effect(in0: Input, d: DirectoryState) -> Effect {
    Effect::RunCommand { buffer: in0.input, selected: d.selected_name_view() }
}

/// The full transition relation of one main-loop iteration: how the state
/// after the event (`nav1`, `in1`) and the requested effect follow from the
/// state before it (`nav0`, `in0`).
pub open spec fn step_spec(
    nav0: DirectoryState,
    in0: Input,
    event: Event,
    nav1: DirectoryState,
    in1: Input,
    eff: Effect,
) -> bool {
    match event {
        Event::Tick => nav1 == nav0 && in1 == in0 && eff == Effect::Nothing,
        Event::Key(k) => if in0.input_mode == InputMode::Editing {
            editing_key_spec(nav0, in0, k, nav1, in1, eff)
        } else {
            normal_key_spec(nav0, in0, k, nav1, in1, eff)
        },
    }
}

/// The transitions of the normal and the error mode: quitting, moving the
/// cursor with wrap-around, descending, ascending, opening the command line.
pub open spec fn normal_key_spec(
    nav0: DirectoryState,
    in0: Input,
    k: Key,
    nav1: DirectoryState,
    in1: Input,
    eff: Effect,
) -> bool {
    match k {
        Key::Char(c) => if c == 'q' {
            nav1 == nav0 && in1 == in0 && eff == Effect::Quit
        } else if c == ':' {
            nav1 == nav0 && in1.input_mode == InputMode::Editing && in1.input@ == seq![':']
                && eff == Effect::Nothing
        } else {
            nav1 == nav0 && in1 == in0 && eff == Effect::Nothing
        },
        Key::Ctrl(c) => if c == 'c' {
            nav1 == nav0 && in1 == in0 && eff == Effect::Quit
        } else {
            nav1 == nav0 && in1 == in0 && eff == Effect::Nothing
        },
        Key::Up => in1 == in0 && nav1.path == nav0.path && nav1.entries == nav0.entries
            && nav1.selected == moved_selection(nav0.selected, nav0.entries@.len() as int, -1)
            && eff == Effect::Nothing,
        Key::Down => in1 == in0 && nav1.path == nav0.path && nav1.entries == nav0.entries
            && nav1.selected == moved_selection(nav0.selected, nav0.entries@.len() as int, 1)
            && eff == Effect::Nothing,
        Key::Right => nav1 == nav0 && in1 == in0 && eff == enter_effect(nav0),
        Key::Left => nav1 == nav0 && in1 == in0 && eff == (if nav0.path@.len() == 0 {
            Effect::Nothing
        } else {
            Effect::Leave
        }),
        Key::Backspace => nav1 == nav0 && in1 == in0 && eff == Effect::Nothing,
        Key::Esc => nav1 == nav0 && in1 == in0 && eff == Effect::Nothing,
        Key::Other => nav1 == nav0 && in1 == in0 && eff == Effect::Nothing,
    }
}

/// The transitions of the editing mode: the buffer edits, cancelling, and
/// executing the buffered command.
pub open spec fn editing_key_spec(
    nav0: DirectoryState,
    in0: Input,
    k: Key,
    nav1: DirectoryState,
    in1: Input,
    eff: Effect,
) -> bool {
    match k {
        Key::Char(c) => if c == '\n' {
            nav1 == nav0 && in1.input@ == Seq::<char>::empty() && in1.input_mode == (
            if starts_with_colon(in0.input@) {
                InputMode::Normal
            } else {
                InputMode::Error
            }) && eff == run_command_effect(in0, nav0)
        } else {
            nav1 == nav0 && in1.input_mode == InputMode::Editing && in1.input@
                == in0.input@.push(c) && eff == Effect::Nothing
        },
        Key::Backspace => nav1 == nav0 && in1.input_mode == InputMode::Editing && in1.input@
            == backspace_view(in0.input@) && eff == Effect::Nothing,
        Key::Esc => nav1 == nav0 && in1.input_mode == InputMode::Normal && in1.input@
            == Seq::<char>::empty() && eff == Effect::Nothing,
        _ => nav1 == nav0 && in1 == in0 && eff == Effect::Nothing,
    }
}

/// Routes one event: the pure state transition happens here, the returned
/// effect is what the surrounding program still has to perform.
pub fn step(nav: &mut DirectoryState, input: &mut Input, event: Event) -> (eff: Effect)
    requires
        old(nav).wf(),
        old(input).wf(),
    ensures
        final(nav).wf(),
        final(input).wf(),
        step_spec(*old(nav), *old(input), event, *final(nav), *final(input), eff),
{
    match event {
        Event::Tick => Effect::Nothing,
        Event::Key(k) => {
            if matches!(input.input_mode, InputMode::Editing) {
                match k {
                    Key::Char(c) => {
                        if c == '\n' {
                            let buffer = input.input.clone();
                            let selected = nav.selected_name();
                            input.execute();
                            Effect::RunCommand { buffer, selected }
                        } else {
                            input.append_char(c);
                            Effect::Nothing
                        }
                    },
                    Key::Backspace => {
                        input.backspace();
                        Effect::Nothing
                    },
                    Key::Esc => {
                        input.cancel();
                        Effect::Nothing
                    },
                    _ => Effect::Nothing,
                }
            } else {
                match k {
                    Key::Char(c) => {
                        if c == 'q' {
                            Effect::Quit
                        } else if c == ':' {
                            input.start_editing();
                            Effect::Nothing
                        } else {
                            Effect::Nothing
                        }
                    },
                    Key::Ctrl(c) => {
                        if c == 'c' {
                            Effect::Quit
                        } else {
                            Effect::Nothing
                        }
                    },
                    Key::Up => {
                        nav.move_selection(-1);
                        Effect::Nothing
                    },
                    Key::Down => {
                        nav.move_selection(1);
                        Effect::Nothing
                    },
                    Key::Right => {
                        match nav.selected_entry() {
                            Some(e) => {
                                if e.is_file() {
                                    Effect::OpenFile(e.name.clone())
                                } else if e.is_dir() {
                                    Effect::EnterDir(e.name.clone())
                                } else {
                                    Effect::Nothing
                                }
                            },
                            None => Effect::Nothing,
                        }
                    },
                    Key::Left => {
                        if nav.path.len() == 0 {
                            Effect::Nothing
                        } else {
                            Effect::Leave
                        }
                    },
                    Key::Backspace => Effect::Nothing,
                    Key::Esc => Effect::Nothing,
                    Key::Other => Effect::Nothing,
                }
            }
        },
    }
}

/// At the filesystem root, ascending is a no-op: routing a Left key outside
/// the editing mode changes neither the path, nor the listing, nor the
/// command line, and asks for nothing.
pub proof fn lemma_leave_at_root_is_noop(
    nav0: DirectoryState,
    in0: Input,
    nav1: DirectoryState,
    in1: Input,
    eff: Effect,
)
    requires
        in0.input_mode != InputMode::Editing,
        nav0.path@.len() == 0,
        step_spec(nav0, in0, Event::Key(Key::Left), nav1, in1, eff),
    ensures
        nav1 == nav0,
        in1 == in0,
        eff == Effect::Nothing,
{
}

} // verus!
