//! The command processor: a display mode and a small text buffer, driven one
//! keystroke at a time. A command is always entered through ':' and so always
//! starts with it; Enter hands the buffer to the surrounding program and
//! returns to the normal mode.

use vstd::prelude::*;

verus! {

use vstd::string::StrSliceExecFns;

/// The display mode of the command line.
#[derive(Debug, Clone, Copy, PartialEq, Eq, Structural)]
pub enum InputMode {
    Editing,
    Normal,
    Error,
}

/// The command-line state: the text buffer and the mode it is shown in. The
/// buffer is meaningful only while editing, where it always starts with the
/// ':' that opened it; outside editing it is empty.
#[derive(Debug, Clone)]
pub struct Input {
    pub input: String,
    pub input_mode: InputMode,
}

/// Whether a buffer is a syntactically valid command: it starts with ':'.
pub open spec fn starts_with_colon(s: Seq<char>) -> bool {
    s.len() > 0 && s[0] == ':'
}

/// What one Backspace leaves of the buffer: the last character goes, except
/// that the opening ':' alone is kept.
pub open spec fn backspace_view(s: Seq<char>) -> Seq<char> {
    if s.len() > 1 {
        s.drop_last()
    } else {
        s
    }
}

/// The buffer after `n` Backspace keystrokes.
pub open spec fn backspaces_view(s: Seq<char>, n: nat) -> Seq<char>
    decreases n,
{
    if n == 0 {
        s
    } else {
        backspace_view(backspaces_view(s, (n - 1) as nat))
    }
}

impl Input {
    /// The invariant the keystroke handlers keep: while editing, the buffer
    /// starts with the ':' that opened it; otherwise it is empty.
    pub open spec fn wf(self) -> bool {
        match self.input_mode {
            InputMode::Editing => starts_with_colon(self.input@),
            InputMode::Normal => self.input@.len() == 0,
            InputMode::Error => self.input@.len() == 0,
        }
    }

    /// The ':' keystroke: opens the command line from the normal or the
    /// error mode, with the buffer holding just the ':' itself.
    pub fn start_editing(&mut self)
        requires
            old(self).wf(),
            old(self).input_mode != InputMode::Editing,
        ensures
            final(self).input_mode == InputMode::Editing,
            final(self).input@ == seq![':'],
            final(self).wf(),
    {
        self.input.push(':');
        self.input_mode = InputMode::Editing;
        proof {
            assert(self.input@ =~= seq![':']);
        }
    }

    /// A printable keystroke while editing: appended to the buffer.
    pub fn append_char(&mut self, c: char)
        requires
            old(self).wf(),
            old(self).input_mode == InputMode::Editing,
        ensures
            final(self).input_mode == InputMode::Editing,
            final(self).input@ == old(self).input@.push(c),
            final(self).wf(),
    {
        self.input.push(c);
    }

    /// The Backspace keystroke while editing: drops the last character, but
    /// never the opening ':'.
    pub fn backspace(&mut self)
        requires
            old(self).wf(),
            old(self).input_mode == InputMode::Editing,
        ensures
            final(self).input_mode == InputMode::Editing,
            final(self).input@ == backspace_view(old(self).input@),
            final(self).wf(),
    {
        if self.input.as_str().unicode_len() > 1 {
            self.input.pop();
        }
    }

    /// The Escape keystroke: cancels the command line, clearing the buffer.
    pub fn cancel(&mut self)
        ensures
            final(self).input_mode == InputMode::Normal,
            final(self).input@ == Seq::<char>::empty(),
            final(self).wf(),
    {
        self.input = String::new();
        self.input_mode = InputMode::Normal;
    }

    /// A recoverable failure notice, shown when a directory read or a spawn
    /// fails: the error state is displayed and the browsing state is left
    /// alone; the next ':' reopens the command line.
    pub fn report_error(&mut self)
        requires
            old(self).wf(),
            old(self).input_mode != InputMode::Editing,
        ensures
            final(self).input_mode == InputMode::Error,
            final(self).input@ == Seq::<char>::empty(),
            final(self).wf(),
    {
        self.input_mode = InputMode::Error;
    }

    /// Checks the buffer and sets the mode accordingly: a buffer that starts
    /// with ':' is a command and yields the normal mode, anything else the
    /// error mode. By construction the buffer always passes; the check is
    /// kept as a defensive guard.
    pub fn validate_input(&mut self)
        ensures
            final(self).input == old(self).input,
            final(self).input_mode == (if starts_with_colon(old(self).input@) {
                InputMode::Normal
            } else {
                InputMode::Error
            }),
    {
        let valid = self.input.as_str().unicode_len() > 0 && self.input.as_str().get_char(0)
            == ':';
        if !valid {
            self.input_mode = InputMode::Error;
        } else {
            self.input_mode = InputMode::Normal;
        }
    }

    /// The Enter keystroke: validates the buffer, then clears it. The caller
    /// takes the buffer's content first and routes it, together with the
    /// selected entry's name, to whatever executes commands; this type only
    /// guarantees the mode transition and the buffer lifecycle.
    pub fn execute(&mut self)
        ensures
            final(self).input@ == Seq::<char>::empty(),
            final(self).input_mode == (if starts_with_colon(old(self).input@) {
                InputMode::Normal
            } else {
                InputMode::Error
            }),
            final(self).wf(),
    {
        self.validate_input();
        self.input = String::new();
    }
}

impl Default for Input {
    /// The initial command-line state: empty buffer, normal mode.
    fn default() -> (r: Input)
        ensures
            r.input_mode == InputMode::Normal,
            r.input@ == Seq::<char>::empty(),
            r.wf(),
    {
        Input { input: String::new(), input_mode: InputMode::Normal }
    }
}

/// Appending any characters and then deleting as many with Backspace returns
/// the buffer exactly to its prior value, for any buffer that is non-empty,
/// as every editing buffer is.
pub proof fn lemma_append_backspace_round_trip(s: Seq<char>, cs: Seq<char>)
    requires
        s.len() >= 1,
    ensures
        backspaces_view(s + cs, cs.len()) == s,
    decreases cs.len(),
{
    if cs.len() == 0 {
        assert(s + cs =~= s);
    } else {
        let s1 = s.push(cs[0]);
        let cs1 = cs.drop_first();
        lemma_append_backspace_round_trip(s1, cs1);
        assert(s1 + cs1 =~= s + cs);
        assert(backspaces_view(s + cs, cs.len()) == backspace_view(
            backspaces_view(s + cs, (cs.len() - 1) as nat),
        ));
        assert(backspaces_view(s + cs, (cs.len() - 1) as nat) == s1);
        assert(backspace_view(s1) =~= s);
    }
}

} // verus!
