use vstd::prelude::*;
use crate::command::{execute_command, line_outcome, CommandStatus};
use crate::console::DebugConsoleState;
use crate::console_text::{chars_of, control_char, is_control, string_of, trim};
use crate::resources::FactionResources;

verus! {

/// The console's keys that were pressed this frame.
#[derive(Debug, Clone, Copy, PartialEq, Eq, Structural)]
pub struct ConsoleKeys {
    /// Escape: closes the console.
    pub escape: bool,
    /// Enter (main or keypad): runs the typed line.
    pub enter: bool,
    /// Backspace: deletes the last typed character.
    pub backspace: bool,
    /// Arrow up: shows an older history entry.
    pub up: bool,
    /// Arrow down: shows a newer history entry, or an empty line after the
    /// newest.
    pub down: bool,
}

/// What a frame of console input did.
#[derive(Debug, Clone, Copy, PartialEq, Eq, Structural)]
pub enum ConsoleInputOutcome {
    /// The console is not shown; nothing happened.
    Inactive,
    /// Escape closed the console.
    Closed,
    /// The line was edited; `Some` when Enter ran a line.
    Edited(Option<CommandStatus>),
}

/// The history as character sequences.
pub open spec fn history_view(h: Seq<String>) -> Seq<Seq<char>> {
    h.map_values(|s: String| s@)
}

/// A typed character is kept unless it is the console key '`', its shifted
/// form '~', or a control character.
pub open spec fn accepted_char(c: char) -> bool {
    c != '`' && c != '~' && !control_char(c)
}

/// The typed characters that are kept, in order.
pub open spec fn accepted_text(typed: Seq<char>) -> Seq<char>
    decreases typed.len(),
{
    if typed.len() == 0 {
        typed
    } else {
        let kept = accepted_text(typed.drop_last());
        if accepted_char(typed.last()) {
            kept.push(typed.last())
        } else {
            kept
        }
    }
}

/// The history position after arrow up with a non-empty history: one entry
/// older (staying at the oldest), or the newest when no entry was shown.
pub open spec fn older_index(index: Option<usize>, len: nat) -> usize {
    match index {
        Some(i) => if i > 0 {
            (i - 1) as usize
        } else {
            0
        },
        None => (len - 1) as usize,
    }
}

/// The line, history and history position after a frame's keys with the
/// console shown and without Escape: Enter takes the line (a line that is not
/// blank goes to the history and the position resets), Backspace deletes the
/// last character, arrow up and arrow down walk the history, and the typed
/// characters that are kept are appended.
pub open spec fn line_edit(
    input: Seq<char>,
    history: Seq<Seq<char>>,
    index: Option<usize>,
    keys: ConsoleKeys,
    typed: Seq<char>,
) -> (Seq<char>, Seq<Seq<char>>, Option<usize>) {
    let runs = keys.enter && trim(input).len() > 0;
    let i1 = if keys.enter { Seq::<char>::empty() } else { input };
    let h = if runs { history.push(input) } else { history };
    let x1 = if runs { None } else { index };
    let i2 = if keys.backspace && i1.len() > 0 { i1.drop_last() } else { i1 };
    let (i3, x2) = if keys.up && h.len() > 0 {
        let j = older_index(x1, h.len());
        (if j < h.len() { h[j as int] } else { i2 }, Some(j))
    } else {
        (i2, x1)
    };
    let (i4, x3) = if keys.down && x2 is Some {
        let j = x2->0;
        if j + 1 < h.len() {
            (h[j + 1], Some((j + 1) as usize))
        } else {
            (Seq::<char>::empty(), None)
        }
    } else {
        (i3, x2)
    };
    (i4 + accepted_text(typed), h, x3)
}

/// Appends the typed characters that are kept.
fn push_typed(s: &mut String, typed: &Vec<char>)
    ensures
        final(s)@ == old(s)@ + accepted_text(typed@),
{
    let mut i: usize = 0;
    while i < typed.len()
        invariant
            i <= typed@.len(),
            s@ == old(s)@ + accepted_text(typed@.take(i as int)),
        decreases typed@.len() - i,
    {
        let c = typed[i];
        proof {
            let pre = typed@.take(i as int);
            let now = typed@.take(i + 1);
            assert(now.drop_last() =~= pre);
            assert(now.last() == c);
        }
        if c != '`' && c != '~' && !is_control(c) {
            crate::text::string_push(s, c);
        }
        i = i + 1;
        proof {
            assert(s@ =~= old(s)@ + accepted_text(typed@.take(i as int)));
        }
    }
    assert(typed@.take(typed@.len() as int) =~= typed@);
}

/// Deletes the last character of a string, if any.
fn pop_char(s: &mut String)
    ensures
        final(s)@ == (if old(s)@.len() > 0 {
            old(s)@.drop_last()
        } else {
            old(s)@
        }),
{
    let mut cs = chars_of(s.as_str());
    if cs.len() > 0 {
        cs.pop();
        *s = string_of(&cs);
    }
}

/// A frame of keyboard input while the console may be shown. Nothing happens
/// while it is hidden. Escape closes it and ends the frame. Otherwise the
/// line, history and history position change as `line_edit` states, and when
/// Enter takes a line that is not blank, that line runs as `line_outcome`
/// states.
pub fn console_keyboard_input(
    state: &mut DebugConsoleState,
    res: &mut FactionResources,
    keys: ConsoleKeys,
    typed: &Vec<char>,
) -> (out: ConsoleInputOutcome)
    ensures
        !old(state).is_open ==> out == ConsoleInputOutcome::Inactive && *final(state) == *old(
            state,
        ) && *final(res) == *old(res),
        old(state).is_open && keys.escape ==> {
            &&& out == ConsoleInputOutcome::Closed
            &&& !final(state).is_open
            &&& final(state).input_text@ == old(state).input_text@
            &&& final(state).history@ == old(state).history@
            &&& final(state).history_index == old(state).history_index
            &&& final(state).log_lines() == old(state).log_lines()
            &&& *final(res) == *old(res)
        },
        old(state).is_open && !keys.escape ==> {
            let runs = keys.enter && trim(old(state).input_text@).len() > 0;
            let (line, history, index) = line_edit(
                old(state).input_text@,
                history_view(old(state).history@),
                old(state).history_index,
                keys,
                typed@,
            );
            &&& final(state).is_open
            &&& final(state).input_text@ == line
            &&& history_view(final(state).history@) == history
            &&& final(state).history_index == index
            &&& if runs {
                let (log, r, st) = line_outcome(
                    old(state).input_text@,
                    old(state).log_lines(),
                    *old(res),
                );
                &&& final(state).log_lines() == log
                &&& *final(res) == r
                &&& out == ConsoleInputOutcome::Edited(Some(st))
            } else {
                &&& final(state).log_lines() == old(state).log_lines()
                &&& *final(res) == *old(res)
                &&& out == ConsoleInputOutcome::Edited(None)
            }
        },
        final(state).is_unlocked == old(state).is_unlocked,
        final(state).show_warning_modal == old(state).show_warning_modal,
        final(state).secret_click_count == old(state).secret_click_count,
{
    if !state.is_open {
        return ConsoleInputOutcome::Inactive;
    }
    if keys.escape {
        state.is_open = false;
        return ConsoleInputOutcome::Closed;
    }
    let ghost h0 = history_view(state.history@);
    let mut ran: Option<CommandStatus> = None;
    if keys.enter {
        let line = state.input_text.clone();
        state.input_text = String::new();
        let cs = chars_of(line.as_str());
        let t = crate::console_text::trim_chars(&cs);
        if t.len() > 0 {
            let ghost before = state.history@;
            state.history.push(line.clone());
            state.history_index = None;
            proof {
                assert(history_view(state.history@) =~= history_view(before).push(line@));
            }
            let st = execute_command(line.as_str(), state, res);
            ran = Some(st);
        }
    }
    if keys.backspace {
        pop_char(&mut state.input_text);
    }
    let ghost h = history_view(state.history@);
    if keys.up && state.history.len() > 0 {
        let j: usize = match state.history_index {
            Some(i) => if i > 0 {
                i - 1
            } else {
                0
            },
            None => state.history.len() - 1,
        };
        state.history_index = Some(j);
        if j < state.history.len() {
            state.input_text = state.history[j].clone();
            assert(state.input_text@ == h[j as int]);
        }
    }
    if keys.down {
        match state.history_index {
            Some(j) => {
                if j < state.history.len() && j + 1 < state.history.len() {
                    state.history_index = Some(j + 1);
                    state.input_text = state.history[j + 1].clone();
                    assert(state.input_text@ == h[j + 1]);
                } else {
                    state.history_index = None;
                    state.input_text = String::new();
                }
            },
            None => {},
        }
    }
    push_typed(&mut state.input_text, typed);
    ConsoleInputOutcome::Edited(ran)
}

/// No keys at all.
pub open spec fn no_keys() -> ConsoleKeys {
    ConsoleKeys { escape: false, enter: false, backspace: false, up: false, down: false }
}

/// The console key and its shifted form never reach the typed line, nor
/// does a control character.
pub proof fn lemma_typed_text_is_clean(typed: Seq<char>)
    ensures
        forall|i: int|
            0 <= i < accepted_text(typed).len() ==> accepted_char(#[trigger] accepted_text(typed)[i]),
    decreases typed.len(),
{
    if typed.len() > 0 {
        let kept = accepted_text(typed.drop_last());
        lemma_typed_text_is_clean(typed.drop_last());
        assert forall|i: int| 0 <= i < accepted_text(typed).len() implies accepted_char(
            #[trigger] accepted_text(typed)[i],
        ) by {
            if i < kept.len() {
                assert(accepted_text(typed)[i] == kept[i]);
            }
        }
    }
}

/// A line that is entered can be called back at once: Enter on a line that
/// is not blank stores it as the newest history entry, and arrow up right
/// after brings it back into the input line.
pub proof fn lemma_entered_line_recalled(
    input: Seq<char>,
    history: Seq<Seq<char>>,
    index: Option<usize>,
)
    requires
        trim(input).len() > 0,
        history.len() < usize::MAX,
    ensures
        ({
            let (l1, h1, x1) = line_edit(
                input,
                history,
                index,
                ConsoleKeys { enter: true, ..no_keys() },
                Seq::empty(),
            );
            let (l2, h2, x2) = line_edit(
                l1,
                h1,
                x1,
                ConsoleKeys { up: true, ..no_keys() },
                Seq::empty(),
            );
            &&& l1 == Seq::<char>::empty()
            &&& h1 == history.push(input)
            &&& l2 == input
            &&& h2 == h1
            &&& x2 == Some(history.len() as usize)
        }),
{
    let e: Seq<char> = Seq::empty();
    assert(accepted_text(e) == e);
    assert(e + e =~= e);
    assert(input + e =~= input);
}

/// Enter on a blank line leaves the history as it is and empties the line.
pub proof fn lemma_blank_line_not_stored(
    input: Seq<char>,
    history: Seq<Seq<char>>,
    index: Option<usize>,
)
    requires
        trim(input).len() == 0,
    ensures
        ({
            let (l1, h1, x1) = line_edit(
                input,
                history,
                index,
                ConsoleKeys { enter: true, ..no_keys() },
                Seq::empty(),
            );
            &&& l1 == Seq::<char>::empty()
            &&& h1 == history
            &&& x1 == index
        }),
{
    let e: Seq<char> = Seq::empty();
    assert(accepted_text(e) == e);
    assert(e + e =~= e);
}

} // verus!
