use vstd::prelude::*;

verus! {

/// How a console line is coloured.
#[derive(Debug, Clone, Copy, PartialEq, Eq, Hash, Structural)]
pub enum LogTone {
    /// The echo of an entered command.
    Echo,
    /// A heading.
    Header,
    /// Ordinary text.
    Plain,
    /// A command succeeded.
    Success,
    /// A command failed.
    Error,
    /// A hint.
    Hint,
}

/// Most lines the console keeps.
pub open spec fn max_log_lines() -> int {
    100
}

/// The text and tone of each log line.
pub open spec fn log_view(logs: Seq<(String, LogTone)>) -> Seq<(Seq<char>, LogTone)> {
    logs.map_values(|e: (String, LogTone)| (e.0@, e.1))
}

/// The log after adding a line: the line goes last, and the oldest line is
/// dropped once there are more than 100.
pub open spec fn with_log(v: Seq<(Seq<char>, LogTone)>, e: (Seq<char>, LogTone)) -> Seq<
    (Seq<char>, LogTone),
> {
    let w = v.push(e);
    if w.len() > max_log_lines() {
        w.drop_first()
    } else {
        w
    }
}

/// The log after adding several lines in order.
pub open spec fn with_logs(v: Seq<(Seq<char>, LogTone)>, es: Seq<(Seq<char>, LogTone)>) -> Seq<
    (Seq<char>, LogTone),
>
    decreases es.len(),
{
    if es.len() == 0 {
        v
    } else {
        with_log(with_logs(v, es.drop_last()), es.last())
    }
}

/// The two lines the console starts with.
pub open spec fn welcome_lines() -> Seq<(Seq<char>, LogTone)> {
    seq![
        ("=== ALIEN COM GAME DEBUG CONSOLE ==="@, LogTone::Header),
        ("Type 'help' for a list of available commands."@, LogTone::Hint),
    ]
}

/// State of the hidden debug console.
pub struct DebugConsoleState {
    /// The warning dialog has been accepted.
    pub is_unlocked: bool,
    /// The console is shown.
    pub is_open: bool,
    /// The first-use warning dialog is shown.
    pub show_warning_modal: bool,
    /// The command being typed.
    pub input_text: String,
    /// Commands entered so far, oldest first.
    pub history: Vec<String>,
    /// The history entry being shown; `None` for the line being edited.
    pub history_index: Option<usize>,
    /// Output lines, oldest first.
    pub logs: Vec<(String, LogTone)>,
    /// Consecutive clicks on the hidden trigger.
    pub secret_click_count: u32,
}

/// What the console's handlers ask the user interface to do.
#[derive(Debug, Clone, Copy, PartialEq, Eq, Structural)]
pub struct ConsoleUiEffects {
    pub open_warning: bool,
    pub close_warning: bool,
    pub open_console: bool,
    pub close_console: bool,
}

pub open spec fn no_ui_effects() -> ConsoleUiEffects {
    ConsoleUiEffects {
        open_warning: false,
        close_warning: false,
        open_console: false,
        close_console: false,
    }
}

/// (unlocked, open, warning shown) and effects after the console key or the
/// hidden trigger: a shown warning closes, else an open console closes, else
/// the warning appears when the console is still locked and the console
/// opens when it is not.
pub open spec fn console_toggle(unlocked: bool, open: bool, warning: bool) -> (bool, bool, bool, ConsoleUiEffects) {
    if warning {
        (unlocked, open, false, ConsoleUiEffects { close_warning: true, ..no_ui_effects() })
    } else if open {
        (unlocked, false, warning, ConsoleUiEffects { close_console: true, ..no_ui_effects() })
    } else if !unlocked {
        (unlocked, open, true, ConsoleUiEffects { open_warning: true, ..no_ui_effects() })
    } else {
        (unlocked, true, warning, ConsoleUiEffects { open_console: true, ..no_ui_effects() })
    }
}

/// Click count and result after a click on the hidden trigger: the count
/// restarts when the previous click is too long ago, and the fifth click in
/// a row fires and restarts the count.
pub open spec fn secret_click(count: u32, window_expired: bool) -> (u32, bool) {
    let c = if count > 0 && window_expired { 0 } else { count as int };
    if c + 1 >= 5 {
        (0, true)
    } else {
        ((c + 1) as u32, false)
    }
}

impl DebugConsoleState {
    /// The log as text and tone.
    pub open spec fn log_lines(self) -> Seq<(Seq<char>, LogTone)> {
        log_view(self.logs@)
    }

    /// Every field but the log is the same in both states.
    pub open spec fn same_but_log(self, other: DebugConsoleState) -> bool {
        &&& self.is_unlocked == other.is_unlocked
        &&& self.is_open == other.is_open
        &&& self.show_warning_modal == other.show_warning_modal
        &&& self.input_text@ == other.input_text@
        &&& self.history@ == other.history@
        &&& self.history_index == other.history_index
        &&& self.secret_click_count == other.secret_click_count
    }

    /// Locked and closed, with an empty command line and history and the two
    /// welcome lines in the log.
    pub fn new() -> (s: DebugConsoleState)
        ensures
            !s.is_unlocked,
            !s.is_open,
            !s.show_warning_modal,
            s.input_text@ == Seq::<char>::empty(),
            s.history@.len() == 0,
            s.history_index is None,
            s.log_lines() == welcome_lines(),
            s.secret_click_count == 0,
    {
        let mut logs: Vec<(String, LogTone)> = Vec::new();
        logs.push((String::from_str("=== ALIEN COM GAME DEBUG CONSOLE ==="), LogTone::Header));
        logs.push(
            (String::from_str("Type 'help' for a list of available commands."), LogTone::Hint),
        );
        let s = DebugConsoleState {
            is_unlocked: false,
            is_open: false,
            show_warning_modal: false,
            input_text: String::new(),
            history: Vec::new(),
            history_index: None,
            logs,
            secret_click_count: 0,
        };
        assert(s.log_lines() =~= welcome_lines());
        s
    }

    /// Adds a line to the log, as `with_log` states.
    pub fn add_log(&mut self, text: String, tone: LogTone)
        ensures
            final(self).log_lines() == with_log(old(self).log_lines(), (text@, tone)),
            final(self).is_unlocked == old(self).is_unlocked,
            final(self).is_open == old(self).is_open,
            final(self).show_warning_modal == old(self).show_warning_modal,
            final(self).input_text@ == old(self).input_text@,
            final(self).history@ == old(self).history@,
            final(self).history_index == old(self).history_index,
            final(self).secret_click_count == old(self).secret_click_count,
    {
        let ghost t = text@;
        self.logs.push((text, tone));
        proof {
            assert(log_view(self.logs@) =~= old(self).log_lines().push((t, tone)));
        }
        if self.logs.len() > 100 {
            let ghost before = self.logs@;
            self.logs.remove(0);
            proof {
                assert(log_view(self.logs@) =~= log_view(before).drop_first());
            }
        }
    }

    /// Empties the log.
    pub fn clear_logs(&mut self)
        ensures
            final(self).log_lines() == Seq::<(Seq<char>, LogTone)>::empty(),
            final(self).is_unlocked == old(self).is_unlocked,
            final(self).is_open == old(self).is_open,
            final(self).show_warning_modal == old(self).show_warning_modal,
            final(self).input_text@ == old(self).input_text@,
            final(self).history@ == old(self).history@,
            final(self).history_index == old(self).history_index,
            final(self).secret_click_count == old(self).secret_click_count,
    {
        self.logs.clear();
        assert(log_view(self.logs@) =~= Seq::<(Seq<char>, LogTone)>::empty());
    }

    /// Counts a click on the hidden trigger, as `secret_click` states;
    /// `window_expired` tells whether five seconds or more passed since the
    /// previous click. Returns whether the click fired.
    pub fn register_secret_click(&mut self, window_expired: bool) -> (fired: bool)
        ensures
            (final(self).secret_click_count, fired) == secret_click(
                old(self).secret_click_count,
                window_expired,
            ),
            final(self).is_unlocked == old(self).is_unlocked,
            final(self).is_open == old(self).is_open,
            final(self).show_warning_modal == old(self).show_warning_modal,
            final(self).log_lines() == old(self).log_lines(),
    {
        if self.secret_click_count > 0 && window_expired {
            self.secret_click_count = 0;
        }
        if self.secret_click_count >= 4 {
            self.secret_click_count = 0;
            true
        } else {
            self.secret_click_count = self.secret_click_count + 1;
            false
        }
    }

    /// The console key: as `console_toggle` states.
    pub fn toggle(&mut self) -> (e: ConsoleUiEffects)
        ensures
            (final(self).is_unlocked, final(self).is_open, final(self).show_warning_modal, e)
                == console_toggle(old(self).is_unlocked, old(self).is_open, old(self).show_warning_modal),
            final(self).secret_click_count == old(self).secret_click_count,
            final(self).log_lines() == old(self).log_lines(),
            final(self).input_text@ == old(self).input_text@,
    {
        let mut e = ConsoleUiEffects {
            open_warning: false,
            close_warning: false,
            open_console: false,
            close_console: false,
        };
        if self.show_warning_modal {
            self.show_warning_modal = false;
            e.close_warning = true;
        } else if self.is_open {
            self.is_open = false;
            e.close_console = true;
        } else if !self.is_unlocked {
            self.show_warning_modal = true;
            e.open_warning = true;
        } else {
            self.is_open = true;
            e.open_console = true;
        }
        e
    }

    /// A press on the hidden trigger area: counts the click, and the fifth
    /// click in a row acts as the console key.
    pub fn secret_trigger_pressed(&mut self, window_expired: bool) -> (e: ConsoleUiEffects)
        ensures
            ({
                let (count, fired) = secret_click(old(self).secret_click_count, window_expired);
                &&& final(self).secret_click_count == count
                &&& if fired {
                    (final(self).is_unlocked, final(self).is_open, final(self).show_warning_modal, e)
                        == console_toggle(old(self).is_unlocked, old(self).is_open, old(self).show_warning_modal)
                } else {
                    &&& final(self).is_unlocked == old(self).is_unlocked
                    &&& final(self).is_open == old(self).is_open
                    &&& final(self).show_warning_modal == old(self).show_warning_modal
                    &&& e == no_ui_effects()
                }
            }),
            final(self).log_lines() == old(self).log_lines(),
    {
        if self.register_secret_click(window_expired) {
            self.toggle()
        } else {
            ConsoleUiEffects {
                open_warning: false,
                close_warning: false,
                open_console: false,
                close_console: false,
            }
        }
    }

    /// The warning dialog's input while it is shown: "enable" (its button or
    /// Enter) unlocks and opens the console; otherwise "cancel" (its button or
    /// Escape) closes the dialog. Nothing happens while it is not shown.
    pub fn warning_modal_input(&mut self, enable: bool, cancel: bool) -> (e: ConsoleUiEffects)
        ensures
            final(self).secret_click_count == old(self).secret_click_count,
            final(self).log_lines() == old(self).log_lines(),
            if !old(self).show_warning_modal {
                &&& final(self).is_unlocked == old(self).is_unlocked
                &&& final(self).is_open == old(self).is_open
                &&& !final(self).show_warning_modal
                &&& e == no_ui_effects()
            } else if enable {
                &&& final(self).is_unlocked
                &&& final(self).is_open
                &&& !final(self).show_warning_modal
                &&& e == (ConsoleUiEffects { close_warning: true, open_console: true, ..no_ui_effects() })
            } else if cancel {
                &&& final(self).is_unlocked == old(self).is_unlocked
                &&& final(self).is_open == old(self).is_open
                &&& !final(self).show_warning_modal
                &&& e == (ConsoleUiEffects { close_warning: true, ..no_ui_effects() })
            } else {
                &&& final(self).is_unlocked == old(self).is_unlocked
                &&& final(self).is_open == old(self).is_open
                &&& final(self).show_warning_modal
                &&& e == no_ui_effects()
            },
    {
        let mut e = ConsoleUiEffects {
            open_warning: false,
            close_warning: false,
            open_console: false,
            close_console: false,
        };
        if !self.show_warning_modal {
            return e;
        }
        if enable {
            self.show_warning_modal = false;
            self.is_unlocked = true;
            self.is_open = true;
            e.close_warning = true;
            e.open_console = true;
        } else if cancel {
            self.show_warning_modal = false;
            e.close_warning = true;
        }
        e
    }

    /// The console's close button: closes the console when it is open.
    pub fn close_button_pressed(&mut self) -> (e: ConsoleUiEffects)
        ensures
            final(self).is_open == false,
            final(self).is_unlocked == old(self).is_unlocked,
            final(self).show_warning_modal == old(self).show_warning_modal,
            e == (if old(self).is_open {
                ConsoleUiEffects { close_console: true, ..no_ui_effects() }
            } else {
                no_ui_effects()
            }),
    {
        if self.is_open {
            self.is_open = false;
            ConsoleUiEffects {
                open_warning: false,
                close_warning: false,
                open_console: false,
                close_console: true,
            }
        } else {
            ConsoleUiEffects {
                open_warning: false,
                close_warning: false,
                open_console: false,
                close_console: false,
            }
        }
    }
}

impl Default for DebugConsoleState {
    fn default() -> (s: DebugConsoleState)
        ensures
            !s.is_unlocked,
            !s.is_open,
            !s.show_warning_modal,
            s.input_text@ == Seq::<char>::empty(),
            s.history@.len() == 0,
            s.history_index is None,
            s.log_lines() == welcome_lines(),
            s.secret_click_count == 0,
    {
        DebugConsoleState::new()
    }
}

/// The log never holds more than 100 lines once it holds no more than 100.
pub proof fn lemma_log_bounded(v: Seq<(Seq<char>, LogTone)>, e: (Seq<char>, LogTone))
    requires
        v.len() <= max_log_lines(),
    ensures
        with_log(v, e).len() <= max_log_lines(),
        with_log(v, e).last() == e,
{
}

/// The console can only open once the warning has been accepted: toggling
/// never opens a locked console.
pub proof fn lemma_locked_console_stays_closed(open: bool, warning: bool)
    requires
        !open,
    ensures
        !console_toggle(false, open, warning).1,
{
}

/// Five clicks in a row without a pause fire the trigger on the fifth.
pub proof fn lemma_five_clicks_fire()
    ensures
        ({
            let (c1, f1) = secret_click(0, false);
            let (c2, f2) = secret_click(c1, false);
            let (c3, f3) = secret_click(c2, false);
            let (c4, f4) = secret_click(c3, false);
            let (c5, f5) = secret_click(c4, false);
            !f1 && !f2 && !f3 && !f4 && f5 && c5 == 0
        }),
{
}

} // verus!
