//! The application state machine: tabs, input modes, the tick counter and
//! the bounded calculation history.
//!
//! Every transition is described by an open relation between the state
//! before and after; `handle_key`, `tick` and `handle_event` are proved to
//! realize those relations exactly.

use vstd::prelude::*;
use crate::calc::SafeCalculator;
use crate::calc::eval_step;
use crate::text::trim_spec;

verus! {

/// The fixed, ordered set of panels; `next` and `previous` walk it
/// cyclically.
#[derive(Clone, Copy, Debug, PartialEq, Eq, Structural)]
pub enum Tab {
    Home,
    SafeMath,
    Validation,
    Bounded,
    About,
}

impl Tab {
    /// The tab one step forward in the cycle.
    pub open spec fn next_spec(self) -> Tab {
        match self {
            Tab::Home => Tab::SafeMath,
            Tab::SafeMath => Tab::Validation,
            Tab::Validation => Tab::Bounded,
            Tab::Bounded => Tab::About,
            Tab::About => Tab::Home,
        }
    }

    /// The tab one step backward in the cycle.
    pub open spec fn previous_spec(self) -> Tab {
        match self {
            Tab::Home => Tab::About,
            Tab::SafeMath => Tab::Home,
            Tab::Validation => Tab::SafeMath,
            Tab::Bounded => Tab::Validation,
            Tab::About => Tab::Bounded,
        }
    }

    /// The tab's display title.
    pub open spec fn title_spec(self) -> Seq<char> {
        match self {
            Tab::Home => "Home"@,
            Tab::SafeMath => "Safe Math"@,
            Tab::Validation => "Validation"@,
            Tab::Bounded => "Bounded Types"@,
            Tab::About => "About"@,
        }
    }

    /// All tabs, in display order.
    pub open spec fn all_spec() -> Seq<Tab> {
        seq![Tab::Home, Tab::SafeMath, Tab::Validation, Tab::Bounded, Tab::About]
    }

    pub fn title(&self) -> (t: &'static str)
        ensures
            t@ == self.title_spec(),
    {
        match self {
            Tab::Home => "Home",
            Tab::SafeMath => "Safe Math",
            Tab::Validation => "Validation",
            Tab::Bounded => "Bounded Types",
            Tab::About => "About",
        }
    }

    /// All tabs, in display order.
    pub fn all() -> (v: Vec<Tab>)
        ensures
            v@ == Tab::all_spec(),
    {
        let mut v: Vec<Tab> = Vec::new();
        v.push(Tab::Home);
        v.push(Tab::SafeMath);
        v.push(Tab::Validation);
        v.push(Tab::Bounded);
        v.push(Tab::About);
        proof {
            assert(v@ =~= Tab::all_spec());
        }
        v
    }

    pub fn next(&self) -> (t: Tab)
        ensures
            t == self.next_spec(),
    {
        match self {
            Tab::Home => Tab::SafeMath,
            Tab::SafeMath => Tab::Validation,
            Tab::Validation => Tab::Bounded,
            Tab::Bounded => Tab::About,
            Tab::About => Tab::Home,
        }
    }

    pub fn previous(&self) -> (t: Tab)
        ensures
            t == self.previous_spec(),
    {
        match self {
            Tab::Home => Tab::About,
            Tab::SafeMath => Tab::Home,
            Tab::Validation => Tab::SafeMath,
            Tab::Bounded => Tab::Validation,
            Tab::About => Tab::Bounded,
        }
    }
}

/// Going forward five times comes back to the start: the tabs form a cycle
/// of order five.
pub proof fn lemma_tab_cycle_of_five(t: Tab)
    ensures
        t.next_spec().next_spec().next_spec().next_spec().next_spec() == t,
{
    match t {
        Tab::Home => {},
        Tab::SafeMath => {},
        Tab::Validation => {},
        Tab::Bounded => {},
        Tab::About => {},
    }
}

/// `previous` is the exact inverse of `next`, in both orders.
pub proof fn lemma_tab_previous_inverts_next(t: Tab)
    ensures
        t.next_spec().previous_spec() == t,
        t.previous_spec().next_spec() == t,
{
    match t {
        Tab::Home => {},
        Tab::SafeMath => {},
        Tab::Validation => {},
        Tab::Bounded => {},
        Tab::About => {},
    }
}

/// Which key-handling policy is active.
#[derive(Clone, Copy, Debug, PartialEq, Eq, Structural)]
pub enum InputMode {
    Normal,
    Editing,
}

/// The keys the state machine reads; anything else maps to `Other`.
#[derive(Clone, Copy, Debug, PartialEq, Eq, Structural)]
pub enum Key {
    Char(char),
    Enter,
    Esc,
    Backspace,
    Tab,
    BackTab,
    Up,
    Down,
    Other,
}

/// One key press: the key and whether the control modifier was held.
#[derive(Clone, Copy, Debug, PartialEq, Eq, Structural)]
pub struct KeyPress {
    pub code: Key,
    pub ctrl: bool,
}

/// One notification from the outside: a timer tick, a key press, a mouse
/// event or a terminal resize.
#[derive(Clone, Copy, Debug)]
pub enum Event {
    Tick,
    Key(KeyPress),
    Mouse,
    Resize(u16, u16),
}

/// The view of an optional status message.
pub open spec fn opt_str_view(o: Option<String>) -> Option<Seq<char>> {
    match o {
        Some(s) => Some(s@),
        None => None,
    }
}

/// The views of the history entries.
pub open spec fn history_views(h: Seq<String>) -> Seq<Seq<char>> {
    Seq::new(h.len(), |k: int| h[k]@)
}

/// At most the ten most recent entries are retained, oldest evicted first.
pub open spec fn bounded_history(h: Seq<Seq<char>>) -> Seq<Seq<char>> {
    if h.len() > 10 {
        h.skip(h.len() - 10)
    } else {
        h
    }
}

/// The bounded history keeps exactly the most recent entries, in insertion
/// order, and never holds more than ten.
pub proof fn lemma_bounded_history_keeps_recent(h: Seq<Seq<char>>)
    ensures
        bounded_history(h).len() <= 10,
        bounded_history(h).len() == if h.len() <= 10 {
            h.len() as int
        } else {
            10int
        },
        forall|j: int|
            0 <= j < bounded_history(h).len() ==> bounded_history(h)[j] == h[h.len()
                - bounded_history(h).len() + j],
{
}

/// The whole application state, owned by the main loop and mutated only
/// through `handle_event`, `handle_key` and `tick`.
#[derive(Debug)]
pub struct App {
    /// Current active tab.
    pub current_tab: Tab,
    /// Input mode.
    pub input_mode: InputMode,
    /// Input buffer for the expression form.
    pub input_buffer: Vec<char>,
    /// Calculator for the expression form.
    pub calculator: SafeCalculator,
    /// Current tick count; advanced only by checked addition.
    pub tick_count: u64,
    /// Status message.
    pub status_message: Option<String>,
    /// Calculation history, most recent last, at most ten entries.
    pub calculation_history: Vec<String>,
    /// Selected menu item in the current tab.
    pub selected_item: usize,
}

/// Whether the key press asks the program to terminate.
pub open spec fn key_quits(k: KeyPress) -> bool {
    k.code == Key::Char('q') || (k.code == Key::Char('c') && k.ctrl)
}

/// The tab after a key press in normal mode.
pub open spec fn normal_tab_after(t: Tab, k: KeyPress) -> Tab {
    if key_quits(k) {
        t
    } else if k.code == Key::Tab {
        t.next_spec()
    } else if k.code == Key::BackTab {
        t.previous_spec()
    } else if k.code == Key::Char('1') {
        Tab::Home
    } else if k.code == Key::Char('2') {
        Tab::SafeMath
    } else if k.code == Key::Char('3') {
        Tab::Validation
    } else if k.code == Key::Char('4') {
        Tab::Bounded
    } else if k.code == Key::Char('5') {
        Tab::About
    } else {
        t
    }
}

/// The selected index after a key press in normal mode: decrement floors at
/// zero, increment saturates at the machine limit.
pub open spec fn normal_selected_after(sel: usize, k: KeyPress) -> usize {
    if key_quits(k) {
        sel
    } else if k.code == Key::Up || k.code == Key::Char('k') {
        if sel > 0 {
            (sel - 1) as usize
        } else {
            0
        }
    } else if k.code == Key::Down || k.code == Key::Char('j') {
        if sel < usize::MAX {
            (sel + 1) as usize
        } else {
            sel
        }
    } else {
        sel
    }
}

/// The input mode after a key press in normal mode: editing starts only on
/// the calculator tab.
pub open spec fn normal_mode_after(t: Tab, m: InputMode, k: KeyPress) -> InputMode {
    if key_quits(k) {
        m
    } else if (k.code == Key::Char('i') || k.code == Key::Enter) && t == Tab::SafeMath {
        InputMode::Editing
    } else {
        m
    }
}

/// The status message after a key press in normal mode.
pub open spec fn normal_status_after(s: Option<Seq<char>>, t: Tab, k: KeyPress) -> Option<
    Seq<char>,
> {
    if key_quits(k) {
        s
    } else if (k.code == Key::Char('i') || k.code == Key::Enter) && t == Tab::SafeMath {
        Some("Enter expression (e.g., 42 + 7)"@)
    } else if k.code == Key::Char('?') {
        Some("q=quit, Tab=next tab, 1-5=go to tab, i=edit, j/k=up/down"@)
    } else {
        s
    }
}

/// What one key press does in normal mode.
pub open spec fn normal_key_rel(pre: App, post: App, k: KeyPress, quit: bool) -> bool {
    &&& quit == key_quits(k)
    &&& post.current_tab == normal_tab_after(pre.current_tab, k)
    &&& post.selected_item == normal_selected_after(pre.selected_item, k)
    &&& post.input_mode == normal_mode_after(pre.current_tab, pre.input_mode, k)
    &&& opt_str_view(post.status_message) == normal_status_after(
        opt_str_view(pre.status_message),
        pre.current_tab,
        k,
    )
    &&& post.input_buffer == pre.input_buffer
    &&& post.calculator == pre.calculator
    &&& post.tick_count == pre.tick_count
    &&& post.calculation_history == pre.calculation_history
}

/// What submitting the input buffer does: a blank buffer changes nothing
/// but the mode; otherwise the trimmed text is evaluated, recorded in the
/// bounded history, shown as the status, and the buffer is cleared.
pub open spec fn submit_rel(pre: App, post: App, mode: InputMode) -> bool {
    let t = trim_spec(pre.input_buffer@);
    &&& post.current_tab == pre.current_tab
    &&& post.input_mode == mode
    &&& post.tick_count == pre.tick_count
    &&& post.selected_item == pre.selected_item
    &&& if t.len() == 0 {
        &&& post.input_buffer == pre.input_buffer
        &&& post.calculator == pre.calculator
        &&& post.status_message == pre.status_message
        &&& post.calculation_history == pre.calculation_history
    } else {
        let out = eval_step(pre.calculator.last(), t).0;
        &&& post.calculator.last() == eval_step(pre.calculator.last(), t).1
        &&& post.input_buffer@ == Seq::<char>::empty()
        &&& opt_str_view(post.status_message) == Some(out)
        &&& history_views(post.calculation_history@) == bounded_history(
            history_views(pre.calculation_history@).push(t + " = "@ + out),
        )
    }
}

/// What one key press does in editing mode.
pub open spec fn editing_key_rel(pre: App, post: App, k: KeyPress) -> bool {
    match k.code {
        Key::Enter => submit_rel(pre, post, InputMode::Normal),
        Key::Esc => {
            &&& post.input_mode == InputMode::Normal
            &&& post.input_buffer@ == Seq::<char>::empty()
            &&& opt_str_view(post.status_message) == Some("Cancelled"@)
            &&& post.current_tab == pre.current_tab
            &&& post.calculator == pre.calculator
            &&& post.tick_count == pre.tick_count
            &&& post.calculation_history == pre.calculation_history
            &&& post.selected_item == pre.selected_item
        },
        Key::Char(c) => {
            &&& post.input_buffer@ == pre.input_buffer@.push(c)
            &&& post.input_mode == pre.input_mode
            &&& post.current_tab == pre.current_tab
            &&& post.calculator == pre.calculator
            &&& post.status_message == pre.status_message
            &&& post.tick_count == pre.tick_count
            &&& post.calculation_history == pre.calculation_history
            &&& post.selected_item == pre.selected_item
        },
        Key::Backspace => {
            &&& post.input_buffer@ == if pre.input_buffer@.len() > 0 {
                pre.input_buffer@.drop_last()
            } else {
                pre.input_buffer@
            }
            &&& post.input_mode == pre.input_mode
            &&& post.current_tab == pre.current_tab
            &&& post.calculator == pre.calculator
            &&& post.status_message == pre.status_message
            &&& post.tick_count == pre.tick_count
            &&& post.calculation_history == pre.calculation_history
            &&& post.selected_item == pre.selected_item
        },
        _ => post == pre,
    }
}

/// History is bounded: whatever submission `submit_rel` describes, a state
/// holding at most ten entries leads to a state holding at most ten, and
/// after a non-blank submission the retained entries are exactly the most
/// recent ones of the old history followed by the new record, in insertion
/// order, oldest evicted first.
pub proof fn lemma_submit_bounds_history(pre: App, post: App, mode: InputMode)
    requires
        pre.calculation_history@.len() <= 10,
        submit_rel(pre, post, mode),
    ensures
        post.calculation_history@.len() <= 10,
        trim_spec(pre.input_buffer@).len() == 0 ==> post.calculation_history
            == pre.calculation_history,
        trim_spec(pre.input_buffer@).len() > 0 ==> {
            let t = trim_spec(pre.input_buffer@);
            let out = eval_step(pre.calculator.last(), t).0;
            let pushed = history_views(pre.calculation_history@).push(t + " = "@ + out);
            let kept = history_views(post.calculation_history@);
            &&& kept.len() == if pushed.len() <= 10 {
                pushed.len() as int
            } else {
                10int
            }
            &&& forall|j: int|
                0 <= j < kept.len() ==> kept[j] == pushed[pushed.len() - kept.len() + j]
        },
{
    let t = trim_spec(pre.input_buffer@);
    if t.len() > 0 {
        let out = eval_step(pre.calculator.last(), t).0;
        let pushed = history_views(pre.calculation_history@).push(t + " = "@ + out);
        lemma_bounded_history_keeps_recent(pushed);
    }
}

/// What one key press does, by the active mode; editing never quits.
pub open spec fn key_rel(pre: App, post: App, k: KeyPress, quit: bool) -> bool {
    match pre.input_mode {
        InputMode::Normal => normal_key_rel(pre, post, k, quit),
        InputMode::Editing => editing_key_rel(pre, post, k) && quit == false,
    }
}

/// What one timer tick does: the counter advances by checked addition and
/// resets to zero, with a notice, instead of ever wrapping.
pub open spec fn tick_rel(pre: App, post: App) -> bool {
    &&& post.current_tab == pre.current_tab
    &&& post.input_mode == pre.input_mode
    &&& post.input_buffer == pre.input_buffer
    &&& post.calculator == pre.calculator
    &&& post.calculation_history == pre.calculation_history
    &&& post.selected_item == pre.selected_item
    &&& if pre.tick_count < u64::MAX {
        &&& post.tick_count == pre.tick_count + 1
        &&& post.status_message == pre.status_message
    } else {
        &&& post.tick_count == 0
        &&& opt_str_view(post.status_message) == Some("Tick counter reset (overflow protected)"@)
    }
}

/// What one notification does: ticks and key presses drive the state
/// machine, mouse and resize notifications change nothing.
pub open spec fn event_rel(pre: App, post: App, ev: Event, quit: bool) -> bool {
    match ev {
        Event::Tick => tick_rel(pre, post) && quit == false,
        Event::Key(k) => key_rel(pre, post, k, quit),
        Event::Mouse => post == pre && quit == false,
        Event::Resize(_, _) => post == pre && quit == false,
    }
}

impl App {
    /// The state's invariant: the history stays bounded.
    pub open spec fn wf(self) -> bool {
        self.calculation_history@.len() <= 10
    }

    /// The initial state: normal mode on the home tab, an empty history,
    /// and a welcome message.
    pub fn new() -> (app: App)
        ensures
            app.wf(),
            app.current_tab == Tab::Home,
            app.input_mode == InputMode::Normal,
            app.input_buffer@ == Seq::<char>::empty(),
            app.calculator.last() is None,
            app.tick_count == 0,
            opt_str_view(app.status_message) == Some("Welcome to Proven TUI! Press ? for help."@),
            app.calculation_history@ == Seq::<String>::empty(),
            app.selected_item == 0,
    {
        let app = App {
            current_tab: Tab::Home,
            input_mode: InputMode::Normal,
            input_buffer: Vec::new(),
            calculator: SafeCalculator::new(),
            tick_count: 0,
            status_message: Some("Welcome to Proven TUI! Press ? for help.".to_owned()),
            calculation_history: Vec::new(),
            selected_item: 0,
        };
        proof {
            assert(app.calculation_history@ =~= Seq::<String>::empty());
        }
        app
    }

    /// Advance the tick counter by one through checked addition; at the
    /// unsigned 64-bit bound the counter resets to zero, exactly once, and
    /// the reset is announced instead of a silent wrap.
    pub fn tick(&mut self)
        requires
            old(self).wf(),
        ensures
            final(self).wf(),
            tick_rel(*old(self), *final(self)),
    {
        match self.tick_count.checked_add(1) {
            Some(new_count) => {
                self.tick_count = new_count;
            },
            None => {
                self.tick_count = 0;
                self.status_message = Some("Tick counter reset (overflow protected)".to_owned());
            },
        }
    }

    /// The current tick count.
    pub fn tick_count(&self) -> (n: u64)
        ensures
            n == self.tick_count,
    {
        self.tick_count
    }

    /// Put the tick counter at a chosen point of its range; the rest of the
    /// state stays as it is.
    pub fn set_tick_count(&mut self, n: u64)
        ensures
            old(self).wf() ==> final(self).wf(),
            final(self).tick_count == n,
            final(self).current_tab == old(self).current_tab,
            final(self).input_mode == old(self).input_mode,
            final(self).input_buffer == old(self).input_buffer,
            final(self).calculator == old(self).calculator,
            final(self).status_message == old(self).status_message,
            final(self).calculation_history == old(self).calculation_history,
            final(self).selected_item == old(self).selected_item,
    {
        self.tick_count = n;
    }

    /// Dispatch one key press by the active input mode; the result says
    /// whether the program should terminate.
    pub fn handle_key(&mut self, key: KeyPress) -> (quit: bool)
        requires
            old(self).wf(),
        ensures
            final(self).wf(),
            key_rel(*old(self), *final(self), key, quit),
    {
        match self.input_mode {
            InputMode::Normal => self.handle_normal_key(key),
            InputMode::Editing => {
                self.handle_editing_key(key);
                false
            },
        }
    }

    fn handle_normal_key(&mut self, key: KeyPress) -> (quit: bool)
        requires
            old(self).wf(),
        ensures
            final(self).wf(),
            normal_key_rel(*old(self), *final(self), key, quit),
    {
        match key.code {
            Key::Char('q') => {
                return true;
            },
            Key::Char('c') if key.ctrl => {
                return true;
            },
            Key::Tab => {
                self.current_tab = self.current_tab.next();
            },
            Key::BackTab => {
                self.current_tab = self.current_tab.previous();
            },
            Key::Char('1') => {
                self.current_tab = Tab::Home;
            },
            Key::Char('2') => {
                self.current_tab = Tab::SafeMath;
            },
            Key::Char('3') => {
                self.current_tab = Tab::Validation;
            },
            Key::Char('4') => {
                self.current_tab = Tab::Bounded;
            },
            Key::Char('5') => {
                self.current_tab = Tab::About;
            },
            Key::Up | Key::Char('k') => {
                if self.selected_item > 0 {
                    self.selected_item = self.selected_item - 1;
                }
            },
            Key::Down | Key::Char('j') => {
                if self.selected_item < usize::MAX {
                    self.selected_item = self.selected_item + 1;
                }
            },
            Key::Char('i') | Key::Enter => {
                if self.current_tab == Tab::SafeMath {
                    self.input_mode = InputMode::Editing;
                    self.status_message = Some("Enter expression (e.g., 42 + 7)".to_owned());
                }
            },
            Key::Char('?') => {
                self.status_message = Some(
                    "q=quit, Tab=next tab, 1-5=go to tab, i=edit, j/k=up/down".to_owned(),
                );
            },
            _ => {},
        }
        false
    }

    fn handle_editing_key(&mut self, key: KeyPress)
        requires
            old(self).wf(),
        ensures
            final(self).wf(),
            editing_key_rel(*old(self), *final(self), key),
    {
        match key.code {
            Key::Enter => {
                self.evaluate_expression();
                self.input_mode = InputMode::Normal;
            },
            Key::Esc => {
                self.input_mode = InputMode::Normal;
                self.input_buffer.clear();
                self.status_message = Some("Cancelled".to_owned());
            },
            Key::Char(c) => {
                self.input_buffer.push(c);
            },
            Key::Backspace => {
                self.input_buffer.pop();
            },
            _ => {},
        }
    }

    /// Evaluate the trimmed input buffer: record the outcome in the bounded
    /// history, show it as the status, and clear the buffer; a blank buffer
    /// is a silent no-op.
    fn evaluate_expression(&mut self)
        requires
            old(self).wf(),
        ensures
            final(self).wf(),
            submit_rel(*old(self), *final(self), old(self).input_mode),
    {
        let trimmed = crate::text::trim_chars(&self.input_buffer);
        if trimmed.len() == 0 {
            return;
        }
        let expr_str = crate::text::chars_to_string(&trimmed);
        let result = self.calculator.evaluate(expr_str.as_str());
        let mut entry = expr_str;
        entry.append(" = ");
        entry.append(result.as_str());
        let ghost pre_views = history_views(self.calculation_history@);
        let ghost entry_view = entry@;
        self.calculation_history.push(entry);
        self.status_message = Some(result);
        self.input_buffer.clear();
        proof {
            assert(history_views(self.calculation_history@) =~= pre_views.push(entry_view));
        }
        let ghost pushed = pre_views.push(entry_view);
        let ghost snap = *self;
        proof {
            assert(history_views(self.calculation_history@) =~= pushed.skip(
                pushed.len() - self.calculation_history@.len(),
            ));
        }
        while self.calculation_history.len() > 10
            invariant
                self.current_tab == snap.current_tab,
                self.input_mode == snap.input_mode,
                self.input_buffer == snap.input_buffer,
                self.calculator == snap.calculator,
                self.status_message == snap.status_message,
                self.tick_count == snap.tick_count,
                self.selected_item == snap.selected_item,
                self.calculation_history@.len() <= pushed.len(),
                pushed.len() > 10 ==> self.calculation_history@.len() >= 10,
                pushed.len() <= 10 ==> self.calculation_history@.len() == pushed.len(),
                history_views(self.calculation_history@) == pushed.skip(
                    pushed.len() - self.calculation_history@.len(),
                ),
            decreases self.calculation_history.len(),
        {
            let ghost before = self.calculation_history@;
            self.calculation_history.remove(0);
            proof {
                assert(history_views(self.calculation_history@) =~= history_views(before).remove(
                    0,
                ));
                assert(history_views(before).remove(0) =~= pushed.skip(
                    pushed.len() - self.calculation_history@.len(),
                ));
            }
        }
        proof {
            if pushed.len() <= 10 {
                assert(pushed.skip(0) =~= pushed);
            }
        }
    }

    /// Consume one notification: a tick advances the counter, a key press
    /// drives the key policy, anything else is ignored; the result says
    /// whether the program should terminate.
    pub fn handle_event(&mut self, ev: Event) -> (quit: bool)
        requires
            old(self).wf(),
        ensures
            final(self).wf(),
            event_rel(*old(self), *final(self), ev, quit),
    {
        match ev {
            Event::Tick => {
                self.tick();
                false
            },
            Event::Key(k) => self.handle_key(k),
            Event::Mouse => false,
            Event::Resize(_, _) => false,
        }
    }
}

impl Default for App {
    fn default() -> (app: App)
        ensures
            app.wf(),
            app.current_tab == Tab::Home,
            app.input_mode == InputMode::Normal,
            app.input_buffer@ == Seq::<char>::empty(),
            app.calculator.last() is None,
            app.tick_count == 0,
            opt_str_view(app.status_message) == Some("Welcome to Proven TUI! Press ? for help."@),
            app.calculation_history@ == Seq::<String>::empty(),
            app.selected_item == 0,
    {
        App::new()
    }
}

} // verus!
