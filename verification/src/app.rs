//! The application's state machine: which screen is active, how key events
//! are routed, and how they mutate the choice list, the text buffers and the
//! pick tally. One handler applies at most one event's worth of mutation;
//! rendering only ever reads the snapshot accessors.

use crate::choices::ChoiceList;
use crate::errors::UserError;
use crate::key::Key;
use crate::key::KeyInput;
use crate::oracle::random_below;
use crate::parse::all_digits;
use crate::parse::digits_val;
use crate::parse::is_digit;
use crate::parse::parse_index;
use crate::tally::PickTally;
use crate::tally::sum_in;
use crate::tally::unique_keys;
use crate::text_buffer::BufView;
use crate::text_buffer::TextBuffer;
use crate::text_buffer::buf_delete;
use crate::text_buffer::buf_empty;
use crate::text_buffer::buf_insert;
use crate::text_buffer::buf_move;
use crate::text_buffer::buf_wf;
use vstd::prelude::*;

verus! {

/// Which screen is active.
#[derive(Clone, Copy, Debug, PartialEq, Eq, Structural)]
pub enum CurrentScreen {
    Main,
    Creating,
    Editing,
    Deciding,
    ExitConfirm,
}

/// Which text buffer receives character input while on the creating or
/// editing screen.
#[derive(Clone, Copy, Debug, PartialEq, Eq, Structural)]
pub enum CurrentEditMode {
    Idle,
    EditingName,
    EditingIndex,
}

/// Mathematical model of the whole application state.
#[verifier::ext_equal]
pub struct AppView {
    pub running: bool,
    pub screen: CurrentScreen,
    pub emode: CurrentEditMode,
    pub choices: Seq<Seq<char>>,
    pub name: BufView,
    pub index: BufView,
    pub tally: Map<Seq<char>, nat>,
    pub draws: nat,
}

/// The state invariant: both buffers are well formed, and an edit mode other
/// than `Idle` is only ever active on the creating or editing screen.
pub open spec fn view_inv(s: AppView) -> bool {
    &&& buf_wf(s.name)
    &&& buf_wf(s.index)
    &&& (s.emode != CurrentEditMode::Idle ==> s.screen == CurrentScreen::Creating || s.screen
        == CurrentScreen::Editing)
}

/// Entering `scr` with both buffers cleared and no edit mode active.
pub open spec fn enter_screen(s: AppView, scr: CurrentScreen) -> AppView {
    AppView {
        screen: scr,
        emode: CurrentEditMode::Idle,
        name: buf_empty(),
        index: buf_empty(),
        ..s
    }
}

/// Discarding any edit in progress and returning to the main screen.
pub open spec fn reset_to_main(s: AppView) -> AppView {
    enter_screen(s, CurrentScreen::Main)
}

/// A quit trigger: the first, from the main screen, asks for confirmation;
/// the second, from the confirmation screen, stops the run loop.
pub open spec fn quit_step(s: AppView) -> AppView {
    if s.screen == CurrentScreen::ExitConfirm {
        AppView { running: false, ..s }
    } else if s.screen == CurrentScreen::Main {
        AppView { screen: CurrentScreen::ExitConfirm, ..s }
    } else {
        s
    }
}

/// Whether a draw trigger is acted on in this screen: entering live-pick
/// mode from the main screen, or re-triggering while already deciding.
pub open spec fn draw_allowed(s: AppView) -> bool {
    s.screen == CurrentScreen::Main || s.screen == CurrentScreen::Deciding
}

/// Whether `key` performs a draw in state `s`: a draw trigger on a screen
/// that allows it, with at least one choice to pick from.
pub open spec fn draw_performed(s: AppView, key: KeyInput) -> bool {
    key.is_ctrl('r', 'R') && draw_allowed(s) && s.choices.len() > 0
}

/// A draw trigger on a screen that allows it: the deciding screen becomes
/// active; with a non-empty list the choice at `pick` is drawn and its tally
/// bucket incremented, with an empty list no draw is performed.
pub open spec fn draw_step(s: AppView, pick: int) -> AppView {
    if s.choices.len() == 0 {
        AppView { screen: CurrentScreen::Deciding, ..s }
    } else {
        let k = s.choices[pick];
        AppView {
            screen: CurrentScreen::Deciding,
            tally: s.tally.insert(k, s.tally[k] + 1),
            draws: s.draws + 1,
            ..s
        }
    }
}

/// Selecting which buffer receives input; acted on only while creating or
/// editing.
pub open spec fn mode_step(s: AppView, m: CurrentEditMode) -> AppView {
    if s.screen == CurrentScreen::Creating || s.screen == CurrentScreen::Editing {
        AppView { emode: m, ..s }
    } else {
        s
    }
}

/// Whether the index buffer holds a committable index: non-empty, all
/// decimal digits, and a value that fits the machine's word.
pub open spec fn index_parses(s: AppView) -> bool {
    s.index.text.len() > 0 && all_digits(s.index.text) && digits_val(s.index.text) <= usize::MAX
}

/// Committing an edit: with a parseable index at most the list's length, the
/// name buffer's text is appended (index equal to the length) or replaces
/// the entry in place (index below it), and the tool returns to the main
/// screen; otherwise the command is rejected and the editor stays open,
/// nothing mutated.
pub open spec fn commit_step(s: AppView) -> AppView {
    if s.screen == CurrentScreen::Creating || s.screen == CurrentScreen::Editing {
        if index_parses(s) && digits_val(s.index.text) <= s.choices.len() {
            let idx = digits_val(s.index.text);
            let cs = if idx == s.choices.len() {
                s.choices.push(s.name.text)
            } else {
                s.choices.update(idx, s.name.text)
            };
            AppView { choices: cs, ..reset_to_main(s) }
        } else {
            s
        }
    } else {
        s
    }
}

/// A plain character key: while an edit mode is active it feeds the active
/// buffer (only digits reach the index buffer); otherwise, on the main
/// screen, it can open the creating or editing screen or trigger quitting,
/// and on the confirmation screen `q` confirms. All letters are matched
/// case-insensitively.
pub open spec fn char_step(s: AppView, c: char) -> AppView {
    match s.emode {
        CurrentEditMode::EditingName => AppView { name: buf_insert(s.name, c), ..s },
        CurrentEditMode::EditingIndex => if is_digit(c) {
            AppView { index: buf_insert(s.index, c), ..s }
        } else {
            s
        },
        CurrentEditMode::Idle => {
            if s.screen == CurrentScreen::Main {
                if c == 'n' || c == 'N' {
                    enter_screen(s, CurrentScreen::Creating)
                } else if c == 'e' || c == 'E' {
                    enter_screen(s, CurrentScreen::Editing)
                } else if c == 'q' || c == 'Q' {
                    quit_step(s)
                } else {
                    s
                }
            } else if s.screen == CurrentScreen::ExitConfirm {
                if c == 'q' || c == 'Q' {
                    quit_step(s)
                } else {
                    s
                }
            } else {
                s
            }
        },
    }
}

/// An arrow key moves the active buffer's cursor by `delta`.
pub open spec fn arrow_step(s: AppView, delta: int) -> AppView {
    match s.emode {
        CurrentEditMode::EditingName => AppView { name: buf_move(s.name, delta), ..s },
        CurrentEditMode::EditingIndex => AppView { index: buf_move(s.index, delta), ..s },
        CurrentEditMode::Idle => s,
    }
}

/// A backspace deletes before the active buffer's cursor.
pub open spec fn backspace_step(s: AppView) -> AppView {
    match s.emode {
        CurrentEditMode::EditingName => AppView { name: buf_delete(s.name), ..s },
        CurrentEditMode::EditingIndex => AppView { index: buf_delete(s.index), ..s },
        CurrentEditMode::Idle => s,
    }
}

/// The state after one key event. Control combinations are checked before
/// plain characters, so a control key never falls through to text insertion.
/// `pick` is the oracle's choice for the draw that the event may perform; it
/// is read only when `draw_performed` holds.
pub open spec fn step(s: AppView, key: KeyInput, pick: int) -> AppView {
    match key.key {
        Key::Esc => reset_to_main(s),
        Key::Enter => commit_step(s),
        Key::Backspace => backspace_step(s),
        Key::Left => arrow_step(s, -1),
        Key::Right => arrow_step(s, 1),
        Key::Char(c) => if key.ctrl {
            if c == 'c' || c == 'C' {
                quit_step(s)
            } else if c == 'r' || c == 'R' {
                if draw_allowed(s) {
                    draw_step(s, pick)
                } else {
                    s
                }
            } else if c == 'i' || c == 'I' {
                mode_step(s, CurrentEditMode::EditingIndex)
            } else if c == 'd' || c == 'D' {
                mode_step(s, CurrentEditMode::EditingName)
            } else {
                s
            }
        } else {
            char_step(s, c)
        },
    }
}

/// What one key event reports: every rejection is tied to exactly the state
/// that causes it, and every other event succeeds.
pub open spec fn step_result(s: AppView, key: KeyInput) -> Result<(), UserError> {
    match key.key {
        Key::Enter => {
            if s.screen == CurrentScreen::Creating || s.screen == CurrentScreen::Editing {
                if !index_parses(s) {
                    Err(UserError::ParseFailure)
                } else if digits_val(s.index.text) > s.choices.len() {
                    Err(UserError::IndexOutOfRange)
                } else {
                    Ok(())
                }
            } else {
                Ok(())
            }
        },
        _ => {
            if key.is_ctrl('r', 'R') && draw_allowed(s) && s.choices.len() == 0 {
                Err(UserError::EmptyListPick)
            } else {
                Ok(())
            }
        },
    }
}

/// The state the tool starts in: running, on the main screen, with no
/// choices, empty buffers and an empty tally.
pub open spec fn init_view() -> AppView {
    AppView {
        running: true,
        screen: CurrentScreen::Main,
        emode: CurrentEditMode::Idle,
        choices: Seq::empty(),
        name: buf_empty(),
        index: buf_empty(),
        tally: Map::new(|k: Seq<char>| true, |k: Seq<char>| 0nat),
        draws: 0,
    }
}

/// The controller. It exclusively owns the choice list, the tally, the two
/// text buffers and the screen state; every mutation funnels through one key
/// handler, and the renderer only reads snapshots.
pub struct App {
    running: bool,
    screen: CurrentScreen,
    emode: CurrentEditMode,
    choices: ChoiceList,
    tally: PickTally,
    name_buf: TextBuffer,
    index_buf: TextBuffer,
}

impl View for App {
    type V = AppView;

    closed spec fn view(&self) -> AppView {
        AppView {
            running: self.running,
            screen: self.screen,
            emode: self.emode,
            choices: self.choices@,
            name: self.name_buf@,
            index: self.index_buf@,
            tally: self.tally@,
            draws: self.tally.total_spec(),
        }
    }
}

impl App {
    /// Well-formedness: the tally's representation invariant plus the state
    /// invariant on the model.
    pub closed spec fn wf(&self) -> bool {
        self.tally.wf() && view_inv(self@)
    }

    /// The state invariant holds of every well-formed controller.
    pub proof fn lemma_wf_view_inv(&self)
        requires
            self.wf(),
        ensures
            view_inv(self@),
    {
    }

    /// A new controller in the starting state.
    pub fn new() -> (r: App)
        ensures
            r.wf(),
            r@ == init_view(),
    {
        let r = App {
            running: true,
            screen: CurrentScreen::Main,
            emode: CurrentEditMode::Idle,
            choices: ChoiceList::new(),
            tally: PickTally::new(),
            name_buf: TextBuffer::new(),
            index_buf: TextBuffer::new(),
        };
        proof {
            assert(r@ =~= init_view());
        }
        r
    }

    /// Discards any edit in progress and returns to the main screen.
    fn to_main(&mut self)
        requires
            old(self).wf(),
        ensures
            final(self).wf(),
            final(self)@ == reset_to_main(old(self)@),
    {
        self.name_buf = TextBuffer::new();
        self.index_buf = TextBuffer::new();
        self.emode = CurrentEditMode::Idle;
        self.screen = CurrentScreen::Main;
        proof {
            assert(self@ =~= reset_to_main(old(self)@));
        }
    }

    /// Clears the buffers and enters `scr` with no edit mode active.
    fn enter_edit(&mut self, scr: CurrentScreen)
        requires
            old(self).wf(),
        ensures
            final(self).wf(),
            final(self)@ == enter_screen(old(self)@, scr),
    {
        self.name_buf = TextBuffer::new();
        self.index_buf = TextBuffer::new();
        self.emode = CurrentEditMode::Idle;
        self.screen = scr;
        proof {
            assert(self@ =~= enter_screen(old(self)@, scr));
        }
    }

    /// One quit trigger.
    fn quit(&mut self)
        requires
            old(self).wf(),
        ensures
            final(self).wf(),
            final(self)@ == quit_step(old(self)@),
    {
        if self.screen == CurrentScreen::ExitConfirm {
            self.running = false;
        } else if self.screen == CurrentScreen::Main {
            self.screen = CurrentScreen::ExitConfirm;
        }
        proof {
            assert(self@ =~= quit_step(old(self)@));
        }
    }

    /// One draw trigger, with `pick` as the oracle's choice.
    fn draw(&mut self, pick: usize) -> (r: Result<(), UserError>)
        requires
            old(self).wf(),
            draw_allowed(old(self)@) && old(self)@.choices.len() > 0 ==> pick < old(self)@.choices.len() && old(self)@.draws < u64::MAX,
        ensures
            final(self).wf(),
            final(self)@ == if draw_allowed(old(self)@) {
                draw_step(old(self)@, pick as int)
            } else {
                old(self)@
            },
            r == if draw_allowed(old(self)@) && old(self)@.choices.len() == 0 {
                Err::<(), UserError>(UserError::EmptyListPick)
            } else {
                Ok::<(), UserError>(())
            },
    {
        match self.screen {
            CurrentScreen::Main | CurrentScreen::Deciding => {
                self.screen = CurrentScreen::Deciding;
                if self.choices.is_empty() {
                    Err(UserError::EmptyListPick)
                } else {
                    let text = self.choices.get(pick);
                    self.tally.record_pick(&text);
                    proof {
                        assert(self@ =~= draw_step(old(self)@, pick as int));
                    }
                    Ok(())
                }
            },
            _ => Ok(()),
        }
    }

    /// Selects which buffer receives input while creating or editing.
    fn set_mode(&mut self, m: CurrentEditMode)
        requires
            old(self).wf(),
        ensures
            final(self).wf(),
            final(self)@ == mode_step(old(self)@, m),
    {
        match self.screen {
            CurrentScreen::Creating | CurrentScreen::Editing => {
                self.emode = m;
            },
            _ => {},
        }
    }

    /// Routes a plain character key.
    fn plain_char(&mut self, c: char)
        requires
            old(self).wf(),
            old(self)@.name.text.len() < usize::MAX,
            old(self)@.index.text.len() < usize::MAX,
        ensures
            final(self).wf(),
            final(self)@ == char_step(old(self)@, c),
    {
        match self.emode {
            CurrentEditMode::EditingName => {
                self.name_buf.insert_char(c);
                proof {
                    assert(self@ =~= char_step(old(self)@, c));
                }
            },
            CurrentEditMode::EditingIndex => {
                let u: u32 = c as u32;
                if 48 <= u && u <= 57 {
                    self.index_buf.insert_char(c);
                }
                proof {
                    assert(self@ =~= char_step(old(self)@, c));
                }
            },
            CurrentEditMode::Idle => {
                match self.screen {
                    CurrentScreen::Main => {
                        if c == 'n' || c == 'N' {
                            self.enter_edit(CurrentScreen::Creating);
                        } else if c == 'e' || c == 'E' {
                            self.enter_edit(CurrentScreen::Editing);
                        } else if c == 'q' || c == 'Q' {
                            self.quit();
                        }
                    },
                    CurrentScreen::ExitConfirm => {
                        if c == 'q' || c == 'Q' {
                            self.quit();
                        }
                    },
                    _ => {},
                }
            },
        }
    }

    /// Moves the active buffer's cursor by `delta` characters.
    fn arrow(&mut self, delta: isize)
        requires
            old(self).wf(),
        ensures
            final(self).wf(),
            final(self)@ == arrow_step(old(self)@, delta as int),
    {
        match self.emode {
            CurrentEditMode::EditingName => {
                self.name_buf.move_cursor(delta);
                proof {
                    assert(self@ =~= arrow_step(old(self)@, delta as int));
                }
            },
            CurrentEditMode::EditingIndex => {
                self.index_buf.move_cursor(delta);
                proof {
                    assert(self@ =~= arrow_step(old(self)@, delta as int));
                }
            },
            CurrentEditMode::Idle => {},
        }
    }

    /// Deletes before the active buffer's cursor.
    fn backspace(&mut self)
        requires
            old(self).wf(),
        ensures
            final(self).wf(),
            final(self)@ == backspace_step(old(self)@),
    {
        match self.emode {
            CurrentEditMode::EditingName => {
                self.name_buf.delete_before_cursor();
                proof {
                    assert(self@ =~= backspace_step(old(self)@));
                }
            },
            CurrentEditMode::EditingIndex => {
                self.index_buf.delete_before_cursor();
                proof {
                    assert(self@ =~= backspace_step(old(self)@));
                }
            },
            CurrentEditMode::Idle => {},
        }
    }

    /// Commits the edit in progress: parses the index buffer, applies the
    /// insert-or-replace, and on success returns to the main screen. A
    /// rejected commit leaves everything as it was, with the editor open.
    fn commit(&mut self) -> (r: Result<(), UserError>)
        requires
            old(self).wf(),
        ensures
            final(self).wf(),
            final(self)@ == commit_step(old(self)@),
            r == step_result(old(self)@, (KeyInput { key: Key::Enter, ctrl: false })),
    {
        match self.screen {
            CurrentScreen::Creating | CurrentScreen::Editing => {
                match parse_index(self.index_buf.chars()) {
                    None => Err(UserError::ParseFailure),
                    Some(idx) => {
                        let text = self.name_buf.text();
                        match self.choices.insert_or_replace(idx, text) {
                            Ok(()) => {
                                self.to_main();
                                proof {
                                    assert(self@ =~= commit_step(old(self)@));
                                }
                                Ok(())
                            },
                            Err(e) => Err(e),
                        }
                    },
                }
            },
            _ => Ok(()),
        }
    }

    /// Applies one key event, with `pick` standing in for the oracle: the
    /// state moves to exactly `step` of the old state, and the result is
    /// exactly `step_result` of it.
    pub fn handle_key_picked(&mut self, key: KeyInput, pick: usize) -> (r: Result<(), UserError>)
        requires
            old(self).wf(),
            draw_performed(old(self)@, key) ==> pick < old(self)@.choices.len() && old(self)@.draws < u64::MAX,
            old(self)@.name.text.len() < usize::MAX,
            old(self)@.index.text.len() < usize::MAX,
        ensures
            final(self).wf(),
            final(self)@ == step(old(self)@, key, pick as int),
            r == step_result(old(self)@, key),
    {
        match key.key {
            Key::Esc => {
                self.to_main();
                Ok(())
            },
            Key::Enter => self.commit(),
            Key::Backspace => {
                self.backspace();
                Ok(())
            },
            Key::Left => {
                self.arrow(-1);
                Ok(())
            },
            Key::Right => {
                self.arrow(1);
                Ok(())
            },
            Key::Char(c) => {
                if key.ctrl {
                    if c == 'c' || c == 'C' {
                        self.quit();
                        Ok(())
                    } else if c == 'r' || c == 'R' {
                        self.draw(pick)
                    } else if c == 'i' || c == 'I' {
                        self.set_mode(CurrentEditMode::EditingIndex);
                        Ok(())
                    } else if c == 'd' || c == 'D' {
                        self.set_mode(CurrentEditMode::EditingName);
                        Ok(())
                    } else {
                        Ok(())
                    }
                } else {
                    self.plain_char(c);
                    Ok(())
                }
            },
        }
    }

    /// Applies one key event, drawing from the real random oracle when the
    /// event performs a draw: the state moves to `step` of the old state for
    /// some in-range pick.
    pub fn handle_key(&mut self, key: KeyInput) -> (r: Result<(), UserError>)
        requires
            old(self).wf(),
            draw_performed(old(self)@, key) ==> old(self)@.draws < u64::MAX,
            old(self)@.name.text.len() < usize::MAX,
            old(self)@.index.text.len() < usize::MAX,
        ensures
            final(self).wf(),
            r == step_result(old(self)@, key),
            exists|p: int|
                #![auto]
                0 <= p && (draw_performed(old(self)@, key) ==> p < old(self)@.choices.len()) && final(self)@ == step(old(self)@, key, p),
            !draw_performed(old(self)@, key) ==> final(self)@ == step(old(self)@, key, 0),
    {
        let ctrl_r: bool = key.ctrl && match key.key {
            Key::Char(c) => c == 'r' || c == 'R',
            _ => false,
        };
        let allowed: bool = match self.screen {
            CurrentScreen::Main | CurrentScreen::Deciding => true,
            _ => false,
        };
        let pick: usize = if ctrl_r && allowed && !self.choices.is_empty() {
            random_below(self.choices.len())
        } else {
            0
        };
        let r = self.handle_key_picked(key, pick);
        proof {
            assert(0 <= pick as int && (draw_performed(old(self)@, key) ==> (pick as int) < old(self)@.choices.len()) && self@ == step(old(self)@, key, pick as int));
        }
        r
    }

    /// Whether the run loop should keep going; cleared only by the two-step
    /// quit confirmation.
    pub fn running(&self) -> (r: bool)
        ensures
            r == self@.running,
    {
        self.running
    }

    /// The active screen.
    pub fn screen(&self) -> (r: CurrentScreen)
        ensures
            r == self@.screen,
    {
        self.screen
    }

    /// The active edit mode.
    pub fn edit_mode(&self) -> (r: CurrentEditMode)
        ensures
            r == self@.emode,
    {
        self.emode
    }

    /// A snapshot of the full choice list, in order.
    pub fn choice_texts(&self) -> (r: Vec<String>)
        ensures
            r@.len() == self@.choices.len(),
            forall|i: int| 0 <= i < r@.len() ==> r@[i]@ == self@.choices[i],
    {
        self.choices.get_all()
    }

    /// How many choices the list holds.
    pub fn choice_count(&self) -> (r: usize)
        ensures
            r == self@.choices.len(),
    {
        self.choices.len()
    }

    /// The name buffer's text.
    pub fn name_text(&self) -> (r: String)
        ensures
            r@ == self@.name.text,
    {
        self.name_buf.text()
    }

    /// The name buffer's cursor, in characters.
    pub fn name_cursor(&self) -> (r: usize)
        ensures
            r == self@.name.cursor,
    {
        self.name_buf.cursor()
    }

    /// The index buffer's text.
    pub fn index_text(&self) -> (r: String)
        ensures
            r@ == self@.index.text,
    {
        self.index_buf.text()
    }

    /// The index buffer's cursor, in characters.
    pub fn index_cursor(&self) -> (r: usize)
        ensures
            r == self@.index.cursor,
    {
        self.index_buf.cursor()
    }

    /// How many successful draws have been performed in this session.
    pub fn draws(&self) -> (r: u64)
        ensures
            r as nat == self@.draws,
    {
        self.tally.total()
    }

    /// How many times the text `key` has been drawn.
    pub fn tally_count(&self, key: &String) -> (r: u64)
        requires
            self.wf(),
        ensures
            r as nat == self@.tally[key@],
    {
        self.tally.count_of(key)
    }

    /// A snapshot of the tally: each picked text once, with its count; the
    /// counts sum to the number of successful draws performed.
    pub fn tally_snapshot(&self) -> (r: Vec<(String, u64)>)
        requires
            self.wf(),
        ensures
            unique_keys(r@),
            forall|i: int|
                0 <= i < r@.len() ==> r@[i].1 as nat == self@.tally[r@[i].0@] && r@[i].1 >= 1,
            forall|k: Seq<char>|
                self@.tally[k] != 0 ==> exists|i: int| 0 <= i < r@.len() && r@[i].0@ == k,
            sum_in(r@) == self@.draws,
    {
        self.tally.snapshot()
    }
}

/// A quit trigger: the quit shortcut with the control modifier, or a plain
/// `q`, matched case-insensitively.
pub open spec fn is_quit_trigger(key: KeyInput) -> bool {
    key.is_ctrl('c', 'C') || (!key.ctrl && (key.key == Key::Char('q') || key.key == Key::Char(
        'Q',
    )))
}

/// Quitting takes exactly two triggers from the main screen: the first only
/// asks for confirmation and leaves the running flag as it was; only the
/// second clears it.
pub proof fn lemma_quit_two_step(s: AppView, k1: KeyInput, k2: KeyInput, p1: int, p2: int)
    requires
        view_inv(s),
        s.screen == CurrentScreen::Main,
        is_quit_trigger(k1),
        is_quit_trigger(k2),
    ensures
        step(s, k1, p1).running == s.running,
        step(s, k1, p1).screen == CurrentScreen::ExitConfirm,
        step(step(s, k1, p1), k2, p2).running == false,
{
}

/// `Esc` from the exit confirmation returns to the main screen with the
/// running flag untouched.
pub proof fn lemma_esc_cancels_exit(s: AppView, key: KeyInput, p: int)
    requires
        s.screen == CurrentScreen::ExitConfirm,
        key.key == Key::Esc,
    ensures
        step(s, key, p).screen == CurrentScreen::Main,
        step(s, key, p).running == s.running,
{
}

/// Every key event preserves the state invariant: in particular, an edit
/// mode other than `Idle` stays reachable only on the creating or editing
/// screen, and entering any other screen forces the edit mode back to
/// `Idle`.
pub proof fn lemma_step_preserves_inv(s: AppView, key: KeyInput, p: int)
    requires
        view_inv(s),
    ensures
        view_inv(step(s, key, p)),
{
}

/// Draw accounting: no key event ever lowers any tally count; the number of
/// draws rises by exactly one when the event performs a draw and stays put
/// otherwise; and a performed draw raises exactly the drawn choice's bucket
/// by one.
pub proof fn lemma_draw_accounting(s: AppView, key: KeyInput, p: int)
    requires
        draw_performed(s, key) ==> 0 <= p < s.choices.len(),
    ensures
        forall|k: Seq<char>| step(s, key, p).tally[k] >= s.tally[k],
        step(s, key, p).draws == s.draws + if draw_performed(s, key) {
            1int
        } else {
            0int
        },
        draw_performed(s, key) ==> step(s, key, p).tally[s.choices[p]] == s.tally[s.choices[p]]
            + 1 && (forall|k: Seq<char>|
            k != s.choices[p] ==> step(s, key, p).tally[k] == s.tally[k]),
{
    let post = step(s, key, p);
    if draw_performed(s, key) {
        assert(post.tally == s.tally.insert(s.choices[p], s.tally[s.choices[p]] + 1));
    } else {
        assert(post.tally == s.tally);
    }
}

} // verus!
