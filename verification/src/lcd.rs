//! The display's screens and how events move between them.
//!
//! Each screen handles some events itself; the events it leaves are handled
//! by the common dispatcher, which switches screens on `Main`, `Debug`,
//! `Menu`, `PowerOff` and on button presses.  The start screen (`Init`)
//! only leaves for the main screen.  A screen that is entered starts with
//! fresh data: an empty debug scroll, an empty PID list, the default
//! settings.  Drawing is done by the caller, as the returned `LcdAction`
//! says.

use vstd::prelude::*;
use crate::buttons::{Action, Button};
use crate::widgets::{Point, Text};
use crate::pid_list::{data_view, names_unique, record, Obd2Debug, Obd2DebugSelector, PID_LIST_CAPACITY};
use vstd::string::StringSliceAdditionalSpecFns;

verus! {

/// What the display is told.
pub enum LcdEvent {
    PowerOff,
    Main,
    Debug,
    Menu,
    /// Time to redraw the current screen.
    Render,
    /// A line of debug output.
    DebugLine(String),
    /// A decoded PID arrived; the caller holds its values.
    Obd2Event,
    /// Raw PID data for the PID list.
    Obd2Debug(Obd2Debug),
    Button(Action),
}

/// What the settings screen edits.
#[derive(Clone, Copy, Debug, PartialEq, Eq, Structural)]
pub enum LcdSettingsEdit {
    Contrast,
}

/// The settings screen: the contrast being edited, the contrast last sent
/// to the displays, and the label of the contrast setting (shown selected).
#[derive(Clone, Debug)]
pub struct LcdSettingsState {
    pub contrast: u8,
    pub current_contrast: u8,
    /// Whether the contrast must still be read from the display.
    pub init: bool,
    pub edit: LcdSettingsEdit,
    pub contrast_text: Text,
}

/// The settings screen as the specifications see it.
pub struct SettingsView {
    pub contrast: u8,
    pub current_contrast: u8,
    pub init: bool,
    pub edit: LcdSettingsEdit,
    /// The contrast label: its text, position, selection and redraw mark.
    pub label: Seq<char>,
    pub label_position: Point,
    pub label_selected: bool,
    pub label_redraw: bool,
}

/// The view of a settings screen.
pub open spec fn settings_view(s: LcdSettingsState) -> SettingsView {
    SettingsView {
        contrast: s.contrast,
        current_contrast: s.current_contrast,
        init: s.init,
        edit: s.edit,
        label: s.contrast_text.text@,
        label_position: s.contrast_text.position,
        label_selected: s.contrast_text.selected,
        label_redraw: s.contrast_text.redraw,
    }
}

/// The settings screen as it opens: contrast 128, to be read from the
/// display, and the label `Contrast: ` at (30, 7), selected, to be drawn.
pub open spec fn fresh_settings() -> SettingsView {
    SettingsView {
        contrast: 128,
        current_contrast: 128,
        init: true,
        edit: LcdSettingsEdit::Contrast,
        label: "Contrast: "@,
        label_position: Point { x: 30, y: 7 },
        label_selected: true,
        label_redraw: true,
    }
}

/// The contrast after a button press on the settings screen: B6 lowers it by
/// 5 and B7 raises it by 5, stopping at 0 and 255.
pub open spec fn edited_contrast(contrast: u8, action: Action) -> u8 {
    match action {
        Action::Pressed(Button::B6) => if contrast >= 5 { (contrast - 5) as u8 } else { 0 },
        Action::Pressed(Button::B7) => if contrast <= 250 { (contrast + 5) as u8 } else { 255 },
        _ => contrast,
    }
}

/// The settings screen's answer to a button: B4 goes back to the menu,
/// B0 and B1 select the contrast, other presses edit it.
pub open spec fn settings_button(s: SettingsView, action: Action) -> (SettingsView, bool) {
    match action {
        Action::Pressed(Button::B0) => (SettingsView { edit: LcdSettingsEdit::Contrast, ..s }, false),
        Action::Pressed(Button::B1) => (SettingsView { edit: LcdSettingsEdit::Contrast, ..s }, false),
        Action::Pressed(Button::B4) => (s, true),
        Action::Pressed(_) => (SettingsView { contrast: edited_contrast(s.contrast, action), ..s }, false),
        Action::Released(_) => (s, false),
    }
}

/// On the settings screen B6 lowers the contrast by 5 and B7 raises it by
/// 5, stopping at 0 and 255; the screen stays, and nothing else of it
/// changes.
pub proof fn lemma_contrast_buttons(st: SettingsView)
    ensures
        st.contrast >= 5 ==> settings_button(st, Action::Pressed(Button::B6)).0.contrast == st.contrast - 5,
        st.contrast < 5 ==> settings_button(st, Action::Pressed(Button::B6)).0.contrast == 0,
        st.contrast <= 250 ==> settings_button(st, Action::Pressed(Button::B7)).0.contrast == st.contrast + 5,
        st.contrast > 250 ==> settings_button(st, Action::Pressed(Button::B7)).0.contrast == 255,
        settings_button(st, Action::Pressed(Button::B6)).0 == (SettingsView {
            contrast: settings_button(st, Action::Pressed(Button::B6)).0.contrast,
            ..st
        }),
        settings_button(st, Action::Pressed(Button::B7)).0 == (SettingsView {
            contrast: settings_button(st, Action::Pressed(Button::B7)).0.contrast,
            ..st
        }),
        lcd_step(ScreenView::Settings(st), LcdEvent::Button(Action::Pressed(Button::B6))) == (
            ScreenView::Settings(settings_button(st, Action::Pressed(Button::B6)).0),
            LcdAction::DrawSettings,
        ),
        lcd_step(ScreenView::Settings(st), LcdEvent::Button(Action::Pressed(Button::B7))) == (
            ScreenView::Settings(settings_button(st, Action::Pressed(Button::B7)).0),
            LcdAction::DrawSettings,
        ),
{
}

/// The settings screen before drawing, given the contrast the display
/// reports: the contrast is read from the display on the first drawing and
/// counts as sent.
pub open spec fn settings_prepared(s: SettingsView, display_contrast: u8) -> SettingsView {
    let contrast = if s.init { display_contrast } else { s.contrast };
    SettingsView { contrast, current_contrast: contrast, init: false, ..s }
}

impl LcdSettingsState {
    /// The settings screen as it opens.
    pub fn new() -> (r: LcdSettingsState)
        ensures
            settings_view(r) == fresh_settings(),
    {
        let mut contrast_text = Text::new(Point { x: 30, y: 7 }, Some("Contrast: "));
        contrast_text.update_selected(true);
        LcdSettingsState {
            contrast: 128,
            current_contrast: 128,
            init: true,
            edit: LcdSettingsEdit::Contrast,
            contrast_text,
        }
    }

    /// Handles a button; returns whether to go back to the menu.
    pub fn handle_button(&mut self, action: Action) -> (back: bool)
        ensures
            (settings_view(*final(self)), back) == settings_button(settings_view(*old(self)), action),
            action == Action::Pressed(Button::B6) ==> final(self).contrast == if old(self).contrast >= 5 {
                old(self).contrast - 5
            } else {
                0
            },
            action == Action::Pressed(Button::B7) ==> final(self).contrast == if old(self).contrast <= 250 {
                old(self).contrast + 5
            } else {
                255
            },
    {
        match action {
            Action::Pressed(Button::B0) | Action::Pressed(Button::B1) => {
                self.edit = LcdSettingsEdit::Contrast;
                false
            },
            Action::Pressed(Button::B4) => true,
            Action::Pressed(_) => {
                self.handle_edit_contrast(action);
                false
            },
            Action::Released(_) => false,
        }
    }

    fn handle_edit_contrast(&mut self, action: Action)
        ensures
            settings_view(*final(self)) == (SettingsView {
                contrast: edited_contrast(old(self).contrast, action),
                ..settings_view(*old(self))
            }),
    {
        match action {
            Action::Pressed(Button::B6) => {
                self.contrast = self.contrast.saturating_sub(5);
            },
            Action::Pressed(Button::B7) => {
                self.contrast = self.contrast.saturating_add(5);
            },
            _ => {},
        }
    }

    /// Before drawing: takes the contrast from the display on the first
    /// drawing, and returns the contrast to send to the displays when it
    /// differs from the one last sent.
    pub fn prepare_draw(&mut self, display_contrast: u8) -> (r: Option<u8>)
        ensures
            settings_view(*final(self)) == settings_prepared(settings_view(*old(self)), display_contrast),
            r == if old(self).current_contrast != final(self).contrast {
                Some(final(self).contrast)
            } else {
                None::<u8>
            },
    {
        if self.init {
            self.contrast = display_contrast;
            self.init = false;
        }
        if self.current_contrast != self.contrast {
            self.current_contrast = self.contrast;
            Some(self.contrast)
        } else {
            None
        }
    }

    /// After drawing: a label that was drawn counts as drawn; after a failed
    /// drawing it stays marked, to be drawn again.
    pub fn finish_draw(&mut self, drawn: bool)
        ensures
            settings_view(*final(self)) == (SettingsView {
                label_redraw: old(self).contrast_text.redraw && !drawn,
                ..settings_view(*old(self))
            }),
    {
        self.contrast_text.finish_draw(drawn);
    }
}

/// The screens, with the data of those that keep some.
pub enum Screen {
    Init,
    Main,
    Debug(DebugScroll),
    Menu,
    Obd2Pids(Obd2DebugSelector),
    Settings(LcdSettingsState),
}

/// A screen as the specifications see it: which screen, and its data.
pub enum ScreenView {
    Init,
    Main,
    /// The debug lines, oldest first, and whether they must be redrawn.
    Debug(Seq<Seq<char>>, bool),
    Menu,
    /// The PID list's rows and whether it must be redrawn.
    Obd2Pids(Seq<(Seq<char>, Option<Seq<u8>>)>, bool),
    Settings(SettingsView),
}

/// The view of a screen.
pub open spec fn screen_view(s: Screen) -> ScreenView {
    match s {
        Screen::Init => ScreenView::Init,
        Screen::Main => ScreenView::Main,
        Screen::Debug(d) => ScreenView::Debug(d.lines(), d.needs_redraw()),
        Screen::Menu => ScreenView::Menu,
        Screen::Obd2Pids(p) => ScreenView::Obd2Pids(p.rows(), p.needs_redraw()),
        Screen::Settings(st) => ScreenView::Settings(settings_view(st)),
    }
}

/// The data of a screen is well formed: the debug screen has sixteen lines,
/// the PID list at most sixteen rows with distinct names.
pub open spec fn screen_wf(s: ScreenView) -> bool {
    match s {
        ScreenView::Debug(lines, _) => lines.len() == DEBUG_CHANNEL_LEN,
        ScreenView::Obd2Pids(rows, _) => names_unique(rows) && rows.len() <= PID_LIST_CAPACITY,
        _ => true,
    }
}

/// The debug screen as it opens: sixteen empty lines, nothing to redraw.
pub open spec fn fresh_debug() -> ScreenView {
    ScreenView::Debug(Seq::new(DEBUG_CHANNEL_LEN as nat, |i: int| Seq::<char>::empty()), false)
}

/// The PID list as it opens: no rows, nothing to redraw.
pub open spec fn fresh_pid_list() -> ScreenView {
    ScreenView::Obd2Pids(Seq::empty(), false)
}

/// What the caller does after an event.
#[derive(Clone, Copy, Debug, PartialEq, Eq, Structural)]
pub enum LcdAction {
    /// A screen was entered: run its entry (switch the displays off for
    /// `Init`; otherwise switch them on, clear them and draw the screen, with
    /// fresh main-screen widgets for `Main`).
    Enter,
    /// Nothing.
    Nothing,
    /// Update the main screen's widgets with the PID.
    HandleObd2Event,
    /// Redraw the main screen.
    DrawMain,
    /// Redraw the debug screen.
    DrawDebug,
    /// Redraw the menu.
    DrawMenu,
    /// Reset the device, then redraw the menu.
    ResetAndDrawMenu,
    /// Redraw the PID list.
    DrawObd2Pids,
    /// Redraw the settings screen.
    DrawSettings,
}

/// How a handler answers an event.
pub enum Outcome {
    /// Handled; stay on the (possibly updated) screen.
    Stay(ScreenView, LcdAction),
    /// Enter the screen.
    Move(ScreenView),
    /// Leave the event to the common dispatcher.
    Super,
}

/// The menu's answer to a button: B4 main, B2 debug, B1 PID list,
/// B0 settings; B3 resets the device.
pub open spec fn menu_button(action: Action) -> Outcome {
    match action {
        Action::Pressed(Button::B4) => Outcome::Move(ScreenView::Main),
        Action::Pressed(Button::B2) => Outcome::Move(fresh_debug()),
        Action::Pressed(Button::B1) => Outcome::Move(fresh_pid_list()),
        Action::Pressed(Button::B0) => Outcome::Move(ScreenView::Settings(fresh_settings())),
        Action::Pressed(Button::B3) => Outcome::Stay(ScreenView::Menu, LcdAction::ResetAndDrawMenu),
        _ => Outcome::Stay(ScreenView::Menu, LcdAction::DrawMenu),
    }
}

/// A screen's own answer to an event.
pub open spec fn screen_handler(s: ScreenView, e: LcdEvent) -> Outcome {
    match s {
        ScreenView::Init => match e {
            LcdEvent::Main => Outcome::Move(ScreenView::Main),
            _ => Outcome::Stay(ScreenView::Init, LcdAction::Nothing),
        },
        ScreenView::Main => match e {
            LcdEvent::Obd2Event => Outcome::Stay(ScreenView::Main, LcdAction::HandleObd2Event),
            LcdEvent::Render => Outcome::Stay(ScreenView::Main, LcdAction::DrawMain),
            _ => Outcome::Super,
        },
        ScreenView::Debug(lines, _) => match e {
            LcdEvent::DebugLine(line) => Outcome::Stay(
                ScreenView::Debug(lines.drop_first().push(shown_line(line@)), true),
                LcdAction::DrawDebug,
            ),
            _ => Outcome::Super,
        },
        ScreenView::Menu => match e {
            LcdEvent::Button(a) => menu_button(a),
            _ => Outcome::Super,
        },
        ScreenView::Obd2Pids(rows, _) => match e {
            LcdEvent::Obd2Debug(d) => Outcome::Stay(
                ScreenView::Obd2Pids(record(rows, d.type_id@, data_view(d.data)), true),
                LcdAction::DrawObd2Pids,
            ),
            _ => Outcome::Super,
        },
        ScreenView::Settings(st) => match e {
            LcdEvent::Button(a) => {
                let (st2, back) = settings_button(st, a);
                if back {
                    Outcome::Move(ScreenView::Menu)
                } else {
                    Outcome::Stay(ScreenView::Settings(st2), LcdAction::DrawSettings)
                }
            },
            _ => Outcome::Super,
        },
    }
}

/// The common dispatcher: `Main`, `Debug` and `Menu` open those screens,
/// `PowerOff` returns to the start screen, and a button press other than B3
/// opens the menu.
pub open spec fn common_handler(s: ScreenView, e: LcdEvent) -> Outcome {
    match e {
        LcdEvent::Main => Outcome::Move(ScreenView::Main),
        LcdEvent::Debug => Outcome::Move(fresh_debug()),
        LcdEvent::Button(Action::Pressed(b)) => if b != Button::B3 {
            Outcome::Move(ScreenView::Menu)
        } else {
            Outcome::Stay(s, LcdAction::Nothing)
        },
        LcdEvent::Menu => Outcome::Move(ScreenView::Menu),
        LcdEvent::PowerOff => Outcome::Move(ScreenView::Init),
        _ => Outcome::Stay(s, LcdAction::Nothing),
    }
}

/// The screen after event `e` and what the caller does.
pub open spec fn lcd_step(s: ScreenView, e: LcdEvent) -> (ScreenView, LcdAction) {
    let o = match screen_handler(s, e) {
        Outcome::Super => common_handler(s, e),
        o => o,
    };
    match o {
        Outcome::Stay(s2, a) => (s2, a),
        Outcome::Move(t) => (t, LcdAction::Enter),
        Outcome::Super => (s, LcdAction::Nothing),
    }
}

/// The display state between events.
pub struct LcdStateView {
    pub screen: ScreenView,
    pub display_on: bool,
    pub is_debug: bool,
}

/// The display task's state.
pub struct LcdState {
    screen: Screen,
    display_on: bool,
    is_debug: bool,
}

impl View for LcdState {
    type V = LcdStateView;

    closed spec fn view(&self) -> LcdStateView {
        LcdStateView {
            screen: screen_view(self.screen),
            display_on: self.display_on,
            is_debug: self.is_debug,
        }
    }
}

/// The answer of the common dispatcher, on the screen `screen`.
fn common_dispatch(screen: Screen, event: LcdEvent) -> (r: (Screen, LcdAction))
    ensures
        (screen_view(r.0), r.1) == match common_handler(screen_view(screen), event) {
            Outcome::Stay(s2, a) => (s2, a),
            Outcome::Move(t) => (t, LcdAction::Enter),
            Outcome::Super => (screen_view(screen), LcdAction::Nothing),
        },
{
    match event {
        LcdEvent::Main => (Screen::Main, LcdAction::Enter),
        LcdEvent::Debug => (Screen::Debug(DebugScroll::new()), LcdAction::Enter),
        LcdEvent::Button(Action::Pressed(button)) => if button != Button::B3 {
            (Screen::Menu, LcdAction::Enter)
        } else {
            (screen, LcdAction::Nothing)
        },
        LcdEvent::Menu => (Screen::Menu, LcdAction::Enter),
        LcdEvent::PowerOff => (Screen::Init, LcdAction::Enter),
        _ => (screen, LcdAction::Nothing),
    }
}

impl LcdState {
    #[verifier::type_invariant]
    spec fn inv(self) -> bool {
        &&& self.is_debug == (self.screen is Debug)
        &&& screen_wf(screen_view(self.screen))
    }

    /// The start screen with the displays off.
    pub fn new() -> (r: LcdState)
        ensures
            r@.screen == ScreenView::Init,
            !r@.display_on,
            !r@.is_debug,
    {
        LcdState { screen: Screen::Init, display_on: false, is_debug: false }
    }

    /// The current screen.
    pub fn screen(&self) -> (r: &Screen)
        ensures
            screen_view(*r) == self@.screen,
            screen_wf(self@.screen),
    {
        proof {
            use_type_invariant(self);
        }
        &self.screen
    }

    /// Whether the debug screen is shown.
    pub fn is_debug(&self) -> (r: bool)
        ensures
            r == self@.is_debug,
            r == (self@.screen is Debug),
    {
        proof {
            use_type_invariant(self);
        }
        self.is_debug
    }

    /// Marks the displays as on; returns whether they were off, in which
    /// case the caller runs the power-on sequence.
    pub fn display_on(&mut self) -> (r: bool)
        ensures
            r == !old(self)@.display_on,
            final(self)@.display_on,
            final(self)@.screen == old(self)@.screen,
            final(self)@.is_debug == old(self)@.is_debug,
    {
        proof {
            use_type_invariant(&*self);
        }
        let was_off = !self.display_on;
        self.display_on = true;
        was_off
    }

    /// Marks the displays as off; returns whether they were on, in which
    /// case the caller runs the power-off sequence.
    pub fn display_off(&mut self) -> (r: bool)
        ensures
            r == old(self)@.display_on,
            !final(self)@.display_on,
            final(self)@.screen == old(self)@.screen,
            final(self)@.is_debug == old(self)@.is_debug,
    {
        proof {
            use_type_invariant(&*self);
        }
        let was_on = self.display_on;
        self.display_on = false;
        was_on
    }

    /// Handles an event: moves between screens, updates the screen's data
    /// and says what to draw.
    pub fn dispatch(&mut self, event: LcdEvent) -> (r: LcdAction)
        ensures
            (final(self)@.screen, r) == lcd_step(old(self)@.screen, event),
            final(self)@.display_on == old(self)@.display_on,
            final(self)@.is_debug == (final(self)@.screen is Debug),
            screen_wf(final(self)@.screen),
    {
        let mut current = LcdState::new();
        std::mem::swap(&mut current, self);
        proof {
            use_type_invariant(&current);
        }
        let display_on = current.display_on;
        let screen = current.screen;
        let ghost s = screen_view(screen);
        let (screen, action) = match screen {
            Screen::Init => match event {
                LcdEvent::Main => (Screen::Main, LcdAction::Enter),
                _ => (Screen::Init, LcdAction::Nothing),
            },
            Screen::Main => match event {
                LcdEvent::Obd2Event => (Screen::Main, LcdAction::HandleObd2Event),
                LcdEvent::Render => (Screen::Main, LcdAction::DrawMain),
                other => common_dispatch(Screen::Main, other),
            },
            Screen::Debug(debug) => match event {
                LcdEvent::DebugLine(line) => {
                    let mut debug = debug;
                    debug.add_line(line.as_str());
                    (Screen::Debug(debug), LcdAction::DrawDebug)
                },
                other => common_dispatch(Screen::Debug(debug), other),
            },
            Screen::Menu => match event {
                LcdEvent::Button(action) => match action {
                    Action::Pressed(Button::B4) => (Screen::Main, LcdAction::Enter),
                    Action::Pressed(Button::B2) => (Screen::Debug(DebugScroll::new()), LcdAction::Enter),
                    Action::Pressed(Button::B1) => (
                        Screen::Obd2Pids(Obd2DebugSelector::new()),
                        LcdAction::Enter,
                    ),
                    Action::Pressed(Button::B0) => (
                        Screen::Settings(LcdSettingsState::new()),
                        LcdAction::Enter,
                    ),
                    Action::Pressed(Button::B3) => (Screen::Menu, LcdAction::ResetAndDrawMenu),
                    _ => (Screen::Menu, LcdAction::DrawMenu),
                },
                other => common_dispatch(Screen::Menu, other),
            },
            Screen::Obd2Pids(pids) => match event {
                LcdEvent::Obd2Debug(d) => {
                    let mut pids = pids;
                    pids.handle_obd2_debug(&d);
                    (Screen::Obd2Pids(pids), LcdAction::DrawObd2Pids)
                },
                other => common_dispatch(Screen::Obd2Pids(pids), other),
            },
            Screen::Settings(settings) => match event {
                LcdEvent::Button(action) => {
                    let mut settings = settings;
                    if settings.handle_button(action) {
                        (Screen::Menu, LcdAction::Enter)
                    } else {
                        (Screen::Settings(settings), LcdAction::DrawSettings)
                    }
                },
                other => common_dispatch(Screen::Settings(settings), other),
            },
        };
        let is_debug = match screen {
            Screen::Debug(_) => true,
            _ => false,
        };
        *self = LcdState { screen, display_on, is_debug };
        action
    }

    /// Whether the PID list is shown, so that raw PID data is worth sending.
    pub fn pid_list_shown(&self) -> (r: bool)
        ensures
            r == (self@.screen is Obd2Pids),
    {
        match self.screen {
            Screen::Obd2Pids(_) => true,
            _ => false,
        }
    }

    /// When the debug screen is shown and must be redrawn, its lines: the
    /// first eight on the first display, the last eight on the second (see
    /// `DebugScroll::pending_redraw`).  Nothing is marked drawn.
    pub fn debug_redraw(&self) -> (r: Option<(Vec<String>, Vec<String>)>)
        ensures
            match self@.screen {
                ScreenView::Debug(lines, redraw) => {
                    &&& redraw ==> (r matches Some((first, second)) && first@.map_values(
                        |s: String| s@,
                    ) == lines.subrange(0, 8) && second@.map_values(|s: String| s@) == lines.subrange(
                        8,
                        16,
                    ))
                    &&& !redraw ==> r is None
                },
                _ => r is None,
            },
            screen_wf(self@.screen),
    {
        proof {
            use_type_invariant(self);
        }
        match &self.screen {
            Screen::Debug(debug) => debug.pending_redraw(),
            _ => None,
        }
    }

    /// When the PID list is shown and must be redrawn, its rows in order
    /// (see `Obd2DebugSelector::pending_redraw`).  Nothing is marked drawn.
    pub fn pid_list_redraw(&self) -> (r: Option<Vec<(&'static str, Option<Vec<u8>>)>>)
        ensures
            match self@.screen {
                ScreenView::Obd2Pids(rows, redraw) => {
                    &&& redraw ==> (r matches Some(v) && v@.len() == rows.len() && forall|i: int|
                        0 <= i < v@.len() ==> (#[trigger] v@[i]).0@ == rows[i].0 && data_view(
                            v@[i].1,
                        ) == rows[i].1)
                    &&& !redraw ==> r is None
                },
                _ => r is None,
            },
            screen_wf(self@.screen),
    {
        proof {
            use_type_invariant(self);
        }
        match &self.screen {
            Screen::Obd2Pids(pids) => pids.pending_redraw(),
            _ => None,
        }
    }

    /// After drawing the debug screen, the PID list or the settings label:
    /// when it was drawn it counts as drawn; after a failed drawing it stays
    /// marked, to be drawn again.  Other screens are left as they are.
    pub fn finish_draw(&mut self, drawn: bool)
        ensures
            final(self)@.screen == match old(self)@.screen {
                ScreenView::Debug(lines, redraw) => ScreenView::Debug(lines, redraw && !drawn),
                ScreenView::Obd2Pids(rows, redraw) => ScreenView::Obd2Pids(rows, redraw && !drawn),
                ScreenView::Settings(st) => ScreenView::Settings(
                    SettingsView { label_redraw: st.label_redraw && !drawn, ..st },
                ),
                other => other,
            },
            final(self)@.display_on == old(self)@.display_on,
            final(self)@.is_debug == old(self)@.is_debug,
            screen_wf(final(self)@.screen),
    {
        let mut current = LcdState::new();
        std::mem::swap(&mut current, self);
        let display_on = current.display_on;
        let is_debug = current.is_debug;
        proof {
            use_type_invariant(&current);
        }
        let screen = match current.screen {
            Screen::Debug(debug) => {
                let mut debug = debug;
                debug.finish_redraw(drawn);
                Screen::Debug(debug)
            },
            Screen::Obd2Pids(pids) => {
                let mut pids = pids;
                pids.finish_redraw(drawn);
                Screen::Obd2Pids(pids)
            },
            Screen::Settings(settings) => {
                let mut settings = settings;
                settings.finish_draw(drawn);
                Screen::Settings(settings)
            },
            other => other,
        };
        *self = LcdState { screen, display_on, is_debug };
    }

    /// Before drawing the settings screen: takes the contrast from the
    /// display on the first drawing and returns the contrast to send to the
    /// displays when it changed (see `LcdSettingsState::prepare_draw`).
    /// Other screens are left as they are.
    pub fn prepare_settings_draw(&mut self, display_contrast: u8) -> (r: Option<u8>)
        ensures
            match old(self)@.screen {
                ScreenView::Settings(st) => {
                    &&& final(self)@.screen == ScreenView::Settings(settings_prepared(st, display_contrast))
                    &&& r == if st.current_contrast != settings_prepared(st, display_contrast).contrast {
                        Some(settings_prepared(st, display_contrast).contrast)
                    } else {
                        None::<u8>
                    }
                },
                _ => r is None && final(self)@.screen == old(self)@.screen,
            },
            final(self)@.display_on == old(self)@.display_on,
            final(self)@.is_debug == old(self)@.is_debug,
    {
        let mut current = LcdState::new();
        std::mem::swap(&mut current, self);
        let display_on = current.display_on;
        let is_debug = current.is_debug;
        proof {
            use_type_invariant(&current);
        }
        let (screen, r) = match current.screen {
            Screen::Settings(settings) => {
                let mut settings = settings;
                let r = settings.prepare_draw(display_contrast);
                (Screen::Settings(settings), r)
            },
            other => (other, None),
        };
        *self = LcdState { screen, display_on, is_debug };
        r
    }
}

/// Lines shown on the debug screen.
pub const DEBUG_CHANNEL_LEN: usize = 16;
/// The longest line kept, in bytes; a longer line is shown empty.
pub const DEBUG_STRING_LEN: usize = 120;

/// The last `DEBUG_CHANNEL_LEN` debug lines, oldest first.
pub struct DebugScroll {
    text_buffer: Vec<String>,
    redraw: bool,
}

/// What a line becomes on the debug screen: itself when it fits, else empty.
pub open spec fn shown_line(line: Seq<char>) -> Seq<char> {
    if vstd::utf8::encode_utf8(line).len() <= DEBUG_STRING_LEN {
        line
    } else {
        Seq::empty()
    }
}

impl DebugScroll {
    #[verifier::type_invariant]
    spec fn inv(self) -> bool {
        self.text_buffer@.len() == DEBUG_CHANNEL_LEN
    }

    /// The lines, oldest first.
    pub closed spec fn lines(self) -> Seq<Seq<char>> {
        self.text_buffer@.map_values(|s: String| s@)
    }

    /// Whether the screen must be redrawn.
    pub closed spec fn needs_redraw(self) -> bool {
        self.redraw
    }

    /// Sixteen empty lines, nothing to redraw.
    pub fn new() -> (r: DebugScroll)
        ensures
            r.lines() == Seq::new(DEBUG_CHANNEL_LEN as nat, |i: int| Seq::<char>::empty()),
            r.lines().len() == DEBUG_CHANNEL_LEN,
            !r.needs_redraw(),
    {
        let mut lines: Vec<String> = Vec::new();
        while lines.len() < DEBUG_CHANNEL_LEN
            invariant
                lines@.len() <= DEBUG_CHANNEL_LEN,
                forall|i: int| 0 <= i < lines@.len() ==> (#[trigger] lines@[i])@ == Seq::<char>::empty(),
            decreases DEBUG_CHANNEL_LEN - lines@.len(),
        {
            lines.push(String::new());
        }
        let r = DebugScroll { text_buffer: lines, redraw: false };
        assert(r.lines() =~= Seq::new(DEBUG_CHANNEL_LEN as nat, |i: int| Seq::<char>::empty()));
        r
    }

    /// There are always sixteen lines.
    pub fn line_count(&self) -> (r: usize)
        ensures
            r == self.lines().len(),
            r == DEBUG_CHANNEL_LEN,
    {
        proof {
            use_type_invariant(self);
        }
        self.text_buffer.len()
    }

    /// Drops the oldest line and appends `line`, or an empty line when
    /// `line` is longer than `DEBUG_STRING_LEN` bytes.
    pub fn add_line(&mut self, line: &str)
        ensures
            final(self).lines() == old(self).lines().drop_first().push(shown_line(line@)),
            final(self).lines().len() == DEBUG_CHANNEL_LEN,
            final(self).needs_redraw(),
    {
        proof {
            use_type_invariant(&*self);
        }
        let shown = if line.as_bytes().len() <= DEBUG_STRING_LEN {
            line.to_owned()
        } else {
            String::new()
        };
        let mut lines: Vec<String> = Vec::new();
        let mut i: usize = 1;
        while i < self.text_buffer.len()
            invariant
                1 <= i <= self.text_buffer@.len(),
                lines@.len() == i - 1,
                forall|k: int| 0 <= k < i - 1 ==> (#[trigger] lines@[k])@ == self.text_buffer@[k + 1]@,
            decreases self.text_buffer@.len() - i,
        {
            lines.push(self.text_buffer[i].clone());
            i = i + 1;
        }
        lines.push(shown);
        assert(lines@.map_values(|s: String| s@) =~= self.text_buffer@.map_values(|s: String| s@).drop_first().push(
            shown_line(line@),
        ));
        *self = DebugScroll { text_buffer: lines, redraw: true };
    }

    /// Copies of lines `start` to `end` (exclusive).
    fn copy_lines(&self, start: usize, end: usize) -> (r: Vec<String>)
        requires
            start <= end <= self.lines().len(),
        ensures
            r@.map_values(|s: String| s@) == self.lines().subrange(start as int, end as int),
    {
        let mut lines: Vec<String> = Vec::new();
        let mut i: usize = start;
        while i < end
            invariant
                start <= i <= end <= self.text_buffer@.len(),
                lines@.len() == i - start,
                forall|k: int| 0 <= k < i - start ==> (#[trigger] lines@[k])@ == self.text_buffer@[start + k]@,
            decreases end - i,
        {
            lines.push(self.text_buffer[i].clone());
            i = i + 1;
        }
        assert(lines@.map_values(|s: String| s@) =~= self.lines().subrange(start as int, end as int));
        lines
    }

    /// When the screen must be redrawn, the lines to draw: the first eight,
    /// oldest first, on the first display and the last eight on the second,
    /// line `i` of each at `text_row_y(i)`.  The mark stays until
    /// `finish_redraw` reports the screen drawn.
    pub fn pending_redraw(&self) -> (r: Option<(Vec<String>, Vec<String>)>)
        ensures
            self.needs_redraw() ==> (r matches Some((first, second)) && first@.map_values(
                |s: String| s@,
            ) == self.lines().subrange(0, 8) && second@.map_values(|s: String| s@)
                == self.lines().subrange(8, 16)),
            !self.needs_redraw() ==> r is None,
            self.lines().len() == DEBUG_CHANNEL_LEN,
    {
        proof {
            use_type_invariant(self);
        }
        if !self.redraw {
            return None;
        }
        let first = self.copy_lines(0, DEBUG_CHANNEL_LEN / 2);
        let second = self.copy_lines(DEBUG_CHANNEL_LEN / 2, DEBUG_CHANNEL_LEN);
        Some((first, second))
    }

    /// After drawing: a screen that was drawn counts as drawn; after a failed
    /// drawing it stays marked, to be drawn again.
    pub fn finish_redraw(&mut self, drawn: bool)
        ensures
            final(self).lines() == old(self).lines(),
            final(self).lines().len() == DEBUG_CHANNEL_LEN,
            final(self).needs_redraw() == (old(self).needs_redraw() && !drawn),
    {
        proof {
            use_type_invariant(&*self);
        }
        if drawn {
            self.redraw = false;
        }
    }
}

/// The vertical position of text row `row` on a display: the rows are eight
/// pixels apart, the first at 6.
pub fn text_row_y(row: u8) -> (r: i32)
    requires
        row < 16,
    ensures
        r == 6 + 8 * row,
{
    6 + 8 * row as i32
}

/// `PowerOff` always leads to the start screen.
pub proof fn lemma_power_off_returns_to_init(s: ScreenView)
    ensures
        lcd_step(s, LcdEvent::PowerOff).0 == ScreenView::Init,
{
}

/// `Main` always leads to the main screen.
pub proof fn lemma_main_opens_main(s: ScreenView)
    ensures
        lcd_step(s, LcdEvent::Main).0 == ScreenView::Main,
{
}

/// A button press other than B3 on the main, debug or PID-list screen opens
/// the menu.
pub proof fn lemma_press_opens_menu(s: ScreenView, b: Button)
    requires
        s is Main || s is Debug || s is Obd2Pids,
        b != Button::B3,
    ensures
        lcd_step(s, LcdEvent::Button(Action::Pressed(b))) == (ScreenView::Menu, LcdAction::Enter),
{
}

/// `Debug` outside the start screen opens a fresh debug screen: sixteen
/// empty lines, whatever was shown before.
pub proof fn lemma_debug_opens_fresh_scroll(s: ScreenView)
    requires
        !(s is Init),
    ensures
        lcd_step(s, LcdEvent::Debug) == (fresh_debug(), LcdAction::Enter),
{
}

} // verus!
