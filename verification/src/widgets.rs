//! State of the main screen's symbols and labels: each remembers what it
//! shows and whether it must be redrawn.  An update that changes what is
//! shown marks the widget for redrawing; only a drawing that succeeded
//! clears the mark.
//! Positions are display coordinates, used only when drawing.

use vstd::prelude::*;
use vstd::string::StringSliceAdditionalSpecFns;
use crate::sim_config::bytes_equal;

verus! {

/// Whether two strings hold the same characters.
pub(crate) fn str_equal(a: &str, b: &str) -> (r: bool)
    ensures
        r == (a@ == b@),
{
    let r = bytes_equal(a.as_bytes(), b.as_bytes());
    proof {
        vstd::utf8::encode_utf8_decode_utf8(a@);
        vstd::utf8::encode_utf8_decode_utf8(b@);
    }
    r
}

/// A position on the display, in pixels.
#[derive(Clone, Copy, Debug, PartialEq, Eq, Structural)]
pub struct Point {
    pub x: i32,
    pub y: i32,
}

/// The combustion engine symbol: running or stopped.
#[derive(Clone, Copy, Debug, PartialEq, Eq, Structural)]
pub struct MotorIce {
    pub position: Point,
    pub on: bool,
    pub needs_update: bool,
}

impl MotorIce {
    /// A stopped engine at `position`, to be drawn.
    pub fn new(position: Point) -> (r: MotorIce)
        ensures
            r == (MotorIce { position, on: false, needs_update: true }),
    {
        MotorIce { position, on: false, needs_update: true }
    }

    /// Sets the state; a change marks the symbol for redrawing.  Returns
    /// whether the symbol must be redrawn.
    pub fn update_on(&mut self, on: bool) -> (r: bool)
        ensures
            final(self).on == on,
            final(self).position == old(self).position,
            final(self).needs_update == (old(self).needs_update || old(self).on != on),
            r == final(self).needs_update,
    {
        if self.on != on {
            self.on = on;
            self.needs_update = true;
        }
        self.needs_update
    }

    /// Whether the symbol must be redrawn.
    pub fn is_redraw(&self) -> (r: bool)
        ensures
            r == self.needs_update,
    {
        self.needs_update
    }

    /// After drawing: a symbol that was drawn counts as drawn; after a failed
    /// drawing it stays marked, to be drawn again.
    pub fn finish_draw(&mut self, drawn: bool)
        ensures
            *final(self) == (MotorIce { needs_update: old(self).needs_update && !drawn, ..*old(self) }),
    {
        if drawn {
            self.needs_update = false;
        }
    }
}

/// The electric motor symbol: driving or idle.
#[derive(Clone, Copy, Debug, PartialEq, Eq, Structural)]
pub struct MotorElectric {
    pub position: Point,
    pub on: bool,
    pub needs_update: bool,
}

impl MotorElectric {
    /// An idle motor at `position`, to be drawn.
    pub fn new(position: Point) -> (r: MotorElectric)
        ensures
            r == (MotorElectric { position, on: false, needs_update: true }),
    {
        MotorElectric { position, on: false, needs_update: true }
    }

    /// Sets the state; a change marks the symbol for redrawing.
    pub fn update_on(&mut self, on: bool)
        ensures
            final(self).on == on,
            final(self).position == old(self).position,
            final(self).needs_update == (old(self).needs_update || old(self).on != on),
    {
        if self.on != on {
            self.on = on;
            self.needs_update = true;
        }
    }

    /// After drawing: a symbol that was drawn counts as drawn; after a failed
    /// drawing it stays marked, to be drawn again.
    pub fn finish_draw(&mut self, drawn: bool)
        ensures
            *final(self) == (MotorElectric { needs_update: old(self).needs_update && !drawn, ..*old(self) }),
    {
        if drawn {
            self.needs_update = false;
        }
    }
}

/// The radio link marks: whether a frame was sent and one received lately.
#[derive(Clone, Copy, Debug, PartialEq, Eq, Structural)]
pub struct Connection {
    pub position: Point,
    pub redraw: bool,
    pub last_send: bool,
    pub last_receive: bool,
}

impl Connection {
    /// No recent traffic, at the origin, to be drawn.
    pub fn default() -> (r: Connection)
        ensures
            r == (Connection { position: Point { x: 0, y: 0 }, redraw: true, last_send: false, last_receive: false }),
    {
        Connection { position: Point { x: 0, y: 0 }, redraw: true, last_send: false, last_receive: false }
    }

    /// No recent traffic, at `position`, to be drawn.
    pub fn new(position: Point) -> (r: Connection)
        ensures
            r == (Connection { position, redraw: true, last_send: false, last_receive: false }),
    {
        Connection { position, ..Connection::default() }
    }

    /// Whether a frame was sent lately; a change marks the widget for
    /// redrawing.
    pub fn update_last_send(&mut self, last_send: bool)
        ensures
            *final(self) == (Connection {
                last_send,
                redraw: old(self).redraw || old(self).last_send != last_send,
                ..*old(self)
            }),
    {
        if self.last_send == last_send {
            return;
        }
        self.last_send = last_send;
        self.redraw = true;
    }

    /// Whether a frame was received lately; a change marks the widget for
    /// redrawing.
    pub fn update_last_receive(&mut self, last_receive: bool)
        ensures
            *final(self) == (Connection {
                last_receive,
                redraw: old(self).redraw || old(self).last_receive != last_receive,
                ..*old(self)
            }),
    {
        if self.last_receive == last_receive {
            return;
        }
        self.last_receive = last_receive;
        self.redraw = true;
    }

    /// After drawing: a widget that was drawn counts as drawn; after a failed
    /// drawing it stays marked, to be drawn again.
    pub fn finish_draw(&mut self, drawn: bool)
        ensures
            *final(self) == (Connection { redraw: old(self).redraw && !drawn, ..*old(self) }),
    {
        if drawn {
            self.redraw = false;
        }
    }
}

/// The position mark: whether a position fix arrived lately.
#[derive(Clone, Copy, Debug, PartialEq, Eq, Structural)]
pub struct Position {
    pub position: Point,
    pub redraw: bool,
    pub last_position: bool,
}

impl Position {
    /// No recent fix, at the origin, to be drawn.
    pub fn default() -> (r: Position)
        ensures
            r == (Position { position: Point { x: 0, y: 0 }, redraw: true, last_position: false }),
    {
        Position { position: Point { x: 0, y: 0 }, redraw: true, last_position: false }
    }

    /// No recent fix, at `position`, to be drawn.
    pub fn new(position: Point) -> (r: Position)
        ensures
            r == (Position { position, redraw: true, last_position: false }),
    {
        Position { position, ..Position::default() }
    }

    /// Whether a fix arrived lately; a change marks the widget for
    /// redrawing.
    pub fn update_last_position(&mut self, last_position: bool)
        ensures
            *final(self) == (Position {
                last_position,
                redraw: old(self).redraw || old(self).last_position != last_position,
                ..*old(self)
            }),
    {
        if self.last_position == last_position {
            return;
        }
        self.last_position = last_position;
        self.redraw = true;
    }

    /// After drawing: a widget that was drawn counts as drawn; after a failed
    /// drawing it stays marked, to be drawn again.
    pub fn finish_draw(&mut self, drawn: bool)
        ensures
            *final(self) == (Position { redraw: old(self).redraw && !drawn, ..*old(self) }),
    {
        if drawn {
            self.redraw = false;
        }
    }
}

/// An icon that is drawn bright when enabled and dim otherwise (the air
/// conditioning compressor, for one).
#[derive(Clone, Copy, Debug, PartialEq, Eq, Structural)]
pub struct Icon {
    pub position: Point,
    pub size: u32,
    pub redraw: bool,
    pub last_enabled: bool,
}

impl Icon {
    /// An enabled icon of size 0 at the origin, to be drawn.
    pub fn default() -> (r: Icon)
        ensures
            r == (Icon { position: Point { x: 0, y: 0 }, size: 0, redraw: true, last_enabled: true }),
    {
        Icon { position: Point { x: 0, y: 0 }, size: 0, redraw: true, last_enabled: true }
    }

    /// An icon at `position` in state `enabled`, to be drawn.
    pub fn new(position: Point, enabled: bool) -> (r: Icon)
        ensures
            r == (Icon { position, size: 0, redraw: true, last_enabled: enabled }),
    {
        Icon { position, last_enabled: enabled, ..Icon::default() }
    }

    /// Sets the state; a change marks the icon for redrawing.
    pub fn enabled(&mut self, enabled: bool)
        ensures
            *final(self) == (Icon {
                last_enabled: enabled,
                redraw: old(self).redraw || old(self).last_enabled != enabled,
                ..*old(self)
            }),
    {
        if self.last_enabled == enabled {
            return;
        }
        self.last_enabled = enabled;
        self.redraw = true;
    }

    /// After drawing: a icon that was drawn counts as drawn; after a failed
    /// drawing it stays marked, to be drawn again.
    pub fn finish_draw(&mut self, drawn: bool)
        ensures
            *final(self) == (Icon { redraw: old(self).redraw && !drawn, ..*old(self) }),
    {
        if drawn {
            self.redraw = false;
        }
    }
}

/// The gear label.
#[derive(Clone, Copy, Debug)]
pub struct GearboxGear {
    pub position: Point,
    pub gear: &'static str,
    pub redraw: bool,
}

impl GearboxGear {
    /// The unknown gear `U` at `position`, to be drawn.
    pub fn new(position: Point) -> (r: GearboxGear)
        ensures
            r.position == position,
            r.gear@ == "U"@,
            r.redraw,
    {
        GearboxGear { position, gear: "U", redraw: true }
    }

    /// Shows `gear`; a different name marks the label for redrawing.
    pub fn update_gear(&mut self, gear: &'static str)
        ensures
            final(self).position == old(self).position,
            final(self).gear@ == gear@,
            final(self).redraw == (old(self).redraw || old(self).gear@ != gear@),
    {
        if !str_equal(self.gear, gear) {
            self.gear = gear;
            self.redraw = true;
        }
    }

    /// Marks the label for redrawing.
    pub fn force_redraw(&mut self)
        ensures
            final(self).position == old(self).position,
            final(self).gear == old(self).gear,
            final(self).redraw,
    {
        self.redraw = true;
    }

    /// After drawing: a label that was drawn counts as drawn; after a failed
    /// drawing it stays marked, to be drawn again.
    pub fn finish_draw(&mut self, drawn: bool)
        ensures
            final(self).position == old(self).position,
            final(self).gear == old(self).gear,
            final(self).redraw == (old(self).redraw && !drawn),
    {
        if drawn {
            self.redraw = false;
        }
    }
}

/// A text label that may be shown selected (inverted).
#[derive(Clone, Debug)]
pub struct Text {
    pub position: Point,
    pub text: String,
    pub selected: bool,
    pub redraw: bool,
}

impl Text {
    /// An empty, unselected label at the origin, to be drawn.
    pub fn default() -> (r: Text)
        ensures
            r.position == (Point { x: 0, y: 0 }),
            r.text@ == Seq::<char>::empty(),
            !r.selected,
            r.redraw,
    {
        Text { position: Point { x: 0, y: 0 }, text: String::new(), selected: false, redraw: true }
    }

    /// An unselected label at `position` showing `initial_str`, or nothing.
    pub fn new(position: Point, initial_str: Option<&str>) -> (r: Text)
        ensures
            r.position == position,
            r.text@ == match initial_str {
                Some(s) => s@,
                None => Seq::<char>::empty(),
            },
            !r.selected,
            r.redraw,
    {
        let mut ret = Text { position, text: String::new(), selected: false, redraw: true };
        if let Some(s) = initial_str {
            ret.update_str(s);
        }
        ret
    }

    /// Shows `s`; different text marks the label for redrawing.
    pub fn update_str(&mut self, s: &str)
        ensures
            final(self).position == old(self).position,
            final(self).selected == old(self).selected,
            final(self).text@ == s@,
            final(self).redraw == (old(self).redraw || old(self).text@ != s@),
    {
        self.update_string(s);
    }

    /// Shows `s`; different text marks the label for redrawing.
    pub fn update_string(&mut self, s: &str)
        ensures
            final(self).position == old(self).position,
            final(self).selected == old(self).selected,
            final(self).text@ == s@,
            final(self).redraw == (old(self).redraw || old(self).text@ != s@),
    {
        if !str_equal(self.text.as_str(), s) {
            self.text = s.to_owned();
            self.redraw = true;
        }
    }

    /// Selects or deselects; a change marks the label for redrawing.
    pub fn update_selected(&mut self, selected: bool)
        ensures
            final(self).position == old(self).position,
            final(self).text == old(self).text,
            final(self).selected == selected,
            final(self).redraw == (old(self).redraw || old(self).selected != selected),
    {
        if self.selected != selected {
            self.selected = selected;
            self.redraw = true;
        }
    }

    /// After drawing: a label that was drawn counts as drawn; after a failed
    /// drawing it stays marked, to be drawn again.
    pub fn finish_draw(&mut self, drawn: bool)
        ensures
            final(self).position == old(self).position,
            final(self).text == old(self).text,
            final(self).selected == old(self).selected,
            final(self).redraw == (old(self).redraw && !drawn),
    {
        if drawn {
            self.redraw = false;
        }
    }
}

} // verus!
