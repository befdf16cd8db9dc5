//! The buttons: the eight of the console and the eight of the debugger,
//! with the state each had before its last change.

use vstd::prelude::*;

verus! {

pub const BUTTON_COUNT: usize = 16;

#[derive(PartialEq, Eq, Hash, Clone, Copy, Debug, Structural)]
pub enum Button {
    A,
    B,
    Select,
    Start,
    Right,
    Down,
    Left,
    Up,
    Reset,
    DumpBgTiles,
    Step,
    ToggleStepping,
    Continue,
    ToggleBackground,
    ToggleWindow,
    ToggleObjects,
}

/// A key of the host keyboard, as far as the buttons care.
#[derive(PartialEq, Eq, Hash, Clone, Copy, Debug, Structural)]
pub enum Key {
    Left,
    Up,
    Right,
    Down,
    Z,
    X,
    RShift,
    Return,
    R,
    D,
    F8,
    F9,
    F6,
    F1,
    F2,
    F3,
    /// Any other key.
    Unmapped,
}

/// What the host reports of its keyboard.
#[derive(PartialEq, Eq, Clone, Copy, Debug, Structural)]
pub enum KeyEvent {
    KeyDown(Key),
    KeyUp(Key),
    /// Any other event.
    Ignored,
}

impl Button {
    /// The button's place in the tables of states.
    pub open spec fn index(self) -> int {
        match self {
            Button::A => 0,
            Button::B => 1,
            Button::Select => 2,
            Button::Start => 3,
            Button::Right => 4,
            Button::Down => 5,
            Button::Left => 6,
            Button::Up => 7,
            Button::Reset => 8,
            Button::DumpBgTiles => 9,
            Button::Step => 10,
            Button::ToggleStepping => 11,
            Button::Continue => 12,
            Button::ToggleBackground => 13,
            Button::ToggleWindow => 14,
            Button::ToggleObjects => 15,
        }
    }

    pub fn position(self) -> (i: usize)
        ensures
            i == self.index(),
            i < 16,
    {
        match self {
            Button::A => 0,
            Button::B => 1,
            Button::Select => 2,
            Button::Start => 3,
            Button::Right => 4,
            Button::Down => 5,
            Button::Left => 6,
            Button::Up => 7,
            Button::Reset => 8,
            Button::DumpBgTiles => 9,
            Button::Step => 10,
            Button::ToggleStepping => 11,
            Button::Continue => 12,
            Button::ToggleBackground => 13,
            Button::ToggleWindow => 14,
            Button::ToggleObjects => 15,
        }
    }
}

/// The button that a key stands for, if any.
pub open spec fn button_of(key: Key) -> Option<Button> {
    match key {
        Key::Left => Some(Button::Left),
        Key::Up => Some(Button::Up),
        Key::Right => Some(Button::Right),
        Key::Down => Some(Button::Down),
        Key::Z => Some(Button::B),
        Key::X => Some(Button::A),
        Key::RShift => Some(Button::Select),
        Key::Return => Some(Button::Start),
        Key::R => Some(Button::Reset),
        Key::D => Some(Button::DumpBgTiles),
        Key::F8 => Some(Button::Step),
        Key::F9 => Some(Button::Continue),
        Key::F6 => Some(Button::ToggleStepping),
        Key::F1 => Some(Button::ToggleBackground),
        Key::F2 => Some(Button::ToggleWindow),
        Key::F3 => Some(Button::ToggleObjects),
        Key::Unmapped => None,
    }
}

pub fn get_default_config(key: Key) -> (button: Option<Button>)
    ensures
        button == button_of(key),
{
    match key {
        Key::Left => Some(Button::Left),
        Key::Up => Some(Button::Up),
        Key::Right => Some(Button::Right),
        Key::Down => Some(Button::Down),
        Key::Z => Some(Button::B),
        Key::X => Some(Button::A),
        Key::RShift => Some(Button::Select),
        Key::Return => Some(Button::Start),
        Key::R => Some(Button::Reset),
        Key::D => Some(Button::DumpBgTiles),
        Key::F8 => Some(Button::Step),
        Key::F9 => Some(Button::Continue),
        Key::F6 => Some(Button::ToggleStepping),
        Key::F1 => Some(Button::ToggleBackground),
        Key::F2 => Some(Button::ToggleWindow),
        Key::F3 => Some(Button::ToggleObjects),
        Key::Unmapped => None,
    }
}

/// The buttons as contracts see them: for each, whether it is down and
/// whether it was down before its last change.
pub struct InputView {
    pub down: Seq<bool>,
    pub before: Seq<bool>,
}

impl InputView {
    pub open spec fn wf(self) -> bool {
        self.down.len() == 16 && self.before.len() == 16
    }

    pub open spec fn is_down(self, b: Button) -> bool {
        self.down[b.index()]
    }

    /// Whether `b` is down and was up before.
    pub open spec fn is_new_down(self, b: Button) -> bool {
        self.down[b.index()] && !self.before[b.index()]
    }

    /// The buttons after `b` goes down or up.
    pub open spec fn with_button(self, b: Button, is_down: bool) -> InputView {
        InputView {
            down: self.down.update(b.index(), is_down),
            before: self.before.update(b.index(), self.down[b.index()]),
        }
    }

    /// The buttons after a key goes down or up. A key that stands for
    /// no button changes nothing.
    pub open spec fn with_key(self, key: Key, is_down: bool) -> InputView {
        match button_of(key) {
            Some(b) => self.with_button(b, is_down),
            None => self,
        }
    }

    /// The buttons after an event of the host.
    pub open spec fn consume(self, event: KeyEvent) -> InputView {
        match event {
            KeyEvent::KeyDown(key) => self.with_key(key, true),
            KeyEvent::KeyUp(key) => self.with_key(key, false),
            KeyEvent::Ignored => self,
        }
    }

    /// 2 to the power `bit` where `b` is down, else 0.
    pub open spec fn held(self, b: Button, bit: int) -> int {
        if self.is_down(b) {
            crate::bits::weight(bit)
        } else {
            0
        }
    }

    /// The console's buttons as the bus takes them: bits 0 to 7 are A,
    /// B, Select, Start, Up, Down, Left and Right; a bit is 1 where the
    /// button is down.
    pub open spec fn controller(self) -> u8 {
        (self.held(Button::A, 0) + self.held(Button::B, 1) + self.held(Button::Select, 2)
            + self.held(Button::Start, 3) + self.held(Button::Up, 4) + self.held(
            Button::Down,
            5,
        ) + self.held(Button::Left, 6) + self.held(Button::Right, 7)) as u8
    }
}

pub struct Input {
    pub key_states: Vec<bool>,
    pub prev_key_states: Vec<bool>,
}

impl View for Input {
    type V = InputView;

    open spec fn view(&self) -> InputView {
        InputView { down: self.key_states@, before: self.prev_key_states@ }
    }
}

impl Input {
    pub open spec fn wf(&self) -> bool {
        self@.wf()
    }

    /// All buttons up.
    pub fn new() -> (input: Input)
        ensures
            input.wf(),
            forall|i: int| 0 <= i < 16 ==> !(#[trigger] input@.down[i]),
            forall|i: int| 0 <= i < 16 ==> !(#[trigger] input@.before[i]),
    {
        Input { key_states: vec![false; BUTTON_COUNT], prev_key_states: vec![false; BUTTON_COUNT] }
    }

    pub fn is_down(&self, b: &Button) -> (down: bool)
        requires
            self.wf(),
        ensures
            down == self@.is_down(*b),
    {
        self.key_states[b.position()]
    }

    pub fn is_new_down(&self, b: &Button) -> (down: bool)
        requires
            self.wf(),
        ensures
            down == self@.is_new_down(*b),
    {
        let i: usize = b.position();
        self.key_states[i] && !self.prev_key_states[i]
    }

    pub fn set_button(&mut self, key: Key, is_down: bool)
        requires
            old(self).wf(),
        ensures
            final(self).wf(),
            final(self)@ == old(self)@.with_key(key, is_down),
    {
        match get_default_config(key) {
            Some(b) => {
                let i: usize = b.position();
                let current: bool = self.key_states[i];
                self.prev_key_states[i] = current;
                self.key_states[i] = is_down;
            },
            None => {},
        }
    }

    /// Makes every button's earlier state its present one.
    pub fn set_prev_keys(&mut self)
        requires
            old(self).wf(),
        ensures
            final(self).wf(),
            final(self)@ == (InputView { down: old(self)@.down, before: old(self)@.down }),
    {
        let mut i: usize = 0;
        while i < BUTTON_COUNT
            invariant
                i <= 16,
                self.wf(),
                self.key_states == old(self).key_states,
                forall|j: int| 0 <= j < i ==> (#[trigger] self.prev_key_states@[j])
                    == self.key_states@[j],
            decreases 16 - i,
        {
            let current: bool = self.key_states[i];
            self.prev_key_states[i] = current;
            i = i + 1;
        }
        assert(self.prev_key_states@ =~= self.key_states@);
    }

    pub fn consume_keys(&mut self, event: KeyEvent)
        requires
            old(self).wf(),
        ensures
            final(self).wf(),
            final(self)@ == old(self)@.consume(event),
    {
        match event {
            KeyEvent::KeyDown(key) => self.set_button(key, true),
            KeyEvent::KeyUp(key) => self.set_button(key, false),
            KeyEvent::Ignored => {},
        }
    }

    /// The console's buttons as one byte for the bus.
    pub fn controller_byte(&self) -> (buttons: u8)
        requires
            self.wf(),
        ensures
            buttons == self@.controller(),
    {
        let a: u8 = if self.is_down(&Button::A) {
            1
        } else {
            0
        };
        let b: u8 = if self.is_down(&Button::B) {
            2
        } else {
            0
        };
        let select: u8 = if self.is_down(&Button::Select) {
            4
        } else {
            0
        };
        let start: u8 = if self.is_down(&Button::Start) {
            8
        } else {
            0
        };
        let up: u8 = if self.is_down(&Button::Up) {
            16
        } else {
            0
        };
        let down: u8 = if self.is_down(&Button::Down) {
            32
        } else {
            0
        };
        let left: u8 = if self.is_down(&Button::Left) {
            64
        } else {
            0
        };
        let right: u8 = if self.is_down(&Button::Right) {
            128
        } else {
            0
        };
        a + b + select + start + up + down + left + right
    }
}

} // verus!
