//! The two controller ports: one shift register each, loaded from the
//! buttons while the strobe is high and shifted out bit by bit after it
//! went low.

use vstd::prelude::*;

verus! {

/// The eight buttons of a controller.
#[derive(Clone, Copy, Debug, PartialEq, Eq, Structural)]
pub struct InputStates {
    pub a: bool,
    pub b: bool,
    pub select: bool,
    pub start: bool,
    pub up: bool,
    pub down: bool,
    pub left: bool,
    pub right: bool,
}

/// 1 for a button that is up, 0 for one that is down.
pub open spec fn up_bit(pressed: bool) -> int {
    if pressed {
        0
    } else {
        1
    }
}

impl InputStates {
    pub open spec fn released() -> InputStates {
        InputStates {
            a: false,
            b: false,
            select: false,
            start: false,
            up: false,
            down: false,
            left: false,
            right: false,
        }
    }

    /// The buttons as the shift register takes them: one bit per button,
    /// A in bit 0, then B, Select, Start, Up, Down, Left, and Right in bit
    /// 7; a bit is clear while its button is down.
    pub open spec fn latched(self) -> u8 {
        (up_bit(self.a) + up_bit(self.b) * 2 + up_bit(self.select) * 4 + up_bit(self.start) * 8
            + up_bit(self.up) * 16 + up_bit(self.down) * 32 + up_bit(self.left) * 64 + up_bit(
            self.right,
        ) * 128) as u8
    }

    pub fn to_u8(&self) -> (r: u8)
        ensures
            r == self.latched(),
    {
        let a: u8 = if self.a { 0 } else { 1 };
        let b: u8 = if self.b { 0 } else { 2 };
        let select: u8 = if self.select { 0 } else { 4 };
        let start: u8 = if self.start { 0 } else { 8 };
        let up: u8 = if self.up { 0 } else { 16 };
        let down: u8 = if self.down { 0 } else { 32 };
        let left: u8 = if self.left { 0 } else { 64 };
        let right: u8 = if self.right { 0 } else { 128 };
        a + b + select + start + up + down + left + right
    }
}

impl Default for InputStates {
    fn default() -> (r: Self)
        ensures
            r == InputStates::released(),
    {
        InputStates {
            a: false,
            b: false,
            select: false,
            start: false,
            up: false,
            down: false,
            left: false,
            right: false,
        }
    }
}

/// One controller port.
#[derive(Clone, Copy, Debug, PartialEq, Eq, Structural)]
pub struct Input {
    pub states: InputStates,
    /// The shift register.
    pub input: u8,
}

impl Input {
    /// The port with the buttons latched.
    pub open spec fn loaded(self) -> Input {
        Input { input: self.states.latched(), ..self }
    }

    /// The bit that the port shows: 1 while the button at the head of the
    /// register is down, and 1 once all eight buttons were shifted out.
    pub open spec fn head(self) -> u8 {
        if self.input % 2 == 0 {
            1
        } else {
            0
        }
    }

    /// The port after one bit was shifted out.
    pub open spec fn shifted(self) -> Input {
        Input { input: self.input / 2, ..self }
    }

    pub fn load(&mut self)
        ensures
            *final(self) == old(self).loaded(),
    {
        self.input = self.states.to_u8();
    }

    pub fn next(&mut self) -> (r: u8)
        ensures
            r == old(self).head(),
            *final(self) == old(self).shifted(),
    {
        let b: u8 = self.input;
        self.input = b / 2;
        if b % 2 == 0 {
            1
        } else {
            0
        }
    }
}

#[derive(Clone, Copy, Debug, PartialEq, Eq, Structural)]
pub struct Joystick {
    pub input0: Input,
    pub input1: Input,
    /// The strobe is low: reads shift the registers.
    pub reading: bool,
}

impl Joystick {
    pub open spec fn initial() -> Joystick {
        Joystick {
            input0: Input { states: InputStates::released(), input: 0 },
            input1: Input { states: InputStates::released(), input: 0 },
            reading: false,
        }
    }

    /// The ports as a read finds them: latched anew while the strobe is
    /// high.
    pub open spec fn settled(self) -> Joystick {
        if self.reading {
            self
        } else {
            Joystick { input0: self.input0.loaded(), input1: self.input1.loaded(), ..self }
        }
    }

    /// What a read of `$4016` or `$4017` returns: the head bit of the
    /// port, and bit 6 set.
    pub open spec fn port_value(self, addr: u16) -> u8 {
        if addr == 0x4016 {
            (self.settled().input0.head() + 0x40) as u8
        } else {
            (self.settled().input1.head() + 0x40) as u8
        }
    }

    /// The ports after a read of `$4016` or `$4017`.
    pub open spec fn port_read(self, addr: u16) -> Joystick {
        if addr == 0x4016 {
            Joystick { input0: self.settled().input0.shifted(), ..self.settled() }
        } else {
            Joystick { input1: self.settled().input1.shifted(), ..self.settled() }
        }
    }

    /// The ports after a write of `data` to `$4016`: bit 0 is the strobe,
    /// and both registers latch the buttons.
    pub open spec fn strobed(self, data: u8) -> Joystick {
        Joystick {
            reading: data % 2 == 0,
            input0: self.input0.loaded(),
            input1: self.input1.loaded(),
        }
    }

    pub fn new() -> (j: Self)
        ensures
            j == Joystick::initial(),
    {
        let released = InputStates {
            a: false,
            b: false,
            select: false,
            start: false,
            up: false,
            down: false,
            left: false,
            right: false,
        };
        Joystick {
            input0: Input { states: released, input: 0 },
            input1: Input { states: released, input: 0 },
            reading: false,
        }
    }

    /// What a read of `addr` would return, without shifting.
    pub fn peek(&self, addr: u16) -> (r: u8)
        requires
            addr == 0x4016 || addr == 0x4017,
        ensures
            r == self.port_value(addr),
    {
        let mut copy: Joystick = *self;
        copy.read(addr)
    }

    pub fn read(&mut self, addr: u16) -> (r: u8)
        requires
            addr == 0x4016 || addr == 0x4017,
        ensures
            r == old(self).port_value(addr),
            *final(self) == old(self).port_read(addr),
    {
        if !self.reading {
            self.input0.load();
            self.input1.load();
        }
        if addr == 0x4016 {
            self.input0.next() + 0x40
        } else {
            self.input1.next() + 0x40
        }
    }

    pub fn write(&mut self, addr: u16, data: u8)
        requires
            addr == 0x4016 || addr == 0x4017,
        ensures
            *final(self) == (if addr == 0x4016 { old(self).strobed(data) } else { *old(self) }),
    {
        if addr == 0x4016 {
            self.reading = data % 2 == 0;
            self.input0.load();
            self.input1.load();
        }
    }

    pub fn set_input0(&mut self, states: InputStates)
        ensures
            *final(self) == (Joystick {
                input0: Input { states, ..old(self).input0 },
                ..*old(self)
            }),
    {
        self.input0.states = states;
    }

    pub fn set_input1(&mut self, states: InputStates)
        ensures
            *final(self) == (Joystick {
                input1: Input { states, ..old(self).input1 },
                ..*old(self)
            }),
    {
        self.input1.states = states;
    }
}

} // verus!
