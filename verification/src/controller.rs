//! The controller port: a live button bitmask and the serial shift register
//! the CPU samples one bit at a time.

use vstd::prelude::*;

verus! {

/// One physical button of the standard controller.
#[derive(Clone, Copy, PartialEq, Eq, Structural, Debug)]
pub enum Button {
    A,
    B,
    Select,
    Start,
    Up,
    Down,
    Left,
    Right,
}

/// The bit each button occupies in the live bitmask, in the serial order the
/// console reads them out.
pub open spec fn button_mask(b: Button) -> u8 {
    match b {
        Button::A => 0x01,
        Button::B => 0x02,
        Button::Select => 0x04,
        Button::Start => 0x08,
        Button::Up => 0x10,
        Button::Down => 0x20,
        Button::Left => 0x40,
        Button::Right => 0x80,
    }
}

/// Mathematical state of a controller port.
#[verifier::ext_equal]
pub ghost struct ControllerView {
    /// Live button bitmask, one bit per button.
    pub buttons: u8,
    /// The serial shift register: the snapshot of the live bitmask taken
    /// when the strobe drops, which the serial reads shift out.
    pub shift: u8,
    /// Strobe bit: while high, reads keep returning the first button.
    pub strobe: bool,
    /// How many serial bits have been shifted out since the last strobe.
    pub index: u8,
}

/// A controller port. Input events latch into `buttons`; a CPU write of 1
/// then 0 to the strobe bit snapshots it into the serial shift register,
/// so button changes during readout cannot reach bits already latched.
#[derive(Clone, Copy)]
pub struct Controller {
    pub buttons: u8,
    pub shift: u8,
    pub strobe: bool,
    pub index: u8,
}

impl View for Controller {
    type V = ControllerView;

    open spec fn view(&self) -> ControllerView {
        ControllerView {
            buttons: self.buttons,
            shift: self.shift,
            strobe: self.strobe,
            index: self.index,
        }
    }
}

/// What a serial read returns and how it moves the state: while the strobe is
/// high the shift register keeps reloading, so reads return the live first
/// button; the first 8 reads after the strobe drops hand out one snapshot bit
/// each; every later read returns 1 (open bus).
pub open spec fn controller_read_spec(c: ControllerView) -> (ControllerView, u8) {
    if c.strobe {
        (c, c.buttons & 1)
    } else if c.index >= 8 {
        (c, 1)
    } else {
        (
            ControllerView { index: (c.index + 1) as u8, ..c },
            (c.shift >> c.index) & 1,
        )
    }
}

/// Effect of a CPU write to the controller port: bit 0 is the strobe; raising
/// it rewinds the serial position, and dropping it snapshots the live bitmask
/// into the shift register.
pub open spec fn controller_write_spec(c: ControllerView, value: u8) -> ControllerView {
    if value & 1 == 1 {
        ControllerView { strobe: true, index: 0, ..c }
    } else {
        ControllerView {
            strobe: false,
            shift: if c.strobe {
                c.buttons
            } else {
                c.shift
            },
            ..c
        }
    }
}

impl Controller {
    /// A controller at power-on: nothing pressed, strobe low.
    pub fn new() -> (c: Controller)
        ensures
            c@ == (ControllerView { buttons: 0, shift: 0, strobe: false, index: 0 }),
    {
        Controller { buttons: 0, shift: 0, strobe: false, index: 0 }
    }

    /// Latches one physical button state into the live bitmask.
    pub fn set_button(&mut self, b: Button, pressed: bool)
        ensures
            final(self)@ == (ControllerView {
                buttons: if pressed {
                    old(self).buttons | button_mask(b)
                } else {
                    old(self).buttons & !button_mask(b)
                },
                ..old(self)@
            }),
    {
        let mask: u8 = match b {
            Button::A => 0x01,
            Button::B => 0x02,
            Button::Select => 0x04,
            Button::Start => 0x08,
            Button::Up => 0x10,
            Button::Down => 0x20,
            Button::Left => 0x40,
            Button::Right => 0x80,
        };
        if pressed {
            self.buttons = self.buttons | mask;
        } else {
            self.buttons = self.buttons & !mask;
        }
    }

    /// Serial read of the next button bit, exactly as
    /// [`controller_read_spec`] states.
    pub fn read(&mut self) -> (r: u8)
        ensures
            (final(self)@, r) == controller_read_spec(old(self)@),
    {
        if self.strobe {
            self.buttons & 1
        } else if self.index >= 8 {
            1
        } else {
            let bit = (self.shift >> self.index) & 1;
            self.index = self.index + 1;
            bit
        }
    }

    /// CPU write to the strobe bit, exactly as [`controller_write_spec`]
    /// states: dropping the strobe latches the live bitmask into the shift
    /// register.
    pub fn write(&mut self, value: u8)
        ensures
            final(self)@ == controller_write_spec(old(self)@, value),
    {
        if value & 1 == 1 {
            self.strobe = true;
            self.index = 0;
        } else {
            if self.strobe {
                self.shift = self.buttons;
            }
            self.strobe = false;
        }
    }
}

/// Law: a strobe write of 1 then 0 snapshots the live button bitmask into
/// the serial shift register and rewinds the serial position, whatever the
/// port's state was before.
pub proof fn lemma_strobe_snapshot(c: ControllerView)
    ensures
        controller_write_spec(controller_write_spec(c, 1), 0) == (ControllerView {
            buttons: c.buttons,
            shift: c.buttons,
            strobe: false,
            index: 0,
        }),
{
    assert(1u8 & 1 == 1) by (bit_vector);
    assert(0u8 & 1 == 0) by (bit_vector);
}

/// Law: once the strobe has dropped, a serial read's bit comes from the
/// snapshot alone: changing the live bitmask (a button event during
/// readout) does not change what the read returns.
pub proof fn lemma_serial_bit_from_snapshot(c: ControllerView, live: u8)
    requires
        !c.strobe,
    ensures
        controller_read_spec((ControllerView { buttons: live, ..c })).1
            == controller_read_spec(c).1,
{
}

} // verus!
