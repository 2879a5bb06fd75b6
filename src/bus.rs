use vstd::prelude::*;
use crate::display::{Display, blank_screen, row_blit, row_collides, sprite_blit, sprite_collides, HEIGHT, PIXELS, WIDTH};
use crate::fault::Fault;
use crate::keyboard::{Keyboard, lowest_pressed, KEY_COUNT};
use crate::ram::{Ram, initial_memory, with_program, MEMORY_SIZE, PROGRAM_START};

verus! {

/// What the processor sees through the bus.
pub struct BusModel {
    pub ram: Seq<u8>,
    pub screen: Seq<bool>,
    pub keys: Seq<bool>,
    pub delay_timer: u8,
    pub sound_timer: u8,
    /// Set when the screen changed and should be shown by the renderer.
    pub present_requested: bool,
}

impl BusModel {
    pub open spec fn wf(self) -> bool {
        &&& self.ram.len() == MEMORY_SIZE
        &&& self.screen.len() == PIXELS
        &&& self.keys.len() == KEY_COUNT
    }
}

/// One step of a countdown timer toward zero.
pub open spec fn count_down(t: u8) -> u8 {
    if t > 0 {
        (t - 1) as u8
    } else {
        0
    }
}

/// Memory, display, keypad and timers behind one interface.
pub struct Bus {
    ram: Ram,
    keyboard: Keyboard,
    display: Display,
    delay_timer: u8,
    sound_timer: u8,
    present_requested: bool,
}

impl View for Bus {
    type V = BusModel;

    closed spec fn view(&self) -> BusModel {
        BusModel {
            ram: self.ram@,
            screen: self.display@,
            keys: self.keyboard@,
            delay_timer: self.delay_timer,
            sound_timer: self.sound_timer,
            present_requested: self.present_requested,
        }
    }
}

impl Bus {
    pub open spec fn wf(&self) -> bool {
        self@.wf()
    }

    /// A machine as it is switched on: glyphs in memory, blank screen, no key
    /// pressed, timers at zero.
    pub fn new() -> (b: Bus)
        ensures
            b.wf(),
            b@ == (BusModel {
                ram: initial_memory(),
                screen: blank_screen(),
                keys: Seq::new(KEY_COUNT as nat, |i: int| false),
                delay_timer: 0,
                sound_timer: 0,
                present_requested: false,
            }),
    {
        Bus {
            ram: Ram::new(),
            keyboard: Keyboard::new(),
            display: Display::new(),
            delay_timer: 0,
            sound_timer: 0,
            present_requested: false,
        }
    }

    /// Places a program image at the program origin.
    pub fn load_program(&mut self, image: &[u8]) -> (r: Result<(), Fault>)
        requires
            old(self).wf(),
        ensures
            final(self).wf(),
            PROGRAM_START + image@.len() <= MEMORY_SIZE ==> r is Ok && final(self)@ == (BusModel {
                ram: with_program(old(self)@.ram, image@),
                ..old(self)@
            }),
            PROGRAM_START + image@.len() > MEMORY_SIZE ==> r == Err::<(), Fault>(
                Fault::ImageTooLarge { len: image@.len() as usize },
            ) && final(self)@ == old(self)@,
    {
        if image.len() > MEMORY_SIZE - PROGRAM_START as usize {
            return Err(Fault::ImageTooLarge { len: image.len() });
        }
        self.ram.load_program(image);
        Ok(())
    }

    /// The byte at `address`.
    pub fn ram_read_byte(&self, address: u16) -> (b: u8)
        requires
            self.wf(),
            address < MEMORY_SIZE,
        ensures
            b == self@.ram[address as int],
    {
        self.ram.read_byte(address)
    }

    /// Stores `value` at `address`.
    pub fn ram_write_byte(&mut self, address: u16, value: u8)
        requires
            old(self).wf(),
            address < MEMORY_SIZE,
        ensures
            final(self).wf(),
            final(self)@ == (BusModel {
                ram: old(self)@.ram.update(address as int, value),
                ..old(self)@
            }),
    {
        self.ram.write_byte(address, value)
    }

    /// XORs one 8-pixel row onto the screen at `(x, y)`; returns whether a set
    /// pixel was turned off.
    pub fn debug_draw_byte(&mut self, byte: u8, x: u8, y: u8) -> (flipped: bool)
        requires
            old(self).wf(),
        ensures
            final(self).wf(),
            final(self)@ == (BusModel {
                screen: row_blit(old(self)@.screen, x as int, y as int, byte),
                ..old(self)@
            }),
            flipped == row_collides(old(self)@.screen, x as int, y as int, byte),
    {
        self.display.debug_draw_byte(byte, x, y)
    }

    /// XORs a sprite onto the screen at `(x, y)`; returns whether a set pixel was
    /// turned off.
    pub fn draw_sprite(&mut self, x: u8, y: u8, rows: &[u8]) -> (flipped: bool)
        requires
            old(self).wf(),
            rows@.len() <= HEIGHT,
        ensures
            final(self).wf(),
            final(self)@ == (BusModel {
                screen: sprite_blit(old(self)@.screen, x as int, y as int, rows@),
                ..old(self)@
            }),
            flipped == sprite_collides(old(self)@.screen, x as int, y as int, rows@),
    {
        self.display.draw_sprite(x, y, rows)
    }

    /// Whether the pixel at column `x`, row `y` is set.
    pub fn pixel(&self, x: usize, y: usize) -> (on: bool)
        requires
            self.wf(),
            x < WIDTH,
            y < HEIGHT,
        ensures
            on == self@.screen[y * WIDTH + x],
    {
        self.display.pixel(x, y)
    }

    /// Whether key `key_code` is held down; codes outside the keypad never are.
    pub fn is_key_pressed(&self, key_code: u8) -> (pressed: bool)
        requires
            self.wf(),
        ensures
            pressed == (key_code < KEY_COUNT && self@.keys[key_code as int]),
    {
        self.keyboard.key_pressed(key_code)
    }

    /// Records that key `key_code` was pressed or released.
    pub fn set_key_state(&mut self, key_code: u8, pressed: bool)
        requires
            old(self).wf(),
            key_code < KEY_COUNT,
        ensures
            final(self).wf(),
            final(self)@ == (BusModel {
                keys: old(self)@.keys.update(key_code as int, pressed),
                ..old(self)@
            }),
    {
        self.keyboard.set_key_state(key_code, pressed)
    }

    /// The lowest-numbered key held down, if any.
    pub fn first_pressed_key(&self) -> (k: Option<u8>)
        requires
            self.wf(),
        ensures
            k == lowest_pressed(self@.keys, 0),
    {
        self.keyboard.first_pressed()
    }

    /// Asks the renderer to show the screen as it now is.
    pub fn present_screen(&mut self)
        ensures
            final(self)@ == (BusModel { present_requested: true, ..old(self)@ }),
    {
        self.present_requested = true;
    }

    /// Whether the screen was to be shown since the last call; clears the request.
    pub fn take_present_request(&mut self) -> (requested: bool)
        ensures
            requested == old(self)@.present_requested,
            final(self)@ == (BusModel { present_requested: false, ..old(self)@ }),
    {
        let requested = self.present_requested;
        self.present_requested = false;
        requested
    }

    /// Turns every pixel off.
    pub fn clear_screen(&mut self)
        requires
            old(self).wf(),
        ensures
            final(self).wf(),
            final(self)@ == (BusModel { screen: blank_screen(), ..old(self)@ }),
    {
        self.display.clear_screen();
    }

    /// Sets the delay timer.
    pub fn delay_timer(&mut self, value: u8)
        ensures
            final(self)@ == (BusModel { delay_timer: value, ..old(self)@ }),
    {
        self.delay_timer = value;
    }

    /// The delay timer's value.
    pub fn get_delay_timer(&self) -> (t: u8)
        ensures
            t == self@.delay_timer,
    {
        self.delay_timer
    }

    /// Sets the sound timer.
    pub fn sound_timer(&mut self, value: u8)
        ensures
            final(self)@ == (BusModel { sound_timer: value, ..old(self)@ }),
    {
        self.sound_timer = value;
    }

    /// The sound timer's value.
    pub fn get_sound_timer(&self) -> (t: u8)
        ensures
            t == self@.sound_timer,
    {
        self.sound_timer
    }

    /// One beat of the timer clock: each timer above zero goes down by one.
    pub fn tick(&mut self)
        ensures
            final(self)@ == (BusModel {
                delay_timer: count_down(old(self)@.delay_timer),
                sound_timer: count_down(old(self)@.sound_timer),
                ..old(self)@
            }),
    {
        if self.delay_timer > 0 {
            self.delay_timer -= 1;
        }
        if self.sound_timer > 0 {
            self.sound_timer -= 1;
        }
    }
}

} // verus!
