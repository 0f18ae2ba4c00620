use vstd::prelude::*;

use crate::port::Port;

verus! {

/// The character a scancode below 59 produces on the primary layout, with
/// `?` standing in for keys that produce no printable character.
pub open spec fn keymap(code: u8, shifted: bool) -> u8 {
    if shifted {
        match code {
            2 => ('!' as u8),
            3 => ('@' as u8),
            4 => ('#' as u8),
            5 => ('$' as u8),
            6 => ('%' as u8),
            7 => ('^' as u8),
            8 => ('&' as u8),
            9 => ('*' as u8),
            10 => ('(' as u8),
            11 => (')' as u8),
            12 => ('_' as u8),
            13 => ('+' as u8),
            16 => ('Q' as u8),
            17 => ('W' as u8),
            18 => ('E' as u8),
            19 => ('R' as u8),
            20 => ('T' as u8),
            21 => ('Y' as u8),
            22 => ('U' as u8),
            23 => ('I' as u8),
            24 => ('O' as u8),
            25 => ('P' as u8),
            26 => ('{' as u8),
            27 => ('}' as u8),
            28 => ('\n' as u8),
            30 => ('A' as u8),
            31 => ('S' as u8),
            32 => ('D' as u8),
            33 => ('F' as u8),
            34 => ('G' as u8),
            35 => ('H' as u8),
            36 => ('J' as u8),
            37 => ('K' as u8),
            38 => ('L' as u8),
            39 => (':' as u8),
            40 => ('"' as u8),
            41 => ('~' as u8),
            43 => ('|' as u8),
            44 => ('Z' as u8),
            45 => ('X' as u8),
            46 => ('C' as u8),
            47 => ('V' as u8),
            48 => ('B' as u8),
            49 => ('N' as u8),
            50 => ('M' as u8),
            51 => ('<' as u8),
            52 => ('>' as u8),
            55 => ('*' as u8),
            57 => (' ' as u8),
            _ => ('?' as u8),
        }
    } else {
        match code {
            2 => ('1' as u8),
            3 => ('2' as u8),
            4 => ('3' as u8),
            5 => ('4' as u8),
            6 => ('5' as u8),
            7 => ('6' as u8),
            8 => ('7' as u8),
            9 => ('8' as u8),
            10 => ('9' as u8),
            11 => ('0' as u8),
            12 => ('-' as u8),
            13 => ('=' as u8),
            14 => 0x08,
            16 => ('q' as u8),
            17 => ('w' as u8),
            18 => ('e' as u8),
            19 => ('r' as u8),
            20 => ('t' as u8),
            21 => ('y' as u8),
            22 => ('u' as u8),
            23 => ('i' as u8),
            24 => ('o' as u8),
            25 => ('p' as u8),
            26 => ('[' as u8),
            27 => (']' as u8),
            28 => ('\n' as u8),
            30 => ('a' as u8),
            31 => ('s' as u8),
            32 => ('d' as u8),
            33 => ('f' as u8),
            34 => ('g' as u8),
            35 => ('h' as u8),
            36 => ('j' as u8),
            37 => ('k' as u8),
            38 => ('l' as u8),
            39 => (';' as u8),
            40 => ('\'' as u8),
            41 => ('`' as u8),
            43 => ('\\' as u8),
            44 => ('z' as u8),
            45 => ('x' as u8),
            46 => ('c' as u8),
            47 => ('v' as u8),
            48 => ('b' as u8),
            49 => ('n' as u8),
            50 => ('m' as u8),
            51 => (',' as u8),
            52 => ('.' as u8),
            53 => ('/' as u8),
            55 => ('*' as u8),
            57 => (' ' as u8),
            _ => ('?' as u8),
        }
    }
}

/// Basic keyboard driver: tracks the modifier keys and maps scancodes to
/// characters.  The hardware layer reads each scancode from the keyboard's
/// port and hands it in.
pub struct Keyboard {
    /// The keyboard controller's data port.
    pub port: Port,
    /// Caps-lock is on.
    pub caps: bool,
    /// Count of shift keys held down.
    pub shift: u8,
    /// Count of control keys held down.
    pub ctrl: u8,
    /// Count of alt keys held down.
    pub alt: u8,
}

impl Keyboard {
    /// What `get_char` returns: the mapped character for the 59 mapped
    /// scancodes — the shifted one when caps-lock and the shift keys
    /// disagree — and `None` for every other code.
    pub open spec fn spec_get_char(self, code: u8) -> Option<char> {
        if code < 59 {
            Some(keymap(code, self.caps ^ (self.shift > 0)) as char)
        } else {
            None
        }
    }

    /// Construct a new `Keyboard` for port 0x60, with no modifier held and
    /// caps-lock off.
    pub fn new() -> (r: Keyboard)
        ensures
            r.port.id == 0x60,
            r.caps == false,
            r.shift == 0,
            r.ctrl == 0,
            r.alt == 0,
    {
        Keyboard { port: Port::new(0x60), caps: false, shift: 0, ctrl: 0, alt: 0 }
    }

    /// Get the character for keycode `code` under the current modifiers.
    ///
    /// Returns `None` if the code does not map to a valid character.
    pub fn get_char(&self, code: u8) -> (r: Option<char>)
        ensures
            r == self.spec_get_char(code),
    {
        if code < 59 {
            let c = Keyboard::ascii_for(code, self.caps ^ (self.shift > 0));
            Some(c as char)
        } else {
            None
        }
    }

    /// Handle one scancode: track the modifier keys' presses and releases
    /// and caps-lock, and for every other code return the character to
    /// print, if the code maps to one.
    ///
    /// The modifier counters saturate instead of wrapping, so a stray
    /// release scancode cannot corrupt the count.
    pub fn handle_keypress(&mut self, code: u8) -> (r: Option<char>)
        ensures
            final(self).port == old(self).port,
            match code {
                0x2a | 0x36 => r is None && *final(self) == (Keyboard {
                    shift: saturating_inc(old(self).shift),
                    ..*old(self)
                }),
                0xaa | 0xb6 => r is None && *final(self) == (Keyboard {
                    shift: saturating_dec(old(self).shift),
                    ..*old(self)
                }),
                0x1d => r is None && *final(self) == (Keyboard {
                    ctrl: saturating_inc(old(self).ctrl),
                    ..*old(self)
                }),
                0x9d => r is None && *final(self) == (Keyboard {
                    ctrl: saturating_dec(old(self).ctrl),
                    ..*old(self)
                }),
                0x38 => r is None && *final(self) == (Keyboard {
                    alt: saturating_inc(old(self).alt),
                    ..*old(self)
                }),
                0xb8 => r is None && *final(self) == (Keyboard {
                    alt: saturating_dec(old(self).alt),
                    ..*old(self)
                }),
                0x3a => r is None && *final(self) == (Keyboard {
                    caps: !old(self).caps,
                    ..*old(self)
                }),
                _ => r == old(self).spec_get_char(code) && *final(self) == *old(self),
            },
    {
        match code {
            0x2a | 0x36 => {
                if self.shift < 255 {
                    self.shift = self.shift + 1;
                }
                None
            },
            0xaa | 0xb6 => {
                if self.shift > 0 {
                    self.shift = self.shift - 1;
                }
                None
            },
            0x1d => {
                if self.ctrl < 255 {
                    self.ctrl = self.ctrl + 1;
                }
                None
            },
            0x9d => {
                if self.ctrl > 0 {
                    self.ctrl = self.ctrl - 1;
                }
                None
            },
            0x38 => {
                if self.alt < 255 {
                    self.alt = self.alt + 1;
                }
                None
            },
            0xb8 => {
                if self.alt > 0 {
                    self.alt = self.alt - 1;
                }
                None
            },
            0x3a => {
                self.caps = !self.caps;
                None
            },
            _ => self.get_char(code),
        }
    }

    /// The table lookup behind `get_char`.
    fn ascii_for(code: u8, shifted: bool) -> (r: u8)
        ensures
            r == keymap(code, shifted),
    {
        if shifted {
            match code {
                2 => ('!' as u8),
                3 => ('@' as u8),
                4 => ('#' as u8),
                5 => ('$' as u8),
                6 => ('%' as u8),
                7 => ('^' as u8),
                8 => ('&' as u8),
                9 => ('*' as u8),
                10 => ('(' as u8),
                11 => (')' as u8),
                12 => ('_' as u8),
                13 => ('+' as u8),
                16 => ('Q' as u8),
                17 => ('W' as u8),
                18 => ('E' as u8),
                19 => ('R' as u8),
                20 => ('T' as u8),
                21 => ('Y' as u8),
                22 => ('U' as u8),
                23 => ('I' as u8),
                24 => ('O' as u8),
                25 => ('P' as u8),
                26 => ('{' as u8),
                27 => ('}' as u8),
                28 => ('\n' as u8),
                30 => ('A' as u8),
                31 => ('S' as u8),
                32 => ('D' as u8),
                33 => ('F' as u8),
                34 => ('G' as u8),
                35 => ('H' as u8),
                36 => ('J' as u8),
                37 => ('K' as u8),
                38 => ('L' as u8),
                39 => (':' as u8),
                40 => ('"' as u8),
                41 => ('~' as u8),
                43 => ('|' as u8),
                44 => ('Z' as u8),
                45 => ('X' as u8),
                46 => ('C' as u8),
                47 => ('V' as u8),
                48 => ('B' as u8),
                49 => ('N' as u8),
                50 => ('M' as u8),
                51 => ('<' as u8),
                52 => ('>' as u8),
                55 => ('*' as u8),
                57 => (' ' as u8),
                _ => ('?' as u8),
            }
        } else {
            match code {
                2 => ('1' as u8),
                3 => ('2' as u8),
                4 => ('3' as u8),
                5 => ('4' as u8),
                6 => ('5' as u8),
                7 => ('6' as u8),
                8 => ('7' as u8),
                9 => ('8' as u8),
                10 => ('9' as u8),
                11 => ('0' as u8),
                12 => ('-' as u8),
                13 => ('=' as u8),
                14 => 0x08,
                16 => ('q' as u8),
                17 => ('w' as u8),
                18 => ('e' as u8),
                19 => ('r' as u8),
                20 => ('t' as u8),
                21 => ('y' as u8),
                22 => ('u' as u8),
                23 => ('i' as u8),
                24 => ('o' as u8),
                25 => ('p' as u8),
                26 => ('[' as u8),
                27 => (']' as u8),
                28 => ('\n' as u8),
                30 => ('a' as u8),
                31 => ('s' as u8),
                32 => ('d' as u8),
                33 => ('f' as u8),
                34 => ('g' as u8),
                35 => ('h' as u8),
                36 => ('j' as u8),
                37 => ('k' as u8),
                38 => ('l' as u8),
                39 => (';' as u8),
                40 => ('\'' as u8),
                41 => ('`' as u8),
                43 => ('\\' as u8),
                44 => ('z' as u8),
                45 => ('x' as u8),
                46 => ('c' as u8),
                47 => ('v' as u8),
                48 => ('b' as u8),
                49 => ('n' as u8),
                50 => ('m' as u8),
                51 => (',' as u8),
                52 => ('.' as u8),
                53 => ('/' as u8),
                55 => ('*' as u8),
                57 => (' ' as u8),
                _ => ('?' as u8),
            }
        }
    }
}

/// One more than `x`, capped at the largest byte.
pub open spec fn saturating_inc(x: u8) -> u8 {
    if x < 255 {
        (x + 1) as u8
    } else {
        255u8
    }
}

/// One less than `x`, floored at zero.
pub open spec fn saturating_dec(x: u8) -> u8 {
    if x > 0 {
        (x - 1) as u8
    } else {
        0u8
    }
}

/// The deferred half of the keyboard interrupt: the top half queues one of
/// these, and the bottom-half daemon then reads and handles the pending
/// scancode outside interrupt context.
pub struct KeyboardBottomHalf {}

impl KeyboardBottomHalf {
    /// Construct a new `KeyboardBottomHalf`.
    pub fn new() -> KeyboardBottomHalf {
        KeyboardBottomHalf {  }
    }
}

} // verus!
