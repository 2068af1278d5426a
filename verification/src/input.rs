//! Decoding of the MIDI that the device sends: encoder and button messages,
//! and the power button's system exclusive messages, which may arrive split
//! over several MIDI packets.
use vstd::prelude::*;
use crate::events::{Button, Events, JOG_WHEEL_ENCODER, VOLUME_WHEEL_ENCODER};

verus! {

/// Controller number of the menu button.
pub const MENU_MIDI: u8 = 0x32;
/// Controller number of the back button.
pub const BACK_MIDI: u8 = 0x33;
/// Controller number of the play button.
pub const PLAY_MIDI: u8 = 0x55;
/// The MIDI channel (zero based) the device uses for its controls.
pub const MOVE_CTL_MIDI_CHAN: u8 = 15;

/// The event carried by a complete sysex (the bytes after `0xF0`): the power
/// controller's status report names a long or a short press of the power button.
pub open spec fn spec_sysex_event(s: Seq<u8>) -> Option<Events> {
    if s.len() >= 7 && s[0] == 0x00 && s[1] == 0x21 && s[2] == 0x1d && s[3] == 0x01 && s[4]
        == 0x01 && s[5] == 0x3a {
        if s[6] & 0x10 != 0 {
            Some(Events::BtnDown(Button::PowerLong))
        } else if s[6] & 0x08 != 0 {
            Some(Events::BtnDown(Button::PowerShort))
        } else {
            None
        }
    } else {
        None
    }
}

/// The event carried by a control change on the control channel.
pub open spec fn spec_cc_event(num: u8, val: u8) -> Option<Events> {
    if num == 0x03 {
        if val != 0 {
            Some(Events::BtnDown(Button::JogWheel))
        } else {
            Some(Events::BtnUp(Button::JogWheel))
        }
    } else if num == 0x0e {
        if val == 1 {
            Some(Events::EncRight(JOG_WHEEL_ENCODER))
        } else if val == 127 {
            Some(Events::EncLeft(JOG_WHEEL_ENCODER))
        } else {
            None
        }
    } else if num == 0x4f {
        if val == 1 {
            Some(Events::EncRight(VOLUME_WHEEL_ENCODER))
        } else if val == 127 {
            Some(Events::EncLeft(VOLUME_WHEEL_ENCODER))
        } else {
            None
        }
    } else if num == MENU_MIDI && val != 0 {
        Some(Events::BtnDown(Button::Menu))
    } else if num == BACK_MIDI && val != 0 {
        Some(Events::BtnDown(Button::Back))
    } else if num == PLAY_MIDI && val != 0 {
        Some(Events::BtnDown(Button::Play))
    } else if 71 <= num <= 78 {
        if val == 1 {
            Some(Events::EncRight((num - 71) as usize))
        } else if val == 127 {
            Some(Events::EncLeft((num - 71) as usize))
        } else {
            None
        }
    } else {
        None
    }
}

/// Decodes one incoming message `b` given the sysex gathered so far `s`:
/// the sysex afterwards, and the event the message completes, if any.
pub open spec fn spec_decode(s: Seq<u8>, b: Seq<u8>) -> (Seq<u8>, Option<Events>) {
    let e = Seq::<u8>::empty();
    if b.len() == 1 {
        if b[0] == 0xF7 {
            (e, spec_sysex_event(s))
        } else if b[0] & 0x80 != 0 {
            (e, None)
        } else if s.len() > 0 {
            (s + b, None)
        } else {
            (s, None)
        }
    } else if b.len() == 2 {
        if b[0] == 0xF7 {
            (e, spec_sysex_event(s))
        } else if b[1] == 0xF7 {
            (e, spec_sysex_event(s.push(b[0])))
        } else if b[0] & 0x80 != 0 {
            (e, None)
        } else if s.len() > 0 {
            (s + b, None)
        } else {
            (s, None)
        }
    } else if b.len() == 3 {
        if b[0] == 0x9F {
            (
                e,
                if b[1] < 10 && b[2] != 0 {
                    Some(Events::EncTouch(b[1] as usize))
                } else {
                    None
                },
            )
        } else if b[0] == 0xBF {
            (e, spec_cc_event(b[1], b[2]))
        } else if b[0] == 0xF0 {
            (s.push(b[1]).push(b[2]), None)
        } else if b[0] == 0xF7 {
            (e, spec_sysex_event(s))
        } else if b[0] & 0x80 != 0 {
            (e, None)
        } else if s.len() > 0 {
            if b[1] == 0xF7 {
                (e, spec_sysex_event(s.push(b[0])))
            } else if b[2] == 0xF7 {
                (e, spec_sysex_event(s.push(b[0]).push(b[1])))
            } else {
                (s + b, None)
            }
        } else {
            (s, None)
        }
    } else {
        (s, None)
    }
}

/// Whether an incoming message is meant for the controller (`Some(true)`) or
/// passes through to the patches (`Some(false)`); `None` for a message of
/// unexpected length, which is dropped.
pub open spec fn spec_intercepts(b: Seq<u8>) -> Option<bool> {
    if b.len() == 3 {
        Some(
            if b[0] == 0x9F || b[0] == 0x8F {
                b[1] <= 9
            } else if b[0] == 0xBF {
                b[1] == 3 || b[1] == 14 || b[1] == 51 || b[1] == 85 || b[1] == 50 || (71 <= b[1]
                    <= 79)
            } else if b[0] == 0xF0 || b[0] == 0xF7 {
                true
            } else {
                b[0] & 0x80 == 0
            },
        )
    } else if b.len() == 2 {
        Some(b[0] == 0xF7 || b[1] == 0xF7)
    } else if b.len() == 1 {
        Some(b[0] == 0xF7)
    } else {
        None
    }
}

/// Whether an incoming message is meant for the controller.
pub fn intercepts(b: &[u8]) -> (r: Option<bool>)
    ensures
        r == spec_intercepts(b@),
{
    let n = b.len();
    if n == 3 {
        Some(
            if b[0] == 0x9F || b[0] == 0x8F {
                b[1] <= 9
            } else if b[0] == 0xBF {
                b[1] == 3 || b[1] == 14 || b[1] == 51 || b[1] == 85 || b[1] == 50 || (71 <= b[1]
                    && b[1] <= 79)
            } else if b[0] == 0xF0 || b[0] == 0xF7 {
                true
            } else {
                b[0] & 0x80 == 0
            },
        )
    } else if n == 2 {
        Some(b[0] == 0xF7 || b[1] == 0xF7)
    } else if n == 1 {
        Some(b[0] == 0xF7)
    } else {
        None
    }
}

/// The event of a complete sysex.
pub fn sysex_event(s: &Vec<u8>) -> (r: Option<Events>)
    ensures
        r == spec_sysex_event(s@),
{
    if s.len() >= 7 && s[0] == 0x00 && s[1] == 0x21 && s[2] == 0x1d && s[3] == 0x01 && s[4]
        == 0x01 && s[5] == 0x3a {
        let status = s[6];
        if status & 0x10 != 0 {
            Some(Events::BtnDown(Button::PowerLong))
        } else if status & 0x08 != 0 {
            Some(Events::BtnDown(Button::PowerShort))
        } else {
            None
        }
    } else {
        None
    }
}

/// The event of a control change on the control channel.
pub fn cc_event(num: u8, val: u8) -> (r: Option<Events>)
    ensures
        r == spec_cc_event(num, val),
{
    if num == 0x03 {
        if val != 0 {
            Some(Events::BtnDown(Button::JogWheel))
        } else {
            Some(Events::BtnUp(Button::JogWheel))
        }
    } else if num == 0x0e {
        if val == 1 {
            Some(Events::EncRight(JOG_WHEEL_ENCODER))
        } else if val == 127 {
            Some(Events::EncLeft(JOG_WHEEL_ENCODER))
        } else {
            None
        }
    } else if num == 0x4f {
        if val == 1 {
            Some(Events::EncRight(VOLUME_WHEEL_ENCODER))
        } else if val == 127 {
            Some(Events::EncLeft(VOLUME_WHEEL_ENCODER))
        } else {
            None
        }
    } else if num == MENU_MIDI && val != 0 {
        Some(Events::BtnDown(Button::Menu))
    } else if num == BACK_MIDI && val != 0 {
        Some(Events::BtnDown(Button::Back))
    } else if num == PLAY_MIDI && val != 0 {
        Some(Events::BtnDown(Button::Play))
    } else if 71 <= num && num <= 78 {
        let index = (num - 71) as usize;
        if val == 1 {
            Some(Events::EncRight(index))
        } else if val == 127 {
            Some(Events::EncLeft(index))
        } else {
            None
        }
    } else {
        None
    }
}

/// The sysex gathered so far from the device.
pub struct MidiInput {
    pub sysex: Vec<u8>,
}

impl MidiInput {
    /// Nothing gathered.
    pub fn new() -> (m: Self)
        ensures
            m.sysex@ == Seq::<u8>::empty(),
    {
        MidiInput { sysex: Vec::new() }
    }

    /// Ends the sysex gathered so far, and returns the event it carries.
    fn finish(&mut self) -> (r: Option<Events>)
        ensures
            r == spec_sysex_event(old(self).sysex@),
            final(self).sysex@ == Seq::<u8>::empty(),
    {
        let r = sysex_event(&self.sysex);
        self.sysex.clear();
        r
    }

    fn append(&mut self, b: &[u8])
        ensures
            final(self).sysex@ == old(self).sysex@ + b@,
    {
        let n = b.len();
        let mut i: usize = 0;
        while i < n
            invariant
                n == b@.len(),
                0 <= i <= n,
                self.sysex@ == old(self).sysex@ + b@.take(i as int),
            decreases n - i,
        {
            self.sysex.push(b[i]);
            i = i + 1;
            assert(b@.take(i as int) =~= b@.take((i - 1) as int).push(b@[i - 1]));
        }
        assert(b@.take(n as int) =~= b@);
    }

    /// Takes one incoming message; returns the event it completes, if any.
    pub fn feed(&mut self, b: &[u8]) -> (r: Option<Events>)
        ensures
            (final(self).sysex@, r) == spec_decode(old(self).sysex@, b@),
    {
        let n = b.len();
        if n == 1 {
            if b[0] == 0xF7 {
                self.finish()
            } else if b[0] & 0x80 != 0 {
                self.sysex.clear();
                None
            } else if self.sysex.len() > 0 {
                self.append(b);
                None
            } else {
                None
            }
        } else if n == 2 {
            if b[0] == 0xF7 {
                self.finish()
            } else if b[1] == 0xF7 {
                self.sysex.push(b[0]);
                self.finish()
            } else if b[0] & 0x80 != 0 {
                self.sysex.clear();
                None
            } else if self.sysex.len() > 0 {
                self.append(b);
                None
            } else {
                None
            }
        } else if n == 3 {
            if b[0] == 0x9F {
                self.sysex.clear();
                if b[1] < 10 && b[2] != 0 {
                    Some(Events::EncTouch(b[1] as usize))
                } else {
                    None
                }
            } else if b[0] == 0xBF {
                self.sysex.clear();
                cc_event(b[1], b[2])
            } else if b[0] == 0xF0 {
                self.sysex.push(b[1]);
                self.sysex.push(b[2]);
                None
            } else if b[0] == 0xF7 {
                self.finish()
            } else if b[0] & 0x80 != 0 {
                self.sysex.clear();
                None
            } else if self.sysex.len() > 0 {
                if b[1] == 0xF7 {
                    self.sysex.push(b[0]);
                    self.finish()
                } else if b[2] == 0xF7 {
                    self.sysex.push(b[0]);
                    self.sysex.push(b[1]);
                    self.finish()
                } else {
                    self.append(b);
                    None
                }
            } else {
                None
            }
        } else {
            None
        }
    }
}

} // verus!
