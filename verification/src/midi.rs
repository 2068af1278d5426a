use vstd::prelude::*;

verus! {

/// A short MIDI message of at most three bytes.
#[derive(Copy, Clone, Debug)]
pub struct Midi {
    bytes: [u8; 3],
    len: usize,
}

impl View for Midi {
    type V = Seq<u8>;

    closed spec fn view(&self) -> Seq<u8> {
        self.bytes@.take(self.len as int)
    }
}

impl Midi {
    /// The message never holds more than three bytes.
    pub closed spec fn wf(&self) -> bool {
        self.len <= 3
    }

    /// Builds a message from at most three bytes.
    pub fn new(v: &[u8]) -> (m: Self)
        requires
            v@.len() <= 3,
        ensures
            m.wf(),
            m@ == v@,
    {
        let mut bytes: [u8; 3] = [0u8; 3];
        let n = v.len();
        let mut i: usize = 0;
        while i < n
            invariant
                n == v@.len(),
                n <= 3,
                0 <= i <= n,
                forall|j: int| 0 <= j < i ==> bytes@[j] == v@[j],
            decreases n - i,
        {
            bytes[i] = v[i];
            i = i + 1;
        }
        let m = Midi { bytes, len: n };
        assert(m@ =~= v@);
        m
    }

    /// The single byte `0xFF`: a MIDI system reset.
    pub fn reset() -> (m: Self)
        ensures
            m.wf(),
            m@ == seq![0xFFu8],
    {
        let m = Midi::new(&[0xFFu8]);
        assert(m@ =~= seq![0xFFu8]);
        m
    }

    /// A control change on channel `chan`.
    pub fn cc(num: u8, val: u8, chan: u8) -> (m: Self)
        ensures
            m.wf(),
            m@ == seq![0xb0u8 | chan, num, val],
    {
        let m = Midi::new(&[0xb0u8 | chan, num, val]);
        assert(m@ =~= seq![0xb0u8 | chan, num, val]);
        m
    }

    /// A note on message on channel `chan`.
    pub fn note_on(num: u8, vel: u8, chan: u8) -> (m: Self)
        ensures
            m.wf(),
            m@ == seq![0x90u8 | chan, num, vel],
    {
        let m = Midi::new(&[0x90u8 | chan, num, vel]);
        assert(m@ =~= seq![0x90u8 | chan, num, vel]);
        m
    }

    /// A note off message on channel `chan`.
    pub fn note_off(num: u8, vel: u8, chan: u8) -> (m: Self)
        ensures
            m.wf(),
            m@ == seq![0x80u8 | chan, num, vel],
    {
        let m = Midi::new(&[0x80u8 | chan, num, vel]);
        assert(m@ =~= seq![0x80u8 | chan, num, vel]);
        m
    }

    /// The bytes of the message.
    pub fn bytes(&self) -> (b: &[u8])
        requires
            self.wf(),
        ensures
            b@ == self@,
    {
        let b = &self.bytes[0..self.len];
        assert(b@ =~= self@);
        b
    }

    /// The number of bytes of the message.
    pub fn len(&self) -> (n: usize)
        requires
            self.wf(),
        ensures
            n == self@.len(),
    {
        self.len
    }
}

} // verus!

verus! {

/// Commands understood by the device's power controller.
#[derive(Copy, Clone, Debug, PartialEq, Eq, Structural)]
pub enum PowerCommand {
    /// Power off immediately; `Shutdown` should be sent first.
    PowerOff,
    /// Reset the state of a short press of the power button.
    ClearShortPress,
    /// Ask for a power state update by a system MIDI event.
    RequestStateUpdate,
    /// Power off and power on again after a second.
    Reboot,
    /// Reset the state of a long press of the power button.
    ClearLongPress,
    /// Start the shutdown animation; `PowerOff` must follow.
    Shutdown,
}

impl PowerCommand {
    /// The byte that stands for the command in the power sysex.
    pub open spec fn spec_code(self) -> u8 {
        match self {
            PowerCommand::PowerOff => 1,
            PowerCommand::ClearShortPress => 2,
            PowerCommand::RequestStateUpdate => 3,
            PowerCommand::Reboot => 4,
            PowerCommand::ClearLongPress => 5,
            PowerCommand::Shutdown => 6,
        }
    }

    pub fn code(&self) -> (c: u8)
        ensures
            c == self.spec_code(),
    {
        match self {
            PowerCommand::PowerOff => 1,
            PowerCommand::ClearShortPress => 2,
            PowerCommand::RequestStateUpdate => 3,
            PowerCommand::Reboot => 4,
            PowerCommand::ClearLongPress => 5,
            PowerCommand::Shutdown => 6,
        }
    }
}

/// The colours of the device's button LEDs.
#[derive(Copy, Clone, Debug, PartialEq, Eq, Structural)]
pub enum MoveColor {
    Black,
    FullWhite,
    White,
    LightGray,
    DarkGray,
    Blue,
    Green,
    Red,
}

impl MoveColor {
    /// The controller value that lights a button in this colour.
    pub open spec fn spec_value(self) -> u8 {
        match self {
            MoveColor::Black => 0,
            MoveColor::FullWhite => 120,
            MoveColor::White => 122,
            MoveColor::LightGray => 123,
            MoveColor::DarkGray => 124,
            MoveColor::Blue => 125,
            MoveColor::Green => 126,
            MoveColor::Red => 127,
        }
    }

    pub fn value(&self) -> (v: u8)
        ensures
            v == self.spec_value(),
    {
        match self {
            MoveColor::Black => 0,
            MoveColor::FullWhite => 120,
            MoveColor::White => 122,
            MoveColor::LightGray => 123,
            MoveColor::DarkGray => 124,
            MoveColor::Blue => 125,
            MoveColor::Green => 126,
            MoveColor::Red => 127,
        }
    }
}

/// The concatenated bytes of a list of messages.
pub open spec fn flatten(ms: Seq<Seq<u8>>) -> Seq<u8>
    decreases ms.len(),
{
    if ms.len() == 0 {
        Seq::empty()
    } else {
        flatten(ms.drop_last()) + ms.last()
    }
}

/// The bytes of the power sysex for `cmd`.
pub open spec fn spec_power_sysex(cmd: PowerCommand) -> Seq<u8> {
    seq![0xF0u8, 0x00, 0x21, 0x1D, 0x01, 0x01, 0x39, cmd.spec_code(), 0xF7]
}

/// The views of a list of messages.
pub open spec fn messages(ms: Seq<Midi>) -> Seq<Seq<u8>> {
    ms.map_values(|m: Midi| m@)
}

/// The power sysex for `cmd` as three messages.
pub open spec fn power_messages(cmd: PowerCommand) -> Seq<Seq<u8>> {
    seq![seq![0xF0u8, 0x00, 0x21], seq![0x1Du8, 0x01, 0x01], seq![0x39u8, cmd.spec_code(), 0xF7]]
}

/// The three messages carry the power sysex.
pub proof fn lemma_power_messages(cmd: PowerCommand)
    ensures
        flatten(power_messages(cmd)) == spec_power_sysex(cmd),
{
    let s = power_messages(cmd);
    assert(s.drop_last().drop_last().drop_last() =~= Seq::<Seq<u8>>::empty());
    assert(flatten(s) =~= spec_power_sysex(cmd)) by {
        reveal_with_fuel(flatten, 4);
    }
}

/// The power sysex for `cmd`, split into three-byte messages.
pub fn power_sysex(cmd: PowerCommand) -> (ms: [Midi; 3])
    ensures
        forall|i: int| 0 <= i < 3 ==> (#[trigger] ms@[i]).wf(),
        messages(ms@) == power_messages(cmd),
{
    let ms = [
        Midi::new(&[0xF0u8, 0x00, 0x21]),
        Midi::new(&[0x1Du8, 0x01, 0x01]),
        Midi::new(&[0x39u8, cmd.code(), 0xF7]),
    ];
    assert(messages(ms@) =~= power_messages(cmd));
    ms
}

/// The brightness sysex; the level sent is never below 127.
pub fn brightness_sysex(level: u8) -> (ms: [Midi; 3])
    ensures
        forall|i: int| 0 <= i < 3 ==> (#[trigger] ms@[i]).wf(),
        ms@[0]@ == seq![0xF0u8, 0x00, 0x21],
        ms@[1]@ == seq![0x1Du8, 0x01, 0x01],
        ms@[2]@ == seq![0x06u8, if level > 127 { level } else { 127u8 }, 0xF7],
{
    let l = if level > 127 {
        level
    } else {
        127u8
    };
    [Midi::new(&[0xF0u8, 0x00, 0x21]), Midi::new(&[0x1Du8, 0x01, 0x01]), Midi::new(&[0x06u8, l, 0xF7])]
}

/// A colour channel raised to at least 1 (the LED needs one bit set).
pub open spec fn lit(c: u8) -> u8 {
    if c < 1 {
        1
    } else {
        c
    }
}

/// The sysex that sets the colour of the LED beside parameter encoder `index`;
/// each channel is sent as a low seven-bit byte and a high bit.
pub fn led_color(index: u8, r: u8, g: u8, b: u8) -> (ms: [Midi; 6])
    requires
        index <= 255 - 71,
    ensures
        forall|i: int| 0 <= i < 6 ==> (#[trigger] ms@[i]).wf(),
        ms@[0]@ == seq![0xF0u8, 0x00, 0x21],
        ms@[1]@ == seq![0x1Du8, 0x01, 0x01],
        ms@[2]@ == seq![0x3bu8, 0x10, (index + 71) as u8],
        ms@[3]@ == seq![lit(r) & 0x7F, lit(r) >> 7, lit(g) & 0x7F],
        ms@[4]@ == seq![lit(g) >> 7, lit(b) & 0x7F, lit(b) >> 7],
        ms@[5]@ == seq![0xF7u8],
{
    let r = if r < 1 {
        1
    } else {
        r
    };
    let g = if g < 1 {
        1
    } else {
        g
    };
    let b = if b < 1 {
        1
    } else {
        b
    };
    let chan: u8 = 0b0001_0000;
    let index = index + 71;
    [
        Midi::new(&[0xF0u8, 0x00, 0x21]),
        Midi::new(&[0x1Du8, 0x01, 0x01]),
        Midi::new(&[0x3bu8, chan, index]),
        Midi::new(&[r & 0x7F, r >> 7, g & 0x7f]),
        Midi::new(&[g >> 7, b & 0x7F, b >> 7]),
        Midi::new(&[0xF7u8]),
    ]
}

/// A colour channel is recovered from its two LED bytes.
pub proof fn law_led_channel_reads_back(c: u8)
    ensures
        (c & 0x7F) as int + 128 * ((c >> 7) as int) == c as int,
        c & 0x7F < 128,
        c >> 7 <= 1,
{
    assert((c & 0x7F) as int + 128 * ((c >> 7) as int) == c as int) by (bit_vector);
    assert(c & 0x7F < 128) by (bit_vector);
    assert(c >> 7 <= 1) by (bit_vector);
}

} // verus!
