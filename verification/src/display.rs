//! Content model of the two-line, 16-column text display.
//!
//! The library records what the panel shows; the physical character driver
//! renders it outside the library. The top line holds one of a fixed set of
//! messages, the bottom line holds the formatted time/temperature status.
//! Status bytes use the panel's character set, where `0xDF` is the degree
//! sign.

use vstd::prelude::*;

verus! {

/// The degree sign in the panel's character generator ROM.
pub const DEGREE_BYTE: u8 = 0xDF;

/// Panel bytes of the plain ASCII characters the status line uses.
pub const UPPER_T_BYTE: u8 = 84;
pub const LOWER_T_BYTE: u8 = 116;
pub const COLON_BYTE: u8 = 58;
pub const SPACE_BYTE: u8 = 32;
pub const DASH_BYTE: u8 = 45;
pub const SLASH_BYTE: u8 = 47;

/// Every fixed text the top line can show.
#[derive(Clone, Copy, Debug, PartialEq, Eq, Structural)]
pub enum Message {
    Blank,
    Ready,
    PressRun,
    Cooking,
    CloseLid,
    FaultOverheat,
    FaultTempSensor,
    FaultCurrentSensor,
    FaultMotorUncontrolled,
    FaultMotorFailed,
    FaultMotorOverload,
}

/// The 16 characters each fixed message renders as.
pub open spec fn spec_message_text(m: Message) -> Seq<char> {
    match m {
        Message::Blank => "                "@,
        Message::Ready => "     Ready      "@,
        Message::PressRun => "    Press RUN   "@,
        Message::Cooking => "*****Cooking****"@,
        Message::CloseLid => "Please close lid"@,
        Message::FaultOverheat => "DEVICE OVERHEAT!"@,
        Message::FaultTempSensor => "T SENSOR FAILURE"@,
        Message::FaultCurrentSensor => "C SENSOR FAILURE"@,
        Message::FaultMotorUncontrolled => " MOTOR CONTROL! "@,
        Message::FaultMotorFailed => " MOTOR FAILURE! "@,
        Message::FaultMotorOverload => " MOTOR OVERLOAD "@,
    }
}

/// The text a fixed message renders as, for whatever renders the panel.
pub fn message_text(m: Message) -> (r: &'static str)
    ensures
        r@ == spec_message_text(m),
{
    match m {
        Message::Blank => "                ",
        Message::Ready => "     Ready      ",
        Message::PressRun => "    Press RUN   ",
        Message::Cooking => "*****Cooking****",
        Message::CloseLid => "Please close lid",
        Message::FaultOverheat => "DEVICE OVERHEAT!",
        Message::FaultTempSensor => "T SENSOR FAILURE",
        Message::FaultCurrentSensor => "C SENSOR FAILURE",
        Message::FaultMotorUncontrolled => " MOTOR CONTROL! ",
        Message::FaultMotorFailed => " MOTOR FAILURE! ",
        Message::FaultMotorOverload => " MOTOR OVERLOAD ",
    }
}

/// The panel byte for one decimal digit.
pub open spec fn spec_digit(n: int) -> u8 {
    (48 + n) as u8
}

/// A number below 100 as two zero-padded digits.
pub open spec fn spec_two_digits(n: int) -> Seq<u8> {
    seq![spec_digit(n / 10), spec_digit(n % 10)]
}

/// A number below 1000 as three zero-padded digits.
pub open spec fn spec_three_digits(n: int) -> Seq<u8> {
    seq![spec_digit(n / 100), spec_digit((n / 10) % 10), spec_digit(n % 10)]
}

/// A value held below the largest number its field can show.
pub open spec fn spec_clamped(n: u16, max: u16) -> int {
    if n > max {
        max as int
    } else {
        n as int
    }
}

/// The measured-temperature field: dashes while the reading is still below
/// the panel's sensible floor of 50 degrees, three digits otherwise.
pub open spec fn spec_temp_field(temp_actual: u16) -> Seq<u8> {
    if temp_actual < 50 {
        seq![DASH_BYTE, DASH_BYTE, DASH_BYTE]
    } else {
        spec_three_digits(spec_clamped(temp_actual, 999))
    }
}

/// The full 16-byte status line: remaining time as hours and minutes, the
/// measured temperature, and the requested temperature with a degree sign.
pub open spec fn spec_status_line(time: u16, temp_actual: u16, temp_requested: u16) -> Seq<u8> {
    let t = spec_clamped(time, 5999);
    seq![UPPER_T_BYTE] + spec_two_digits(t / 60) + seq![COLON_BYTE] + spec_two_digits(t % 60) + seq![SPACE_BYTE]
        + spec_temp_field(temp_actual) + seq![SLASH_BYTE]
        + spec_three_digits(spec_clamped(temp_requested, 999)) + seq![DEGREE_BYTE, LOWER_T_BYTE]
}

/// Appends a number below 100 as two zero-padded digits.
fn push_two_digits(v: &mut Vec<u8>, n: u16)
    requires
        n < 100,
    ensures
        final(v)@ == old(v)@ + spec_two_digits(n as int),
{
    v.push((48 + n / 10) as u8);
    v.push((48 + n % 10) as u8);
    assert(v@ =~= old(v)@ + spec_two_digits(n as int));
}

/// Appends a number below 1000 as three zero-padded digits.
fn push_three_digits(v: &mut Vec<u8>, n: u16)
    requires
        n < 1000,
    ensures
        final(v)@ == old(v)@ + spec_three_digits(n as int),
{
    v.push((48 + n / 100) as u8);
    v.push((48 + (n / 10) % 10) as u8);
    v.push((48 + n % 10) as u8);
    assert(v@ =~= old(v)@ + spec_three_digits(n as int));
}

/// Renders the status line.
pub fn format_status_line(time: u16, temp_actual: u16, temp_requested: u16) -> (r: Vec<u8>)
    ensures
        r@ == spec_status_line(time, temp_actual, temp_requested),
        r@.len() == 16,
{
    let t: u16 = if time > 5999 { 5999 } else { time };
    let tr: u16 = if temp_requested > 999 { 999 } else { temp_requested };
    let mut v: Vec<u8> = Vec::new();
    v.push(UPPER_T_BYTE);
    push_two_digits(&mut v, t / 60);
    v.push(COLON_BYTE);
    push_two_digits(&mut v, t % 60);
    v.push(SPACE_BYTE);
    if temp_actual < 50 {
        v.push(DASH_BYTE);
        v.push(DASH_BYTE);
        v.push(DASH_BYTE);
    } else {
        let ta: u16 = if temp_actual > 999 { 999 } else { temp_actual };
        push_three_digits(&mut v, ta);
    }
    v.push(SLASH_BYTE);
    push_three_digits(&mut v, tr);
    v.push(DEGREE_BYTE);
    v.push(LOWER_T_BYTE);
    assert(v@ =~= spec_status_line(time, temp_actual, temp_requested));
    v
}

/// What the panel currently shows.
pub struct LcdDisplay {
    pub top: Message,
    pub bottom: Vec<u8>,
}

/// Both lines show the same content.
pub open spec fn same_display(a: LcdDisplay, b: LcdDisplay) -> bool {
    &&& a.top == b.top
    &&& a.bottom@ == b.bottom@
}

impl LcdDisplay {
    /// A cleared panel.
    pub fn new() -> (r: LcdDisplay)
        ensures
            r.top == Message::Blank,
            r.bottom@ == Seq::<u8>::empty(),
    {
        LcdDisplay { top: Message::Blank, bottom: Vec::new() }
    }

    /// Shows a fixed message on the top line.
    pub fn message(&mut self, m: Message)
        ensures
            final(self).top == m,
            final(self).bottom@ == old(self).bottom@,
    {
        self.top = m;
    }

    /// Clears the panel and shows a fault message on the top line; nothing is
    /// written after it.
    pub fn error_message(&mut self, m: Message)
        ensures
            final(self).top == m,
            final(self).bottom@ == Seq::<u8>::empty(),
    {
        self.top = m;
        self.bottom = Vec::new();
    }

    /// Refreshes the status line.
    pub fn state(&mut self, time: u16, temp_actual: u16, temp_requested: u16)
        ensures
            final(self).top == old(self).top,
            final(self).bottom@ == spec_status_line(time, temp_actual, temp_requested),
    {
        self.bottom = format_status_line(time, temp_actual, temp_requested);
    }
}

} // verus!
