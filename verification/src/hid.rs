//! HID input reports and their wire layout.

use vstd::prelude::*;

verus! {

/// Number of key slots in a boot keyboard report.
pub const KEY_SLOTS: usize = 6;

/// Length in bytes of a keyboard input report on the wire.
pub const KEYBOARD_REPORT_LEN: usize = 8;

/// Length in bytes of a mouse input report on the wire.
pub const MOUSE_REPORT_LEN: usize = 5;

#[verifier::external_type_specification]
#[verifier::external_body]
pub struct ExMarshalError(ssmarshal::Error);

/// State of a boot-protocol keyboard. A key slot holds 0 when it is empty and a USB usage
/// code otherwise. `leds` is set by the host and never sent to it.
#[derive(Clone, Copy, Debug, PartialEq, Eq)]
pub struct KeyboardReport {
    pub modifier: u8,
    pub reserved: u8,
    pub leds: u8,
    pub keycodes: [u8; 6],
}

/// State of a relative pointer with wheel and pan axes.
#[derive(Clone, Copy, Debug, PartialEq, Eq, Structural)]
pub struct MouseReport {
    pub buttons: u8,
    pub x: i8,
    pub y: i8,
    pub wheel: i8,
    pub pan: i8,
}

/// How a HID function of the gadget presents itself to the host.
#[derive(Clone, Copy, Debug, PartialEq, Eq, Structural)]
pub struct HidFunction {
    /// Boot interface protocol: 1 for a keyboard, 2 for a mouse.
    pub protocol: u8,
    /// Length of one input report in bytes.
    pub report_len: u8,
}

/// The byte that carries a signed axis value: its two's complement.
pub open spec fn axis_byte(v: i8) -> u8 {
    if v >= 0 {
        v as u8
    } else {
        (v + 256) as u8
    }
}

/// The eight bytes of a keyboard input report: modifier, reserved, then the six key slots
/// in order.
pub open spec fn keyboard_wire(modifier: u8, reserved: u8, keycodes: Seq<u8>) -> Seq<u8> {
    seq![modifier, reserved] + keycodes
}

/// The five bytes of a mouse input report: buttons, x, y, wheel, pan.
pub open spec fn mouse_wire(buttons: u8, x: i8, y: i8, wheel: i8, pan: i8) -> Seq<u8> {
    seq![buttons, axis_byte(x), axis_byte(y), axis_byte(wheel), axis_byte(pan)]
}

/// Calls `ssmarshal::serialize` on the tuple (modifier, reserved, keycodes). The encoder
/// writes each `u8` as one byte, a tuple and an array as their members in order with no
/// framing, and returns the number of bytes written; it fails only when the buffer is too
/// short, which the precondition excludes. Bytes past the report are left as they were.
#[verifier::external_body]
fn marshal_keyboard(buf: &mut Vec<u8>, modifier: u8, reserved: u8, keycodes: &[u8; 6]) -> (r: Result<usize, ssmarshal::Error>)
    requires
        old(buf)@.len() >= 8,
    ensures
        r is Ok,
        r matches Ok(n) ==> n == 8,
        final(buf)@ == keyboard_wire(modifier, reserved, keycodes@) + old(buf)@.skip(8),
{
    ssmarshal::serialize(buf.as_mut_slice(), &(modifier, reserved, *keycodes))
}

/// Calls `ssmarshal::serialize` on the tuple (buttons, x, y, wheel, pan). The encoder writes
/// a `u8` as one byte and an `i8` as the byte with the same bit pattern, a tuple as its
/// members in order with no framing, and returns the number of bytes written; it fails only
/// when the buffer is too short, which the precondition excludes. Bytes past the report are
/// left as they were.
#[verifier::external_body]
fn marshal_mouse(buf: &mut Vec<u8>, buttons: u8, x: i8, y: i8, wheel: i8, pan: i8) -> (r: Result<usize, ssmarshal::Error>)
    requires
        old(buf)@.len() >= 5,
    ensures
        r is Ok,
        r matches Ok(n) ==> n == 5,
        final(buf)@ == mouse_wire(buttons, x, y, wheel, pan) + old(buf)@.skip(5),
{
    ssmarshal::serialize(buf.as_mut_slice(), &(buttons, x, y, wheel, pan))
}

impl KeyboardReport {
    /// The report on the wire.
    pub open spec fn wire(self) -> Seq<u8> {
        keyboard_wire(self.modifier, self.reserved, self.keycodes@)
    }

    /// What a host reads back from eight wire bytes. The LED byte is not on the wire and
    /// reads as 0.
    pub open spec fn from_wire(bytes: Seq<u8>) -> Option<KeyboardReport> {
        if bytes.len() == 8 {
            Some(
                KeyboardReport {
                    modifier: bytes[0],
                    reserved: bytes[1],
                    leds: 0,
                    keycodes: [bytes[2], bytes[3], bytes[4], bytes[5], bytes[6], bytes[7]],
                },
            )
        } else {
            None
        }
    }

    /// The keyboard function of the gadget: boot protocol 1, with reports as long as the
    /// wire form.
    pub fn function() -> (function: HidFunction)
        ensures
            function == (HidFunction { protocol: 1, report_len: 8 }),
            forall|report: KeyboardReport| #[trigger] report.wire().len() == function.report_len,
    {
        HidFunction { protocol: 1, report_len: KEYBOARD_REPORT_LEN as u8 }
    }

    /// A report with no modifier, no LED and every slot empty.
    pub fn new() -> (report: KeyboardReport)
        ensures
            report.modifier == 0,
            report.reserved == 0,
            report.leds == 0,
            report.keycodes@ == Seq::new(6, |i: int| 0u8),
    {
        let report = KeyboardReport { modifier: 0, reserved: 0, leds: 0, keycodes: [0, 0, 0, 0, 0, 0] };
        assert(report.keycodes@ =~= Seq::new(6, |i: int| 0u8));
        report
    }

    /// Writes the report into the first eight bytes of `buf` and leaves the rest alone.
    pub fn write_to(&self, buf: &mut Vec<u8>)
        requires
            old(buf)@.len() >= 8,
        ensures
            final(buf)@ == self.wire() + old(buf)@.skip(8),
    {
        let _written = marshal_keyboard(buf, self.modifier, self.reserved, &self.keycodes);
    }

    /// The report as a fresh eight-byte vector.
    pub fn to_bytes(&self) -> (out: Vec<u8>)
        ensures
            out@ == self.wire(),
            out@.len() == 8,
    {
        let mut out: Vec<u8> = vec![0u8; 8];
        self.write_to(&mut out);
        assert(out@ =~= self.wire());
        out
    }

    /// Reads a report back from its wire form. Succeeds exactly on eight-byte inputs.
    pub fn from_bytes(bytes: &[u8]) -> (report: Option<KeyboardReport>)
        ensures
            report is Some <==> bytes@.len() == 8,
            report matches Some(r) ==> {
                &&& r.modifier == bytes@[0]
                &&& r.reserved == bytes@[1]
                &&& r.leds == 0
                &&& r.keycodes@ == bytes@.skip(2)
                &&& Some(r) == KeyboardReport::from_wire(bytes@)
            },
    {
        if bytes.len() != 8 {
            return None;
        }
        let r = KeyboardReport {
            modifier: bytes[0],
            reserved: bytes[1],
            leds: 0,
            keycodes: [bytes[2], bytes[3], bytes[4], bytes[5], bytes[6], bytes[7]],
        };
        assert(r.keycodes@ =~= bytes@.skip(2));
        Some(r)
    }
}

impl MouseReport {
    /// The report on the wire.
    pub open spec fn wire(self) -> Seq<u8> {
        mouse_wire(self.buttons, self.x, self.y, self.wheel, self.pan)
    }

    /// The mouse function of the gadget: boot protocol 2, with reports as long as the wire
    /// form.
    pub fn function() -> (function: HidFunction)
        ensures
            function == (HidFunction { protocol: 2, report_len: 5 }),
            forall|report: MouseReport| #[trigger] report.wire().len() == function.report_len,
    {
        HidFunction { protocol: 2, report_len: MOUSE_REPORT_LEN as u8 }
    }

    /// A report with no button down and no motion.
    pub fn new() -> (report: MouseReport)
        ensures
            report == (MouseReport { buttons: 0, x: 0, y: 0, wheel: 0, pan: 0 }),
    {
        MouseReport { buttons: 0, x: 0, y: 0, wheel: 0, pan: 0 }
    }

    /// Writes the report into the first five bytes of `buf` and leaves the rest alone.
    pub fn write_to(&self, buf: &mut Vec<u8>)
        requires
            old(buf)@.len() >= 5,
        ensures
            final(buf)@ == self.wire() + old(buf)@.skip(5),
    {
        let _written = marshal_mouse(buf, self.buttons, self.x, self.y, self.wheel, self.pan);
    }

    /// The report as a five-byte array.
    pub fn to_bytes(&self) -> (out: [u8; 5])
        ensures
            out@ == self.wire(),
    {
        let mut buf: Vec<u8> = vec![0u8; 5];
        self.write_to(&mut buf);
        let out = [buf[0], buf[1], buf[2], buf[3], buf[4]];
        assert(out@ =~= self.wire());
        out
    }
}

/// Encoding a keyboard report and reading it back yields every field that is on the wire
/// unchanged; the LED byte, which is not sent, reads back as 0.
pub proof fn lemma_keyboard_round_trip(report: KeyboardReport)
    ensures
        KeyboardReport::from_wire(report.wire()) matches Some(back) && {
            &&& back.modifier == report.modifier
            &&& back.reserved == report.reserved
            &&& back.keycodes@ == report.keycodes@
            &&& back.leds == 0
        },
        report.leds == 0 ==> KeyboardReport::from_wire(report.wire()) == Some(report),
{
    let w = report.wire();
    assert(w.len() == 8);
    let back = KeyboardReport::from_wire(w)->0;
    assert(back.keycodes@ =~= report.keycodes@);
    if report.leds == 0 {
        assert(back.keycodes == report.keycodes);
    }
}

/// Reading eight bytes as a keyboard report and encoding the result yields the same bytes.
pub proof fn lemma_keyboard_wire_round_trip(bytes: Seq<u8>)
    requires
        bytes.len() == 8,
    ensures
        KeyboardReport::from_wire(bytes) matches Some(r) && r.wire() == bytes,
{
    let r = KeyboardReport::from_wire(bytes)->0;
    assert(r.wire() =~= bytes);
}

} // verus!
