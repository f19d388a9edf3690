//! Mouse encoder: one tracked touch becomes relative pointer motion.

use vstd::prelude::*;
use crate::gadget::{IpcCommand, IpcCommandView};
use crate::hid::MouseReport;

verus! {

/// Stage of a touch.
#[derive(Clone, Copy, Debug, PartialEq, Eq, Structural)]
pub enum TouchPhase {
    Started,
    Moved,
    Ended,
    Cancelled,
}

/// A position on the surface in whole device pixels.
#[derive(Clone, Copy, Debug, PartialEq, Eq, Structural)]
pub struct Position {
    pub x: i32,
    pub y: i32,
}

/// One touch event as the windowing layer reports it.
#[derive(Clone, Copy, Debug, PartialEq, Eq, Structural)]
pub struct Touch {
    pub phase: TouchPhase,
    pub id: u64,
    pub location: Position,
}

/// The touch that currently drives the pointer: its identifier and where it was last seen.
#[derive(Clone, Copy, Debug, PartialEq, Eq, Structural)]
pub struct ActiveTouch {
    pub id: u64,
    pub location: Position,
}

/// The signed byte that a distance becomes on the wire: the value in -128..=127 that differs
/// from it by a multiple of 256. Motion of 128 pixels or more between two events aliases.
pub open spec fn wrap_axis(distance: int) -> i8 {
    let low = distance % 256;
    if low < 128 {
        low as i8
    } else {
        (low - 256) as i8
    }
}

/// The tracked touch after an event. A start is adopted only when nothing is tracked, an
/// end or a cancel of the tracked touch clears it, and a move of the tracked touch updates
/// its position; every other event leaves it as it was.
pub open spec fn touch_applied(active: Option<ActiveTouch>, touch: Touch) -> Option<ActiveTouch> {
    match touch.phase {
        TouchPhase::Started => match active {
            None => Some(ActiveTouch { id: touch.id, location: touch.location }),
            Some(_) => active,
        },
        TouchPhase::Ended | TouchPhase::Cancelled => match active {
            Some(current) if current.id == touch.id => None,
            _ => active,
        },
        TouchPhase::Moved => match active {
            Some(current) if current.id == touch.id => Some(
                ActiveTouch { id: touch.id, location: touch.location },
            ),
            _ => active,
        },
    }
}

/// The report an event produces: only a move of the tracked touch produces one, with the
/// distance from its last position on each axis and nothing else set.
pub open spec fn touch_report(active: Option<ActiveTouch>, touch: Touch) -> Option<MouseReport> {
    match (touch.phase, active) {
        (TouchPhase::Moved, Some(current)) if current.id == touch.id => Some(
            MouseReport {
                buttons: 0,
                x: wrap_axis(touch.location.x - current.location.x),
                y: wrap_axis(touch.location.y - current.location.y),
                wheel: 0,
                pan: 0,
            },
        ),
        _ => None,
    }
}

/// The tracked touch after a sequence of events.
pub open spec fn active_after(active: Option<ActiveTouch>, touches: Seq<Touch>) -> Option<
    ActiveTouch,
>
    decreases touches.len(),
{
    if touches.len() == 0 {
        active
    } else {
        touch_applied(active_after(active, touches.drop_last()), touches.last())
    }
}

/// The reports a sequence of events produces, in order.
pub open spec fn reports_after(active: Option<ActiveTouch>, touches: Seq<Touch>) -> Seq<MouseReport>
    decreases touches.len(),
{
    if touches.len() == 0 {
        Seq::empty()
    } else {
        let earlier = reports_after(active, touches.drop_last());
        match touch_report(active_after(active, touches.drop_last()), touches.last()) {
            Some(report) => earlier.push(report),
            None => earlier,
        }
    }
}

/// The distance between two coordinates as it goes on the wire.
pub fn axis_delta(current: i32, last: i32) -> (delta: i8)
    ensures
        delta == wrap_axis(current - last),
{
    let distance: i64 = current as i64 - last as i64;
    let delta: i8 = #[verifier::truncate]
    (distance as i8);
    assert(delta == wrap_axis(distance as int)) by {
        let low: i64 = distance % 256;
        assert(low == (distance as int) % 256);
        assert((distance as i8) == (if (distance % 256) < 128 {
            (distance % 256) as i8
        } else {
            ((distance % 256) - 256) as i8
        })) by (bit_vector);
    }
    delta
}

/// The mouse encoder: the tracked touch, the report sent last, and its wire bytes.
pub struct Mouse {
    report: MouseReport,
    report_buf: Vec<u8>,
    active_touch: Option<ActiveTouch>,
}

impl Mouse {
    #[verifier::type_invariant]
    pub closed spec fn well_formed(self) -> bool {
        &&& self.report.buttons == 0
        &&& self.report.wheel == 0
        &&& self.report.pan == 0
        &&& self.report_buf@ == self.report.wire()
    }

    /// The touch that is tracked, if any.
    pub closed spec fn active(self) -> Option<ActiveTouch> {
        self.active_touch
    }

    /// The report that was sent last.
    pub closed spec fn last_report(self) -> MouseReport {
        self.report
    }

    /// The bytes of the report that was serialized last.
    pub closed spec fn buffer(self) -> Seq<u8> {
        self.report_buf@
    }

    /// A mouse that tracks no touch, with an all-zero report.
    pub fn new() -> (mouse: Mouse)
        ensures
            mouse.active() is None,
            mouse.last_report() == (MouseReport { buttons: 0, x: 0, y: 0, wheel: 0, pan: 0 }),
            mouse.buffer() == Seq::new(5, |i: int| 0u8),
    {
        let report = MouseReport::new();
        let report_buf: Vec<u8> = vec![0u8; 5];
        assert(report_buf@ =~= report.wire());
        assert(report_buf@ =~= Seq::new(5, |i: int| 0u8));
        Mouse { report, report_buf, active_touch: None }
    }

    /// The touch that is tracked, if any.
    pub fn active_touch(&self) -> (active: Option<ActiveTouch>)
        ensures
            active == self.active(),
    {
        self.active_touch
    }

    /// The report that was sent last. Buttons, wheel and pan are never set.
    pub fn report(&self) -> (report: MouseReport)
        ensures
            report == self.last_report(),
            report.buttons == 0,
            report.wheel == 0,
            report.pan == 0,
    {
        proof {
            use_type_invariant(self);
        }
        self.report
    }

    /// The bytes of the report that was serialized last: always the wire form of the last
    /// report.
    pub fn report_buf(&self) -> (bytes: &Vec<u8>)
        ensures
            bytes@ == self.buffer(),
            bytes@ == self.last_report().wire(),
    {
        proof {
            use_type_invariant(self);
        }
        &self.report_buf
    }

    /// Handles one touch event. Only a move of the tracked touch serializes and returns a
    /// report.
    pub fn handle_touch(&mut self, touch: Touch) -> (emitted: Option<IpcCommand>)
        ensures
            final(self).active() == touch_applied(old(self).active(), touch),
            final(self).last_report() == match touch_report(old(self).active(), touch) {
                Some(report) => report,
                None => old(self).last_report(),
            },
            final(self).buffer() == final(self).last_report().wire(),
            emitted is Some <==> touch_report(old(self).active(), touch) is Some,
            emitted matches Some(command) ==> command@ == IpcCommandView::MouseReport(
                final(self).buffer(),
            ),
    {
        proof {
            use_type_invariant(&*self);
        }
        match touch.phase {
            TouchPhase::Started => {
                if self.active_touch.is_none() {
                    self.active_touch = Some(ActiveTouch { id: touch.id, location: touch.location });
                }
                None
            },
            TouchPhase::Cancelled | TouchPhase::Ended => {
                if let Some(current) = self.active_touch {
                    if current.id == touch.id {
                        self.active_touch = None;
                    }
                }
                None
            },
            TouchPhase::Moved => {
                if let Some(current) = self.active_touch {
                    if current.id == touch.id {
                        let report = MouseReport {
                            buttons: 0,
                            x: axis_delta(touch.location.x, current.location.x),
                            y: axis_delta(touch.location.y, current.location.y),
                            wheel: 0,
                            pan: 0,
                        };
                        let mut report_buf: Vec<u8> = vec![0u8; 5];
                        report.write_to(&mut report_buf);
                        let bytes = [
                            report_buf[0],
                            report_buf[1],
                            report_buf[2],
                            report_buf[3],
                            report_buf[4],
                        ];
                        assert(report_buf@ =~= report.wire());
                        assert(bytes@ =~= report_buf@);
                        *self = Mouse {
                            report,
                            report_buf,
                            active_touch: Some(ActiveTouch { id: touch.id, location: touch.location }),
                        };
                        return Some(IpcCommand::MouseReport(bytes));
                    }
                }
                None
            },
        }
    }
}

/// While one touch is tracked, events of any other touch change nothing and produce no
/// report, whatever their phase and however many they are.
pub proof fn lemma_other_touches_ignored(active: ActiveTouch, touches: Seq<Touch>)
    requires
        forall|i: int| 0 <= i < touches.len() ==> touches[i].id != active.id,
    ensures
        active_after(Some(active), touches) == Some(active),
        reports_after(Some(active), touches) == Seq::<MouseReport>::empty(),
    decreases touches.len(),
{
    if touches.len() > 0 {
        lemma_other_touches_ignored(active, touches.drop_last());
    }
}

/// Once the tracked touch has ended, the next touch that starts is adopted.
pub proof fn lemma_next_touch_adopted(active: ActiveTouch, end: Touch, start: Touch)
    requires
        end.id == active.id,
        end.phase == TouchPhase::Ended || end.phase == TouchPhase::Cancelled,
        start.phase == TouchPhase::Started,
    ensures
        touch_applied(Some(active), end) is None,
        touch_report(Some(active), end) is None,
        touch_applied(touch_applied(Some(active), end), start) == Some(
            ActiveTouch { id: start.id, location: start.location },
        ),
{
}

} // verus!
