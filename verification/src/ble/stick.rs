use vstd::prelude::*;

use crate::io::display::DisplayFrame;

verus! {

/// The attribute handles of the analog stick service: one notifying `i8`
/// characteristic per axis.
#[derive(Clone, Copy, Debug, PartialEq, Eq, Structural)]
pub struct StickService {
    pub x: u16,
    pub y: u16,
}

/// The span of raw samples the stick covers from one end to the other.
pub const STICK_FULL_RANGE: i16 = 3740;

/// The raw sample of a centred stick: half the full range.
pub const STICK_OFFSET: i16 = 1870;

/// How many raw units make one level of stick deflection.
pub const STICK_DIVIDER: i16 = 623;

/// How long the stick task waits between two samples, in milliseconds.
pub const STICK_POLL_MS: u64 = 20;

/// How long a deflected stick is shown on the display, in milliseconds.
pub const STICK_FRAME_MS: u64 = 20;

/// Integer division as Rust's `/` computes it: the quotient rounded toward
/// zero.
pub open spec fn trunc_div(a: int, b: int) -> int {
    if a >= 0 {
        a / b
    } else {
        -((-a) / b)
    }
}

/// The raw sample can be turned into a level with 16-bit arithmetic that
/// neither overflows nor divides by zero.
pub open spec fn level_computable(raw: i16, offset: i16, divider: i16) -> bool {
    &&& divider != 0
    &&& i16::MIN <= raw - offset <= i16::MAX
    &&& i16::MIN < trunc_div(raw - offset, divider as int) <= i16::MAX
}

/// The level an axis reports for a raw sample: the offset is taken away, the
/// rest divided by the divider (rounding toward zero), the sign inverted and
/// the result cut to eight bits.
pub open spec fn axis_level(raw: i16, offset: i16, divider: i16) -> i8 {
    (-trunc_div(raw - offset, divider as int)) as i8
}

/// What `Axis::changed` reports when the level `new` follows the level `old`:
/// the new level if it differs, nothing otherwise.
pub open spec fn level_change(old: i8, new: i8) -> Option<i8> {
    if new != old {
        Some(new)
    } else {
        None
    }
}

proof fn lemma_trunc_div_fits_i16(a: i16, b: i16)
    requires
        b != 0,
        !(a == i16::MIN && b == -1),
    ensures
        i16::MIN <= trunc_div(a as int, b as int) <= i16::MAX,
        a != i16::MIN ==> i16::MIN < trunc_div(a as int, b as int),
{
    let x = a as int;
    let y = b as int;
    if x >= 0 {
        assert(-x <= x / y <= x) by (nonlinear_arith)
            requires
                x >= 0,
                y != 0,
        ;
    } else if y == 1 || y == -1 {
        assert((-x) / y == (-x) * y);
    } else {
        let c = -x;
        assert(-16384 <= c / y <= 16384) by (nonlinear_arith)
            requires
                0 < c <= 32768,
                y >= 2 || y <= -2,
        ;
    }
}

proof fn lemma_trunc_div_min(b: i16)
    requires
        b != 0,
        b != 1,
        b != -1,
    ensures
        i16::MIN < trunc_div(i16::MIN as int, b as int),
{
    let y = b as int;
    assert(-16384 <= 32768int / y <= 16384) by (nonlinear_arith)
        requires
            y >= 2 || y <= -2,
    ;
}

/// One axis of the analog stick: its calibration and the level it reported
/// last.
#[derive(Clone, Copy, Debug, PartialEq, Eq, Structural)]
pub struct Axis {
    pub offset: i16,
    pub divider: i16,
    pub old: i8,
}

impl Axis {
    /// An axis with the given calibration that has reported the centre.
    pub fn new(offset: i16, divider: i16) -> (axis: Self)
        ensures
            axis.offset == offset,
            axis.divider == divider,
            axis.old == 0,
    {
        Self { offset, divider, old: 0 }
    }

    /// Whether the axis can take the raw sample: its level can be computed
    /// with 16-bit arithmetic that neither overflows nor divides by zero.
    pub fn accepts(&self, raw: i16) -> (ok: bool)
        ensures
            ok == level_computable(raw, self.offset, self.divider),
    {
        if self.divider == 0 {
            return false;
        }
        let diff: i32 = raw as i32 - self.offset as i32;
        if diff < i16::MIN as i32 || diff > i16::MAX as i32 {
            return false;
        }
        let diff: i16 = diff as i16;
        if diff == i16::MIN && (self.divider == 1 || self.divider == -1) {
            // the quotient is -32768 or 32768: its negation or the division overflows
            assert(trunc_div(diff as int, self.divider as int) == -32768 || trunc_div(
                diff as int,
                self.divider as int,
            ) == 32768);
            return false;
        }
        proof {
            lemma_trunc_div_fits_i16(diff, self.divider);
            if diff == i16::MIN {
                lemma_trunc_div_min(self.divider);
            }
        }
        true
    }

    /// Turns a raw sample into a level; returns it and remembers it if it
    /// differs from the level reported last, returns `None` otherwise.
    pub fn changed(&mut self, new_raw: i16) -> (report: Option<i8>)
        requires
            level_computable(new_raw, old(self).offset, old(self).divider),
        ensures
            final(self).offset == old(self).offset,
            final(self).divider == old(self).divider,
            final(self).old == axis_level(new_raw, old(self).offset, old(self).divider),
            report == level_change(old(self).old, final(self).old),
            level_fits_i8(new_raw, old(self).offset, old(self).divider) ==> final(self).old as int
                == -trunc_div(new_raw - old(self).offset, old(self).divider as int),
            final(self).old != old(self).old ==> report == Some(final(self).old),
            final(self).old == old(self).old ==> report is None,
    {
        let diff: i16 = new_raw - self.offset;
        proof {
            lemma_trunc_div_fits_i16(diff, self.divider);
        }
        let quotient: i16 = diff / self.divider;
        let new: i8 = (-quotient) as i8;  // invert the value
        if new != self.old {
            self.old = new;
            Some(new)
        } else {
            None
        }
    }
}

/// The state of the analog stick task: one axis per direction.
#[derive(Clone, Copy, Debug, PartialEq, Eq, Structural)]
pub struct AnalogStick {
    pub x_axis: Axis,
    pub y_axis: Axis,
}

/// What the stick task does after one pair of samples: the levels to notify
/// on each axis's characteristic, and the frame to show, if any.
#[derive(Clone, Copy, Debug, PartialEq, Eq, Structural)]
pub struct StickUpdate {
    pub notify_x: Option<i8>,
    pub notify_y: Option<i8>,
    pub frame: Option<DisplayFrame>,
}

/// The frame the stick task shows for the levels `x` and `y`: their
/// position, unless the stick is centred.
pub open spec fn stick_frame(x: i8, y: i8) -> Option<DisplayFrame> {
    if x == 0 && y == 0 {
        None
    } else {
        Some(DisplayFrame::Coord { x, y })
    }
}

impl AnalogStick {
    /// Both axes calibrated for the micro:bit's stick, centred.
    pub fn new() -> (stick: Self)
        ensures
            stick.x_axis == (Axis { offset: STICK_OFFSET, divider: STICK_DIVIDER, old: 0 }),
            stick.y_axis == (Axis { offset: STICK_OFFSET, divider: STICK_DIVIDER, old: 0 }),
    {
        Self { x_axis: Axis::new(STICK_OFFSET, STICK_DIVIDER), y_axis: Axis::new(STICK_OFFSET, STICK_DIVIDER) }
    }

    /// Takes one pair of samples (x first, then y): each axis reports its
    /// level if it changed, and the stick is shown unless it is centred.
    pub fn sample(&mut self, buf: [i16; 2]) -> (update: StickUpdate)
        requires
            level_computable(buf[0], old(self).x_axis.offset, old(self).x_axis.divider),
            level_computable(buf[1], old(self).y_axis.offset, old(self).y_axis.divider),
        ensures
            final(self).x_axis == axis_after(old(self).x_axis, buf[0]),
            final(self).y_axis == axis_after(old(self).y_axis, buf[1]),
            final(self).x_axis.offset == old(self).x_axis.offset,
            final(self).x_axis.divider == old(self).x_axis.divider,
            final(self).x_axis.old == axis_level(buf[0], old(self).x_axis.offset, old(self).x_axis.divider),
            final(self).y_axis.offset == old(self).y_axis.offset,
            final(self).y_axis.divider == old(self).y_axis.divider,
            final(self).y_axis.old == axis_level(buf[1], old(self).y_axis.offset, old(self).y_axis.divider),
            final(self).x_axis.old != old(self).x_axis.old ==> update.notify_x == Some(final(self).x_axis.old),
            final(self).x_axis.old == old(self).x_axis.old ==> update.notify_x is None,
            final(self).y_axis.old != old(self).y_axis.old ==> update.notify_y == Some(final(self).y_axis.old),
            final(self).y_axis.old == old(self).y_axis.old ==> update.notify_y is None,
            !(final(self).x_axis.old == 0 && final(self).y_axis.old == 0) ==> update.frame == Some(
                DisplayFrame::Coord { x: final(self).x_axis.old, y: final(self).y_axis.old },
            ),
            final(self).x_axis.old == 0 && final(self).y_axis.old == 0 ==> update.frame is None,
            update.notify_x == level_change(old(self).x_axis.old, final(self).x_axis.old),
            update.notify_y == level_change(old(self).y_axis.old, final(self).y_axis.old),
            update.frame == stick_frame(final(self).x_axis.old, final(self).y_axis.old),
    {
        let notify_x = self.x_axis.changed(buf[0]);
        let notify_y = self.y_axis.changed(buf[1]);
        let frame = if !(self.x_axis.old == 0 && self.y_axis.old == 0) {
            // only display if the stick is not centered
            Some(DisplayFrame::Coord { x: self.x_axis.old, y: self.y_axis.old })
        } else {
            None
        };
        StickUpdate { notify_x, notify_y, frame }
    }
}

/// The axis after it has taken the raw sample `raw`.
pub open spec fn axis_after(axis: Axis, raw: i16) -> Axis {
    Axis { old: axis_level(raw, axis.offset, axis.divider), ..axis }
}

/// Rust's `/` rounds toward zero: the quotient times the divisor falls
/// short of the dividend by less than the divisor, on the dividend's side of
/// zero.
pub proof fn lemma_trunc_div_rounds_toward_zero(a: int, b: int)
    requires
        b != 0,
    ensures
        a >= 0 ==> 0 <= a - trunc_div(a, b) * b < (if b > 0 { b } else { -b }),
        a < 0 ==> -(if b > 0 { b } else { -b }) < a - trunc_div(a, b) * b <= 0,
{
    if a >= 0 {
        let q = a / b;
        assert(0 <= a - q * b < (if b > 0 { b } else { -b })) by (nonlinear_arith)
            requires
                a >= 0,
                b != 0,
                q == a / b,
        ;
    } else {
        let c = -a;
        let q = c / b;
        assert(0 <= c - q * b < (if b > 0 { b } else { -b })) by (nonlinear_arith)
            requires
                c > 0,
                b != 0,
                q == c / b,
        ;
        assert(trunc_div(a, b) == -q);
        assert(a - trunc_div(a, b) * b == -(c - q * b)) by (nonlinear_arith)
            requires
                a == -c,
                trunc_div(a, b) == -q,
        ;
    }
}

/// The level of a sample is the offset-corrected sample divided by the
/// divider, rounded toward zero, with its sign flipped (cut to eight bits
/// only where it does not fit).
pub proof fn lemma_level_is_inverted_quotient(raw: i16, offset: i16, divider: i16)
    requires
        divider != 0,
        level_fits_i8(raw, offset, divider),
    ensures
        axis_level(raw, offset, divider) as int == -trunc_div(raw - offset, divider as int),
{
}

/// What an axis holds after a sample depends only on its calibration and
/// the sample, never on the level it held before: a reversal of the stick
/// is taken like any other movement. The calibration is kept, and the new
/// level is reported exactly when it differs from the old one.
pub proof fn lemma_axis_after_forgets_old_level(a1: Axis, a2: Axis, raw: i16)
    requires
        a1.offset == a2.offset,
        a1.divider == a2.divider,
    ensures
        axis_after(a1, raw).old == axis_after(a2, raw).old,
        axis_after(a1, raw).old == axis_level(raw, a1.offset, a1.divider),
        axis_after(a1, raw).offset == a1.offset,
        axis_after(a1, raw).divider == a1.divider,
        axis_after(a1, raw).old != a1.old ==> level_change(a1.old, axis_after(a1, raw).old) == Some(
            axis_after(a1, raw).old,
        ),
        axis_after(a1, raw).old == a1.old ==> level_change(a1.old, axis_after(a1, raw).old) is None,
{
}

/// A stick that is not centred shows exactly its position, both levels as
/// they are; a centred stick shows nothing.
pub proof fn lemma_stick_frame_shows_position(x: i8, y: i8)
    ensures
        !(x == 0 && y == 0) ==> stick_frame(x, y) == Some(DisplayFrame::Coord { x, y }),
        x == 0 && y == 0 ==> stick_frame(x, y) is None,
        stick_frame(x, y) matches Some(DisplayFrame::Coord { x: fx, y: fy }) ==> fx == x && fy == y,
{
}

/// The level, before it is cut to eight bits, fits in eight bits.
pub open spec fn level_fits_i8(raw: i16, offset: i16, divider: i16) -> bool {
    -128 <= -trunc_div(raw - offset, divider as int) <= 127
}

/// A sample that gives the level the axis reported last is not reported
/// again: right after an axis has taken a sample, the same sample reports
/// nothing and leaves the axis as it is.
pub proof fn lemma_same_sample_reports_nothing(axis: Axis, raw: i16)
    ensures
        axis_after(axis_after(axis, raw), raw) == axis_after(axis, raw),
        level_change(axis_after(axis, raw).old, axis_after(axis_after(axis, raw), raw).old) is None,
{
}

/// The levels in a report: the level if there is one, nothing otherwise.
pub open spec fn reported(report: Option<i8>) -> Seq<i8> {
    match report {
        Some(level) => seq![level],
        None => seq![],
    }
}

/// Every level an axis reports while it takes the raw samples in order.
pub open spec fn axis_notifications(axis: Axis, raws: Seq<i16>) -> Seq<i8>
    decreases raws.len(),
{
    if raws.len() == 0 {
        seq![]
    } else {
        let next = axis_after(axis, raws[0]);
        reported(level_change(axis.old, next.old)) + axis_notifications(next, raws.drop_first())
    }
}

/// The axis after it has taken the raw samples in order.
pub open spec fn axis_after_run(axis: Axis, raws: Seq<i16>) -> Axis
    decreases raws.len(),
{
    if raws.len() == 0 {
        axis
    } else {
        axis_after_run(axis_after(axis, raws[0]), raws.drop_first())
    }
}

/// No two neighbours of the sequence are equal.
pub open spec fn no_repeats(s: Seq<i8>) -> bool {
    forall|i: int| 0 <= i < s.len() - 1 ==> #[trigger] s[i] != s[i + 1]
}

/// Over any run of samples an axis never reports the same level twice in a
/// row, never reports the level it held before the run as its first report,
/// and ends holding the level it reported last (or the level it started
/// with, if it reported nothing).
pub proof fn lemma_axis_notifications(axis: Axis, raws: Seq<i16>)
    ensures
        no_repeats(seq![axis.old] + axis_notifications(axis, raws)),
        (seq![axis.old] + axis_notifications(axis, raws)).last() == axis_after_run(axis, raws).old,
    decreases raws.len(),
{
    let ns = axis_notifications(axis, raws);
    let whole = seq![axis.old] + ns;
    if raws.len() == 0 {
        assert(whole =~= seq![axis.old]);
    } else {
        let next = axis_after(axis, raws[0]);
        let rest = raws.drop_first();
        lemma_axis_notifications(next, rest);
        let tail = axis_notifications(next, rest);
        let sub = seq![next.old] + tail;
        if next.old == axis.old {
            assert(ns =~= tail);
            assert(whole =~= sub);
        } else {
            assert(ns =~= seq![next.old] + tail);
            assert(whole =~= seq![axis.old] + sub);
            assert forall|i: int| 0 <= i < whole.len() - 1 implies #[trigger] whole[i] != whole[i + 1] by {
                if i > 0 {
                    assert(whole[i] == sub[i - 1]);
                    assert(whole[i + 1] == sub[i]);
                }
            }
        }
    }
}

/// The x samples of a run of sample pairs.
pub open spec fn x_samples(samples: Seq<[i16; 2]>) -> Seq<i16> {
    samples.map_values(|buf: [i16; 2]| buf[0])
}

/// The y samples of a run of sample pairs.
pub open spec fn y_samples(samples: Seq<[i16; 2]>) -> Seq<i16> {
    samples.map_values(|buf: [i16; 2]| buf[1])
}

/// Every level the stick task notifies on the x characteristic while it
/// takes the sample pairs in order.
pub open spec fn x_notifications(stick: AnalogStick, samples: Seq<[i16; 2]>) -> Seq<i8> {
    axis_notifications(stick.x_axis, x_samples(samples))
}

/// Every level the stick task notifies on the y characteristic while it
/// takes the sample pairs in order.
pub open spec fn y_notifications(stick: AnalogStick, samples: Seq<[i16; 2]>) -> Seq<i8> {
    axis_notifications(stick.y_axis, y_samples(samples))
}

/// Over any run of sample pairs the stick task never notifies the same
/// level twice in a row on either axis, and a stick that starts centred (as
/// `AnalogStick::new` makes it) never notifies 0 first.
pub proof fn lemma_stick_notifications(stick: AnalogStick, samples: Seq<[i16; 2]>)
    ensures
        no_repeats(x_notifications(stick, samples)),
        no_repeats(y_notifications(stick, samples)),
        x_notifications(stick, samples).len() > 0 ==> x_notifications(stick, samples)[0] != stick.x_axis.old,
        y_notifications(stick, samples).len() > 0 ==> y_notifications(stick, samples)[0] != stick.y_axis.old,
        stick.x_axis.old == 0 && x_notifications(stick, samples).len() > 0 ==> x_notifications(stick, samples)[0] != 0,
        stick.y_axis.old == 0 && y_notifications(stick, samples).len() > 0 ==> y_notifications(stick, samples)[0] != 0,
{
    lemma_axis_notifications(stick.x_axis, x_samples(samples));
    lemma_axis_notifications(stick.y_axis, y_samples(samples));
    let xs = x_notifications(stick, samples);
    let ys = y_notifications(stick, samples);
    let wx = seq![stick.x_axis.old] + xs;
    let wy = seq![stick.y_axis.old] + ys;
    assert forall|i: int| 0 <= i < xs.len() - 1 implies #[trigger] xs[i] != xs[i + 1] by {
        assert(wx[i + 1] == xs[i] && wx[i + 2] == xs[i + 1]);
    }
    assert forall|i: int| 0 <= i < ys.len() - 1 implies #[trigger] ys[i] != ys[i + 1] by {
        assert(wy[i + 1] == ys[i] && wy[i + 2] == ys[i + 1]);
    }
    if xs.len() > 0 {
        assert(wx[0] != wx[1]);
    }
    if ys.len() > 0 {
        assert(wy[0] != wy[1]);
    }
}

/// A sample closer to the offset than one divider gives level zero: the
/// centre of the stick is a dead zone.
pub proof fn lemma_dead_zone(raw: i16, offset: i16, divider: i16)
    requires
        divider != 0,
        -divider < raw - offset < divider || divider < raw - offset < -divider,
    ensures
        axis_level(raw, offset, divider) == 0,
{
    let d = raw - offset;
    let y = divider as int;
    if d >= 0 {
        assert(d / y == 0) by (nonlinear_arith)
            requires
                0 <= d,
                d < y || d < -y,
                y != 0,
        ;
    } else {
        assert((-d) / y == 0) by (nonlinear_arith)
            requires
                0 < -d,
                -d < y || -d < -y,
                y != 0,
        ;
    }
}

/// With a positive divider the level never rises as the raw sample rises:
/// the axis is inverted. (Where the level does not fit in eight bits the cut
/// to eight bits wraps it, so those samples are left out.)
pub proof fn lemma_level_antitone(raw1: i16, raw2: i16, offset: i16, divider: i16)
    requires
        divider > 0,
        raw1 <= raw2,
        level_fits_i8(raw1, offset, divider),
        level_fits_i8(raw2, offset, divider),
    ensures
        axis_level(raw2, offset, divider) <= axis_level(raw1, offset, divider),
{
    let a = raw1 - offset;
    let b = raw2 - offset;
    let y = divider as int;
    assert(trunc_div(a, y) <= trunc_div(b, y)) by {
        if a >= 0 {
            assert(a / y <= b / y) by (nonlinear_arith)
                requires
                    0 <= a <= b,
                    y > 0,
            ;
        } else if b >= 0 {
            assert(-((-a) / y) <= 0 <= b / y) by (nonlinear_arith)
                requires
                    a < 0,
                    0 <= b,
                    y > 0,
            ;
        } else {
            assert((-b) / y <= (-a) / y) by (nonlinear_arith)
                requires
                    0 < -b <= -a,
                    y > 0,
            ;
        }
    }
}

/// The stick is symmetric about its offset: samples the same distance above
/// and below the offset give opposite levels (where both fit in eight bits).
pub proof fn lemma_level_symmetric(raw_low: i16, raw_high: i16, offset: i16, divider: i16)
    requires
        divider != 0,
        raw_high - offset == offset - raw_low,
        level_fits_i8(raw_low, offset, divider),
        level_fits_i8(raw_high, offset, divider),
    ensures
        axis_level(raw_high, offset, divider) == -axis_level(raw_low, offset, divider),
{
    let d = raw_high - offset;
    if d == 0 {
    } else if d > 0 {
        assert(trunc_div(-d, divider as int) == -trunc_div(d, divider as int));
    } else {
        assert(trunc_div(-d, divider as int) == -trunc_div(d, divider as int));
    }
}

/// With the micro:bit's calibration, every raw sample from one end of the
/// stick's full range to the other gives a level from -3 to 3.
pub proof fn lemma_calibrated_levels(raw: i16)
    requires
        0 <= raw <= STICK_FULL_RANGE,
    ensures
        level_computable(raw, STICK_OFFSET, STICK_DIVIDER),
        -3 <= axis_level(raw, STICK_OFFSET, STICK_DIVIDER) <= 3,
{
    let d = raw - STICK_OFFSET;
    if d >= 0 {
        assert(0 <= d / 623 <= 3) by (nonlinear_arith)
            requires
                0 <= d <= 1870,
        ;
    } else {
        assert(0 <= (-d) / 623 <= 3) by (nonlinear_arith)
            requires
                0 < -d <= 1870,
        ;
    }
}

} // verus!
