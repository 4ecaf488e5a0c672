//! The throughput sampler: counts the packets and bytes that pass a
//! checkpoint and reports them once a second.
//!
//! Time is a reading of a monotonic clock in nanoseconds, handed in by the
//! caller. A reading that lies before the start of the window counts as no
//! time elapsed.

use vstd::prelude::*;

verus! {

/// Nanoseconds in a second, the length of a window.
pub const NANOS_PER_SECOND: u64 = 1_000_000_000;

/// What a sampler holds: the packets and bytes counted since the window
/// started, and when it started.
pub struct Window {
    pub packets: nat,
    pub bytes: nat,
    pub start: nat,
}

/// What a report says: the packets and bytes of one window, and how long
/// the window was open, in nanoseconds.
pub struct ReportView {
    pub packets: nat,
    pub bytes: nat,
    pub elapsed: nat,
}

impl ReportView {
    /// Whole packets per second: `packets / elapsed`, with `elapsed` in
    /// seconds, rounded down.
    pub open spec fn packets_per_second(self) -> nat {
        self.packets * 1_000_000_000 / self.elapsed
    }

    /// Whole bits per second: `bytes * 8 / elapsed`, rounded down.
    pub open spec fn bits_per_second(self) -> nat {
        self.bytes * 8 * 1_000_000_000 / self.elapsed
    }

    /// Whole kilobits per second: `bytes * 8 / elapsed / 1000`, rounded
    /// down.
    pub open spec fn kbit_per_second(self) -> nat {
        self.bits_per_second() / 1000
    }
}

/// The sum of the sizes.
pub open spec fn total(sizes: Seq<u64>) -> nat
    decreases sizes.len(),
{
    if sizes.len() == 0 {
        0
    } else {
        total(sizes.drop_last()) + sizes.last() as nat
    }
}

impl Window {
    /// An empty window that starts at `now`.
    pub open spec fn fresh(now: nat) -> Window {
        Window { packets: 0, bytes: 0, start: now }
    }

    /// The time since the window started.
    pub open spec fn elapsed(self, now: nat) -> nat {
        if now >= self.start {
            (now - self.start) as nat
        } else {
            0
        }
    }

    /// A second or more has passed since the window started.
    pub open spec fn due(self, now: nat) -> bool {
        self.elapsed(now) >= 1_000_000_000
    }

    /// The window after one more packet of `size` bytes.
    pub open spec fn observed(self, size: nat) -> Window {
        Window { packets: self.packets + 1, bytes: self.bytes + size, start: self.start }
    }

    /// The window after the packets of `sizes`, one after the other.
    pub open spec fn observed_all(self, sizes: Seq<u64>) -> Window
        decreases sizes.len(),
    {
        if sizes.len() == 0 {
            self
        } else {
            self.observed_all(sizes.drop_last()).observed(sizes.last() as nat)
        }
    }

    /// The report that is due at `now`, if one is due.
    pub open spec fn report(self, now: nat) -> Option<ReportView> {
        if self.due(now) {
            Some(ReportView { packets: self.packets, bytes: self.bytes, elapsed: self.elapsed(now) })
        } else {
            None
        }
    }

    /// The window after a look at the clock: a new and empty one that starts
    /// at `now` where a report was due, the same where none was.
    pub open spec fn polled(self, now: nat) -> Window {
        if self.due(now) {
            Window::fresh(now)
        } else {
            self
        }
    }

    /// The window after a packet of `size` bytes passed the checkpoint at
    /// `now`: the packet is counted, then the clock is looked at.
    pub open spec fn recorded(self, size: nat, now: nat) -> Window {
        self.observed(size).polled(now)
    }

    /// The window after the packets of `sizes` passed the checkpoint, each
    /// at its time in `times`.
    pub open spec fn recorded_all(self, sizes: Seq<u64>, times: Seq<u64>) -> Window
        decreases sizes.len(),
    {
        if sizes.len() == 0 {
            self
        } else {
            self.recorded_all(sizes.drop_last(), times.drop_last()).recorded(
                sizes.last() as nat,
                times.last() as nat,
            )
        }
    }

    /// The counts fit the machine's counters after one more packet of
    /// `size` bytes.
    pub open spec fn has_room(self, size: nat) -> bool {
        self.packets < u64::MAX && self.bytes + size <= u64::MAX
    }
}

/// A report of one window.
#[derive(Clone, Copy, Debug, PartialEq, Eq)]
pub struct Report {
    packets: u64,
    bytes: u64,
    elapsed_nanos: u64,
}

impl View for Report {
    type V = ReportView;

    closed spec fn view(&self) -> ReportView {
        ReportView {
            packets: self.packets as nat,
            bytes: self.bytes as nat,
            elapsed: self.elapsed_nanos as nat,
        }
    }
}

impl Report {
    /// A report covers a second at least.
    #[verifier::type_invariant]
    spec fn covers_a_second(self) -> bool {
        self.elapsed_nanos >= NANOS_PER_SECOND
    }

    /// The packets of the window.
    pub fn packets(&self) -> (n: u64)
        ensures
            n == self@.packets,
    {
        self.packets
    }

    /// The bytes of the window.
    pub fn bytes(&self) -> (n: u64)
        ensures
            n == self@.bytes,
    {
        self.bytes
    }

    /// How long the window was open, in nanoseconds.
    pub fn elapsed_nanos(&self) -> (n: u64)
        ensures
            n == self@.elapsed,
            n >= NANOS_PER_SECOND,
    {
        proof {
            use_type_invariant(self);
        }
        self.elapsed_nanos
    }

    /// Whole packets per second, rounded down.
    pub fn packets_per_second(&self) -> (rate: u64)
        ensures
            rate == self@.packets_per_second(),
    {
        proof {
            use_type_invariant(self);
        }
        let scaled: u128 = self.packets as u128 * 1_000_000_000u128;
        let rate: u128 = scaled / self.elapsed_nanos as u128;
        assert(rate <= self.packets) by (nonlinear_arith)
            requires
                rate == scaled / (self.elapsed_nanos as u128),
                scaled == self.packets * 1_000_000_000,
                self.elapsed_nanos >= 1_000_000_000,
        ;
        rate as u64
    }

    /// Whole bits per second, rounded down.
    pub fn bits_per_second(&self) -> (rate: u128)
        ensures
            rate == self@.bits_per_second(),
    {
        proof {
            use_type_invariant(self);
        }
        let scaled: u128 = self.bytes as u128 * 8u128 * 1_000_000_000u128;
        scaled / self.elapsed_nanos as u128
    }

    /// Whole kilobits per second, rounded down.
    pub fn kbit_per_second(&self) -> (rate: u64)
        ensures
            rate == self@.kbit_per_second(),
    {
        proof {
            use_type_invariant(self);
        }
        let bits: u128 = self.bits_per_second();
        assert(bits <= self.bytes * 8) by (nonlinear_arith)
            requires
                bits == (self.bytes * 8 * 1_000_000_000) / (self.elapsed_nanos as int),
                self.elapsed_nanos >= 1_000_000_000,
        ;
        (bits / 1000u128) as u64
    }
}

/// The sampler at a checkpoint.
#[derive(Clone, Copy, Debug, PartialEq, Eq)]
pub struct Sampler {
    packets: u64,
    bytes: u64,
    window_start: u64,
}

impl View for Sampler {
    type V = Window;

    closed spec fn view(&self) -> Window {
        Window {
            packets: self.packets as nat,
            bytes: self.bytes as nat,
            start: self.window_start as nat,
        }
    }
}

impl Sampler {
    /// A sampler whose first window starts at `now`.
    pub fn new(now: u64) -> (s: Sampler)
        ensures
            s@ == Window::fresh(now as nat),
    {
        Sampler { packets: 0, bytes: 0, window_start: now }
    }

    /// The packets counted since the window started.
    pub fn packets(&self) -> (n: u64)
        ensures
            n == self@.packets,
    {
        self.packets
    }

    /// The bytes counted since the window started.
    pub fn bytes(&self) -> (n: u64)
        ensures
            n == self@.bytes,
    {
        self.bytes
    }

    /// When the window started.
    pub fn window_start(&self) -> (t: u64)
        ensures
            t == self@.start,
    {
        self.window_start
    }

    /// Whether the counters have room for one more packet of `size` bytes.
    pub fn has_room(&self, size: u64) -> (b: bool)
        ensures
            b == self@.has_room(size as nat),
    {
        self.packets < u64::MAX && size <= u64::MAX - self.bytes
    }

    /// Counts one packet of `size` bytes.
    pub fn observe(&mut self, size: u64)
        requires
            old(self)@.has_room(size as nat),
        ensures
            final(self)@ == old(self)@.observed(size as nat),
    {
        self.packets = self.packets + 1;
        self.bytes = self.bytes + size;
    }

    /// Looks at the clock. Once a second or more has passed since the
    /// window started, the window is reported and a new, empty one starts at
    /// `now`; before that nothing happens.
    pub fn poll(&mut self, now: u64) -> (r: Option<Report>)
        ensures
            final(self)@ == old(self)@.polled(now as nat),
            r is Some <==> old(self)@.report(now as nat) is Some,
            r is Some ==> r->0@ == old(self)@.report(now as nat)->0,
    {
        let elapsed: u64 = if now >= self.window_start {
            now - self.window_start
        } else {
            0
        };
        if elapsed >= NANOS_PER_SECOND {
            let report = Report {
                packets: self.packets,
                bytes: self.bytes,
                elapsed_nanos: elapsed,
            };
            self.packets = 0;
            self.bytes = 0;
            self.window_start = now;
            Some(report)
        } else {
            None
        }
    }

    /// What happens at the checkpoint for each packet: the packet is
    /// counted, then the clock is looked at. A report that falls due
    /// includes the packet.
    pub fn record(&mut self, size: u64, now: u64) -> (r: Option<Report>)
        requires
            old(self)@.has_room(size as nat),
        ensures
            final(self)@ == old(self)@.recorded(size as nat, now as nat),
            r is Some <==> old(self)@.observed(size as nat).report(now as nat) is Some,
            r is Some ==> r->0@ == old(self)@.observed(size as nat).report(now as nat)->0,
    {
        self.observe(size);
        self.poll(now)
    }

    /// Counts the packet where the counters have room for it, and looks at
    /// the clock. The packet counts exactly where the result's second part
    /// is `true`; where it is `false` nothing has changed.
    pub fn try_record(&mut self, size: u64, now: u64) -> (r: (Option<Report>, bool))
        ensures
            r.1 == old(self)@.has_room(size as nat),
            !r.1 ==> final(self)@ == old(self)@ && r.0 is None,
            r.1 ==> final(self)@ == old(self)@.recorded(size as nat, now as nat),
            r.1 ==> (r.0 is Some <==> old(self)@.observed(size as nat).report(now as nat) is Some),
            r.1 && r.0 is Some ==> r.0->0@ == old(self)@.observed(size as nat).report(
                now as nat,
            )->0,
    {
        if self.has_room(size) {
            (self.record(size, now), true)
        } else {
            (None, false)
        }
    }
}

/// Counting packets adds them up: their number to the packets, the sum of
/// their sizes to the bytes. The start of the window stays.
pub proof fn lemma_observed_all(w: Window, sizes: Seq<u64>)
    ensures
        w.observed_all(sizes) == (Window {
            packets: w.packets + sizes.len(),
            bytes: w.bytes + total(sizes),
            start: w.start,
        }),
    decreases sizes.len(),
{
    if sizes.len() > 0 {
        lemma_observed_all(w, sizes.drop_last());
    }
}

/// A packet that passes within less than a second of the window's start is
/// counted and nothing else: no report falls due.
pub proof fn lemma_no_report_within_the_second(w: Window, size: nat, now: nat)
    requires
        now < w.start + 1_000_000_000,
    ensures
        w.observed(size).report(now) is None,
        w.recorded(size, now) == w.observed(size),
{
}

/// Packets that all pass within less than a second of the window's start
/// are counted into that window.
pub proof fn lemma_recorded_within_the_second(w: Window, sizes: Seq<u64>, times: Seq<u64>)
    requires
        sizes.len() == times.len(),
        forall|i: int| 0 <= i < times.len() ==> times[i] < w.start + 1_000_000_000,
    ensures
        w.recorded_all(sizes, times) == w.observed_all(sizes),
    decreases sizes.len(),
{
    if sizes.len() > 0 {
        lemma_recorded_within_the_second(w, sizes.drop_last(), times.drop_last());
        lemma_observed_all(w, sizes.drop_last());
    }
}

/// The report after a run of packets says how many they were and how many
/// bytes they had together. A window starts at `start`; the packets of
/// `sizes` pass, each within less than a second of `start`; the first look
/// at the clock a second or more after `start` then reports as many packets
/// as `sizes` has, and the sum of `sizes` as bytes.
pub proof fn lemma_report_counts_the_window(
    start: nat,
    sizes: Seq<u64>,
    times: Seq<u64>,
    now: nat,
)
    requires
        sizes.len() == times.len(),
        forall|i: int| 0 <= i < times.len() ==> times[i] < start + 1_000_000_000,
        now >= start + 1_000_000_000,
    ensures
        Window::fresh(start).recorded_all(sizes, times).report(now) == Some(
            ReportView { packets: sizes.len(), bytes: total(sizes), elapsed: (now - start) as nat },
        ),
{
    lemma_recorded_within_the_second(Window::fresh(start), sizes, times);
    lemma_observed_all(Window::fresh(start), sizes);
}

/// A report that falls due as a packet passes counts that packet too. After
/// the packets of `sizes`, each within less than a second of `start`, a
/// packet of `size` bytes that passes a second or more after `start` is
/// reported together with them, and the next window starts empty.
pub proof fn lemma_report_on_arrival(
    start: nat,
    sizes: Seq<u64>,
    times: Seq<u64>,
    size: u64,
    now: nat,
)
    requires
        sizes.len() == times.len(),
        forall|i: int| 0 <= i < times.len() ==> times[i] < start + 1_000_000_000,
        now >= start + 1_000_000_000,
    ensures
        Window::fresh(start).recorded_all(sizes, times).observed(size as nat).report(now) == Some(
            ReportView {
                packets: sizes.len() + 1,
                bytes: total(sizes) + size as nat,
                elapsed: (now - start) as nat,
            },
        ),
        Window::fresh(start).recorded_all(sizes, times).recorded(size as nat, now) == Window::fresh(
            now,
        ),
{
    lemma_recorded_within_the_second(Window::fresh(start), sizes, times);
    lemma_observed_all(Window::fresh(start), sizes);
}

/// A report leaves nothing behind: the window that follows is empty and
/// starts at the time of the report, and a single packet of `size` bytes
/// counted into it makes the next report say one packet and `size` bytes.
pub proof fn lemma_no_carry_over(w: Window, now: nat, size: u64, later: nat)
    requires
        w.due(now),
        later >= now + 1_000_000_000,
    ensures
        w.polled(now) == Window::fresh(now),
        w.polled(now).observed(size as nat).report(later) == Some(
            ReportView { packets: 1, bytes: size as nat, elapsed: (later - now) as nat },
        ),
{
}

} // verus!
