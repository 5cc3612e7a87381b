//! Edge detection: differencing a new report against the last-seen one.
//!
//! `SystemState::update` is the whole decoder: it compares a fresh report
//! with the retained previous report and emits one event per observed edge,
//! always in the order jog, wheel, buttons low-to-high. The spec functions
//! here say exactly which events that is, so `update`'s contract pins the
//! emitted sequence down completely.

use vstd::prelude::*;

use crate::report::ContourHidEvent;
use crate::report::sentinel;

verus! {

/// One discrete event decoded from the difference between two reports.
///
/// `Jog` carries the absolute new jog value, not a delta; downstream only
/// interprets its sign. `WheelLeft`/`WheelRight` give the direction of
/// shuttle-ring rotation, never its magnitude. `ButtonDown(k)`/`ButtonUp(k)`
/// report button `k` changing between released and held.
#[derive(Clone, Copy, Debug, PartialEq, Eq, Structural)]
pub enum ContourEvents {
    Jog(i8),
    WheelLeft,
    WheelRight,
    ButtonUp(u16),
    ButtonDown(u16),
}

/// The previous report as it stands when the comparison begins. If the
/// retained report did not come from the device itself (`id != 0`, true of
/// the startup sentinel), its wheel counter is first forced to agree with the
/// new report, which suppresses the otherwise spurious wheel event on the
/// first real report. Jog and keys are deliberately not re-based.
pub open spec fn rebased(last: ContourHidEvent, new: ContourHidEvent) -> ContourHidEvent {
    if last.id != 0 {
        ContourHidEvent { wheel: new.wheel, ..last }
    } else {
        last
    }
}

/// The jog component: the absolute new jog value, emitted only on change.
pub open spec fn jog_events(last: ContourHidEvent, new: ContourHidEvent) -> Seq<ContourEvents> {
    if last.jog != new.jog {
        seq![ContourEvents::Jog(new.jog)]
    } else {
        Seq::empty()
    }
}

/// Shortest-path signed difference between two positions of the modulo-256
/// wheel counter: the raw difference, folded into a range around zero.
pub open spec fn wheel_delta(last: u8, new: u8) -> int {
    let d = new - last;
    if d > 128 {
        d - 256
    } else if d < -128 {
        d + 256
    } else {
        d
    }
}

/// The wheel component: on any change of the counter, exactly one direction
/// event, chosen by the sign of the shortest-path difference.
pub open spec fn wheel_events(last: ContourHidEvent, new: ContourHidEvent) -> Seq<ContourEvents> {
    if last.wheel != new.wheel {
        if wheel_delta(last.wheel, new.wheel) < 0 {
            seq![ContourEvents::WheelLeft]
        } else {
            seq![ContourEvents::WheelRight]
        }
    } else {
        Seq::empty()
    }
}

/// Whether button `k` is held in the mask `keys`.
pub open spec fn button_held(keys: u16, k: u16) -> bool {
    keys & (1u16 << k) != 0
}

/// The event (if any) that button `k`'s transition between the two masks
/// contributes: a down edge, an up edge, or nothing.
pub open spec fn button_events_at(last: u16, new: u16, k: u16) -> Seq<ContourEvents> {
    if !button_held(last, k) && button_held(new, k) {
        seq![ContourEvents::ButtonDown(k)]
    } else if button_held(last, k) && !button_held(new, k) {
        seq![ContourEvents::ButtonUp(k)]
    } else {
        Seq::empty()
    }
}

/// The button edges for all indices below `n`, in increasing index order.
pub open spec fn button_events_below(last: u16, new: u16, n: int) -> Seq<ContourEvents>
    decreases n,
{
    if n <= 0 {
        Seq::empty()
    } else {
        button_events_below(last, new, n - 1) + button_events_at(last, new, (n - 1) as u16)
    }
}

/// The button component: if the masks differ at all, the edges of buttons
/// 0..14 in increasing order. Bit 15 is never inspected.
pub open spec fn button_events(last: ContourHidEvent, new: ContourHidEvent) -> Seq<ContourEvents> {
    if last.keys != new.keys {
        button_events_below(last.keys, new.keys, 15)
    } else {
        Seq::empty()
    }
}

/// Everything one call of `update` emits for the transition from the
/// retained report `last` to the fresh report `new`: jog edge first, then
/// the wheel edge (computed against the re-based previous wheel), then the
/// button edges low-to-high.
pub open spec fn update_events(last: ContourHidEvent, new: ContourHidEvent) -> Seq<ContourEvents> {
    let base = rebased(last, new);
    jog_events(base, new) + wheel_events(base, new) + button_events(base, new)
}

/// The tracker: the last-seen report, plus the scroll speed index that the
/// follow-up policy (not the decoder) maintains in response to button events.
pub struct SystemState {
    pub last: ContourHidEvent,
    pub scroll_zoom: u8,
}

impl SystemState {
    /// The scroll speed index only ever takes the values 0..=3, so shifting
    /// by it cannot overflow a byte.
    pub open spec fn wf(self) -> bool {
        self.scroll_zoom <= 3
    }

    /// A fresh tracker: the sentinel as the "previous" report, slowest
    /// scroll speed.
    pub fn new() -> (s: SystemState)
        ensures
            s.last == sentinel(),
            s.scroll_zoom == 0,
            s.wf(),
    {
        SystemState {
            last: ContourHidEvent { id: 0xFF, jog: 0, wheel: 0, fill: 0, keys: 0 },
            scroll_zoom: 0,
        }
    }

    /// Decodes one fresh report against the retained previous report.
    ///
    /// The returned sequence is exactly `update_events(old previous, new)`,
    /// the fresh report replaces the previous one in its entirety (padding
    /// byte included), and the scroll speed index is untouched. The
    /// operation is total: no bit pattern is rejected.
    #[verifier::loop_isolation(false)]
    pub fn update(&mut self, new: ContourHidEvent) -> (evt: Vec<ContourEvents>)
        ensures
            evt@ == update_events(old(self).last, new),
            final(self).last == new,
            final(self).scroll_zoom == old(self).scroll_zoom,
    {
        let mut evt: Vec<ContourEvents> = Vec::new();
        if self.last.id != 0 {
            self.last.wheel = new.wheel;
        }
        let ghost base = rebased(old(self).last, new);

        if self.last.jog != new.jog {
            evt.push(ContourEvents::Jog(new.jog));
        }
        assert(evt@ =~= jog_events(base, new));

        if self.last.wheel != new.wheel {
            let mut delta: i16 = new.wheel as i16 - self.last.wheel as i16;
            if delta > 128 {
                delta = delta - 256;
            }
            if delta < -128 {
                delta = delta + 256;
            }
            evt.push(
                if delta < 0 {
                    ContourEvents::WheelLeft
                } else {
                    ContourEvents::WheelRight
                },
            );
        }
        assert(evt@ =~= jog_events(base, new) + wheel_events(base, new));

        if self.last.keys != new.keys {
            let mut k: u16 = 0;
            while k < 15
                invariant
                    k <= 15,
                    evt@ == jog_events(base, new) + wheel_events(base, new)
                        + button_events_below(base.keys, new.keys, k as int),
                decreases 15 - k,
            {
                let last_key = self.last.keys & (1u16 << k) != 0;
                let new_key = new.keys & (1u16 << k) != 0;
                if !last_key && new_key {
                    evt.push(ContourEvents::ButtonDown(k));
                } else if last_key && !new_key {
                    evt.push(ContourEvents::ButtonUp(k));
                }
                proof {
                    assert(evt@ =~= jog_events(base, new) + wheel_events(base, new)
                        + button_events_below(base.keys, new.keys, k + 1));
                }
                k = k + 1;
            }
        }
        assert(evt@ =~= update_events(old(self).last, new));

        self.last = new;
        evt
    }
}

/// Whether an event reports shuttle-ring rotation.
pub open spec fn is_wheel_event(e: ContourEvents) -> bool {
    e is WheelLeft || e is WheelRight
}

/// How many wheel events a sequence holds.
pub open spec fn wheel_event_count(s: Seq<ContourEvents>) -> nat
    decreases s.len(),
{
    if s.len() == 0 {
        0
    } else {
        wheel_event_count(s.drop_last()) + if is_wheel_event(s.last()) {
            1nat
        } else {
            0nat
        }
    }
}

proof fn lemma_wheel_event_count_add(a: Seq<ContourEvents>, b: Seq<ContourEvents>)
    ensures
        wheel_event_count(a + b) == wheel_event_count(a) + wheel_event_count(b),
    decreases b.len(),
{
    if b.len() == 0 {
        assert(a + b =~= a);
    } else {
        lemma_wheel_event_count_add(a, b.drop_last());
        assert((a + b).drop_last() =~= a + b.drop_last());
        assert((a + b).last() == b.last());
    }
}

proof fn lemma_wheel_event_count_singleton(e: ContourEvents)
    ensures
        wheel_event_count(seq![e]) == if is_wheel_event(e) {
            1nat
        } else {
            0nat
        },
{
    assert(seq![e].drop_last() =~= Seq::<ContourEvents>::empty());
    assert(wheel_event_count(Seq::<ContourEvents>::empty()) == 0);
}

proof fn lemma_button_events_below_no_wheel(last: u16, new: u16, n: int)
    ensures
        wheel_event_count(button_events_below(last, new, n)) == 0,
    decreases n,
{
    if n <= 0 {
    } else {
        let k = (n - 1) as u16;
        lemma_button_events_below_no_wheel(last, new, n - 1);
        lemma_wheel_event_count_add(
            button_events_below(last, new, n - 1),
            button_events_at(last, new, k),
        );
        if !button_held(last, k) && button_held(new, k) {
            lemma_wheel_event_count_singleton(ContourEvents::ButtonDown(k));
        } else if button_held(last, k) && !button_held(new, k) {
            lemma_wheel_event_count_singleton(ContourEvents::ButtonUp(k));
        }
    }
}

proof fn lemma_component_counts(last: ContourHidEvent, new: ContourHidEvent)
    ensures
        wheel_event_count(update_events(last, new)) == wheel_event_count(
            wheel_events(rebased(last, new), new),
        ),
{
    let base = rebased(last, new);
    lemma_wheel_event_count_add(jog_events(base, new), wheel_events(base, new));
    lemma_wheel_event_count_add(
        jog_events(base, new) + wheel_events(base, new),
        button_events(base, new),
    );
    if base.jog != new.jog {
        lemma_wheel_event_count_singleton(ContourEvents::Jog(new.jog));
    }
    if base.keys != new.keys {
        lemma_button_events_below_no_wheel(base.keys, new.keys, 15);
    }
}

/// Law: once the tracker has converged on a report, decoding that same
/// report again emits nothing. Every field compares equal, and re-basing
/// can only rewrite the retained wheel counter to the value it already has.
pub proof fn lemma_converged_report_is_silent(r: ContourHidEvent)
    ensures
        update_events(r, r) == Seq::<ContourEvents>::empty(),
{
    assert(rebased(r, r) == r);
    assert(update_events(r, r) =~= Seq::<ContourEvents>::empty());
}

/// Law: the very first report after startup emits no wheel event, whatever
/// its wheel value. The sentinel's nonzero `id` makes the decoder force the
/// retained wheel counter to the new value before comparing.
pub proof fn lemma_first_report_suppresses_wheel(first: ContourHidEvent)
    ensures
        wheel_event_count(update_events(sentinel(), first)) == 0,
{
    lemma_component_counts(sentinel(), first);
    assert(rebased(sentinel(), first).wheel == first.wheel);
}

/// Law: once the tracker holds a report that came from the device itself
/// (`id == 0`, so no re-basing takes place), a report whose wheel value
/// differs emits exactly one wheel event, however large the difference.
pub proof fn lemma_tracked_wheel_change_emits_one(prev: ContourHidEvent, new: ContourHidEvent)
    requires
        prev.id == 0,
        prev.wheel != new.wheel,
    ensures
        wheel_event_count(update_events(prev, new)) == 1,
{
    lemma_component_counts(prev, new);
    let base = rebased(prev, new);
    if wheel_delta(base.wheel, new.wheel) < 0 {
        lemma_wheel_event_count_singleton(ContourEvents::WheelLeft);
    } else {
        lemma_wheel_event_count_singleton(ContourEvents::WheelRight);
    }
}

proof fn lemma_equal_low_bits_no_button_events(last: u16, new: u16, n: int)
    requires
        last & 0x7fff == new & 0x7fff,
        n <= 15,
    ensures
        button_events_below(last, new, n) == Seq::<ContourEvents>::empty(),
    decreases n,
{
    if n <= 0 {
        assert(button_events_below(last, new, n) =~= Seq::<ContourEvents>::empty());
    } else {
        lemma_equal_low_bits_no_button_events(last, new, n - 1);
        let k = (n - 1) as u16;
        assert(last & (1u16 << k) == new & (1u16 << k)) by (bit_vector)
            requires
                last & 0x7fff == new & 0x7fff,
                k < 15,
        ;
        assert(button_events_at(last, new, k) =~= Seq::<ContourEvents>::empty());
        assert(button_events_below(last, new, n) =~= Seq::<ContourEvents>::empty());
    }
}

/// Law: bit 15 of the button mask is never inspected. Two reports that
/// agree on `id`, `jog`, `wheel` and on bits 0..14 of `keys` — so they may
/// differ in bit 15, or not at all — decode to no events whatsoever.
pub proof fn lemma_high_key_bit_ignored(prev: ContourHidEvent, new: ContourHidEvent)
    requires
        new.id == prev.id,
        new.jog == prev.jog,
        new.wheel == prev.wheel,
        new.keys & 0x7fff == prev.keys & 0x7fff,
    ensures
        update_events(prev, new) == Seq::<ContourEvents>::empty(),
{
    let base = rebased(prev, new);
    if base.keys != new.keys {
        lemma_equal_low_bits_no_button_events(base.keys, new.keys, 15);
    }
    assert(update_events(prev, new) =~= Seq::<ContourEvents>::empty());
}

} // verus!
