//! Follow-up policy: which host-side action each decoded event asks for.
//!
//! The decoder only reports edges; this module holds the decisions taken in
//! response — which virtual key to tap, how many horizontal scroll pulses to
//! send, when to move the scroll speed index. Actually performing an action
//! (posting a message, showing a notification) is the host's job, outside
//! this crate.

use vstd::prelude::*;

use crate::decoder::ContourEvents;
use crate::decoder::SystemState;

verus! {

/// Virtual-key code for the space bar (play/pause toggle downstream).
pub const VK_SPACE: u16 = 0x20;

/// Virtual-key code for the `+`/`=` key ("playback speed normal" downstream).
pub const VK_OEM_PLUS: u16 = 0xBB;

/// Virtual-key code for the `[` key (jog backward downstream).
pub const VK_OEM_4: u16 = 0xDB;

/// Virtual-key code for the `]` key (jog forward downstream).
pub const VK_OEM_6: u16 = 0xDD;

/// One OS-level side effect the host is asked to perform.
///
/// `PressKey` is a synthetic tap (down then up) of the given virtual-key
/// code. `ScrollLeft`/`ScrollRight` carry the number of horizontal scroll
/// pulses to send. The two `Notify` variants ask for a toast: the changed
/// scroll speed (in pulses per wheel event), or the playback-speed reset.
#[derive(Clone, Copy, Debug, PartialEq, Eq, Structural)]
pub enum ContourAction {
    PressKey(u16),
    ScrollLeft(u8),
    ScrollRight(u8),
    NotifyScrollSpeed(u8),
    NotifyPlaybackNormal,
}

/// The scroll speed in pulses per wheel event: two to the power of the
/// speed index.
pub open spec fn scroll_steps(zoom: u8) -> u8
    recommends
        zoom <= 3,
{
    1u8 << zoom
}

/// The actions one event asks for, given the current scroll speed index.
///
/// A jog event taps `[` or `]` by its sign and does nothing at rest. A wheel
/// event scrolls by the current speed. Releasing buttons 0..=3 re-tunes the
/// speed index and announces it; releasing button 6 taps space; releasing
/// button 13 or 14 taps `+` and announces the playback reset. All other
/// releases, and every press, ask for nothing.
pub open spec fn react_actions(zoom: u8, e: ContourEvents) -> Seq<ContourAction> {
    match e {
        ContourEvents::Jog(x) => if x < 0 {
            seq![ContourAction::PressKey(VK_OEM_4)]
        } else if x > 0 {
            seq![ContourAction::PressKey(VK_OEM_6)]
        } else {
            Seq::empty()
        },
        ContourEvents::WheelLeft => seq![ContourAction::ScrollLeft(scroll_steps(zoom))],
        ContourEvents::WheelRight => seq![ContourAction::ScrollRight(scroll_steps(zoom))],
        ContourEvents::ButtonUp(b) => if b <= 3 {
            seq![ContourAction::NotifyScrollSpeed(scroll_steps(b as u8))]
        } else if b == 6 {
            seq![ContourAction::PressKey(VK_SPACE)]
        } else if b == 13 || b == 14 {
            seq![
                ContourAction::PressKey(VK_OEM_PLUS),
                ContourAction::NotifyPlaybackNormal,
            ]
        } else {
            Seq::empty()
        },
        ContourEvents::ButtonDown(_) => Seq::empty(),
    }
}

/// The scroll speed index after one event: releasing button 0..=3 selects
/// that index, every other event leaves it alone.
pub open spec fn zoom_after(zoom: u8, e: ContourEvents) -> u8 {
    match e {
        ContourEvents::ButtonUp(b) => if b <= 3 {
            b as u8
        } else {
            zoom
        },
        _ => zoom,
    }
}

impl SystemState {
    /// Decides the follow-up actions for one decoded event and maintains the
    /// scroll speed index. The retained report is untouched: only `update`
    /// moves it.
    pub fn react(&mut self, e: ContourEvents) -> (acts: Vec<ContourAction>)
        requires
            old(self).wf(),
        ensures
            acts@ == react_actions(old(self).scroll_zoom, e),
            final(self).scroll_zoom == zoom_after(old(self).scroll_zoom, e),
            final(self).last == old(self).last,
            final(self).wf(),
    {
        let mut acts: Vec<ContourAction> = Vec::new();
        match e {
            ContourEvents::Jog(x) => {
                if x < 0 {
                    acts.push(ContourAction::PressKey(VK_OEM_4));
                } else if x > 0 {
                    acts.push(ContourAction::PressKey(VK_OEM_6));
                }
            },
            ContourEvents::WheelLeft => {
                acts.push(ContourAction::ScrollLeft(1u8 << self.scroll_zoom));
            },
            ContourEvents::WheelRight => {
                acts.push(ContourAction::ScrollRight(1u8 << self.scroll_zoom));
            },
            ContourEvents::ButtonUp(b) => {
                if b <= 3 {
                    self.scroll_zoom = b as u8;
                    acts.push(ContourAction::NotifyScrollSpeed(1u8 << (b as u8)));
                } else if b == 6 {
                    acts.push(ContourAction::PressKey(VK_SPACE));
                } else if b == 13 || b == 14 {
                    acts.push(ContourAction::PressKey(VK_OEM_PLUS));
                    acts.push(ContourAction::NotifyPlaybackNormal);
                }
            },
            ContourEvents::ButtonDown(_) => {},
        }
        assert(acts@ =~= react_actions(old(self).scroll_zoom, e));
        acts
    }
}

} // verus!
