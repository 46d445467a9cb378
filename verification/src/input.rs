//! The edge-triggered input state tracker: converts a stream of raw input
//! events into queryable press / release / just-pressed state, reset once
//! per frame.

use vstd::prelude::*;
use crate::event::{MouseButton, WindowEvent};
use crate::layers::Vec2Bits;

verus! {

/// The abstract state of one edge tracker: three flag sequences, one slot
/// per trackable button or key.
pub ghost struct EdgeView {
    pub not_just_pressed: Seq<bool>,
    pub pressed: Seq<bool>,
    pub released: Seq<bool>,
}

/// The frame reset: `not_just_pressed` captures the previous pressed state,
/// a release this frame cancels the pressed flag, and the release flags are
/// cleared.
pub open spec fn edge_unset(m: EdgeView) -> EdgeView {
    EdgeView {
        not_just_pressed: m.pressed,
        pressed: Seq::new(m.pressed.len(), |i: int| m.pressed[i] && !m.released[i]),
        released: Seq::new(m.released.len(), |i: int| false),
    }
}

/// Edge state for `N` buttons or keys.
pub struct EdgeMap<const N: usize> {
    not_just_pressed: Vec<bool>,
    pressed: Vec<bool>,
    released: Vec<bool>,
}

impl<const N: usize> View for EdgeMap<N> {
    type V = EdgeView;

    closed spec fn view(&self) -> EdgeView {
        EdgeView {
            not_just_pressed: self.not_just_pressed@,
            pressed: self.pressed@,
            released: self.released@,
        }
    }
}

impl<const N: usize> EdgeMap<N> {
    /// Each flag sequence holds one slot per tracked index.
    pub open spec fn wf(&self) -> bool {
        &&& self@.not_just_pressed.len() == N
        &&& self@.pressed.len() == N
        &&& self@.released.len() == N
    }

    /// A fresh tracker: nothing pressed, nothing released, and every slot
    /// already counted as not-just-pressed.
    pub fn new() -> (m: Self)
        ensures
            m.wf(),
            m@.not_just_pressed == Seq::new(N as nat, |i: int| true),
            m@.pressed == Seq::new(N as nat, |i: int| false),
            m@.released == Seq::new(N as nat, |i: int| false),
    {
        let mut not_just_pressed: Vec<bool> = Vec::new();
        let mut pressed: Vec<bool> = Vec::new();
        let mut released: Vec<bool> = Vec::new();
        for j in 0..N
            invariant
                not_just_pressed@.len() == j,
                pressed@.len() == j,
                released@.len() == j,
                forall|i: int| 0 <= i < j ==> #[trigger] not_just_pressed@[i] == true,
                forall|i: int| 0 <= i < j ==> #[trigger] pressed@[i] == false,
                forall|i: int| 0 <= i < j ==> #[trigger] released@[i] == false,
        {
            not_just_pressed.push(true);
            pressed.push(false);
            released.push(false);
        }
        let m = Self { not_just_pressed, pressed, released };
        proof {
            assert(m@.not_just_pressed =~= Seq::new(N as nat, |i: int| true));
            assert(m@.pressed =~= Seq::new(N as nat, |i: int| false));
            assert(m@.released =~= Seq::new(N as nat, |i: int| false));
        }
        m
    }

    /// Records a press event for `index`.
    pub fn press(&mut self, index: usize)
        requires
            old(self).wf(),
            index < N,
        ensures
            final(self).wf(),
            final(self)@ == (EdgeView {
                pressed: old(self)@.pressed.update(index as int, true),
                ..old(self)@
            }),
    {
        self.pressed[index] = true;
    }

    /// Records a release event for `index`.
    pub fn release(&mut self, index: usize)
        requires
            old(self).wf(),
            index < N,
        ensures
            final(self).wf(),
            final(self)@ == (EdgeView {
                released: old(self)@.released.update(index as int, true),
                ..old(self)@
            }),
    {
        self.released[index] = true;
    }

    /// The per-frame reset.
    pub fn unset(&mut self)
        requires
            old(self).wf(),
        ensures
            final(self).wf(),
            final(self)@ == edge_unset(old(self)@),
    {
        for j in 0..N
            invariant
                self.wf(),
                forall|i: int| j <= i < N
                    ==> #[trigger] self@.not_just_pressed[i] == old(self)@.not_just_pressed[i],
                forall|i: int| j <= i < N ==> #[trigger] self@.pressed[i] == old(self)@.pressed[i],
                forall|i: int| j <= i < N
                    ==> #[trigger] self@.released[i] == old(self)@.released[i],
                forall|i: int| 0 <= i < j
                    ==> #[trigger] self@.not_just_pressed[i] == old(self)@.pressed[i],
                forall|i: int| 0 <= i < j
                    ==> #[trigger] self@.pressed[i] == (old(self)@.pressed[i] && !old(
                        self,
                    )@.released[i]),
                forall|i: int| 0 <= i < j ==> #[trigger] self@.released[i] == false,
        {
            let p = self.pressed[j];
            let r = self.released[j];
            self.not_just_pressed[j] = p;
            self.pressed[j] = p && !r;
            self.released[j] = false;
        }
        proof {
            assert(self@.not_just_pressed =~= edge_unset(old(self)@).not_just_pressed);
            assert(self@.pressed =~= edge_unset(old(self)@).pressed);
            assert(self@.released =~= edge_unset(old(self)@).released);
        }
    }

    /// True only on the frame transitioning from not-pressed to pressed.
    pub fn is_just_pressed(&self, index: usize) -> (r: bool)
        requires
            self.wf(),
            index < N,
        ensures
            r == (self@.pressed[index as int] && !self@.not_just_pressed[index as int]),
    {
        self.pressed[index] && !self.not_just_pressed[index]
    }

    pub fn is_pressed(&self, index: usize) -> (r: bool)
        requires
            self.wf(),
            index < N,
        ensures
            r == self@.pressed[index as int],
    {
        self.pressed[index]
    }

    /// True only during the frame the release event arrived.
    pub fn is_released(&self, index: usize) -> (r: bool)
        requires
            self.wf(),
            index < N,
        ensures
            r == self@.released[index as int],
    {
        self.released[index]
    }
}

/// The tracker slot of a mouse button; `Other` buttons get the out-of-range
/// slot and are not tracked.
pub open spec fn button_slot(b: MouseButton) -> int {
    match b {
        MouseButton::Left => 0,
        MouseButton::Middle => 1,
        MouseButton::Right => 2,
        MouseButton::Other => 3,
    }
}

/// The abstract state of the mouse tracker.
pub ghost struct MouseView {
    pub position: Vec2Bits,
    pub velocity: Vec2Bits,
    pub scroll: Vec2Bits,
    pub has_entered: bool,
    pub has_left: bool,
    pub has_moved: bool,
    pub has_scrolled: bool,
    pub map: EdgeView,
}

/// Whether the mouse tracker consumes the event.
pub open spec fn mouse_consumes(e: WindowEvent) -> bool {
    match e {
        WindowEvent::CursorEntered => true,
        WindowEvent::CursorLeft => true,
        WindowEvent::CursorMoved { .. } => true,
        WindowEvent::MouseInput { .. } => true,
        WindowEvent::MouseWheel { .. } => true,
        _ => false,
    }
}

/// How one event changes the mouse tracker's state.
pub open spec fn mouse_transition(pre: MouseView, post: MouseView, e: WindowEvent) -> bool {
    match e {
        WindowEvent::CursorEntered => post == (MouseView { has_entered: true, ..pre }),
        WindowEvent::CursorLeft => post == (MouseView { has_left: true, ..pre }),
        WindowEvent::CursorMoved { position, velocity } => post == (MouseView {
            has_moved: true,
            position,
            velocity,
            ..pre
        }),
        WindowEvent::MouseInput { pressed, button } => {
            let s = button_slot(button);
            if s < 3 {
                if pressed {
                    post == (MouseView {
                        map: EdgeView { pressed: pre.map.pressed.update(s, true), ..pre.map },
                        ..pre
                    })
                } else {
                    post == (MouseView {
                        map: EdgeView { released: pre.map.released.update(s, true), ..pre.map },
                        ..pre
                    })
                }
            } else {
                post == pre
            }
        },
        WindowEvent::MouseWheel { delta } => post == (MouseView {
            has_scrolled: true,
            scroll: delta,
            ..pre
        }),
        _ => post == pre,
    }
}

/// The mouse tracker's frame reset: edge flags are reset, the velocity and
/// scroll deltas are zeroed unless an event refreshed them this frame, and
/// the position is kept.
pub open spec fn mouse_unset_transition(pre: MouseView, post: MouseView) -> bool {
    post == (MouseView {
        has_entered: false,
        has_left: false,
        has_moved: false,
        has_scrolled: false,
        velocity: if pre.has_moved {
            pre.velocity
        } else {
            Vec2Bits { x: 0u32, y: 0u32 }
        },
        scroll: if pre.has_scrolled {
            pre.scroll
        } else {
            Vec2Bits { x: 0u32, y: 0u32 }
        },
        map: edge_unset(pre.map),
        ..pre
    })
}

/// The mouse tracker: continuous position, per-frame velocity and scroll
/// deltas, cursor enter/leave flags, and edge state for three buttons.
pub struct Mouse {
    pub position: Vec2Bits,
    pub velocity: Vec2Bits,
    pub scroll: Vec2Bits,
    pub has_entered: bool,
    pub has_left: bool,
    pub has_moved: bool,
    pub has_scrolled: bool,
    map: EdgeMap<3>,
}

impl View for Mouse {
    type V = MouseView;

    closed spec fn view(&self) -> MouseView {
        MouseView {
            position: self.position,
            velocity: self.velocity,
            scroll: self.scroll,
            has_entered: self.has_entered,
            has_left: self.has_left,
            has_moved: self.has_moved,
            has_scrolled: self.has_scrolled,
            map: self.map@,
        }
    }
}

impl Mouse {
    pub const LEFT: MouseButton = MouseButton::Left;

    pub const RIGHT: MouseButton = MouseButton::Right;

    pub const MIDDLE: MouseButton = MouseButton::Middle;

    pub open spec fn wf(&self) -> bool {
        &&& self@.map.not_just_pressed.len() == 3
        &&& self@.map.pressed.len() == 3
        &&& self@.map.released.len() == 3
    }

    pub fn new() -> (m: Self)
        ensures
            m.wf(),
            m@.position == (Vec2Bits { x: 0u32, y: 0u32 }),
            m@.velocity == (Vec2Bits { x: 0u32, y: 0u32 }),
            m@.scroll == (Vec2Bits { x: 0u32, y: 0u32 }),
            !m@.has_entered,
            !m@.has_left,
            !m@.has_moved,
            !m@.has_scrolled,
            m@.map.not_just_pressed == Seq::new(3, |i: int| true),
            m@.map.pressed == Seq::new(3, |i: int| false),
            m@.map.released == Seq::new(3, |i: int| false),
    {
        Self {
            position: Vec2Bits::zero(),
            velocity: Vec2Bits::zero(),
            scroll: Vec2Bits::zero(),
            has_entered: false,
            has_left: false,
            has_moved: false,
            has_scrolled: false,
            map: EdgeMap::new(),
        }
    }

    /// Feeds one event to the tracker; returns whether it was consumed.
    pub fn try_process(&mut self, event: &WindowEvent) -> (consumed: bool)
        requires
            old(self).wf(),
        ensures
            final(self).wf(),
            consumed == mouse_consumes(*event),
            mouse_transition(old(self)@, final(self)@, *event),
    {
        match *event {
            WindowEvent::CursorEntered => {
                self.has_entered = true;
                true
            },
            WindowEvent::CursorLeft => {
                self.has_left = true;
                true
            },
            WindowEvent::CursorMoved { position, velocity } => {
                self.has_moved = true;
                self.velocity = velocity;
                self.position = position;
                true
            },
            WindowEvent::MouseInput { pressed, button } => {
                let slot: usize = match button {
                    MouseButton::Left => 0,
                    MouseButton::Middle => 1,
                    MouseButton::Right => 2,
                    MouseButton::Other => 3,
                };
                if slot < 3 {
                    if pressed {
                        self.map.press(slot);
                    } else {
                        self.map.release(slot);
                    }
                }
                true
            },
            WindowEvent::MouseWheel { delta } => {
                self.has_scrolled = true;
                self.scroll = delta;
                true
            },
            _ => false,
        }
    }

    /// The per-frame reset.
    pub fn unset(&mut self)
        requires
            old(self).wf(),
        ensures
            final(self).wf(),
            mouse_unset_transition(old(self)@, final(self)@),
    {
        self.map.unset();
        self.has_entered = false;
        self.has_left = false;
        if !self.has_moved {
            self.velocity = Vec2Bits::zero();
        }
        self.has_moved = false;
        if !self.has_scrolled {
            self.scroll = Vec2Bits::zero();
        }
        self.has_scrolled = false;
    }

    pub fn is_just_pressed(&self, button: MouseButton) -> (r: bool)
        requires
            self.wf(),
        ensures
            r == {
                let s = button_slot(button);
                s < 3 && self@.map.pressed[s] && !self@.map.not_just_pressed[s]
            },
    {
        match button {
            MouseButton::Left => self.map.is_just_pressed(0),
            MouseButton::Middle => self.map.is_just_pressed(1),
            MouseButton::Right => self.map.is_just_pressed(2),
            MouseButton::Other => false,
        }
    }

    pub fn is_pressed(&self, button: MouseButton) -> (r: bool)
        requires
            self.wf(),
        ensures
            r == {
                let s = button_slot(button);
                s < 3 && self@.map.pressed[s]
            },
    {
        match button {
            MouseButton::Left => self.map.is_pressed(0),
            MouseButton::Middle => self.map.is_pressed(1),
            MouseButton::Right => self.map.is_pressed(2),
            MouseButton::Other => false,
        }
    }

    pub fn is_released(&self, button: MouseButton) -> (r: bool)
        requires
            self.wf(),
        ensures
            r == {
                let s = button_slot(button);
                s < 3 && self@.map.released[s]
            },
    {
        match button {
            MouseButton::Left => self.map.is_released(0),
            MouseButton::Middle => self.map.is_released(1),
            MouseButton::Right => self.map.is_released(2),
            MouseButton::Other => false,
        }
    }
}

/// The number of distinct key indices the keyboard tracker follows.
pub const KEY_COUNT: usize = 163;

/// The abstract state of the keyboard tracker.
pub ghost struct KeysView {
    pub is_shift: bool,
    pub is_ctrl: bool,
    pub is_alt: bool,
    pub is_logo: bool,
    pub map: EdgeView,
}

/// Whether the keyboard tracker consumes the event.
pub open spec fn keys_consumes(e: WindowEvent) -> bool {
    match e {
        WindowEvent::KeyboardInput { .. } => true,
        WindowEvent::ModifiersChanged { .. } => true,
        _ => false,
    }
}

/// How one event changes the keyboard tracker's state.
pub open spec fn keys_transition(pre: KeysView, post: KeysView, e: WindowEvent) -> bool {
    match e {
        WindowEvent::KeyboardInput { pressed, key } => {
            if key < 163 {
                if pressed {
                    post == (KeysView {
                        map: EdgeView {
                            pressed: pre.map.pressed.update(key as int, true),
                            ..pre.map
                        },
                        ..pre
                    })
                } else {
                    post == (KeysView {
                        map: EdgeView {
                            released: pre.map.released.update(key as int, true),
                            ..pre.map
                        },
                        ..pre
                    })
                }
            } else {
                post == pre
            }
        },
        WindowEvent::ModifiersChanged { shift, ctrl, alt, logo } => post == (KeysView {
            is_shift: shift,
            is_ctrl: ctrl,
            is_alt: alt,
            is_logo: logo,
            ..pre
        }),
        _ => post == pre,
    }
}

/// The keyboard tracker: modifier flags set directly from the latest
/// modifier-change event, and edge state per key index.
pub struct Keys {
    pub is_shift: bool,
    pub is_ctrl: bool,
    pub is_alt: bool,
    pub is_logo: bool,
    map: EdgeMap<163>,
}

impl View for Keys {
    type V = KeysView;

    closed spec fn view(&self) -> KeysView {
        KeysView {
            is_shift: self.is_shift,
            is_ctrl: self.is_ctrl,
            is_alt: self.is_alt,
            is_logo: self.is_logo,
            map: self.map@,
        }
    }
}

impl Keys {
    pub const LEFT: u8 = 70;
    pub const RIGHT: u8 = 72;
    pub const UP: u8 = 71;
    pub const DOWN: u8 = 73;
    pub const A: u8 = 10;
    pub const B: u8 = 11;
    pub const C: u8 = 12;
    pub const D: u8 = 13;
    pub const E: u8 = 14;
    pub const F: u8 = 15;
    pub const G: u8 = 16;
    pub const H: u8 = 17;
    pub const I: u8 = 18;
    pub const J: u8 = 19;
    pub const K: u8 = 20;
    pub const L: u8 = 21;
    pub const M: u8 = 22;
    pub const N: u8 = 23;
    pub const O: u8 = 24;
    pub const P: u8 = 25;
    pub const Q: u8 = 26;
    pub const R: u8 = 27;
    pub const S: u8 = 28;
    pub const T: u8 = 29;
    pub const U: u8 = 30;
    pub const V: u8 = 31;
    pub const W: u8 = 32;
    pub const X: u8 = 33;
    pub const Y: u8 = 34;
    pub const Z: u8 = 35;
    pub const NUM_0: u8 = 9;
    pub const NUM_1: u8 = 0;
    pub const NUM_2: u8 = 1;
    pub const NUM_3: u8 = 2;
    pub const NUM_4: u8 = 3;
    pub const NUM_5: u8 = 4;
    pub const NUM_6: u8 = 5;
    pub const NUM_7: u8 = 6;
    pub const NUM_8: u8 = 7;
    pub const NUM_9: u8 = 8;

    pub open spec fn wf(&self) -> bool {
        &&& self@.map.not_just_pressed.len() == 163
        &&& self@.map.pressed.len() == 163
        &&& self@.map.released.len() == 163
    }

    pub fn new() -> (k: Self)
        ensures
            k.wf(),
            !k@.is_shift,
            !k@.is_ctrl,
            !k@.is_alt,
            !k@.is_logo,
            k@.map.not_just_pressed == Seq::new(163, |i: int| true),
            k@.map.pressed == Seq::new(163, |i: int| false),
            k@.map.released == Seq::new(163, |i: int| false),
    {
        Self {
            is_shift: false,
            is_ctrl: false,
            is_alt: false,
            is_logo: false,
            map: EdgeMap::new(),
        }
    }

    /// Feeds one event to the tracker; returns whether it was consumed.
    pub fn try_process(&mut self, event: &WindowEvent) -> (consumed: bool)
        requires
            old(self).wf(),
        ensures
            final(self).wf(),
            consumed == keys_consumes(*event),
            keys_transition(old(self)@, final(self)@, *event),
    {
        match *event {
            WindowEvent::KeyboardInput { pressed, key } => {
                if key < 163 {
                    if pressed {
                        self.map.press(key as usize);
                    } else {
                        self.map.release(key as usize);
                    }
                }
                true
            },
            WindowEvent::ModifiersChanged { shift, ctrl, alt, logo } => {
                self.is_shift = shift;
                self.is_ctrl = ctrl;
                self.is_alt = alt;
                self.is_logo = logo;
                true
            },
            _ => false,
        }
    }

    /// The per-frame reset; the modifier flags are kept.
    pub fn unset(&mut self)
        requires
            old(self).wf(),
        ensures
            final(self).wf(),
            final(self)@ == (KeysView { map: edge_unset(old(self)@.map), ..old(self)@ }),
    {
        self.map.unset();
    }

    pub fn is_just_pressed(&self, key: u8) -> (r: bool)
        requires
            self.wf(),
        ensures
            r == (key < 163 && self@.map.pressed[key as int] && !self@.map.not_just_pressed[
                key as int
            ]),
    {
        if key < 163 {
            self.map.is_just_pressed(key as usize)
        } else {
            false
        }
    }

    pub fn is_pressed(&self, key: u8) -> (r: bool)
        requires
            self.wf(),
        ensures
            r == (key < 163 && self@.map.pressed[key as int]),
    {
        if key < 163 {
            self.map.is_pressed(key as usize)
        } else {
            false
        }
    }

    pub fn is_released(&self, key: u8) -> (r: bool)
        requires
            self.wf(),
        ensures
            r == (key < 163 && self@.map.released[key as int]),
    {
        if key < 163 {
            self.map.is_released(key as usize)
        } else {
            false
        }
    }
}

} // verus!
