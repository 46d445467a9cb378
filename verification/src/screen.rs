//! Screen state: the current physical window size, the per-frame resize
//! flag, and the clear color. Scale-dependent floating-point quantities
//! (half extents, zoom) are derived outside the library from the size kept
//! here.

use vstd::prelude::*;
use crate::event::WindowEvent;
use crate::layers::Color;

verus! {

/// The abstract state of the screen.
pub ghost struct ScreenView {
    pub width: u32,
    pub height: u32,
    pub has_resized: bool,
    pub clear_color: Color,
}

/// Whether the screen consumes the event.
pub open spec fn screen_consumes(e: WindowEvent) -> bool {
    match e {
        WindowEvent::Resized { .. } => true,
        _ => false,
    }
}

/// How one event changes the screen state.
pub open spec fn screen_transition(pre: ScreenView, post: ScreenView, e: WindowEvent) -> bool {
    match e {
        WindowEvent::Resized { width, height } => post == (ScreenView {
            width,
            height,
            has_resized: true,
            ..pre
        }),
        _ => post == pre,
    }
}

pub struct Screen {
    width: u32,
    height: u32,
    has_resized: bool,
    clear_color: Color,
}

impl View for Screen {
    type V = ScreenView;

    closed spec fn view(&self) -> ScreenView {
        ScreenView {
            width: self.width,
            height: self.height,
            has_resized: self.has_resized,
            clear_color: self.clear_color,
        }
    }
}

impl Screen {
    /// A fresh screen: the given size, the resize flag raised so that the
    /// first frame configures itself, and a transparent clear color.
    pub fn new(width: u32, height: u32) -> (s: Self)
        ensures
            s@ == (ScreenView {
                width,
                height,
                has_resized: true,
                clear_color: Color { r: 0, g: 0, b: 0, a: 0 },
            }),
    {
        Self { width, height, has_resized: true, clear_color: Color::new(0, 0, 0, 0) }
    }

    /// Feeds one event to the screen; returns the new size when the event
    /// was a resize, `None` otherwise.
    pub fn try_process(&mut self, event: &WindowEvent) -> (r: Option<(u32, u32)>)
        ensures
            screen_transition(old(self)@, final(self)@, *event),
            r == match *event {
                WindowEvent::Resized { width, height } => Some((width, height)),
                _ => None::<(u32, u32)>,
            },
    {
        match *event {
            WindowEvent::Resized { width, height } => {
                self.width = width;
                self.height = height;
                self.has_resized = true;
                Some((width, height))
            },
            _ => None,
        }
    }

    /// The per-frame reset: lowers the resize flag.
    pub fn unset(&mut self)
        ensures
            final(self)@ == (ScreenView { has_resized: false, ..old(self)@ }),
    {
        self.has_resized = false;
    }

    pub fn size(&self) -> (r: (u32, u32))
        ensures
            r.0 == self@.width,
            r.1 == self@.height,
    {
        (self.width, self.height)
    }

    pub fn has_resized(&self) -> (r: bool)
        ensures
            r == self@.has_resized,
    {
        self.has_resized
    }

    pub fn clear_color(&self) -> (c: Color)
        ensures
            c == self@.clear_color,
    {
        self.clear_color
    }

    pub fn set_clear_color(&mut self, c: Color)
        ensures
            final(self)@ == (ScreenView { clear_color: c, ..old(self)@ }),
    {
        self.clear_color = c;
    }
}

} // verus!
