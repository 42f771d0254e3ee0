//! The terminal session: its geometry and pointer across render passes.
use vstd::prelude::*;

use crate::element::Event;
use crate::frame::Frame;
use crate::style::csi;
use crate::utils::push_char;

verus! {

/// `ESC[2J ESC[H`: clears the screen and homes the cursor.
pub open spec fn clear_screen() -> Seq<char> {
    csi() + seq!['2', 'J'] + csi() + seq!['H']
}

/// The state a terminal session keeps between render passes.
pub struct Console {
    /// Whether mouse capture was enabled, and must be disabled on close.
    pub mouse: bool,
    /// Terminal extent, as last queried.
    pub width: u16,
    pub height: u16,
    /// The pointer cell, once a mouse event has reported one.
    pub mouse_position: Option<(u16, u16)>,
}

impl Console {
    /// A session on a terminal of `size` cells, the pointer not yet known.
    pub fn new(mouse: bool, size: (u16, u16)) -> (r: Console)
        ensures
            r.mouse == mouse,
            r.width == size.0,
            r.height == size.1,
            r.mouse_position is None,
    {
        Console { mouse, width: size.0, height: size.1, mouse_position: None }
    }

    /// Starts a render pass on a terminal just measured at `size`, with the
    /// pass's input event if any. The extent is recorded, a mouse event moves
    /// the pointer, and the returned frame spans the whole terminal and
    /// starts by clearing the screen.
    pub fn frame(&mut self, size: (u16, u16), event: Option<Event>) -> (r: Frame)
        ensures
            final(self).mouse == old(self).mouse,
            final(self).width == size.0,
            final(self).height == size.1,
            final(self).mouse_position == (match event {
                Some(e) => match e.pointer() {
                    Some(p) => Some(p),
                    None => old(self).mouse_position,
                },
                None => old(self).mouse_position,
            }),
            r.width == size.0,
            r.height == size.1,
            r.event == event,
            r.mouse_position == final(self).mouse_position,
            r.out@ == clear_screen(),
    {
        self.width = size.0;
        self.height = size.1;
        if let Some(e) = &event {
            if let Some(p) = e.pointer_position() {
                self.mouse_position = Some(p);
            }
        }
        let mut out = String::new();
        push_char(&mut out, '\x1b');
        push_char(&mut out, '[');
        push_char(&mut out, '2');
        push_char(&mut out, 'J');
        push_char(&mut out, '\x1b');
        push_char(&mut out, '[');
        push_char(&mut out, 'H');
        assert(out@ =~= clear_screen());
        Frame { width: size.0, height: size.1, event, mouse_position: self.mouse_position, out }
    }
}

} // verus!
