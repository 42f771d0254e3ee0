//! Drawable content and the input events it may react to.
use vstd::prelude::*;

verus! {

/// A key of the keyboard, as far as elements tell keys apart.
#[derive(Debug, Clone, Copy, PartialEq, Eq, Structural)]
pub enum Key {
    Enter,
    Escape,
    Backspace,
    Char(char),
    Other,
}

/// One input event, delivered to the elements of one render pass.
/// Coordinates are 0-based `(column, row)` cells.
#[derive(Debug, Clone, Copy, PartialEq, Eq, Structural)]
pub enum Event {
    Key(Key),
    MouseMove(u16, u16),
    MouseClick(u16, u16),
    Resize(u16, u16),
}

impl Event {
    /// The pointer position this event reports, if it is a mouse event.
    pub open spec fn pointer(self) -> Option<(u16, u16)> {
        match self {
            Event::MouseMove(c, r) => Some((c, r)),
            Event::MouseClick(c, r) => Some((c, r)),
            _ => None,
        }
    }

    pub fn pointer_position(&self) -> (r: Option<(u16, u16)>)
        ensures
            r == self.pointer(),
    {
        match self {
            Event::MouseMove(c, r) => Some((*c, *r)),
            Event::MouseClick(c, r) => Some((*c, *r)),
            _ => None,
        }
    }
}

/// Drawable content: renders to a block of text, and may react to the input
/// event of the pass or to a numbered action before it is rendered.
pub trait Element: Sized {
    /// The text this element renders to when offered `size` cells.
    spec fn rendered(&self, size: (u16, u16)) -> Seq<char>;

    /// Whether the element can take an event or an action now.
    open spec fn ready(&self) -> bool {
        true
    }

    /// Whether `after` is a state this element may be in once it has taken
    /// `event`. By default an element ignores events.
    open spec fn reacts(&self, event: Event, after: Self) -> bool {
        after == *self
    }

    fn render(&self, size: (u16, u16)) -> (r: String)
        ensures
            r@ == self.rendered(size),
    ;

    fn event(&mut self, event: &Event)
        requires
            old(self).ready(),
        ensures
            old(self).reacts(*event, *final(self)),
    ;

    fn action(&mut self, action: u16)
        requires
            old(self).ready(),
        default_ensures
            *final(self) == *old(self),
    {
    }
}

impl<'a> Element for &'a str {
    open spec fn rendered(&self, size: (u16, u16)) -> Seq<char> {
        (**self)@
    }

    fn render(&self, size: (u16, u16)) -> (r: String) {
        String::from_str(*self)
    }

    fn event(&mut self, event: &Event) {
    }
}

impl Element for String {
    open spec fn rendered(&self, size: (u16, u16)) -> Seq<char> {
        self@
    }

    fn render(&self, size: (u16, u16)) -> (r: String) {
        self.clone()
    }

    fn event(&mut self, event: &Event) {
    }
}

/// A label that runs `on_click` when Enter is pressed, or when asked for
/// action `0`.
pub struct Button<F: FnMut()> {
    pub text: String,
    pub on_click: F,
}

impl<F: FnMut()> Element for Button<F> {
    open spec fn rendered(&self, size: (u16, u16)) -> Seq<char> {
        self.text@
    }

    open spec fn ready(&self) -> bool {
        call_requires(self.on_click, ())
    }

    /// Enter runs `on_click` and keeps the text; any other event changes
    /// nothing.
    open spec fn reacts(&self, event: Event, after: Self) -> bool {
        if event == Event::Key(Key::Enter) {
            after.text == self.text && call_ensures(self.on_click, (), ())
        } else {
            after == *self
        }
    }

    fn render(&self, size: (u16, u16)) -> (r: String) {
        self.text.clone()
    }

    fn event(&mut self, event: &Event)
        ensures
            final(self).text == old(self).text,
            *event == Event::Key(Key::Enter) ==> call_ensures(old(self).on_click, (), ()),
            *event != Event::Key(Key::Enter) ==> *final(self) == *old(self),
    {
        if let Event::Key(Key::Enter) = event {
            self.action(0);
        }
    }

    fn action(&mut self, action: u16)
        ensures
            final(self).text == old(self).text,
            action == 0 ==> call_ensures(old(self).on_click, (), ()),
            action != 0 ==> *final(self) == *old(self),
    {
        if action == 0 {
            (self.on_click)();
        }
    }
}

} // verus!
