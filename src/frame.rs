//! Render sinks: the terminal frame, which turns each draw into
//! cursor-addressed escape sequences, and the plain string sink.
use vstd::prelude::*;

use crate::element::{Element, Event};
use crate::props::{Placement, Props, PropsView};
use crate::style::csi;
use crate::utils::{
    decimal, lines_of, push_char, push_decimal, push_spaces, saturate, spaces, split_lines,
    str_size, text_height, text_width,
};

verus! {

/// `ESC[{row};{col}H`: moves the cursor to a 1-based cell.
pub open spec fn cursor_to(row: nat, col: nat) -> Seq<char> {
    csi() + decimal(row) + seq![';'] + decimal(col) + seq!['H']
}

/// `ESC[0m`: resets all attributes.
pub open spec fn reset() -> Seq<char> {
    csi() + seq!['0', 'm']
}

/// One positioned, styled write of `line`.
pub open spec fn placed_line(row: nat, col: nat, sgr: Seq<char>, line: Seq<char>) -> Seq<char> {
    cursor_to(row, col) + sgr + line + reset()
}

/// The writes of `rows`, the first one at `row` and each next one a row below.
pub open spec fn emitted(rows: Seq<Seq<char>>, row: nat, col: nat, sgr: Seq<char>) -> Seq<char>
    decreases rows.len(),
{
    if rows.len() == 0 {
        Seq::empty()
    } else {
        emitted(rows.drop_last(), row, col, sgr) + placed_line(
            (row + rows.len() - 1) as nat,
            col,
            sgr,
            rows.last(),
        )
    }
}

/// `lines` inset by `px` spaces on both sides, between `py` blank lines of
/// `width + 2 * px` spaces above and below.
pub open spec fn padded(lines: Seq<Seq<char>>, px: nat, py: nat, width: nat) -> Seq<Seq<char>> {
    let blank = spaces(width + 2 * px);
    Seq::new(py, |i: int| blank) + lines.map_values(|l: Seq<char>| spaces(px) + l + spaces(px))
        + Seq::new(py, |i: int| blank)
}

/// `a - b`, or zero where `b > a`.
pub open spec fn minus(a: u16, b: u16) -> nat {
    if b <= a {
        (a - b) as nat
    } else {
        0
    }
}

/// The box of content that measured `measured` cells, drawn with `props` in a
/// container of `frame_width × frame_height` cells: its extent first, then its
/// origin from that extent.
pub open spec fn layout(
    frame_width: u16,
    frame_height: u16,
    measured: (u16, u16),
    props: PropsView,
) -> Placement {
    let width = props.width.resolve_root(measured.0, frame_width);
    let height = props.height.resolve_root(measured.1, frame_height);
    Placement {
        x: props.x.resolve(width, frame_width),
        y: props.y.resolve(height, frame_height),
        width,
        height,
    }
}

/// The bytes a terminal frame emits for content `text` drawn with `props`:
/// one write per padded line, in the effective style, the padding shifting the
/// origin up and left.
pub open spec fn painting(
    frame_width: u16,
    frame_height: u16,
    pointer: Option<(u16, u16)>,
    text: Seq<char>,
    props: PropsView,
) -> Seq<char> {
    let measured = (saturate(text_width(text)), saturate(text_height(text)));
    let place = layout(frame_width, frame_height, measured, props);
    let style = props.effective_style(pointer, place);
    emitted(
        padded(lines_of(text), style.px as nat, style.py as nat, place.width as nat),
        minus(place.y, style.py) + 1,
        minus(place.x, style.px) + 1,
        style.escape(),
    )
}

/// A destination for draw calls.
pub trait Framing: Sized {
    /// Everything written to this sink so far.
    spec fn output(&self) -> Seq<char>;

    /// Renders `element` and writes it as `props` places it.
    fn draw<E: Element>(&mut self, element: E, props: &Props)
        requires
            element.ready(),
        ensures
            old(self).output().is_prefix_of(final(self).output()),
    ;

    /// Writes `s` as it is.
    fn draw_raw_text(&mut self, s: &str)
        ensures
            final(self).output() == old(self).output() + s@,
    ;
}

/// The terminal sink of one render pass. Draws are appended to `out` as
/// escape sequences; the caller writes `out` to the terminal.
pub struct Frame {
    pub width: u16,
    pub height: u16,
    /// The input event of this pass, handed to every drawn element.
    pub event: Option<Event>,
    /// The pointer cell, when known.
    pub mouse_position: Option<(u16, u16)>,
    pub out: String,
}

impl Frame {
    /// The extent offered to content before it is rendered.
    pub open spec fn size_hint(&self, props: PropsView) -> (u16, u16) {
        (props.width.resolve(self.width), props.height.resolve(self.height))
    }

    /// What drawing content `text` with `props` appends to `out`.
    pub open spec fn painting(&self, text: Seq<char>, props: PropsView) -> Seq<char> {
        painting(self.width, self.height, self.mouse_position, text, props)
    }

    /// Everything but `out` is as in `other`.
    pub open spec fn same_setup(&self, other: &Frame) -> bool {
        &&& self.width == other.width
        &&& self.height == other.height
        &&& self.event == other.event
        &&& self.mouse_position == other.mouse_position
    }

    /// An empty frame of `width × height` cells, with no event and no pointer.
    pub fn new(size: (u16, u16)) -> (r: Frame)
        ensures
            r.width == size.0,
            r.height == size.1,
            r.event is None,
            r.mouse_position is None,
            r.out@ == Seq::<char>::empty(),
    {
        Frame { width: size.0, height: size.1, event: None, mouse_position: None, out: String::new() }
    }

    /// The box that content measured `text_size` takes when drawn with `props`.
    pub fn place(&self, text_size: (u16, u16), props: &Props) -> (r: Placement)
        ensures
            r == layout(self.width, self.height, text_size, props@),
    {
        let width = props.width.get_root(text_size.0, self.width);
        let height = props.height.get_root(text_size.1, self.height);
        Placement {
            x: props.x.get(width, self.width),
            y: props.y.get(height, self.height),
            width,
            height,
        }
    }

    /// Draws content that is already rendered: measures `text`, resolves its
    /// box, picks the style and writes each padded line at its cell.
    pub fn draw_text(&mut self, text: &str, props: &Props)
        ensures
            final(self).same_setup(old(self)),
            final(self).out@ == old(self).out@ + old(self).painting(text@, props@),
    {
        let size = str_size(text);
        let place = self.place(size, props);
        let style = props.effective_style(self.mouse_position, &place);
        let lines = split_lines(text);
        let sgr = style.to_ansi();
        let row0: u128 = (if style.py <= place.y { place.y - style.py } else { 0 }) as u128 + 1;
        let col: u128 = (if style.px <= place.x { place.x - style.px } else { 0 }) as u128 + 1;
        let ghost lv = lines@.map_values(|l: String| l@);
        let ghost rows = padded(lv, style.px as nat, style.py as nat, place.width as nat);
        let py = style.py as u128;
        let total: u128 = py + lines.len() as u128 + py;
        let blank: u32 = place.width as u32 + 2 * (style.px as u32);
        let ghost start = self.out@;
        let ghost edge = Seq::new(py as nat, |j: int| spaces(blank as nat));
        let ghost body = lv.map_values(
            |l: Seq<char>| spaces(style.px as nat) + l + spaces(style.px as nat),
        );
        assert(rows =~= edge + body + edge);
        let mut k: u128 = 0;
        while k < total
            invariant
                k <= total,
                total == rows.len(),
                total == py + lines.len() + py,
                py == style.py,
                row0 <= 65536,
                lv == lines@.map_values(|l: String| l@),
                rows == edge + body + edge,
                edge.len() == py,
                body.len() == lines.len(),
                forall|j: int| 0 <= j < py ==> edge[j] == spaces(blank as nat),
                forall|j: int|
                    0 <= j < lines.len() ==> body[j] == spaces(style.px as nat) + lines@[j]@
                        + spaces(style.px as nat),
                self.out@ == start + emitted(rows.take(k as int), row0 as nat, col as nat, sgr@),
                self.same_setup(old(self)),
            decreases total - k,
        {
            let ghost before = self.out@;
            push_line_start(&mut self.out, row0 + k, col, &sgr);
            let ghost mid = self.out@;
            if k < py || k >= py + lines.len() as u128 {
                push_spaces(&mut self.out, blank);
                if k < py {
                    assert((edge + body)[k as int] == edge[k as int]);
                } else {
                    assert(rows[k as int] == edge[k - py - lines.len()]);
                }
            } else {
                let i = (k - py) as usize;
                push_spaces(&mut self.out, style.px as u32);
                self.out.append(lines[i].as_str());
                push_spaces(&mut self.out, style.px as u32);
                assert((edge + body)[k as int] == body[i as int]);
            }
            assert(self.out@ =~= mid + rows[k as int]);
            push_reset(&mut self.out);
            assert(rows.take(k + 1).drop_last() =~= rows.take(k as int));
            assert(self.out@ =~= before + placed_line(
                (row0 + k) as nat,
                col as nat,
                sgr@,
                rows[k as int],
            ));
            k = k + 1;
        }
        assert(rows.take(total as int) =~= rows);
    }
}

fn push_line_start(out: &mut String, row: u128, col: u128, sgr: &String)
    ensures
        final(out)@ == old(out)@ + cursor_to(row as nat, col as nat) + sgr@,
{
    push_char(out, '\x1b');
    push_char(out, '[');
    push_decimal(out, row);
    push_char(out, ';');
    push_decimal(out, col);
    push_char(out, 'H');
    out.append(sgr.as_str());
    assert(out@ =~= old(out)@ + cursor_to(row as nat, col as nat) + sgr@);
}

fn push_reset(out: &mut String)
    ensures
        final(out)@ == old(out)@ + reset(),
{
    push_char(out, '\x1b');
    push_char(out, '[');
    push_char(out, '0');
    push_char(out, 'm');
    assert(out@ =~= old(out)@ + reset());
}

impl Framing for Frame {
    open spec fn output(&self) -> Seq<char> {
        self.out@
    }

    /// Delivers the pass's event to `element`, renders it with the extent its
    /// props offer, and draws the text as `draw_text` does.
    fn draw<E: Element>(&mut self, element: E, props: &Props)
        ensures
            final(self).same_setup(old(self)),
            old(self).event is None ==> final(self).out@ == old(self).out@ + old(self).painting(
                element.rendered(old(self).size_hint(props@)),
                props@,
            ),
            old(self).event matches Some(ev) ==> exists|e: E|
                #[trigger] element.reacts(ev, e) && final(self).out@ == old(self).out@
                    + old(self).painting(e.rendered(old(self).size_hint(props@)), props@),
    {
        let ghost given = element;
        let mut element = element;
        if let Some(event) = &self.event {
            element.event(event);
        }
        let hint = (props.width.get(0, self.width), props.height.get(0, self.height));
        let text = element.render(hint);
        self.draw_text(text.as_str(), props);
        assert(hint == old(self).size_hint(props@));
        assert(self.out@ == old(self).out@ + old(self).painting(element.rendered(hint), props@));
        if let Some(ev) = self.event {
            assert(given.reacts(ev, element));
        }
    }

    fn draw_raw_text(&mut self, s: &str)
        ensures
            final(self).same_setup(old(self)),
    {
        self.out.append(s);
    }
}

/// A sink that keeps the rendered text of each draw as it is, with no
/// placement and no escape sequences: for composing elements and for testing.
pub struct StringFrame {
    pub text: String,
}

impl StringFrame {
    pub fn new() -> (r: StringFrame)
        ensures
            r.text@ == Seq::<char>::empty(),
    {
        StringFrame { text: String::new() }
    }
}

/// The extent a string sink offers to content: it has none.
pub open spec fn no_extent() -> (u16, u16) {
    (0, 0)
}

impl Framing for StringFrame {
    open spec fn output(&self) -> Seq<char> {
        self.text@
    }

    /// Appends the element's rendering, whatever `props` says.
    fn draw<E: Element>(&mut self, element: E, props: &Props)
        ensures
            final(self).text@ == old(self).text@ + element.rendered(no_extent()),
    {
        let rendered = element.render((0, 0));
        self.text.append(rendered.as_str());
    }

    fn draw_raw_text(&mut self, s: &str) {
        self.text.append(s);
    }
}

} // verus!
