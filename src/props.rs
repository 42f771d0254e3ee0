//! The per-draw placement, sizing and styling specification.
use vstd::prelude::*;

use crate::style::{Color, Dimension, Position, Style};

verus! {

/// Name of the style state that applies while the pointer is over the box.
pub open spec fn hover_name() -> Seq<char> {
    seq!['h', 'o', 'v', 'e', 'r']
}

/// Index of the first entry named `name`, if any.
pub open spec fn state_index(states: Seq<(Seq<char>, Style)>, name: Seq<char>) -> Option<int>
    decreases states.len(),
{
    if states.len() == 0 {
        None
    } else {
        match state_index(states.drop_last(), name) {
            Some(i) => Some(i),
            None => if states.last().0 == name {
                Some(states.len() - 1)
            } else {
                None
            },
        }
    }
}

/// The style stored under `name`: that of its first entry.
pub open spec fn state_lookup(states: Seq<(Seq<char>, Style)>, name: Seq<char>) -> Option<Style> {
    match state_index(states, name) {
        Some(i) => Some(states[i].1),
        None => None,
    }
}

/// `states` with `name` bound to `style`: its first entry replaced, or a new
/// entry at the end.
pub open spec fn state_set(states: Seq<(Seq<char>, Style)>, name: Seq<char>, style: Style) -> Seq<
    (Seq<char>, Style),
> {
    match state_index(states, name) {
        Some(i) => states.update(i, (name, style)),
        None => states.push((name, style)),
    }
}

/// A found index is in range and names the entry it points at.
pub proof fn lemma_state_index_bounds(states: Seq<(Seq<char>, Style)>, name: Seq<char>)
    ensures
        state_index(states, name) matches Some(i) ==> 0 <= i < states.len() && states[i].0
            == name,
    decreases states.len(),
{
    if states.len() > 0 {
        lemma_state_index_bounds(states.drop_last(), name);
    }
}

/// A resolved box: origin and extent, in cells.
#[derive(Debug, Clone, Copy, PartialEq, Eq, Structural)]
pub struct Placement {
    pub x: u16,
    pub y: u16,
    pub width: u16,
    pub height: u16,
}

impl Placement {
    /// Whether the cell at `(column, row)` lies in the half-open box
    /// `[x, x + width) × [y, y + height)`.
    pub open spec fn holds(self, column: u16, row: u16) -> bool {
        &&& self.x <= column < self.x + self.width
        &&& self.y <= row < self.y + self.height
    }

    pub fn contains(&self, column: u16, row: u16) -> (r: bool)
        ensures
            r == self.holds(column, row),
    {
        self.x <= column && (column as u32) < (self.x as u32) + (self.width as u32) && self.y
            <= row && (row as u32) < (self.y as u32) + (self.height as u32)
    }
}

/// What a `Props` stands for.
pub struct PropsView {
    pub x: Position,
    pub y: Position,
    pub width: Dimension,
    pub height: Dimension,
    pub style: Style,
    pub states: Seq<(Seq<char>, Style)>,
}

impl PropsView {
    /// A box at `(x, y)`, sized to its content, unstyled.
    pub open spec fn at(x: Position, y: Position) -> PropsView {
        PropsView {
            x,
            y,
            width: Dimension::Auto,
            height: Dimension::Auto,
            style: Style { color: Color::NoColor, background: Color::NoColor, px: 0, py: 0 },
            states: Seq::empty(),
        }
    }

    pub open spec fn with_x(self, x: Position) -> PropsView {
        PropsView { x, ..self }
    }

    pub open spec fn with_y(self, y: Position) -> PropsView {
        PropsView { y, ..self }
    }

    pub open spec fn with_width(self, width: Dimension) -> PropsView {
        PropsView { width, ..self }
    }

    pub open spec fn with_height(self, height: Dimension) -> PropsView {
        PropsView { height, ..self }
    }

    pub open spec fn with_style(self, style: Style) -> PropsView {
        PropsView { style, ..self }
    }

    pub open spec fn with_state(self, name: Seq<char>, style: Style) -> PropsView {
        PropsView { states: state_set(self.states, name, style), ..self }
    }

    /// Whether the hover style replaces the base style of a box at `place`,
    /// with the pointer at `pointer`.
    pub open spec fn hovered(self, pointer: Option<(u16, u16)>, place: Placement) -> bool {
        &&& match pointer {
            Some(p) => place.holds(p.0, p.1),
            None => false,
        }
        &&& state_lookup(self.states, hover_name()) is Some
    }

    /// The style a box at `place` is painted with: the hover style where
    /// `hovered`, else the base style.
    pub open spec fn effective_style(self, pointer: Option<(u16, u16)>, place: Placement) -> Style {
        if self.hovered(pointer, place) {
            state_lookup(self.states, hover_name())->0
        } else {
            self.style
        }
    }
}

/// Placement, sizing and style of one draw call. Setters leave `self` as it
/// is and return the changed copy, so one value can serve as a template.
#[derive(Debug, Clone)]
pub struct Props {
    pub x: Position,
    pub y: Position,
    pub width: Dimension,
    pub height: Dimension,
    pub style: Style,
    /// Named style overrides; only `"hover"` is applied by the renderer.
    pub style_state: Vec<(String, Style)>,
}

pub open spec fn states_view(v: Seq<(String, Style)>) -> Seq<(Seq<char>, Style)> {
    v.map_values(|e: (String, Style)| (e.0@, e.1))
}

impl View for Props {
    type V = PropsView;

    open spec fn view(&self) -> PropsView {
        PropsView {
            x: self.x,
            y: self.y,
            width: self.width,
            height: self.height,
            style: self.style,
            states: states_view(self.style_state@),
        }
    }
}

fn is_hover(name: &String) -> (r: bool)
    ensures
        r == (name@ == hover_name()),
{
    let s = name.as_str();
    if s.unicode_len() != 5 {
        return false;
    }
    let r = s.get_char(0) == 'h' && s.get_char(1) == 'o' && s.get_char(2) == 'v' && s.get_char(3)
        == 'e' && s.get_char(4) == 'r';
    assert(r ==> s@ =~= hover_name());
    r
}

fn same_name(a: &String, b: &str) -> (r: bool)
    ensures
        r == (a@ == b@),
{
    let s = a.as_str();
    let n = s.unicode_len();
    if n != b.unicode_len() {
        return false;
    }
    let mut i: usize = 0;
    while i < n
        invariant
            n == s@.len() == b@.len(),
            i <= n,
            s@ == a@,
            forall|j: int| 0 <= j < i ==> s@[j] == b@[j],
        decreases n - i,
    {
        if s.get_char(i) != b.get_char(i) {
            return false;
        }
        i = i + 1;
    }
    assert(a@ =~= b@);
    true
}

/// A copy of `states` with `name` bound to `style` (see `state_set`).
fn set_state(states: &Vec<(String, Style)>, name: &str, style: Style) -> (r: Vec<(String, Style)>)
    ensures
        states_view(r@) == state_set(states_view(states@), name@, style),
{
    let ghost sv = states_view(states@);
    let mut r: Vec<(String, Style)> = Vec::new();
    let mut found = false;
    let mut i: usize = 0;
    while i < states.len()
        invariant
            i <= states.len(),
            sv == states_view(states@),
            sv.len() == states@.len(),
            r@.len() == i,
            found <==> state_index(sv.take(i as int), name@) is Some,
            states_view(r@) == (match state_index(sv.take(i as int), name@) {
                Some(k) => sv.take(i as int).update(k, (name@, style)),
                None => sv.take(i as int),
            }),
        decreases states.len() - i,
    {
        let ghost pre = sv.take(i as int);
        let ghost post = sv.take(i + 1);
        assert(post.drop_last() =~= pre);
        assert(post.last() == (states@[i as int].0@, states@[i as int].1));
        proof {
            lemma_state_index_bounds(pre, name@);
        }
        let key = states[i].0.clone();
        let st = states[i].1;
        let ghost before = r@;
        if !found && same_name(&key, name) {
            r.push((key, style));
            found = true;
            assert(state_index(post, name@) == Some(i as int));
            assert(states_view(r@) =~= post.update(i as int, (name@, style)));
        } else {
            r.push((key, st));
            assert(states_view(r@) =~= states_view(before).push(post.last()));
            if found {
                let ghost k = state_index(pre, name@)->0;
                assert(state_index(post, name@) == Some(k));
                assert(states_view(r@) =~= post.update(k, (name@, style)));
            } else {
                assert(state_index(post, name@) is None);
                assert(states_view(r@) =~= post);
            }
        }
        i = i + 1;
    }
    assert(sv.take(i as int) =~= sv);
    if !found {
        r.push((String::from_str(name), style));
    }
    assert(states_view(r@) =~= state_set(sv, name@, style));
    r
}

fn copy_states(states: &Vec<(String, Style)>) -> (r: Vec<(String, Style)>)
    ensures
        states_view(r@) == states_view(states@),
{
    let mut r: Vec<(String, Style)> = Vec::new();
    let mut i: usize = 0;
    while i < states.len()
        invariant
            i <= states.len(),
            r@.len() == i,
            states_view(r@) == states_view(states@).take(i as int),
        decreases states.len() - i,
    {
        let key = states[i].0.clone();
        r.push((key, states[i].1));
        i = i + 1;
        assert(states_view(r@) =~= states_view(states@).take(i as int));
    }
    assert(states_view(states@).take(i as int) =~= states_view(states@));
    r
}

/// A box at `(x, y)`, sized to its content, unstyled.
fn placed(x: Position, y: Position) -> (r: Props)
    ensures
        r@ == PropsView::at(x, y),
{
    let r = Props {
        x,
        y,
        width: Dimension::Auto,
        height: Dimension::Auto,
        style: Style::default(),
        style_state: Vec::new(),
    };
    assert(r@.states =~= Seq::<(Seq<char>, Style)>::empty());
    r
}

impl Props {
    /// A copy with every field of `self` but the ones given.
    fn rebuilt(&self, x: Position, y: Position, width: Dimension, height: Dimension) -> (r: Props)
        ensures
            r@ == (PropsView { x, y, width, height, ..self@ }),
    {
        Props { x, y, width, height, style: self.style, style_state: copy_states(&self.style_state) }
    }

    /// A box at `(x, y)`, sized to its content, unstyled.
    pub fn new(x: u16, y: u16) -> (r: Self)
        ensures
            r@ == PropsView::at(Position::Num(x), Position::Num(y)),
    {
        placed(Position::Num(x), Position::Num(y))
    }

    /// A box at the container's origin, sized to its content.
    pub fn auto() -> (r: Self)
        ensures
            r@ == PropsView::at(Position::Num(0), Position::Num(0)),
    {
        Self::new(0, 0)
    }

    /// A box centred on both axes, sized to its content.
    pub fn center() -> (r: Self)
        ensures
            r@ == PropsView::at(Position::Center, Position::Center),
    {
        placed(Position::Center, Position::Center)
    }

    /// A box centred horizontally on the top row, sized to its content.
    pub fn center_horizontal() -> (r: Self)
        ensures
            r@ == PropsView::at(Position::Center, Position::Num(0)),
    {
        placed(Position::Center, Position::Num(0))
    }

    /// A box centred vertically at the left edge, sized to its content.
    pub fn center_vertical() -> (r: Self)
        ensures
            r@ == PropsView::at(Position::Num(0), Position::Center),
    {
        placed(Position::Num(0), Position::Center)
    }

    pub fn x_percent(&self, p: u16) -> (r: Self)
        ensures
            r@ == self@.with_x(Position::Percent(p)),
    {
        self.rebuilt(Position::Percent(p), self.y, self.width, self.height)
    }

    pub fn y_percent(&self, p: u16) -> (r: Self)
        ensures
            r@ == self@.with_y(Position::Percent(p)),
    {
        self.rebuilt(self.x, Position::Percent(p), self.width, self.height)
    }

    pub fn width(&self, w: u16) -> (r: Self)
        ensures
            r@ == self@.with_width(Dimension::Num(w)),
    {
        self.rebuilt(self.x, self.y, Dimension::Num(w), self.height)
    }

    pub fn height(&self, h: u16) -> (r: Self)
        ensures
            r@ == self@.with_height(Dimension::Num(h)),
    {
        self.rebuilt(self.x, self.y, self.width, Dimension::Num(h))
    }

    pub fn width_percent(&self, w: u16) -> (r: Self)
        ensures
            r@ == self@.with_width(Dimension::Percent(w)),
    {
        self.rebuilt(self.x, self.y, Dimension::Percent(w), self.height)
    }

    pub fn height_percent(&self, h: u16) -> (r: Self)
        ensures
            r@ == self@.with_height(Dimension::Percent(h)),
    {
        self.rebuilt(self.x, self.y, self.width, Dimension::Percent(h))
    }

    /// The same box painted with `style`.
    pub fn style(&self, style: Style) -> (r: Self)
        ensures
            r@ == self@.with_style(style),
    {
        Props {
            x: self.x,
            y: self.y,
            width: self.width,
            height: self.height,
            style,
            style_state: copy_states(&self.style_state),
        }
    }

    /// The same box with the style state `name` bound to `style`.
    pub fn style_state(&self, name: &str, style: Style) -> (r: Self)
        ensures
            r@ == self@.with_state(name@, style),
    {
        Props {
            x: self.x,
            y: self.y,
            width: self.width,
            height: self.height,
            style: self.style,
            style_state: set_state(&self.style_state, name, style),
        }
    }

    /// The style stored under `"hover"`, if any.
    pub fn hover_style(&self) -> (r: Option<Style>)
        ensures
            r == state_lookup(self@.states, hover_name()),
    {
        let ghost sv = self@.states;
        let mut i: usize = 0;
        while i < self.style_state.len()
            invariant
                i <= self.style_state.len(),
                sv == states_view(self.style_state@),
                state_index(sv.take(i as int), hover_name()) is None,
            decreases self.style_state.len() - i,
        {
            let ghost pre = sv.take(i as int);
            let ghost post = sv.take(i + 1);
            assert(post.drop_last() =~= pre);
            if is_hover(&self.style_state[i].0) {
                proof {
                    lemma_state_index_bounds(sv, hover_name());
                    lemma_state_index_prefix(sv, hover_name(), i + 1);
                }
                return Some(self.style_state[i].1);
            }
            i = i + 1;
        }
        assert(sv.take(i as int) =~= sv);
        None
    }

    /// The style a box at `place` is painted with, the pointer being at
    /// `pointer`: the hover style while the pointer is inside the box and a
    /// hover style is set, else the base style.
    pub fn effective_style(&self, pointer: Option<(u16, u16)>, place: &Placement) -> (r: Style)
        ensures
            r == self@.effective_style(pointer, *place),
    {
        match pointer {
            Some((column, row)) => {
                if place.contains(column, row) {
                    match self.hover_style() {
                        Some(s) => s,
                        None => self.style,
                    }
                } else {
                    self.style
                }
            },
            None => self.style,
        }
    }
}

/// A match found in a prefix is the first match of the whole sequence.
pub proof fn lemma_state_index_prefix(states: Seq<(Seq<char>, Style)>, name: Seq<char>, n: int)
    requires
        0 <= n <= states.len(),
        state_index(states.take(n), name) is Some,
    ensures
        state_index(states, name) == state_index(states.take(n), name),
    decreases states.len(),
{
    if n < states.len() {
        assert(states.drop_last().take(n) =~= states.take(n));
        lemma_state_index_prefix(states.drop_last(), name, n);
    } else {
        assert(states.take(n) =~= states);
    }
}

/// The hover style applies exactly when the pointer lies in the half-open box
/// `[x, x + width) × [y, y + height)` and a hover style is set: a pointer on
/// column `x + width` or row `y + height` is outside, and so is an unknown
/// pointer.
pub proof fn lemma_hover_half_open(props: PropsView, column: u16, row: u16, place: Placement)
    ensures
        props.hovered(Some((column, row)), place) <==> (place.x <= column < place.x + place.width
            && place.y <= row < place.y + place.height && state_lookup(props.states, hover_name())
            is Some),
        column == place.x + place.width ==> !props.hovered(Some((column, row)), place),
        row == place.y + place.height ==> !props.hovered(Some((column, row)), place),
        !props.hovered(None, place),
        props.effective_style(Some((column, row)), place) == (if props.hovered(
            Some((column, row)),
            place,
        ) {
            state_lookup(props.states, hover_name())->0
        } else {
            props.style
        }),
{
}

/// Setting the width and the height again replaces both: only the last value
/// of each takes effect.
pub proof fn lemma_last_setter_wins(
    p: PropsView,
    w1: Dimension,
    h1: Dimension,
    w2: Dimension,
    h2: Dimension,
)
    ensures
        p.with_width(w1).with_height(h1).with_width(w2).with_height(h2) == p.with_width(
            w2,
        ).with_height(h2),
{
}

} // verus!
