//! Text measurement and the small string-building helpers the renderer
//! is made of.
use vstd::prelude::*;

verus! {

/// Largest value of a `u16`, the type of every terminal extent.
pub const EXTENT_MAX: u16 = 65535;

/// The lines of `s`: the pieces between line feeds. There is always at least
/// one, so the empty text is one empty line and a trailing line feed opens a
/// last empty line.
pub open spec fn lines_of(s: Seq<char>) -> Seq<Seq<char>>
    decreases s.len(),
{
    if s.len() == 0 {
        seq![Seq::<char>::empty()]
    } else {
        let prev = lines_of(s.drop_last());
        if s.last() == '\n' {
            prev.push(Seq::<char>::empty())
        } else {
            prev.update(prev.len() - 1, prev.last().push(s.last()))
        }
    }
}

/// Length of the longest line of `ls`, zero when there is none.
pub open spec fn longest(ls: Seq<Seq<char>>) -> nat
    decreases ls.len(),
{
    if ls.len() == 0 {
        0
    } else {
        let rest = longest(ls.drop_last());
        if ls.last().len() > rest {
            ls.last().len()
        } else {
            rest
        }
    }
}

/// Width of a text block: its longest line, in characters.
pub open spec fn text_width(s: Seq<char>) -> nat {
    longest(lines_of(s))
}

/// Height of a text block: its number of lines.
pub open spec fn text_height(s: Seq<char>) -> nat {
    lines_of(s).len()
}

/// `n`, or the largest `u16` where `n` does not fit.
pub open spec fn saturate(n: nat) -> u16 {
    if n > EXTENT_MAX {
        EXTENT_MAX
    } else {
        n as u16
    }
}

/// The decimal digit for `d < 10`.
pub open spec fn digit_char(d: nat) -> char {
    ((48 + d) as u8) as char
}

/// The decimal notation of `n`, without sign or leading zeros.
pub open spec fn decimal(n: nat) -> Seq<char>
    decreases n,
{
    if n < 10 {
        seq![digit_char(n)]
    } else {
        decimal(n / 10).push(digit_char(n % 10))
    }
}

/// `n` space characters.
pub open spec fn spaces(n: nat) -> Seq<char> {
    Seq::new(n, |i: int| ' ')
}

pub proof fn lemma_lines_nonempty(s: Seq<char>)
    ensures
        lines_of(s).len() >= 1,
    decreases s.len(),
{
    if s.len() > 0 {
        lemma_lines_nonempty(s.drop_last());
    }
}

/// Relies on `String::push`: appends one character.
#[verifier::external_body]
pub(crate) fn push_char(out: &mut String, c: char)
    ensures
        final(out)@ == old(out)@.push(c),
{
    out.push(c);
}

/// Appends `n` spaces to `out`.
pub(crate) fn push_spaces(out: &mut String, n: u32)
    ensures
        final(out)@ == old(out)@ + spaces(n as nat),
{
    let mut i: u32 = 0;
    while i < n
        invariant
            i <= n,
            out@ == old(out)@ + spaces(i as nat),
        decreases n - i,
    {
        push_char(out, ' ');
        i = i + 1;
        assert(out@ =~= old(out)@ + spaces(i as nat));
    }
}

/// Appends the decimal notation of `n` to `out`.
pub(crate) fn push_decimal(out: &mut String, n: u128)
    ensures
        final(out)@ == old(out)@ + decimal(n as nat),
    decreases n,
{
    if n >= 10 {
        push_decimal(out, n / 10);
    }
    let d: u8 = (n % 10) as u8;
    push_char(out, (48u8 + d) as char);
    assert(out@ =~= old(out)@ + decimal(n as nat));
}

/// Splits `s` into its lines, as `lines_of` describes them.
pub fn split_lines(s: &str) -> (r: Vec<String>)
    ensures
        r@.map_values(|l: String| l@) == lines_of(s@),
{
    let mut done: Vec<String> = Vec::new();
    let mut cur: String = String::new();
    for c in it: s.chars()
        invariant
            it.seq() == s@,
            it.index() <= s@.len(),
            done@.map_values(|l: String| l@).push(cur@) == lines_of(s@.take(it.index() as int)),
    {
        proof {
            lemma_lines_nonempty(s@.take(it.index() as int));
        }
        let ghost before = s@.take(it.index() as int);
        let ghost after = s@.take(it.index() + 1);
        assert(after.drop_last() =~= before);
        if c == '\n' {
            done.push(cur);
            cur = String::new();
            assert(done@.map_values(|l: String| l@).push(cur@) =~= lines_of(after));
        } else {
            push_char(&mut cur, c);
            assert(done@.map_values(|l: String| l@).push(cur@) =~= lines_of(after));
        }
    }
    assert(s@.take(s@.len() as int) =~= s@);
    done.push(cur);
    assert(done@.map_values(|l: String| l@) =~= lines_of(s@));
    done
}

/// Measures a text block as the terminal shows it: the length of its longest
/// line and its number of lines, each capped at the largest `u16`.
pub fn str_size(s: &str) -> (r: (u16, u16))
    ensures
        r.0 == saturate(text_width(s@)),
        r.1 == saturate(text_height(s@)),
{
    let mut height: u16 = 1;
    let mut max_width: u16 = 0;
    let mut current_width: u16 = 0;
    for c in it: s.chars()
        invariant
            it.seq() == s@,
            it.index() <= s@.len(),
            ({
                let ls = lines_of(s@.take(it.index() as int));
                &&& ls.len() >= 1
                &&& height == saturate(ls.len())
                &&& current_width == saturate(ls.last().len())
                &&& max_width == saturate(longest(ls.drop_last()))
            }),
    {
        let ghost before = s@.take(it.index() as int);
        let ghost after = s@.take(it.index() + 1);
        assert(after.drop_last() =~= before);
        proof {
            lemma_lines_nonempty(before);
        }
        if c == '\n' {
            height = height.saturating_add(1);
            if current_width > max_width {
                max_width = current_width;
            }
            current_width = 0;
            assert(lines_of(after).drop_last() =~= lines_of(before));
        } else {
            current_width = current_width.saturating_add(1);
            assert(lines_of(after).drop_last() =~= lines_of(before).drop_last());
        }
    }
    assert(s@.take(s@.len() as int) =~= s@);
    proof {
        lemma_lines_nonempty(s@);
    }
    if current_width > max_width {
        max_width = current_width;
    }
    (max_width, height)
}

} // verus!
