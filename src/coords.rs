//! The coordinates of points: their axes, and the text of a point, which gives three
//! coordinates, optionally between brackets, separated by spaces, commas or semicolons.
use vstd::prelude::*;

verus! {

/// The three coordinate axes of a point in space.
#[derive(Debug, Clone, Copy, PartialEq, Eq, Structural)]
pub enum Axis {
    X,
    Y,
    Z,
}

impl Axis {
    /// The position of this axis's coordinate in an `(x, y, z)` triple.
    pub fn slot(&self) -> (r: usize)
        ensures
            r < 3,
            r == 0 <==> *self == Axis::X,
            r == 1 <==> *self == Axis::Y,
    {
        match self {
            Axis::X => 0,
            Axis::Y => 1,
            Axis::Z => 2,
        }
    }
}

/// Whether `char::is_whitespace` holds of `c`.
pub uninterp spec fn whitespace(c: char) -> bool;

/// Relies on `char::is_whitespace`: whether a character has the Unicode `White_Space`
/// property, which depends on the character alone.
pub assume_specification[ char::is_whitespace ](c: char) -> (r: bool)
    ensures
        r == whitespace(c),
;

/// `s` without its leading whitespace.
pub open spec fn trim_start(s: Seq<char>) -> Seq<char>
    decreases s.len(),
{
    if s.len() > 0 && whitespace(s[0]) {
        trim_start(s.drop_first())
    } else {
        s
    }
}

/// `s` without its trailing whitespace.
pub open spec fn trim_end(s: Seq<char>) -> Seq<char>
    decreases s.len(),
{
    if s.len() > 0 && whitespace(s.last()) {
        trim_end(s.drop_last())
    } else {
        s
    }
}

/// An opening or closing bracket of any of the four kinds.
pub open spec fn is_bracket(c: char) -> bool {
    c == '[' || c == '(' || c == '<' || c == '{' || c == ']' || c == ')' || c == '>' || c == '}'
}

/// A character that separates two coordinates.
pub open spec fn is_separator(c: char) -> bool {
    c == ' ' || c == ',' || c == ';'
}

/// `s` without its brackets.
pub open spec fn strip_brackets(s: Seq<char>) -> Seq<char>
    decreases s.len(),
{
    if s.len() == 0 {
        s
    } else if is_bracket(s.last()) {
        strip_brackets(s.drop_last())
    } else {
        strip_brackets(s.drop_last()).push(s.last())
    }
}

/// The pieces of `s` between separators, in order: one more than there are separators,
/// empty pieces included.
pub open spec fn split(s: Seq<char>) -> Seq<Seq<char>>
    decreases s.len(),
{
    if s.len() == 0 {
        seq![Seq::empty()]
    } else {
        let parts = split(s.drop_last());
        if is_separator(s.last()) {
            parts.push(Seq::empty())
        } else {
            parts.update(parts.len() - 1, parts.last().push(s.last()))
        }
    }
}

/// The coordinate texts of the point text `s`: trimmed of whitespace at both ends,
/// stripped of brackets, and split at each separator.
pub open spec fn coordinate_texts(s: Seq<char>) -> Seq<Seq<char>> {
    split(strip_brackets(trim_end(trim_start(s))))
}

/// Splits `t` at each separator, leaving out its brackets: the pieces are in order, one
/// more than there are separators, empty pieces included.
pub fn split_pieces(t: &str) -> (r: Vec<String>)
    ensures
        r@.map_values(|p: String| p@) == split(strip_brackets(t@)),
{
    let n = t.unicode_len();
    let ghost full = t@;
    let mut parts: Vec<String> = Vec::new();
    let mut current = String::new();
    let mut k: usize = 0;
    assert(full.subrange(0, 0) =~= Seq::<char>::empty());
    assert(parts@.map_values(|p: String| p@).push(current@) =~= seq![Seq::<char>::empty()]);
    while k < n
        invariant
            k <= n,
            n == full.len(),
            full == t@,
            parts@.map_values(|p: String| p@).push(current@) == split(
                strip_brackets(full.subrange(0, k as int)),
            ),
        decreases n - k,
    {
        let c = t.get_char(k);
        let ghost before = strip_brackets(full.subrange(0, k as int));
        let ghost views = parts@.map_values(|p: String| p@);
        let ghost cur = current@;
        let ghost next = full.subrange(0, k + 1);
        assert(next.drop_last() =~= full.subrange(0, k as int));
        assert(next.last() == c);
        if c == '[' || c == '(' || c == '<' || c == '{' || c == ']' || c == ')' || c == '>' || c
            == '}' {
            assert(strip_brackets(next) == before);
        } else if c == ' ' || c == ',' || c == ';' {
            let mut done = String::new();
            std::mem::swap(&mut done, &mut current);
            parts.push(done);
            assert(strip_brackets(next) == before.push(c));
            assert(before.push(c).drop_last() =~= before);
            assert(parts@.map_values(|p: String| p@) =~= views.push(cur));
        } else {
            current.push(c);
            assert(strip_brackets(next) == before.push(c));
            assert(before.push(c).drop_last() =~= before);
            assert(split(before) == views.push(cur));
            assert(views.push(cur.push(c)) =~= views.push(cur).update(
                views.len() as int,
                cur.push(c),
            ));
        }
        k += 1;
    }
    assert(full.subrange(0, n as int) =~= full);
    let ghost views = parts@.map_values(|p: String| p@);
    let ghost last = current@;
    parts.push(current);
    assert(parts@.map_values(|p: String| p@) =~= views.push(last));
    parts
}

/// Splits the point text `s` into the texts of its coordinates, without reading them:
/// trims whitespace off both ends, then splits the rest with [`split_pieces`].
pub fn split_coordinates(s: &str) -> (r: Vec<String>)
    ensures
        r@.map_values(|p: String| p@) == coordinate_texts(s@),
{
    let n = s.unicode_len();
    let ghost full = s@;
    let mut lo: usize = 0;
    assert(full.subrange(0, n as int) =~= full);
    while lo < n && s.get_char(lo).is_whitespace()
        invariant
            lo <= n,
            n == full.len(),
            full == s@,
            trim_start(full) == trim_start(full.subrange(lo as int, n as int)),
        decreases n - lo,
    {
        assert(full.subrange(lo as int, n as int).drop_first() =~= full.subrange(
            lo + 1,
            n as int,
        ));
        lo += 1;
    }
    let mut hi: usize = n;
    while hi > lo && s.get_char(hi - 1).is_whitespace()
        invariant
            lo <= hi <= n,
            n == full.len(),
            full == s@,
            trim_end(trim_start(full)) == trim_end(full.subrange(lo as int, hi as int)),
        decreases hi,
    {
        assert(full.subrange(lo as int, hi as int).drop_last() =~= full.subrange(
            lo as int,
            hi - 1,
        ));
        hi -= 1;
    }
    let body = s.substring_char(lo, hi);
    split_pieces(body)
}

/// The three values of `values`, where there are exactly three; otherwise their number.
pub fn as_triple<T: Copy>(values: &Vec<T>) -> (r: Result<(T, T, T), usize>)
    ensures
        values@.len() == 3 ==> r == Ok::<(T, T, T), usize>((values@[0], values@[1], values@[2])),
        values@.len() != 3 ==> r == Err::<(T, T, T), usize>(values@.len() as usize),
{
    if values.len() == 3 {
        Ok((values[0], values[1], values[2]))
    } else {
        Err(values.len())
    }
}

} // verus!
