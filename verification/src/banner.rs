//! The console banner: a multi-line title framed in a box whose width
//! follows the widest line's displayed column width.

use vstd::prelude::*;

use crate::text::chars_of;

verus! {

/// `n` copies of one character.
pub open spec fn repeat_char(c: char, n: nat) -> Seq<char> {
    Seq::new(n, |i: int| c)
}

/// The displayed column width of a character sequence, as a terminal
/// shows it.  A function of the characters alone.
pub uninterp spec fn display_width(s: Seq<char>) -> nat;

/// Relies on `unicode_width::UnicodeWidthStr::width`: the displayed
/// width is a function of the characters alone; every character
/// contributes at most three columns, and the ligature rules only
/// reduce a total, so the width never exceeds three columns per
/// character.
#[verifier::external_body]
fn display_width_of(chars: &Vec<char>) -> (r: usize)
    ensures
        r == display_width(chars@),
        r <= 3 * chars@.len(),
{
    let s: String = chars.iter().collect();
    unicode_width::UnicodeWidthStr::width(s.as_str())
}

/// Relies on `String`'s `FromIterator<char>`: collecting characters
/// yields the string of exactly those characters.
#[verifier::external_body]
fn string_from_chars(chars: Vec<char>) -> (r: String)
    ensures
        r@ == chars@,
{
    chars.into_iter().collect()
}

/// The input split at every newline; always at least one line, and an
/// input without newlines is a single line.
pub open spec fn split_lines(s: Seq<char>) -> Seq<Seq<char>>
    decreases s.len(),
{
    if s.len() == 0 {
        seq![Seq::<char>::empty()]
    } else if s[0] == '\n' {
        seq![Seq::<char>::empty()] + split_lines(s.drop_first())
    } else {
        let rest = split_lines(s.drop_first());
        seq![seq![s[0]] + rest[0]] + rest.drop_first()
    }
}

pub proof fn lemma_split_lines_nonempty(s: Seq<char>)
    ensures
        split_lines(s).len() >= 1,
    decreases s.len(),
{
    if s.len() != 0 {
        lemma_split_lines_nonempty(s.drop_first());
    }
}

/// The widest displayed width among the lines.
pub open spec fn spec_max_width(lines: Seq<Seq<char>>) -> nat
    decreases lines.len(),
{
    if lines.len() == 0 {
        0
    } else {
        let prev = spec_max_width(lines.drop_last());
        if display_width(lines.last()) > prev {
            display_width(lines.last())
        } else {
            prev
        }
    }
}

pub proof fn lemma_max_width_ge(lines: Seq<Seq<char>>, i: int)
    requires
        0 <= i < lines.len(),
    ensures
        display_width(lines[i]) <= spec_max_width(lines),
    decreases lines.len(),
{
    if i < lines.len() - 1 {
        lemma_max_width_ge(lines.drop_last(), i);
    }
}

/// A horizontal border: `+`, dashes across the inner width, `+`, and a
/// line break.
pub open spec fn spec_border(max: nat) -> Seq<char>
    recommends
        max >= 2,
{
    seq!['+'] + repeat_char('-', (max - 2) as nat) + seq!['+', '\n']
}

/// One framed content line: the text centered between space padding,
/// with a one-column bar on each side.
pub open spec fn spec_row(line: Seq<char>, max: nat) -> Seq<char>
    recommends
        display_width(line) + 22 <= max,
{
    let w = display_width(line);
    let left = (max - w - 2) / 2;
    let right = (max - w - left - 2) as nat;
    seq!['|'] + repeat_char(' ', left as nat) + line + repeat_char(' ', right) + seq!['|', '\n']
}

pub open spec fn spec_rows(lines: Seq<Seq<char>>, max: nat) -> Seq<char>
    decreases lines.len(),
{
    if lines.len() == 0 {
        Seq::<char>::empty()
    } else {
        spec_row(lines[0], max) + spec_rows(lines.drop_first(), max)
    }
}

/// The whole banner: border, one framed row per line, border.  The
/// inner width leaves eleven columns of margin on each side of the
/// widest line.
pub open spec fn spec_render(lines: Seq<Seq<char>>) -> Seq<char> {
    let max = spec_max_width(lines) + 22;
    spec_border(max) + spec_rows(lines, max) + spec_border(max)
}

/// The views of a vector of character vectors.
pub open spec fn views_of(lines: Seq<Vec<char>>) -> Seq<Seq<char>> {
    lines.map(|i: int, v: Vec<char>| v@)
}

/// `prepend` glued onto the first of the given lines.
spec fn prepend_first(p: Seq<char>, lines: Seq<Seq<char>>) -> Seq<Seq<char>>
    recommends
        lines.len() >= 1,
{
    seq![p + lines[0]] + lines.drop_first()
}

/// Splits the characters at every newline.
fn split_chars_lines(chars: &Vec<char>) -> (r: Vec<Vec<char>>)
    ensures
        views_of(r@) == split_lines(chars@),
        r@.len() >= 1,
        forall|i: int| 0 <= i < r@.len() ==> (#[trigger] r@[i])@.len() <= chars@.len(),
{
    let n = chars.len();
    let mut done: Vec<Vec<char>> = Vec::new();
    let mut cur: Vec<char> = Vec::new();
    proof {
        lemma_split_lines_nonempty(chars@);
        assert(chars@.subrange(0, n as int) =~= chars@);
        let sp = split_lines(chars@);
        assert(views_of(done@) + prepend_first(cur@, sp) =~~= sp);
    }
    for pos in 0..n
        invariant
            n == chars@.len(),
            split_lines(chars@) == views_of(done@) + prepend_first(
                cur@,
                split_lines(chars@.subrange(pos as int, n as int)),
            ),
            cur@.len() <= pos,
            forall|i: int| 0 <= i < done@.len() ==> (#[trigger] done@[i])@.len() <= chars@.len(),
    {
        proof {
            let rem = chars@.subrange(pos as int, n as int);
            let rest = chars@.subrange(pos as int + 1, n as int);
            assert(rem.len() > 0);
            assert(rem[0] == chars@[pos as int]);
            assert(rem.drop_first() =~= rest);
            lemma_split_lines_nonempty(rest);
        }
        let c = chars[pos];
        if c == '\n' {
            let finished = cur;
            cur = Vec::new();
            done.push(finished);
            proof {
                let rest = chars@.subrange(pos as int + 1, n as int);
                let sp = split_lines(rest);
                assert(views_of(done@) =~= views_of(done@.drop_last()) + seq![finished@]);
                assert(prepend_first(finished@, seq![Seq::<char>::empty()] + sp) =~~= seq![
                    finished@,
                ] + sp);
                assert(prepend_first(cur@, sp) =~~= sp);
                assert(views_of(done@) + prepend_first(cur@, sp) =~~= (views_of(
                    done@.drop_last(),
                ) + prepend_first(finished@, seq![Seq::<char>::empty()] + sp)));
            }
        } else {
            let ghost old_cur = cur@;
            cur.push(c);
            proof {
                let rest = chars@.subrange(pos as int + 1, n as int);
                let sp = split_lines(rest);
                assert(prepend_first(old_cur, seq![seq![c] + sp[0]] + sp.drop_first())
                    =~~= prepend_first(cur@, sp));
            }
        }
    }
    proof {
        let rem = chars@.subrange(n as int, n as int);
        assert(rem =~= Seq::<char>::empty());
        assert(split_lines(rem) =~~= seq![Seq::<char>::empty()]);
        assert(prepend_first(cur@, split_lines(rem)) =~~= seq![cur@]);
    }
    done.push(cur);
    proof {
        assert(views_of(done@) =~= views_of(done@.drop_last()) + seq![done@.last()@]);
        assert(views_of(done@) =~~= split_lines(chars@));
    }
    done
}

/// Appends `n` copies of a character.
fn push_repeat(out: &mut Vec<char>, c: char, n: usize)
    ensures
        final(out)@ == old(out)@ + repeat_char(c, n as nat),
{
    for i in 0..n
        invariant
            out@ =~= old(out)@ + repeat_char(c, i as nat),
    {
        out.push(c);
        proof {
            assert(out@ =~= old(out)@ + repeat_char(c, i as nat + 1));
        }
    }
    proof {
        assert(final(out)@ =~= old(out)@ + repeat_char(c, n as nat));
    }
}

/// Appends every character of `src`.
fn push_all(out: &mut Vec<char>, src: &Vec<char>)
    ensures
        final(out)@ == old(out)@ + src@,
{
    let n = src.len();
    for i in 0..n
        invariant
            n == src@.len(),
            out@ =~= old(out)@ + src@.subrange(0, i as int),
    {
        out.push(src[i]);
        proof {
            assert(out@ =~= old(out)@ + src@.subrange(0, i as int + 1));
        }
    }
    proof {
        assert(src@.subrange(0, n as int) =~= src@);
    }
}

/// Renders the title inside a box: a dashed border above and below,
/// each line centered by displayed width, with eleven columns of
/// margin around the widest line.
pub fn hr(title: &str) -> (r: String)
    requires
        title@.len() <= 0x400_0000,
    ensures
        r@ == spec_render(split_lines(title@)),
{
    let chars = chars_of(title);
    let lines = split_chars_lines(&chars);
    let ghost views = views_of(lines@);

    let mut max_width: usize = 0;
    let ln = lines.len();
    for i in 0..ln
        invariant
            ln == lines@.len(),
            views == views_of(lines@),
            chars@.len() <= 0x400_0000,
            forall|k: int| 0 <= k < lines@.len() ==> (#[trigger] lines@[k])@.len() <= chars@.len(),
            max_width == spec_max_width(views.subrange(0, i as int)),
            max_width <= 3 * chars@.len(),
    {
        let w = display_width_of(&lines[i]);
        if w > max_width {
            max_width = w;
        }
        proof {
            let pre = views.subrange(0, i as int);
            let post = views.subrange(0, i as int + 1);
            assert(post.drop_last() =~= pre);
            assert(post.last() == views[i as int]);
        }
    }
    proof {
        assert(views.subrange(0, views.len() as int) =~= views);
    }
    let max_length = max_width + 22;
    let ghost m = max_length as nat;

    let mut out: Vec<char> = Vec::new();
    out.push('+');
    push_repeat(&mut out, '-', max_length - 2);
    out.push('+');
    out.push('\n');
    proof {
        assert(out@ =~= spec_border(m));
    }

    for i in 0..ln
        invariant
            ln == lines@.len(),
            views == views_of(lines@),
            m == max_length as nat,
            max_length == max_width + 22,
            max_width == spec_max_width(views),
            out@ =~= spec_border(m) + spec_rows(views.subrange(0, i as int), m),
    {
        proof {
            lemma_max_width_ge(views, i as int);
        }
        let ghost before = out@;
        let w = display_width_of(&lines[i]);
        let left = (max_length - w - 2) / 2;
        let right = max_length - w - left - 2;
        out.push('|');
        push_repeat(&mut out, ' ', left);
        push_all(&mut out, &lines[i]);
        push_repeat(&mut out, ' ', right);
        out.push('|');
        out.push('\n');
        proof {
            assert(out@ =~= before + spec_row(views[i as int], m));
            let pre = views.subrange(0, i as int);
            let post = views.subrange(0, i as int + 1);
            assert(post =~= pre.push(views[i as int]));
            lemma_rows_snoc(pre, views[i as int], m);
            assert(out@ =~= spec_border(m) + spec_rows(post, m));
        }
    }
    proof {
        assert(views.subrange(0, views.len() as int) =~= views);
    }
    let ghost before_final = out@;
    out.push('+');
    push_repeat(&mut out, '-', max_length - 2);
    out.push('+');
    out.push('\n');
    proof {
        assert(out@ =~= before_final + spec_border(m));
        assert(out@ =~= spec_render(split_lines(title@)));
    }
    string_from_chars(out)
}

/// Appending one line to a rendered block appends its single row.
proof fn lemma_rows_snoc(lines: Seq<Seq<char>>, line: Seq<char>, max: nat)
    ensures
        spec_rows(lines.push(line), max) == spec_rows(lines, max) + spec_row(line, max),
    decreases lines.len(),
{
    if lines.len() == 0 {
        assert(lines.push(line)[0] == line);
        assert(lines.push(line).drop_first() =~= Seq::<Seq<char>>::empty());
        assert(spec_rows(Seq::<Seq<char>>::empty(), max) == Seq::<char>::empty());
        assert(spec_row(line, max) + Seq::<char>::empty() =~= spec_row(line, max));
        assert(spec_rows(lines.push(line), max) =~= spec_row(line, max));
        assert(spec_rows(lines, max) + spec_row(line, max) =~= spec_row(line, max));
    } else {
        lemma_rows_snoc(lines.drop_first(), line, max);
        assert(lines.push(line).drop_first() =~= lines.drop_first().push(line));
        assert(lines.push(line)[0] == lines[0]);
        assert(spec_rows(lines.push(line), max) =~= spec_row(lines[0], max) + spec_rows(
            lines.drop_first().push(line),
            max,
        ));
        assert(spec_row(lines[0], max) + (spec_rows(lines.drop_first(), max) + spec_row(
            line,
            max,
        )) =~= (spec_row(lines[0], max) + spec_rows(lines.drop_first(), max)) + spec_row(
            line,
            max,
        ));
    }
}

} // verus!
