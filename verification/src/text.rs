//! Character-exact text building blocks: equality, newline scrubbing,
//! padding and joining, each specified over `Seq<char>`.

use vstd::prelude::*;

verus! {

/// Relies on std's `String::push`: appends the given character to the
/// end of the string.
pub assume_specification[ String::push ](s: &mut String, ch: char)
    ensures
        final(s)@ == old(s)@.push(ch),
;

/// `s` with every newline character replaced by a single space.
pub open spec fn scrub_spec(s: Seq<char>) -> Seq<char> {
    s.map_values(|c: char| if c == '\n' { ' ' } else { c })
}

/// A run of `n` spaces.
pub open spec fn spaces(n: nat) -> Seq<char> {
    Seq::new(n, |i: int| ' ')
}

/// `s` left-justified in a column of width `w`: padded with trailing
/// spaces up to `w` characters, and left untouched when already longer.
pub open spec fn pad_spec(s: Seq<char>, w: nat) -> Seq<char> {
    if s.len() >= w {
        s
    } else {
        s + spaces((w - s.len()) as nat)
    }
}

/// The elements of `parts` in order, with `sep` between neighbours.
pub open spec fn join_spec(parts: Seq<Seq<char>>, sep: Seq<char>) -> Seq<char>
    decreases parts.len(),
{
    if parts.len() == 0 {
        Seq::empty()
    } else if parts.len() == 1 {
        parts[0]
    } else {
        parts[0] + sep + join_spec(parts.drop_first(), sep)
    }
}

/// Character-for-character equality of two string slices.
pub fn str_eq(a: &str, b: &str) -> (r: bool)
    ensures
        r == (a@ == b@),
{
    let na = a.unicode_len();
    let nb = b.unicode_len();
    if na != nb {
        return false;
    }
    let mut i: usize = 0;
    while i < na
        invariant
            i <= na,
            na as nat == a@.len(),
            na as nat == b@.len(),
            forall|k: int| 0 <= k < i ==> a@[k] == b@[k],
        decreases na - i,
    {
        if a.get_char(i) != b.get_char(i) {
            return false;
        }
        i += 1;
    }
    proof {
        assert(a@ =~= b@);
    }
    true
}

/// Copies `s` with every newline character replaced by a single space.
pub fn scrub_newlines(s: &str) -> (r: String)
    ensures
        r@ == scrub_spec(s@),
{
    let n = s.unicode_len();
    let mut r = String::new();
    let mut i: usize = 0;
    while i < n
        invariant
            i <= n,
            n as nat == s@.len(),
            r@ == scrub_spec(s@.subrange(0, i as int)),
        decreases n - i,
    {
        let c = s.get_char(i);
        if c == '\n' {
            r.push(' ');
        } else {
            r.push(c);
        }
        proof {
            assert(scrub_spec(s@.subrange(0, i + 1 as int)) =~= scrub_spec(
                s@.subrange(0, i as int),
            ).push(if s@[i as int] == '\n' { ' ' } else { s@[i as int] }));
        }
        i += 1;
    }
    proof {
        assert(s@.subrange(0, n as int) =~= s@);
    }
    r
}

/// Pads `s` with trailing spaces up to `width` characters; a longer
/// value is returned unchanged.
pub fn pad_to(s: String, width: usize) -> (r: String)
    ensures
        r@ == pad_spec(s@, width as nat),
{
    let ghost orig = s@;
    let mut r = s;
    let mut n = r.as_str().unicode_len();
    if width <= n {
        return r;
    }
    while n < width
        invariant
            orig.len() < width as nat,
            orig.len() <= n <= width,
            n as nat == r@.len(),
            r@ =~= orig + spaces((n - orig.len()) as nat),
        decreases width - n,
    {
        r.push(' ');
        n += 1;
        proof {
            assert(r@ =~= orig + spaces((n - orig.len()) as nat));
        }
    }
    proof {
        assert(r@ =~= pad_spec(orig, width as nat));
    }
    r
}

/// Joins the given strings in order, writing `sep` between neighbours.
pub fn join_with(parts: &Vec<String>, sep: &str) -> (r: String)
    ensures
        r@ == join_spec(parts.deep_view(), sep@),
{
    let mut r = String::new();
    let mut i: usize = 0;
    while i < parts.len()
        invariant
            i <= parts@.len(),
            r@ == join_spec(parts.deep_view().take(i as int), sep@),
        decreases parts@.len() - i,
    {
        if i > 0 {
            r.append(sep);
        }
        r.append(parts[i].as_str());
        proof {
            let dv = parts.deep_view();
            assert(dv.take(i + 1).drop_last() =~= dv.take(i as int));
            assert(dv.take(i + 1).last() == dv[i as int]);
            lemma_join_push(dv.take(i as int), sep@, dv[i as int]);
            assert(dv.take(i + 1) == dv.take(i as int).push(dv[i as int]));
        }
        i += 1;
    }
    proof {
        assert(parts.deep_view().take(parts@.len() as int) =~= parts.deep_view());
    }
    r
}

/// Padding pads exactly and never truncates: the result is exactly `w`
/// wide when `s` fits, holds all of `s` as a prefix either way, and
/// fills the rest with spaces.
pub proof fn lemma_pad_exact(s: Seq<char>, w: nat)
    ensures
        pad_spec(s, w).len() == if s.len() >= w {
            s.len()
        } else {
            w
        },
        pad_spec(s, w).subrange(0, s.len() as int) == s,
        forall|i: int| s.len() <= i < pad_spec(s, w).len() ==> pad_spec(s, w)[i] == ' ',
{
    assert(pad_spec(s, w).subrange(0, s.len() as int) =~= s);
}

/// Scrubbing replaces every newline with a single space and keeps every
/// other character, position for position: no newline survives.
pub proof fn lemma_scrub_no_newline(s: Seq<char>)
    ensures
        scrub_spec(s).len() == s.len(),
        forall|i: int|
            0 <= i < s.len() ==> #[trigger] scrub_spec(s)[i] == (if s[i] == '\n' {
                ' '
            } else {
                s[i]
            }),
        forall|i: int| 0 <= i < s.len() ==> scrub_spec(s)[i] != '\n',
{
    assert forall|i: int| 0 <= i < s.len() implies #[trigger] scrub_spec(s)[i] != '\n' by {
        assert(scrub_spec(s)[i] == if s[i] == '\n' {
            ' '
        } else {
            s[i]
        });
    }
}

/// Appending one more part to a non-empty join appends the separator
/// and then that part.
pub proof fn lemma_join_push(parts: Seq<Seq<char>>, sep: Seq<char>, x: Seq<char>)
    ensures
        join_spec(parts.push(x), sep) == if parts.len() == 0 {
            x
        } else {
            join_spec(parts, sep) + sep + x
        },
    decreases parts.len(),
{
    let whole = parts.push(x);
    if parts.len() == 0 {
        assert(whole.len() == 1);
        assert(whole[0] == x);
    } else if parts.len() == 1 {
        assert(whole.len() == 2);
        assert(whole.drop_first() =~= seq![x]);
        assert(join_spec(whole.drop_first(), sep) == x);
        assert(whole[0] == parts[0]);
        assert(join_spec(parts, sep) == parts[0]);
    } else {
        lemma_join_push(parts.drop_first(), sep, x);
        assert(whole.drop_first() =~= parts.drop_first().push(x));
        assert(whole[0] == parts[0]);
        assert(join_spec(whole, sep) == parts[0] + sep + join_spec(
            parts.drop_first().push(x),
            sep,
        ));
        assert(parts[0] + sep + (join_spec(parts.drop_first(), sep) + sep + x) =~= (parts[0] + sep
            + join_spec(parts.drop_first(), sep)) + sep + x);
    }
}

} // verus!
