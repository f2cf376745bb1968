//! Minimal text formatter for a bar's state.
//!
//! Template syntax, color and unicode handling are collaborators outside
//! this engine. What the engine itself guarantees is how formatting is
//! driven: one line per redraw, holding the prefix, a sixteen-cell gauge
//! filled according to the exact completion ratio, and the message.

use crate::state::ProgressState;
use vstd::arithmetic::div_mod::{lemma_div_is_ordered, lemma_div_multiples_vanish};
use vstd::arithmetic::mul::lemma_mul_inequality;
use vstd::prelude::*;
use vstd::string::{StrSliceExecFns, StringExecFns};

verus! {

/// How many of the sixteen gauge cells are filled for a state: the exact
/// completion ratio scaled to sixteen, truncated.
pub open spec fn spec_cells(st: ProgressState) -> int {
    if st.spec_len() == 0 {
        16
    } else {
        (if st.spec_pos() <= st.spec_len() {
            st.spec_pos()
        } else {
            st.spec_len()
        }) * 16 / st.spec_len() as int
    }
}

/// The characters of the gauge for a state: a prefix of the full gauge.
pub open spec fn spec_gauge(st: ProgressState) -> Seq<char> {
    "################"@.take(spec_cells(st))
}

/// Texts surrounding the formatted gauge. Both are plain text that the
/// owning bar mutates directly.
pub struct Style {
    pub message: String,
    pub prefix: String,
}

/// Index of the first line break in a text, or the text's length when it
/// holds none.
pub open spec fn spec_first_break(s: Seq<char>) -> int
    decreases s.len(),
{
    if s.len() == 0 {
        0
    } else if s[0] == '\n' {
        0
    } else {
        1 + spec_first_break(s.drop_first())
    }
}

/// The text split at line breaks: one entry per line. A break at the very
/// end closes the last line instead of opening an empty one, and an empty
/// text has no lines at all.
pub open spec fn spec_split_lines(s: Seq<char>) -> Seq<Seq<char>>
    decreases s.len(),
{
    if s.len() == 0 {
        Seq::empty()
    } else {
        let i = spec_first_break(s);
        if 0 <= i < s.len() {
            seq![s.take(i)] + spec_split_lines(s.skip(i + 1))
        } else {
            seq![s]
        }
    }
}

/// The first break of a text stands exactly where the scan says: no break
/// before `m`, and a break (or the end) at `m`.
proof fn lemma_first_break_at(t: Seq<char>, m: int)
    requires
        0 <= m <= t.len(),
        forall|k: int| 0 <= k < m ==> t[k] != '\n',
        m < t.len() ==> t[m] == '\n',
    ensures
        spec_first_break(t) == m,
    decreases m,
{
    if t.len() == 0 || m == 0 {
    } else {
        assert(forall|k: int| 0 <= k < m - 1 ==> t.drop_first()[k] != '\n');
        lemma_first_break_at(t.drop_first(), m - 1);
    }
}

/// How one scanned segment relates the split of a suffix to the split of
/// the rest: a break at `i` closes the line `s[start..i]`; the end of the
/// text closes a last line only when one is open.
proof fn lemma_split_step(s: Seq<char>, start: int, i: int)
    requires
        0 <= start <= i <= s.len(),
        forall|j: int| start <= j < i ==> s[j] != '\n',
        i < s.len() ==> s[i] == '\n',
    ensures
        i < s.len() ==> spec_split_lines(s.skip(start)) == seq![s.subrange(start, i)]
            + spec_split_lines(s.skip(i + 1)),
        i == s.len() && start < i ==> spec_split_lines(s.skip(start)) == seq![
            s.subrange(start, i),
        ],
        i == s.len() && start == i ==> spec_split_lines(s.skip(start)) == Seq::<
            Seq<char>,
        >::empty(),
{
    let t = s.skip(start);
    assert(forall|k: int| 0 <= k < i - start ==> t[k] != '\n');
    lemma_first_break_at(t, i - start);
    if i < s.len() {
        assert(t.take(i - start) =~= s.subrange(start, i));
        assert(t.skip(i - start + 1) =~= s.skip(i + 1));
        assert(spec_split_lines(t) =~= seq![s.subrange(start, i)] + spec_split_lines(
            s.skip(i + 1),
        ));
    } else if start < i {
        assert(t =~= s.subrange(start, i));
        assert(spec_split_lines(t) =~= seq![s.subrange(start, i)]);
    }
}

/// Split a text at line breaks into owned lines, exactly as
/// [`spec_split_lines`] says.
pub fn split_lines(s: &str) -> (r: Vec<String>)
    ensures
        r@.len() == spec_split_lines(s@).len(),
        forall|k: int| 0 <= k < r@.len() ==> r@[k]@ == spec_split_lines(s@)[k],
{
    let n: usize = s.unicode_len();
    let mut r: Vec<String> = Vec::new();
    let ghost mut done: Seq<Seq<char>> = Seq::empty();
    let mut start: usize = 0;
    let mut i: usize = 0;
    proof {
        assert(s@.skip(0) =~= s@);
    }
    while i < n
        invariant
            n == s@.len(),
            start <= i <= n,
            forall|j: int| start <= j < i ==> s@[j] != '\n',
            r@.len() == done.len(),
            forall|k: int| 0 <= k < r@.len() ==> r@[k]@ == done[k],
            spec_split_lines(s@) == done + spec_split_lines(s@.skip(start as int)),
        decreases n - i,
    {
        if s.get_char(i) == '\n' {
            let piece: &str = s.substring_char(start, i);
            r.push(piece.to_owned());
            proof {
                lemma_split_step(s@, start as int, i as int);
                done = done.push(s@.subrange(start as int, i as int));
                assert(done + spec_split_lines(s@.skip(i + 1)) =~= spec_split_lines(s@));
            }
            start = i + 1;
        }
        i = i + 1;
    }
    if start < n {
        let piece: &str = s.substring_char(start, n);
        r.push(piece.to_owned());
        proof {
            lemma_split_step(s@, start as int, n as int);
            done = done.push(s@.subrange(start as int, n as int));
            assert(done =~= spec_split_lines(s@));
        }
    } else {
        proof {
            lemma_split_step(s@, start as int, n as int);
            assert(done =~= spec_split_lines(s@));
        }
    }
    r
}

/// The one line formatted for a state: prefix, gauge, message.
pub open spec fn spec_line(sty: Style, st: ProgressState) -> Seq<char> {
    sty.prefix@ + spec_gauge(st) + sty.message@
}

impl Style {
    /// The default style: empty prefix and message.
    pub fn default_bar() -> (s: Style)
        ensures
            s.message@ == Seq::<char>::empty(),
            s.prefix@ == Seq::<char>::empty(),
    {
        Style { message: String::new(), prefix: String::new() }
    }

    /// Append the one line formatted for `st` to `lines`: the prefix, the
    /// gauge filled according to the completion ratio, and the message.
    /// The target's width is handed through to the formatter; this minimal
    /// formatter always emits the fixed-width gauge.
    #[allow(unused_variables)]
    pub fn format_state(&self, st: &ProgressState, lines: &mut Vec<String>, width: u64)
        ensures
            final(lines)@.len() == old(lines)@.len() + 1,
            forall|i: int| 0 <= i < old(lines)@.len() ==> final(lines)@[i] == old(lines)@[i],
            final(lines)@.last()@ == spec_line(*self, *st),
    {
        let full: &str = "################";
        proof {
            reveal_strlit("################");
        }
        let f = st.fraction();
        proof {
            lemma_mul_inequality(f.num as int, f.den as int, 16);
            lemma_div_is_ordered(f.num as int * 16, f.den as int * 16, f.den as int);
            lemma_div_multiples_vanish(16, f.den as int);
        }
        let wide: u128 = f.num as u128 * 16 / f.den as u128;
        let cells: usize = wide as usize;
        let gauge: &str = full.substring_char(0, cells);
        proof {
            assert(gauge@ =~= spec_gauge(*st));
        }
        let line: String = self.prefix.clone().concat(gauge).concat(self.message.as_str());
        lines.push(line);
    }
}

} // verus!
