use std::ops::Range;
use unicode_segmentation::UnicodeSegmentation;
use unicode_width::UnicodeWidthStr;
use crate::buffer::push_char;
use vstd::prelude::*;

verus! {

/// The extended grapheme clusters of a text, in order.
pub uninterp spec fn grapheme_clusters(s: Seq<char>) -> Seq<Seq<char>>;

/// The number of terminal columns a text takes when printed.
pub uninterp spec fn display_width(s: Seq<char>) -> usize;

/// Relies on `UnicodeSegmentation::graphemes` with extended clusters: the
/// clusters, in order, make up the whole text.
#[verifier::external_body]
fn segment_graphemes(s: &str) -> (r: Vec<String>)
    ensures
        r@.map_values(|g: String| g@) == grapheme_clusters(s@),
        concat_all(r@.map_values(|g: String| g@)) == s@,
{
    s.graphemes(true).map(String::from).collect()
}

/// Relies on `UnicodeWidthStr::width`: the columns that the text occupies.
#[verifier::external_body]
fn text_width(s: &str) -> (r: usize)
    ensures
        r == display_width(s@),
{
    s.width()
}

/// The texts of a sequence of clusters, joined in order.
pub open spec fn concat_all(c: Seq<Seq<char>>) -> Seq<char>
    decreases c.len(),
{
    if c.len() == 0 {
        Seq::empty()
    } else {
        concat_all(c.drop_last()) + c.last()
    }
}

/// The columns a cluster occupies on screen. Clusters the terminal would
/// render narrower than one column (control characters, lone combining
/// marks) still take one column; anything wider than one takes two.
pub open spec fn cluster_width(g: Seq<char>) -> nat {
    if display_width(g) <= 1 {
        1
    } else {
        2
    }
}

/// The display column at which cluster `i` starts: the widths of the
/// clusters before it.
pub open spec fn width_upto(c: Seq<Seq<char>>, i: int) -> nat
    decreases i,
{
    if i <= 0 {
        0
    } else {
        width_upto(c, i - 1) + cluster_width(c[i - 1])
    }
}

/// Whether cluster `j` lies wholly within the columns `[left, right)`.
pub open spec fn fits(c: Seq<Seq<char>>, j: int, left: int, right: int) -> bool {
    left <= width_upto(c, j) && width_upto(c, j) + cluster_width(c[j]) <= right
}

/// The indices, among the first `n` clusters, of those that lie wholly
/// within the columns `[left, right)`, in increasing order.
pub open spec fn visible_indices(c: Seq<Seq<char>>, n: int, left: int, right: int) -> Seq<int>
    decreases n,
{
    if n <= 0 {
        Seq::empty()
    } else if fits(c, n - 1, left, right) {
        visible_indices(c, n - 1, left, right).push(n - 1)
    } else {
        visible_indices(c, n - 1, left, right)
    }
}

/// The text of the first `n` clusters that lie wholly within `[left, right)`.
pub open spec fn visible_text(c: Seq<Seq<char>>, n: int, left: int, right: int) -> Seq<char>
    decreases n,
{
    if n <= 0 {
        Seq::empty()
    } else if fits(c, n - 1, left, right) {
        visible_text(c, n - 1, left, right) + c[n - 1]
    } else {
        visible_text(c, n - 1, left, right)
    }
}

/// `x`, or `usize::MAX` where `x` is larger.
pub open spec fn saturate(x: nat) -> usize {
    if x > usize::MAX {
        usize::MAX
    } else {
        x as usize
    }
}

/// A row of text, held as a sequence of grapheme clusters.
pub struct Line {
    fragments: Vec<String>,
}

impl View for Line {
    type V = Seq<Seq<char>>;

    closed spec fn view(&self) -> Seq<Seq<char>> {
        self.fragments@.map_values(|g: String| g@)
    }
}

impl Line {
    fn grapheme_width(grapheme: &String) -> (r: usize)
        ensures
            r == cluster_width(grapheme@),
    {
        let w = text_width(grapheme.as_str());
        if w <= 1 {
            1
        } else {
            2
        }
    }

    /// An empty line.
    pub fn new() -> (r: Line)
        ensures
            r@ == Seq::<Seq<char>>::empty(),
    {
        let r = Line { fragments: Vec::new() };
        assert(r@ =~= Seq::<Seq<char>>::empty());
        r
    }

    /// Splits `text` into its grapheme clusters.
    pub fn from(text: &str) -> (r: Line)
        ensures
            r@ == grapheme_clusters(text@),
            concat_all(r@) == text@,
    {
        let clusters = segment_graphemes(text);
        Line { fragments: clusters }
    }

    /// The number of grapheme clusters.
    pub fn grapheme_count(&self) -> (r: usize)
        ensures
            r == self@.len(),
    {
        self.fragments.len()
    }

    /// The display column at which cluster `index` starts; past the end, the
    /// width of the whole line. Saturates at `usize::MAX`.
    pub fn width_until(&self, index: usize) -> (r: usize)
        ensures
            r == saturate(width_upto(self@, if index <= self@.len() { index as int } else { self@.len() as int })),
    {
        let n = if index <= self.fragments.len() {
            index
        } else {
            self.fragments.len()
        };
        let mut sum: usize = 0;
        let mut i: usize = 0;
        while i < n
            invariant
                n <= self.fragments@.len(),
                i <= n,
                sum == saturate(width_upto(self@, i as int)),
            decreases n - i,
        {
            let w = Self::grapheme_width(&self.fragments[i]);
            sum = sum.saturating_add(w);
            i = i + 1;
        }
        sum
    }

    /// The text of the clusters that lie wholly within the display columns
    /// `range`; a cluster cut by either edge is left out.
    pub fn get_visible_graphemes(&self, range: Range<usize>) -> (r: String)
        ensures
            r@ == visible_text(self@, self@.len() as int, range.start as int, range.end as int),
    {
        let left = range.start;
        let right = range.end;
        let mut result = String::new();
        let mut pos: usize = 0;
        let mut i: usize = 0;
        while i < self.fragments.len()
            invariant
                i <= self.fragments@.len(),
                pos == width_upto(self@, i as int),
                result@ == visible_text(self@, i as int, left as int, right as int),
                left == range.start,
                right == range.end,
            decreases self.fragments@.len() - i,
        {
            let g = &self.fragments[i];
            match pos.checked_add(Self::grapheme_width(g)) {
                Some(end) => {
                    if left <= pos && end <= right {
                        result.append(g.as_str());
                    }
                    pos = end;
                    i = i + 1;
                },
                None => {
                    proof {
                        assert(self@[i as int] == g@);
                        lemma_nothing_fits_after(self@, i as int, self@.len() as int, left as int, right as int);
                    }
                    return result;
                },
            }
        }
        result
    }

    /// Inserts `ch` as a cluster of its own before cluster `at`; does nothing
    /// where `at` is past the end.
    pub fn insert_char(&mut self, ch: char, at: usize)
        ensures
            at <= old(self)@.len() ==> final(self)@ == old(self)@.insert(at as int, seq![ch]),
            at > old(self)@.len() ==> final(self)@ == old(self)@,
    {
        if at <= self.fragments.len() {
            let mut text = String::new();
            push_char(&mut text, ch);
            proof {
                assert(text@ =~= seq![ch]);
            }
            self.fragments.insert(at, text);
            proof {
                assert(self@ =~= old(self)@.insert(at as int, seq![ch]));
            }
        }
    }

    /// Removes cluster `at`; does nothing where there is none.
    pub fn delete(&mut self, at: usize)
        ensures
            at < old(self)@.len() ==> final(self)@ == old(self)@.remove(at as int),
            at >= old(self)@.len() ==> final(self)@ == old(self)@,
    {
        if at < self.fragments.len() {
            self.fragments.remove(at);
            proof {
                assert(self@ =~= old(self)@.remove(at as int));
            }
        }
    }

    /// Keeps the clusters before `at` and returns the rest as a new line;
    /// where `at` is past the end, keeps all and returns an empty line.
    pub fn split(&mut self, at: usize) -> (r: Line)
        ensures
            at <= old(self)@.len() ==> final(self)@ == old(self)@.subrange(0, at as int) && r@
                == old(self)@.subrange(at as int, old(self)@.len() as int),
            at > old(self)@.len() ==> final(self)@ == old(self)@ && r@ == Seq::<Seq<char>>::empty(),
    {
        if at <= self.fragments.len() {
            let rest = self.fragments.split_off(at);
            let r = Line { fragments: rest };
            proof {
                assert(self@ =~= old(self)@.subrange(0, at as int));
                assert(r@ =~= old(self)@.subrange(at as int, old(self)@.len() as int));
            }
            r
        } else {
            Line::new()
        }
    }

    /// Adds the clusters of `other` after those of this line.
    pub fn append(&mut self, other: &Line)
        ensures
            final(self)@ == old(self)@ + other@,
    {
        let mut tail: Vec<String> = Vec::new();
        let mut i: usize = 0;
        while i < other.fragments.len()
            invariant
                i <= other.fragments@.len(),
                tail@.len() == i,
                forall|k: int| 0 <= k < i ==> (#[trigger] tail@[k])@ == other@[k],
            decreases other.fragments@.len() - i,
        {
            let g = other.fragments[i].clone();
            proof {
                assert(g@ == other@[i as int]);
            }
            tail.push(g);
            i = i + 1;
        }
        let ghost tail_view = tail@;
        self.fragments.append(&mut tail);
        proof {
            assert(self.fragments@ == old(self).fragments@ + tail_view);
            assert(self@ =~= old(self)@ + other@);
        }
    }

    /// The whole text of the line.
    pub fn text(&self) -> (r: String)
        ensures
            r@ == concat_all(self@),
    {
        let mut result = String::new();
        let mut i: usize = 0;
        while i < self.fragments.len()
            invariant
                i <= self.fragments@.len(),
                result@ == concat_all(self@.subrange(0, i as int)),
            decreases self.fragments@.len() - i,
        {
            result.append(self.fragments[i].as_str());
            i = i + 1;
            proof {
                let s = self@.subrange(0, i as int);
                assert(s.drop_last() =~= self@.subrange(0, i - 1));
            }
        }
        proof {
            assert(self@.subrange(0, self@.len() as int) =~= self@);
        }
        result
    }
}

/// Where cluster `i` would end past `usize::MAX`, none of the first `n`
/// clusters from `i` on lies within columns that a `usize` range can name.
proof fn lemma_nothing_fits_after(c: Seq<Seq<char>>, i: int, n: int, left: int, right: int)
    requires
        0 <= i <= n <= c.len(),
        i < c.len(),
        width_upto(c, i) + cluster_width(c[i]) > usize::MAX,
        right <= usize::MAX,
    ensures
        visible_text(c, n, left, right) == visible_text(c, i, left, right),
    decreases n - i,
{
    if n > i {
        lemma_nothing_fits_after(c, i, n - 1, left, right);
        lemma_width_upto_monotone(c, i + 1, n);
    }
}

/// The start column of a later cluster is never smaller.
pub proof fn lemma_width_upto_monotone(c: Seq<Seq<char>>, i: int, j: int)
    requires
        0 <= i <= j,
    ensures
        width_upto(c, i) <= width_upto(c, j),
    decreases j - i,
{
    if i < j {
        lemma_width_upto_monotone(c, i, j - 1);
    }
}

/// Display columns never decrease along a line: for `i <= j <= count`, the
/// column at which cluster `i` starts is at most the one at which cluster `j`
/// starts, both exactly and as `width_until` reports it.
pub proof fn width_until_is_monotone(line: &Line, i: int, j: int)
    requires
        0 <= i <= j <= line@.len(),
    ensures
        width_upto(line@, i) <= width_upto(line@, j),
        saturate(width_upto(line@, i)) <= saturate(width_upto(line@, j)),
{
    lemma_width_upto_monotone(line@, i, j);
}

/// A row clipped to the columns `[left, right)` is the text of the clusters
/// whose whole span lies within those columns, in order: every cluster that
/// shows starts at or after `left` and ends at or before `right`, and every
/// cluster that lies within them shows.
pub proof fn visible_graphemes_fit(line: &Line, left: int, right: int)
    ensures
        ({
            let c = line@;
            let shown = visible_indices(c, c.len() as int, left, right);
            &&& visible_text(c, c.len() as int, left, right) == concat_all(
                shown.map_values(|j: int| c[j]),
            )
            &&& forall|k: int|
                0 <= k < shown.len() ==> 0 <= #[trigger] shown[k] < c.len() && left <= width_upto(
                    c,
                    shown[k],
                ) && width_upto(c, shown[k]) + cluster_width(c[shown[k]]) <= right
            &&& forall|j: int| 0 <= j < c.len() && fits(c, j, left, right) ==> shown.contains(j)
        }),
{
    lemma_visible_prefix(line@, line@.len() as int, left, right);
}

proof fn lemma_visible_prefix(c: Seq<Seq<char>>, n: int, left: int, right: int)
    requires
        0 <= n <= c.len(),
    ensures
        ({
            let shown = visible_indices(c, n, left, right);
            &&& visible_text(c, n, left, right) == concat_all(shown.map_values(|j: int| c[j]))
            &&& forall|k: int|
                0 <= k < shown.len() ==> 0 <= #[trigger] shown[k] < n && fits(c, shown[k], left, right)
            &&& forall|j: int| 0 <= j < n && fits(c, j, left, right) ==> shown.contains(j)
        }),
    decreases n,
{
    if n > 0 {
        lemma_visible_prefix(c, n - 1, left, right);
        let prev = visible_indices(c, n - 1, left, right);
        if fits(c, n - 1, left, right) {
            let shown = prev.push(n - 1);
            assert(shown.map_values(|j: int| c[j]).drop_last() =~= prev.map_values(|j: int| c[j]));
            assert forall|j: int| 0 <= j < n && fits(c, j, left, right) implies shown.contains(j) by {
                if j < n - 1 {
                    assert(prev.contains(j));
                    let k = choose|k: int| 0 <= k < prev.len() && prev[k] == j;
                    assert(shown[k] == j);
                } else {
                    assert(shown[prev.len() as int] == j);
                }
            }
        }
    }
}

} // verus!
