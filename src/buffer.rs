use crate::fileinfo::FileInfo;
use crate::line::{concat_all, Line};
use crate::location::Location;
use vstd::prelude::*;

verus! {

/// Relies on `str::chars`: the characters of the text, in order.
#[verifier::external_body]
fn chars_of(s: &str) -> (r: Vec<char>)
    ensures
        r@ == s@,
{
    s.chars().collect()
}

/// Relies on `String::push`: the character is added at the end.
#[verifier::external_body]
pub(crate) fn push_char(s: &mut String, c: char)
    ensures
        final(s)@ == old(s)@.push(c),
{
    s.push(c)
}

/// The pieces of a text between its `'\n'` characters; the last piece is
/// what follows the last `'\n'`, and may be empty.
pub open spec fn split_at_newlines(s: Seq<char>) -> Seq<Seq<char>>
    decreases s.len(),
{
    if s.len() == 0 {
        seq![Seq::empty()]
    } else {
        let p = split_at_newlines(s.drop_last());
        if s.last() == '\n' {
            p.push(Seq::empty())
        } else {
            p.update(p.len() - 1, p.last().push(s.last()))
        }
    }
}

/// A piece that ended in `"\r\n"` loses its `'\r'`.
pub open spec fn strip_cr(l: Seq<char>) -> Seq<char> {
    if l.len() > 0 && l.last() == '\r' {
        l.drop_last()
    } else {
        l
    }
}

/// The lines of a text: split at each `'\n'` or `"\r\n"`, without the
/// terminators; a final terminator starts no further line.
pub open spec fn lines_of(s: Seq<char>) -> Seq<Seq<char>> {
    let parts = split_at_newlines(s);
    let ended = parts.subrange(0, parts.len() - 1).map_values(|l: Seq<char>| strip_cr(l));
    if parts.last().len() == 0 {
        ended
    } else {
        ended.push(parts.last())
    }
}

/// Each line followed by one `'\n'`, all joined in order.
pub open spec fn join_lines(ls: Seq<Seq<char>>) -> Seq<char>
    decreases ls.len(),
{
    if ls.len() == 0 {
        Seq::empty()
    } else {
        join_lines(ls.drop_last()) + ls.last().push('\n')
    }
}

/// The clusters of each line.
pub open spec fn clusters_of(lines: Seq<Line>) -> Seq<Seq<Seq<char>>> {
    lines.map_values(|l: Line| l@)
}

/// The text of each line.
pub open spec fn texts_of(lines: Seq<Line>) -> Seq<Seq<char>> {
    lines.map_values(|l: Line| concat_all(l@))
}

/// The clusters of line `i`, or none where there is no such line.
pub open spec fn line_at(c: Seq<Seq<Seq<char>>>, i: int) -> Seq<Seq<char>> {
    if 0 <= i < c.len() {
        c[i]
    } else {
        Seq::empty()
    }
}

/// The document `c` after `ch` is inserted at `at`.
pub open spec fn with_char(c: Seq<Seq<Seq<char>>>, at: Location, ch: char) -> Seq<Seq<Seq<char>>> {
    let l = at.line_index as int;
    let g = at.grapheme_index as int;
    if l == c.len() {
        c.push(seq![seq![ch]])
    } else if l < c.len() && g <= c[l].len() {
        c.update(l, c[l].insert(g, seq![ch]))
    } else {
        c
    }
}

/// The document `c` after a delete at `at`: at or past the end of a line
/// that has a successor, the two lines join; within a line, the cluster at
/// `at` goes; anywhere else nothing changes.
pub open spec fn with_deletion(c: Seq<Seq<Seq<char>>>, at: Location) -> Seq<Seq<Seq<char>>> {
    let l = at.line_index as int;
    let g = at.grapheme_index as int;
    if l < c.len() && g >= c[l].len() && l + 1 < c.len() {
        c.update(l, c[l] + c[l + 1]).remove(l + 1)
    } else if l < c.len() && g < c[l].len() {
        c.update(l, c[l].remove(g))
    } else {
        c
    }
}

/// Whether a delete at `at` changes the document `c`.
pub open spec fn deletes_something(c: Seq<Seq<Seq<char>>>, at: Location) -> bool {
    let l = at.line_index as int;
    l < c.len() && (at.grapheme_index < c[l].len() || l + 1 < c.len())
}

/// The document `c` after a line break at `at`: past the last line, an
/// empty line is added; within a line, the clusters from `at` on move to a
/// new line after it (none, where `at` is past the line's end).
pub open spec fn with_newline(c: Seq<Seq<Seq<char>>>, at: Location) -> Seq<Seq<Seq<char>>> {
    let l = at.line_index as int;
    let g = at.grapheme_index as int;
    if l == c.len() {
        c.push(Seq::empty())
    } else if l < c.len() && g <= c[l].len() {
        c.update(l, c[l].subrange(0, g)).insert(l + 1, c[l].subrange(g, c[l].len() as int))
    } else if l < c.len() {
        c.insert(l + 1, Seq::empty())
    } else {
        c
    }
}

/// Whether inserting at `at` changes the document `c`: past the last line
/// it starts a new line; within a line, at a cluster index at most the
/// line's length.
pub open spec fn inserts_at(c: Seq<Seq<Seq<char>>>, at: Location) -> bool {
    let l = at.line_index as int;
    l == c.len() || (l < c.len() && at.grapheme_index <= c[l].len())
}

/// What a save writes, and where.
pub struct SaveRequest {
    pub path: String,
    pub contents: String,
}

/// A document: its lines, where it is stored, and whether it holds changes
/// not yet saved.
pub struct Buffer {
    pub lines: Vec<Line>,
    pub file_info: FileInfo,
    pub dirty: bool,
}

impl Buffer {
    /// The clusters of each line of the document.
    pub open spec fn content(&self) -> Seq<Seq<Seq<char>>> {
        clusters_of(self.lines@)
    }

    /// An empty document with no file.
    pub fn new() -> (r: Buffer)
        ensures
            r.content().len() == 0,
            r.file_info.path is None,
            !r.dirty,
    {
        Buffer { lines: Vec::new(), file_info: FileInfo { path: None }, dirty: false }
    }

    /// The document stored at `filename`, whose text is `contents`: one line
    /// for each line of the text, with no changes to save.
    pub fn load_from(filename: &str, contents: &str) -> (r: Buffer)
        ensures
            texts_of(r.lines@) == lines_of(contents@),
            r.content() == lines_of(contents@).map_values(
                |t: Seq<char>| crate::line::grapheme_clusters(t),
            ),
            r.file_info.path matches Some(p) && p@ == filename@,
            !r.dirty,
    {
        let chars = chars_of(contents);
        let ghost s = contents@;
        let mut lines: Vec<Line> = Vec::new();
        let mut start: usize = 0;
        let mut i: usize = 0;
        while i < chars.len()
            invariant
                chars@ == s,
                start <= i <= s.len(),
                split_at_newlines(s.subrange(0, i as int)).len() == lines@.len() + 1,
                split_at_newlines(s.subrange(0, i as int)).last() == s.subrange(
                    start as int,
                    i as int,
                ),
                forall|k: int|
                    0 <= k < lines@.len() ==> {
                        &&& concat_all((#[trigger] lines@[k])@) == strip_cr(
                            split_at_newlines(s.subrange(0, i as int))[k],
                        )
                        &&& lines@[k]@ == crate::line::grapheme_clusters(
                            strip_cr(split_at_newlines(s.subrange(0, i as int))[k]),
                        )
                    },
            decreases s.len() - i,
        {
            let ghost before = split_at_newlines(s.subrange(0, i as int));
            proof {
                assert(s.subrange(0, i + 1).drop_last() =~= s.subrange(0, i as int));
            }
            if chars[i] == '\n' {
                let end: usize = if i > start && chars[i - 1] == '\r' {
                    i - 1
                } else {
                    i
                };
                let text = Self::text_between(&chars, start, end);
                proof {
                    assert(text@ =~= strip_cr(before.last()));
                }
                lines.push(Line::from(text.as_str()));
                start = i + 1;
                i = i + 1;
                proof {
                    let after = split_at_newlines(s.subrange(0, i as int));
                    assert(after == before.push(Seq::empty()));
                    assert(s.subrange(start as int, i as int) =~= Seq::<char>::empty());
                }
            } else {
                i = i + 1;
                proof {
                    let after = split_at_newlines(s.subrange(0, i as int));
                    assert(after == before.update(before.len() - 1, before.last().push(s[i - 1])));
                    assert(s.subrange(start as int, i as int) =~= s.subrange(
                        start as int,
                        i - 1,
                    ).push(s[i - 1]));
                }
            }
        }
        let ghost parts = split_at_newlines(s);
        proof {
            assert(s.subrange(0, s.len() as int) =~= s);
        }
        if start < chars.len() {
            let text = Self::text_between(&chars, start, chars.len());
            lines.push(Line::from(text.as_str()));
        }
        let r = Buffer { lines, file_info: FileInfo::from(filename), dirty: false };
        proof {
            assert(texts_of(r.lines@) =~= lines_of(s));
            assert(r.content() =~= lines_of(s).map_values(
                |t: Seq<char>| crate::line::grapheme_clusters(t),
            ));
        }
        r
    }

    fn text_between(chars: &Vec<char>, start: usize, end: usize) -> (r: String)
        requires
            start <= end <= chars@.len(),
        ensures
            r@ == chars@.subrange(start as int, end as int),
    {
        let mut r = String::new();
        let mut i: usize = start;
        while i < end
            invariant
                start <= i <= end <= chars@.len(),
                r@ == chars@.subrange(start as int, i as int),
            decreases end - i,
        {
            push_char(&mut r, chars[i]);
            i = i + 1;
            proof {
                assert(r@ =~= chars@.subrange(start as int, i as int));
            }
        }
        r
    }

    pub fn is_empty(&self) -> (r: bool)
        ensures
            r == (self.content().len() == 0),
    {
        self.lines.len() == 0
    }

    /// The number of lines.
    pub fn height(&self) -> (r: usize)
        ensures
            r == self.content().len(),
    {
        self.lines.len()
    }

    /// The number of clusters in line `index`, or zero where there is no
    /// such line.
    pub fn line_length(&self, index: usize) -> (r: usize)
        ensures
            r == line_at(self.content(), index as int).len(),
    {
        if index < self.lines.len() {
            self.lines[index].grapheme_count()
        } else {
            0
        }
    }

    /// The display column at which cluster `at.grapheme_index` of line
    /// `at.line_index` starts, or zero where there is no such line.
    pub fn width_until(&self, at: Location) -> (r: usize)
        ensures
            r == crate::line::saturate(
                crate::line::width_upto(
                    line_at(self.content(), at.line_index as int),
                    if at.grapheme_index <= line_at(self.content(), at.line_index as int).len() {
                        at.grapheme_index as int
                    } else {
                        line_at(self.content(), at.line_index as int).len() as int
                    },
                ),
            ),
    {
        if at.line_index < self.lines.len() {
            self.lines[at.line_index].width_until(at.grapheme_index)
        } else {
            0
        }
    }

    /// Inserts `character` at `at`: past the last line it starts a new line;
    /// within a line it becomes a cluster before `at.grapheme_index`, where
    /// that is at most the line's length. Elsewhere nothing happens. The
    /// document is marked changed only where it changes.
    pub fn insert_char(&mut self, character: char, at: Location)
        ensures
            final(self).content() == with_char(old(self).content(), at, character),
            final(self).dirty == (old(self).dirty || inserts_at(old(self).content(), at)),
            final(self).file_info == old(self).file_info,
    {
        if at.line_index > self.lines.len() {
            return;
        }
        if at.line_index == self.lines.len() {
            let mut line = Line::new();
            line.insert_char(character, 0);
            proof {
                assert(line@ =~= seq![seq![character]]);
            }
            self.lines.push(line);
            self.dirty = true;
            proof {
                assert(self.content() =~= old(self).content().push(seq![seq![character]]));
            }
        } else {
            if at.grapheme_index <= self.lines[at.line_index].grapheme_count() {
                self.lines[at.line_index].insert_char(character, at.grapheme_index);
                self.dirty = true;
            }
            proof {
                assert(self.content() =~= with_char(old(self).content(), at, character));
            }
        }
    }

    /// Deletes at `at`: at or past the end of a line that has a successor,
    /// joins that successor onto it; within a line, removes the cluster at
    /// `at`; anywhere else does nothing.
    pub fn delete(&mut self, at: Location)
        ensures
            final(self).content() == with_deletion(old(self).content(), at),
            final(self).dirty == (old(self).dirty || deletes_something(old(self).content(), at)),
            final(self).file_info == old(self).file_info,
    {
        if at.line_index < self.lines.len() {
            let len = self.lines[at.line_index].grapheme_count();
            if at.grapheme_index >= len && at.line_index + 1 < self.lines.len() {
                let next = self.lines.remove(at.line_index + 1);
                self.lines[at.line_index].append(&next);
                self.dirty = true;
                proof {
                    assert(self.content() =~= with_deletion(old(self).content(), at));
                }
            } else if at.grapheme_index < len {
                self.lines[at.line_index].delete(at.grapheme_index);
                self.dirty = true;
                proof {
                    assert(self.content() =~= with_deletion(old(self).content(), at));
                }
            }
        }
    }

    /// Breaks the line at `at`; past the last line, adds an empty line.
    pub fn insert_newline(&mut self, at: Location)
        ensures
            final(self).content() == with_newline(old(self).content(), at),
            final(self).dirty == (old(self).dirty || at.line_index <= old(self).content().len()),
            final(self).file_info == old(self).file_info,
    {
        if at.line_index == self.lines.len() {
            self.lines.push(Line::new());
            self.dirty = true;
            proof {
                assert(self.content() =~= with_newline(old(self).content(), at));
            }
        } else if at.line_index < self.lines.len() {
            let rest = self.lines[at.line_index].split(at.grapheme_index);
            self.lines.insert(at.line_index + 1, rest);
            self.dirty = true;
            proof {
                assert(self.content() =~= with_newline(old(self).content(), at));
            }
        }
    }

    /// The text a save writes: every line followed by `'\n'`.
    pub fn contents(&self) -> (r: String)
        ensures
            r@ == join_lines(texts_of(self.lines@)),
    {
        let mut result = String::new();
        let mut i: usize = 0;
        while i < self.lines.len()
            invariant
                i <= self.lines@.len(),
                result@ == join_lines(texts_of(self.lines@.subrange(0, i as int))),
            decreases self.lines@.len() - i,
        {
            let ghost before = texts_of(self.lines@.subrange(0, i as int));
            result.append(self.lines[i].text().as_str());
            result.append("\n");
            i = i + 1;
            proof {
                reveal_strlit("\n");
                let now = texts_of(self.lines@.subrange(0, i as int));
                assert(now.drop_last() =~= before);
                assert(result@ =~= join_lines(now));
            }
        }
        proof {
            assert(self.lines@.subrange(0, self.lines@.len() as int) =~= self.lines@);
        }
        result
    }

    /// Where the document has a file, what a save writes there; none where
    /// it has no file.
    pub fn save_request(&self) -> (r: Option<SaveRequest>)
        ensures
            r is None <==> self.file_info.path is None,
            r matches Some(q) ==> (self.file_info.path matches Some(p) && q.path@ == p@)
                && q.contents@ == join_lines(texts_of(self.lines@)),
    {
        match &self.file_info.path {
            Some(p) => Some(SaveRequest { path: p.clone(), contents: self.contents() }),
            None => None,
        }
    }

    /// Records how a save ended: one that succeeded leaves nothing to save;
    /// one that failed leaves the flag as it was.
    pub fn finish_save(&mut self, succeeded: bool)
        ensures
            final(self).dirty == (old(self).dirty && !succeeded),
            final(self).lines == old(self).lines,
            final(self).file_info == old(self).file_info,
    {
        if succeeded {
            self.dirty = false;
        }
    }
}

/// Text without `'\n'`, followed by more such text, adds to the last piece.
proof fn lemma_split_extend(p: Seq<char>, l: Seq<char>)
    requires
        !l.contains('\n'),
    ensures
        split_at_newlines(p + l) == split_at_newlines(p).update(
            split_at_newlines(p).len() - 1,
            split_at_newlines(p).last() + l,
        ),
        split_at_newlines(p + l).len() == split_at_newlines(p).len(),
    decreases l.len(),
{
    lemma_split_nonempty(p);
    if l.len() == 0 {
        assert(p + l =~= p);
        assert(split_at_newlines(p).last() + l =~= split_at_newlines(p).last());
        assert(split_at_newlines(p).update(split_at_newlines(p).len() - 1, split_at_newlines(p).last())
            =~= split_at_newlines(p));
    } else {
        let l0 = l.drop_last();
        assert(!l0.contains('\n')) by {
            if l0.contains('\n') {
                let k = choose|k: int| 0 <= k < l0.len() && l0[k] == '\n';
                assert(l[k] == '\n');
            }
        }
        assert(l[l.len() - 1] != '\n') by {
            if l[l.len() - 1] == '\n' {
                assert(l.contains('\n'));
            }
        }
        lemma_split_extend(p, l0);
        assert((p + l).drop_last() =~= p + l0);
        assert((split_at_newlines(p).last() + l0).push(l.last()) =~= split_at_newlines(p).last() + l);
        lemma_split_nonempty(p + l0);
        assert(split_at_newlines(p + l) =~= split_at_newlines(p).update(
            split_at_newlines(p).len() - 1,
            split_at_newlines(p).last() + l,
        ));
    }
}

proof fn lemma_split_nonempty(s: Seq<char>)
    ensures
        split_at_newlines(s).len() >= 1,
    decreases s.len(),
{
    if s.len() > 0 {
        lemma_split_nonempty(s.drop_last());
    }
}

proof fn lemma_split_joined(ls: Seq<Seq<char>>)
    requires
        forall|i: int| 0 <= i < ls.len() ==> !(#[trigger] ls[i]).contains('\n'),
    ensures
        split_at_newlines(join_lines(ls)) == ls.push(Seq::empty()),
    decreases ls.len(),
{
    if ls.len() == 0 {
        assert(split_at_newlines(Seq::empty()) =~= seq![Seq::<char>::empty()]);
        assert(ls.push(Seq::empty()) =~= seq![Seq::<char>::empty()]);
    } else {
        let prev = ls.drop_last();
        let l = ls.last();
        assert(!l.contains('\n')) by {
            assert(ls[ls.len() - 1] == l);
        }
        lemma_split_joined(prev);
        let p = join_lines(prev);
        lemma_split_extend(p, l);
        assert(join_lines(ls) == (p + l).push('\n'));
        assert((p + l).push('\n').drop_last() =~= p + l);
        assert(Seq::<char>::empty() + l =~= l);
        assert(split_at_newlines(p + l) =~= ls);
        assert(split_at_newlines(join_lines(ls)) =~= ls.push(Seq::empty()));
    }
}

/// Saving and loading again gives back the same lines: for lines that hold
/// no `'\n'` and no `'\r'`, reading the lines of the text that a save
/// writes yields exactly those lines.
pub proof fn load_reads_back_save(ls: Seq<Seq<char>>)
    requires
        forall|i: int| 0 <= i < ls.len() ==> !(#[trigger] ls[i]).contains('\n') && !ls[i].contains('\r'),
    ensures
        lines_of(join_lines(ls)) == ls,
{
    lemma_split_joined(ls);
    let parts = ls.push(Seq::<char>::empty());
    assert(parts.subrange(0, parts.len() - 1) =~= ls);
    assert forall|i: int| 0 <= i < ls.len() implies strip_cr(ls[i]) == ls[i] by {
        if ls[i].len() > 0 && ls[i].last() == '\r' {
            assert(ls[i][ls[i].len() - 1] == '\r');
            assert(ls[i].contains('\r'));
        }
    }
    assert(ls.map_values(|l: Seq<char>| strip_cr(l)) =~= ls);
}

} // verus!
