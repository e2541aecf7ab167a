//! Read-only view over shaped glyph output.
//!
//! A shaping call deposits its result into two parallel arrays: one of
//! identity records and one of placement records, with one entry of each per
//! glyph. [`Glyphs`] is a borrowed, bounds-checked projection of those two
//! arrays; [`Glyph`] pairs the two records of one entry; [`GlyphIterator`]
//! walks the view from the start, yielding each entry once, in index order.

use vstd::prelude::*;

verus! {

/// One glyph-identity record, as the engine lays it out: the `codepoint`
/// field holds a raw Unicode code point before shaping and an opaque glyph
/// index after it.
#[derive(Copy, Clone, Debug, PartialEq, Eq, Structural)]
pub struct GlyphInfo {
    pub codepoint: u32,
    pub mask: u32,
    pub cluster: u32,
}

/// One glyph-placement record; every field is a 16.16 fixed-point length in
/// the engine's wire format.
#[derive(Copy, Clone, Debug, PartialEq, Eq, Structural)]
pub struct GlyphPosition {
    pub x_advance: i32,
    pub y_advance: i32,
    pub x_offset: i32,
    pub y_offset: i32,
}

/// Whether `v` is a Unicode scalar value, and hence the value of a `char`:
/// any code point outside the surrogate range and at most `0x10FFFF`.
pub open spec fn is_scalar_value(v: u32) -> bool {
    (v < 0xD800 || 0xE000 <= v) && v <= 0x10FFFF
}

/// Relies on `char::from_u32` of std: it returns the `char` with the given
/// code point when that value is a Unicode scalar value, and `None` for a
/// surrogate or a value above `0x10FFFF`.
pub assume_specification[ char::from_u32 ](i: u32) -> (r: Option<char>)
    ensures
        r is Some <==> is_scalar_value(i),
        r matches Some(c) ==> c == i as char && c as u32 == i,
;

/// A borrowed, read-only view over the two parallel record arrays of one
/// shaping result, narrowed to its first `len` entries.
///
/// The view owns nothing: copying it duplicates the borrows and the count,
/// not the records. `len` never exceeds the length of either array.
#[derive(Copy, Clone)]
pub struct Glyphs<'a> {
    infos: &'a [GlyphInfo],
    positions: &'a [GlyphPosition],
    len: usize,
}

/// One entry of a [`Glyphs`] view: the identity record and the placement
/// record of a single shaped glyph, borrowed from the underlying arrays.
#[derive(Copy, Clone)]
pub struct Glyph<'a> {
    info: &'a GlyphInfo,
    position: &'a GlyphPosition,
}

/// A cursor over a [`Glyphs`] view, yielding entry 0, then 1, and so on,
/// each exactly once, until the view's length is reached.
pub struct GlyphIterator<'a> {
    glyphs: Glyphs<'a>,
    pos: usize,
}

impl<'a> Glyphs<'a> {
    /// The identity records the view was built over.
    pub closed spec fn infos_seq(self) -> Seq<GlyphInfo> {
        self.infos@
    }

    /// The placement records the view was built over.
    pub closed spec fn positions_seq(self) -> Seq<GlyphPosition> {
        self.positions@
    }

    /// The number of entries the view exposes.
    pub closed spec fn spec_len(self) -> int {
        self.len as int
    }

    /// Both arrays reach at least to the view's length.
    pub open spec fn wf(self) -> bool {
        0 <= self.spec_len()
        && self.spec_len() <= self.infos_seq().len()
        && self.spec_len() <= self.positions_seq().len()
    }

    /// The entries of the view, in index order: the `i`-th entry pairs the
    /// `i`-th identity record with the `i`-th placement record.
    pub open spec fn spec_entries(self) -> Seq<(GlyphInfo, GlyphPosition)> {
        Seq::new(self.spec_len() as nat, |i: int| (self.infos_seq()[i], self.positions_seq()[i]))
    }

    /// Build a view over the first `len` entries of two parallel record
    /// arrays. The caller vouches that both arrays hold at least `len`
    /// records of the same shaping result.
    pub fn from_raw(infos: &'a [GlyphInfo], positions: &'a [GlyphPosition], len: usize) -> (g:
        Glyphs<'a>)
        requires
            len <= infos@.len(),
            len <= positions@.len(),
        ensures
            g.wf(),
            g.infos_seq() == infos@,
            g.positions_seq() == positions@,
            g.spec_len() == len,
    {
        Glyphs { infos, positions, len }
    }

    /// The number of entries in the view.
    pub fn len(&self) -> (r: usize)
        ensures
            r == self.spec_len(),
    {
        self.len
    }

    /// The entry at `idx`, when there is one: every index below the view's
    /// length yields its entry, and every other index yields `None`.
    pub fn get(&self, idx: usize) -> (r: Option<Glyph<'a>>)
        requires
            self.wf(),
        ensures
            r is Some <==> idx < self.spec_len(),
            r matches Some(g) ==> {
                &&& g.spec_info() == self.infos_seq()[idx as int]
                &&& g.spec_position() == self.positions_seq()[idx as int]
            },
    {
        if idx < self.len {
            Some(self.get_unchecked(idx))
        } else {
            None
        }
    }

    /// The entry at `idx`, for an index the caller has already bounded by
    /// the view's length.
    pub fn get_unchecked(&self, idx: usize) -> (g: Glyph<'a>)
        requires
            self.wf(),
            idx < self.spec_len(),
        ensures
            g.spec_info() == self.infos_seq()[idx as int],
            g.spec_position() == self.positions_seq()[idx as int],
    {
        Glyph { info: &self.infos[idx], position: &self.positions[idx] }
    }

    /// A fresh cursor over the view, standing before entry 0. Cursors are
    /// independent: each derived one starts at the beginning.
    pub fn into_iter(self) -> (it: GlyphIterator<'a>)
        ensures
            it.spec_glyphs() == self,
            it.spec_pos() == 0,
    {
        GlyphIterator { glyphs: self, pos: 0 }
    }

    /// Every entry of the view, read through the cursor in one pass: the
    /// result lists, in index order, exactly the record pairs the view
    /// exposes.
    pub fn to_records(&self) -> (r: Vec<(GlyphInfo, GlyphPosition)>)
        requires
            self.wf(),
        ensures
            r@ == self.spec_entries(),
    {
        let mut out: Vec<(GlyphInfo, GlyphPosition)> = Vec::new();
        let mut it = self.into_iter();
        loop
            invariant
                self.wf(),
                it.wf(),
                it.spec_glyphs() == *self,
                0 <= it.spec_pos() <= self.spec_len(),
                out@.len() == it.spec_pos(),
                forall|i: int|
                    0 <= i < out@.len() ==> out@[i] == #[trigger] self.spec_entries()[i],
            ensures
                out@.len() == self.spec_len(),
                forall|i: int|
                    0 <= i < out@.len() ==> out@[i] == #[trigger] self.spec_entries()[i],
            decreases self.spec_len() - it.spec_pos(),
        {
            match it.next() {
                Some(g) => {
                    out.push((*g.raw_info(), *g.raw_position()));
                },
                None => {
                    break;
                },
            }
        }
        proof {
            assert(out@ =~= self.spec_entries());
        }
        out
    }
}

/// What a walk of `g` starting with the cursor at `pos` yields, step by
/// step as [`GlyphIterator::next`] behaves: below the view's length the
/// entry at the cursor followed by the rest of the walk, at the length
/// nothing.
pub open spec fn spec_yield<'a>(g: Glyphs<'a>, pos: int) -> Seq<(GlyphInfo, GlyphPosition)>
    decreases g.spec_len() - pos when 0 <= pos <= g.spec_len()
{
    if pos < g.spec_len() {
        seq![(g.infos_seq()[pos], g.positions_seq()[pos])] + spec_yield(g, pos + 1)
    } else {
        Seq::empty()
    }
}

proof fn lemma_yield_from<'a>(g: Glyphs<'a>, pos: int)
    requires
        g.wf(),
        0 <= pos <= g.spec_len(),
    ensures
        spec_yield(g, pos) == g.spec_entries().skip(pos),
    decreases g.spec_len() - pos,
{
    if pos < g.spec_len() {
        lemma_yield_from(g, pos + 1);
        assert(spec_yield(g, pos) =~= g.spec_entries().skip(pos));
    } else {
        assert(spec_yield(g, pos) =~= g.spec_entries().skip(pos));
    }
}

/// Walking a well-formed view from a fresh cursor yields exactly the view's
/// entries: one per index, in increasing index order, the `i`-th yielded
/// pair being the records that `get(i)` hands out. Since each step is fixed
/// by the cursor's state alone, any two cursors derived from the same view
/// yield this same sequence.
pub proof fn lemma_iteration_yields_entries<'a>(g: Glyphs<'a>)
    requires
        g.wf(),
    ensures
        spec_yield(g, 0) == g.spec_entries(),
        spec_yield(g, 0).len() == g.spec_len(),
        forall|i: int|
            0 <= i < g.spec_len() ==> #[trigger] spec_yield(g, 0)[i] == (
            g.infos_seq()[i],
            g.positions_seq()[i],
            ),
{
    lemma_yield_from(g, 0);
    assert(g.spec_entries().skip(0) =~= g.spec_entries());
}

impl<'a> Glyph<'a> {
    /// The identity record this entry points at.
    pub closed spec fn spec_info(self) -> GlyphInfo {
        *self.info
    }

    /// The placement record this entry points at.
    pub closed spec fn spec_position(self) -> GlyphPosition {
        *self.position
    }

    /// Either a Unicode code point (before shaping) or a glyph index (after
    /// shaping); a raw field read.
    pub fn id(&self) -> (r: u32)
        ensures
            r == self.spec_info().codepoint,
    {
        self.info.codepoint
    }

    /// Reinterpret [`Glyph::id`] as a Unicode code point: the corresponding
    /// `char` when the value is a Unicode scalar value, and `None` when it
    /// is not — as for a glyph index reused after shaping.
    pub fn to_char(&self) -> (r: Option<char>)
        ensures
            r is Some <==> is_scalar_value(self.spec_info().codepoint),
            r matches Some(c) ==> c as u32 == self.spec_info().codepoint,
    {
        char::from_u32(self.info.codepoint)
    }

    /// The horizontal advance, in the engine's 16.16 fixed-point form.
    pub fn x_advance(&self) -> (r: i32)
        ensures
            r == self.spec_position().x_advance,
    {
        self.position.x_advance
    }

    /// The vertical advance, in the engine's 16.16 fixed-point form.
    pub fn y_advance(&self) -> (r: i32)
        ensures
            r == self.spec_position().y_advance,
    {
        self.position.y_advance
    }

    /// The horizontal offset, in the engine's 16.16 fixed-point form.
    pub fn x_offset(&self) -> (r: i32)
        ensures
            r == self.spec_position().x_offset,
    {
        self.position.x_offset
    }

    /// The vertical offset, in the engine's 16.16 fixed-point form.
    pub fn y_offset(&self) -> (r: i32)
        ensures
            r == self.spec_position().y_offset,
    {
        self.position.y_offset
    }

    /// Direct read-only access to the identity record.
    pub fn raw_info(&self) -> (r: &'a GlyphInfo)
        ensures
            *r == self.spec_info(),
    {
        self.info
    }

    /// Direct read-only access to the placement record.
    pub fn raw_position(&self) -> (r: &'a GlyphPosition)
        ensures
            *r == self.spec_position(),
    {
        self.position
    }
}

impl<'a> GlyphIterator<'a> {
    /// The view this cursor walks.
    pub closed spec fn spec_glyphs(self) -> Glyphs<'a> {
        self.glyphs
    }

    /// The index of the entry the cursor stands before.
    pub closed spec fn spec_pos(self) -> int {
        self.pos as int
    }

    /// The cursor never stands past the end of a well-formed view.
    pub open spec fn wf(self) -> bool {
        self.spec_glyphs().wf() && 0 <= self.spec_pos() <= self.spec_glyphs().spec_len()
    }

    /// One step of the walk: below the view's length it yields the entry at
    /// the cursor and moves the cursor forward by one; at the length it
    /// yields nothing and leaves the cursor in place.
    pub fn next(&mut self) -> (r: Option<Glyph<'a>>)
        requires
            old(self).wf(),
        ensures
            final(self).wf(),
            final(self).spec_glyphs() == old(self).spec_glyphs(),
            old(self).spec_pos() < old(self).spec_glyphs().spec_len() ==> {
                &&& final(self).spec_pos() == old(self).spec_pos() + 1
                &&& r matches Some(g) && g.spec_info() == old(self).spec_glyphs().infos_seq()[old(
                    self,
                ).spec_pos()] && g.spec_position() == old(self).spec_glyphs().positions_seq()[old(
                    self,
                ).spec_pos()]
            },
            old(self).spec_pos() == old(self).spec_glyphs().spec_len() ==> {
                &&& r is None
                &&& final(self).spec_pos() == old(self).spec_pos()
            },
    {
        if self.pos == self.glyphs.len {
            return None;
        }
        let glyph = self.glyphs.get_unchecked(self.pos);
        self.pos = self.pos + 1;
        Some(glyph)
    }
}

} // verus!
