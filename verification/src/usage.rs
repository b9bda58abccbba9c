//! What one drain of the input lane reports, with its newest-first usage lists.
use vstd::prelude::*;

use crate::document::Rgba;

verus! {

pub const SIZE_SLOTS: usize = 4;

pub const COLOR_SLOTS: usize = 10;

/// The result of one drain. Only accepted `Begin`s leave a trace here.
#[derive(Clone, Copy, Debug, PartialEq, Eq)]
pub struct StrokeDrain {
    pub samples: usize,
    pub artwork_closed: bool,
    /// Sizes of started strokes, newest first.
    pub started_brush_sizes: [Option<u16>; 4],
    /// Colours of started strokes, newest first. Erasing uses none.
    pub started_brush_colors: [Option<Rgba>; 10],
}

/// The position to vacate for `value`: its own, else the last.
pub open spec fn promotion_index<T>(entries: Seq<Option<T>>, value: T) -> int {
    if entries.contains(Some(value)) {
        entries.index_of_first(Some(value))->0
    } else {
        entries.len() - 1
    }
}

/// `entries` with `value` moved, or put, to the front.
pub open spec fn promoted<T>(entries: Seq<Option<T>>, value: T) -> Seq<Option<T>> {
    seq![Some(value)] + entries.remove(promotion_index(entries, value))
}

/// The values of a newest-first list, oldest first.
pub open spec fn oldest_first<T>(entries: Seq<Option<T>>) -> Seq<T>
    decreases entries.len(),
{
    if entries.len() == 0 {
        Seq::empty()
    } else {
        match entries.last() {
            Some(value) => seq![value] + oldest_first(entries.drop_last()),
            None => oldest_first(entries.drop_last()),
        }
    }
}

fn reversed_values<T: Copy>(entries: &[Option<T>]) -> (r: Vec<T>)
    ensures
        r@ == oldest_first(entries@),
{
    let mut values: Vec<T> = Vec::new();
    let mut left: usize = entries.len();
    assert(entries@.take(left as int) =~= entries@);
    while left > 0
        invariant
            left <= entries@.len(),
            values@ + oldest_first(entries@.take(left as int)) == oldest_first(entries@),
        decreases left,
    {
        let ghost shown = entries@.take(left as int);
        let ghost before = values@;
        left = left - 1;
        assert(shown.drop_last() =~= entries@.take(left as int));
        if let Some(value) = entries[left] {
            values.push(value);
            assert(before + (seq![value] + oldest_first(shown.drop_last())) =~= values@
                + oldest_first(shown.drop_last()));
        }
    }
    assert(entries@.take(0) =~= Seq::empty());
    assert(values@ + Seq::<T>::empty() =~= values@);
    values
}

/// No value stands in two places.
pub open spec fn no_repeats<T>(entries: Seq<Option<T>>) -> bool {
    forall|i: int, j: int|
        0 <= i < j < entries.len() && entries[i] is Some ==> #[trigger] entries[i]
            != #[trigger] entries[j]
}

impl Default for StrokeDrain {
    fn default() -> (r: Self)
        ensures
            r.samples == 0,
            !r.artwork_closed,
            r.started_brush_sizes@ == Seq::new(4, |i: int| None::<u16>),
            r.started_brush_colors@ == Seq::new(10, |i: int| None::<Rgba>),
    {
        let r = StrokeDrain {
            samples: 0,
            artwork_closed: false,
            started_brush_sizes: [None; 4],
            started_brush_colors: [None; 10],
        };
        assert(r.started_brush_sizes@ =~= Seq::new(4, |i: int| None::<u16>));
        assert(r.started_brush_colors@ =~= Seq::new(10, |i: int| None::<Rgba>));
        r
    }
}

proof fn lemma_first_occurrence<T>(entries: Seq<Option<T>>, value: T, index: int)
    requires
        0 <= index < entries.len(),
        entries[index] == Some(value),
        forall|i: int| 0 <= i < index ==> entries[i] != Some(value),
    ensures
        promotion_index(entries, value) == index,
{
    entries.index_of_first_ensures(Some(value));
    assert(entries.contains(Some(value)));
}

fn size_position(entries: &[Option<u16>; 4], value: u16) -> (index: usize)
    ensures
        index == promotion_index(entries@, value),
        index < 4,
{
    let mut index: usize = 0;
    while index < SIZE_SLOTS
        invariant
            index <= 4,
            forall|i: int| 0 <= i < index ==> entries@[i] != Some(value),
        decreases 4 - index,
    {
        if entries[index] == Some(value) {
            proof {
                lemma_first_occurrence(entries@, value, index as int);
            }
            return index;
        }
        index = index + 1;
    }
    assert(!entries@.contains(Some(value)));
    SIZE_SLOTS - 1
}

fn color_position(entries: &[Option<Rgba>; 10], value: Rgba) -> (index: usize)
    ensures
        index == promotion_index(entries@, value),
        index < 10,
{
    let mut index: usize = 0;
    while index < COLOR_SLOTS
        invariant
            index <= 10,
            forall|i: int| 0 <= i < index ==> entries@[i] != Some(value),
        decreases 10 - index,
    {
        if entries[index] == Some(value) {
            proof {
                lemma_first_occurrence(entries@, value, index as int);
            }
            return index;
        }
        index = index + 1;
    }
    assert(!entries@.contains(Some(value)));
    COLOR_SLOTS - 1
}

impl StrokeDrain {
    /// The sizes to stage, so that the newest is staged last.
    pub fn used_sizes(&self) -> (r: Vec<u16>)
        ensures
            r@ == oldest_first(self.started_brush_sizes@),
    {
        reversed_values(self.started_brush_sizes.as_slice())
    }

    /// The colours to stage, so that the newest is staged last.
    pub fn used_colors(&self) -> (r: Vec<Rgba>)
        ensures
            r@ == oldest_first(self.started_brush_colors@),
    {
        reversed_values(self.started_brush_colors.as_slice())
    }

    /// Records an accepted `Begin`. The lists stay bounded and newest first.
    pub fn record_brush_begin(&mut self, size: u16, color: Option<Rgba>)
        ensures
            final(self).samples == old(self).samples,
            final(self).artwork_closed == old(self).artwork_closed,
            final(self).started_brush_sizes@ == promoted(old(self).started_brush_sizes@, size),
            match color {
                Some(color) => final(self).started_brush_colors@ == promoted(
                    old(self).started_brush_colors@,
                    color,
                ),
                None => final(self).started_brush_colors == old(self).started_brush_colors,
            },
    {
        let ghost sizes = self.started_brush_sizes@;
        let mut index: usize = size_position(&self.started_brush_sizes, size);
        let ghost start = index as int;
        while index > 0
            invariant
                0 <= index <= start < 4,
                sizes.len() == 4,
                self.started_brush_sizes@.len() == 4,
                forall|i: int|
                    0 <= i < 4 ==> self.started_brush_sizes@[i] == (if index < i <= start {
                        sizes[i - 1]
                    } else {
                        sizes[i]
                    }),
                self.samples == old(self).samples,
                self.artwork_closed == old(self).artwork_closed,
                self.started_brush_colors == old(self).started_brush_colors,
            decreases index,
        {
            self.started_brush_sizes[index] = self.started_brush_sizes[index - 1];
            index = index - 1;
        }
        self.started_brush_sizes[0] = Some(size);
        assert(self.started_brush_sizes@ =~= promoted(sizes, size));
        if let Some(color) = color {
            let ghost colors = self.started_brush_colors@;
            let mut index: usize = color_position(&self.started_brush_colors, color);
            let ghost start = index as int;
            while index > 0
                invariant
                    0 <= index <= start < 10,
                    colors.len() == 10,
                    self.started_brush_colors@.len() == 10,
                    forall|i: int|
                        0 <= i < 10 ==> self.started_brush_colors@[i] == (if index < i <= start {
                            colors[i - 1]
                        } else {
                            colors[i]
                        }),
                    self.samples == old(self).samples,
                    self.artwork_closed == old(self).artwork_closed,
                    self.started_brush_sizes@ == promoted(sizes, size),
                decreases index,
            {
                self.started_brush_colors[index] = self.started_brush_colors[index - 1];
                index = index - 1;
            }
            self.started_brush_colors[0] = Some(color);
            assert(self.started_brush_colors@ =~= promoted(colors, color));
        }
    }
}

/// Recording keeps the length of a list, puts the newest value first and never
/// makes a value appear twice.
pub proof fn recording_keeps_lists_newest_first<T>(entries: Seq<Option<T>>, value: T)
    requires
        entries.len() > 0,
        no_repeats(entries),
    ensures
        promoted(entries, value).len() == entries.len(),
        promoted(entries, value)[0] == Some(value),
        no_repeats(promoted(entries, value)),
{
    let index = promotion_index(entries, value);
    if entries.contains(Some(value)) {
        entries.index_of_first_ensures(Some(value));
    }
    let next = promoted(entries, value);
    assert forall|i: int, j: int|
        0 <= i < j < next.len() && next[i] is Some implies #[trigger] next[i]
        != #[trigger] next[j] by {
        let source_j = if j - 1 < index { j - 1 } else { j };
        assert(next[j] == entries[source_j]);
        if i == 0 {
            if entries[source_j] == Some(value) {
                assert(entries.contains(Some(value)));
                assert(entries[index] == Some(value));
                if source_j < index {
                } else {
                    assert(entries[index] != entries[source_j]);
                }
            }
        } else {
            let source_i = if i - 1 < index { i - 1 } else { i };
            assert(next[i] == entries[source_i]);
        }
    }
}

} // verus!
