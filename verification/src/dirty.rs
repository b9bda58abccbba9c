//! Whether the exported image is behind the artwork.
use vstd::prelude::*;

verus! {

/// What can change that, once it has taken effect.
#[derive(Clone, Copy, Debug, PartialEq, Eq, Structural)]
pub enum DirtyEvent {
    /// A document was opened, or its canvas was restored in place.
    Opened { restored: bool },
    /// An edit or a move through the history is shown.
    ArtworkAdopted { changed: bool },
    /// A transform draft, or its end, is shown.
    TransformAdopted { committed: bool },
    /// A drain that closed a stroke is published.
    StrokeClosed,
    /// An editor command is published.
    CommandPublished { artwork_changed: bool },
    /// Used sizes and colours are published.
    UsagePublished,
    /// The writer has taken a save.
    SaveAccepted,
}

impl DirtyEvent {
    /// The event changed artwork.
    pub open spec fn marks(self) -> bool {
        match self {
            DirtyEvent::ArtworkAdopted { changed } => changed,
            DirtyEvent::TransformAdopted { committed } => committed,
            DirtyEvent::StrokeClosed => true,
            DirtyEvent::CommandPublished { artwork_changed } => artwork_changed,
            _ => false,
        }
    }

    /// The image will hold all artwork so far, or there is none yet.
    pub open spec fn clears(self) -> bool {
        match self {
            DirtyEvent::Opened { restored } => !restored,
            DirtyEvent::SaveAccepted => true,
            _ => false,
        }
    }
}

pub open spec fn dirty_after(dirty: bool, event: DirtyEvent) -> bool {
    if event.marks() {
        true
    } else if event.clears() {
        false
    } else {
        dirty
    }
}

/// Whether the image is behind after an event.
pub fn next_dirty(dirty: bool, event: DirtyEvent) -> (r: bool)
    ensures
        r == dirty_after(dirty, event),
{
    match event {
        DirtyEvent::Opened { restored } => restored && dirty,
        DirtyEvent::ArtworkAdopted { changed } => dirty || changed,
        DirtyEvent::TransformAdopted { committed } => dirty || committed,
        DirtyEvent::StrokeClosed => true,
        DirtyEvent::CommandPublished { artwork_changed } => dirty || artwork_changed,
        DirtyEvent::UsagePublished => dirty,
        DirtyEvent::SaveAccepted => false,
    }
}

/// Whether the image is behind after a row of events.
pub open spec fn dirty_after_all(dirty: bool, events: Seq<DirtyEvent>) -> bool
    decreases events.len(),
{
    if events.len() == 0 {
        dirty
    } else {
        dirty_after(dirty_after_all(dirty, events.drop_last()), events.last())
    }
}

/// No event from this place on clears.
pub open spec fn never_cleared_from(events: Seq<DirtyEvent>, from: int) -> bool {
    forall|i: int| from <= i < events.len() ==> !(#[trigger] events[i]).clears()
}

/// The image is behind exactly where artwork changed and no save was accepted
/// since, or where it was behind before and none was accepted at all.
pub proof fn dirty_until_a_save_is_accepted(dirty: bool, events: Seq<DirtyEvent>)
    ensures
        dirty_after_all(dirty, events) <==> {
            ||| dirty && never_cleared_from(events, 0)
            ||| exists|i: int|
                0 <= i < events.len() && (#[trigger] events[i]).marks() && never_cleared_from(
                    events,
                    i,
                )
        },
    decreases events.len(),
{
    if events.len() > 0 {
        let before = events.drop_last();
        let last = events.len() - 1;
        dirty_until_a_save_is_accepted(dirty, before);
        assert forall|from: int| 0 <= from <= last && never_cleared_from(events, from) implies
            never_cleared_from(before, from) && !events[last].clears() by {
            assert forall|i: int| from <= i < before.len() implies !(
            #[trigger] before[i]).clears() by {
                assert(before[i] == events[i]);
            }
        }
        assert forall|from: int|
            0 <= from <= last && never_cleared_from(before, from) && !events[last].clears() implies
            never_cleared_from(events, from) by {
            assert forall|i: int| from <= i < events.len() implies !(
            #[trigger] events[i]).clears() by {
                if i < last {
                    assert(before[i] == events[i]);
                }
            }
        }
        if events[last].marks() {
            assert(never_cleared_from(events, last));
            assert(events[last].marks());
        } else if dirty_after_all(dirty, events) {
            assert(!events[last].clears());
            if !(dirty && never_cleared_from(before, 0)) {
                let i = choose|i: int|
                    0 <= i < before.len() && (#[trigger] before[i]).marks() && never_cleared_from(
                        before,
                        i,
                    );
                assert(events[i] == before[i]);
                assert(never_cleared_from(events, i));
            }
        } else {
            assert forall|i: int|
                0 <= i < events.len() && (#[trigger] events[i]).marks() implies !never_cleared_from(
                events,
                i,
            ) by {
                if never_cleared_from(events, i) {
                    assert(before[i] == events[i]);
                    assert(never_cleared_from(before, i));
                }
            }
        }
    }
}

/// Usage alone, and work that changed no artwork, leave a clean image clean.
pub proof fn usage_alone_stays_clean(events: Seq<DirtyEvent>)
    requires
        forall|i: int| 0 <= i < events.len() ==> !(#[trigger] events[i]).marks(),
    ensures
        !dirty_after_all(false, events),
{
    dirty_until_a_save_is_accepted(false, events);
}

} // verus!
