//! What is kept between sessions: pinned colours, tool settings, used sizes and
//! colours, and the spellings by which a file is known again.
use vstd::prelude::*;

use crate::document::Rgba;
use crate::drawing::DrawingConfig;
use crate::file_path::FilePath;
use crate::palette_preferences::{
    pin_bytes, pins_bytes, settings_path, stored, PaletteNotice, PalettePreferences, Pins,
    StoredPins,
};
use crate::tool_state::{Destinations, Loaded, Pending, ProjectToolState, Store};
use crate::usage::{oldest_first, promoted, promotion_index};
use crate::windows_path::{
    file_name, is_absolute, is_part, is_project, leads_with_dot, marked_verbatim, parts, pieces,
    rooted, same_path, separates, start_of, PathStart,
};

verus! {

/// Pins are stored behind their mark, five bytes each, in their order.
pub proof fn stored_pins_have_their_form(pins: Seq<Option<Rgba>>, at: int)
    requires
        0 <= at < pins.len(),
    ensures
        stored(pins).len() == 8 + 5 * pins.len(),
        stored(pins).take(8) == seq![78u8, 89, 67, 79, 76, 82, 48, 49],
        pins[at] matches Some(color) ==> {
            &&& stored(pins)[8 + 5 * at] == 1
            &&& stored(pins)[9 + 5 * at] == color.red
            &&& stored(pins)[10 + 5 * at] == color.green
            &&& stored(pins)[11 + 5 * at] == color.blue
            &&& stored(pins)[12 + 5 * at] == color.alpha
        },
        pins[at] is None ==> forall|i: int|
            8 + 5 * at <= i < 13 + 5 * at ==> #[trigger] stored(pins)[i] == 0,
{
    lemma_pins(pins, at);
    assert(stored(pins).take(8) =~= seq![78u8, 89, 67, 79, 76, 82, 48, 49]);
    let bytes = pins_bytes(pins);
    let pin = pin_bytes(pins[at]);
    assert forall|i: int| 8 + 5 * at <= i < 13 + 5 * at implies #[trigger] stored(pins)[i] == pin[i
        - 8 - 5 * at] by {
        assert(stored(pins)[i] == bytes[5 * at + (i - 8 - 5 * at)]);
    }
}

proof fn lemma_pins(pins: Seq<Option<Rgba>>, at: int)
    requires
        0 <= at < pins.len(),
    ensures
        pins_bytes(pins).len() == 5 * pins.len(),
        forall|i: int|
            0 <= i < 5 ==> #[trigger] pins_bytes(pins)[5 * at + i] == pin_bytes(pins[at])[i],
    decreases pins.len(),
{
    let before = pins.drop_last();
    let last = pin_bytes(pins.last());
    assert(last.len() == 5);
    if at < before.len() {
        lemma_pins(before, at);
        assert(before[at] == pins[at]);
        assert forall|i: int| 0 <= i < 5 implies #[trigger] pins_bytes(pins)[5 * at + i]
            == pin_bytes(pins[at])[i] by {
            assert(pins_bytes(pins)[5 * at + i] == pins_bytes(before)[5 * at + i]);
        }
    } else {
        if before.len() > 0 {
            lemma_pins(before, 0);
        }
        assert forall|i: int| 0 <= i < 5 implies #[trigger] pins_bytes(pins)[5 * at + i]
            == pin_bytes(pins[at])[i] by {
            assert(pins_bytes(pins)[5 * at + i] == last[i]);
        }
    }
}

/// Pins that were found are shown; pins that could not be read are never
/// written over, and say so.
pub proof fn found_pins_are_shown(
    found: StoredPins,
    started: bool,
    opened: (PalettePreferences, Pins),
)
    requires
        call_ensures(PalettePreferences::open, (found, started), opened),
    ensures
        found matches StoredPins::Found(pins) ==> opened.1.slots@ == pins.slots@,
        !(found is Found) ==> forall|i: int| 0 <= i < 10 ==> #[trigger] opened.1.slots@[i] is None,
        opened.0.writable ==> !(found is Unreadable) && started,
        !(found is Unreadable) && started ==> opened.0.writable && opened.0.notice is None,
        found is Unreadable ==> opened.0.notice == Some(PaletteNotice::NotRead),
        opened.0.pending is None,
{
}

/// Changed pins wait for the writer, the latest alone; the writer takes them
/// once, and a failure to write is said until the next success.
pub proof fn changed_pins_are_written(pins: Pins, succeeded: bool)
    ensures
        forall|preferences: &mut PalettePreferences, wake: bool|
            #[trigger] call_ensures(PalettePreferences::save, (preferences, pins), wake) ==> {
                &&& wake <==> preferences.writable
                &&& wake ==> final(preferences).pending == Some(pins)
                &&& !wake ==> final(preferences).pending == preferences.pending
                &&& final(preferences).notice == preferences.notice
            },
        forall|preferences: &mut PalettePreferences, taken: Option<Pins>|
            #[trigger] call_ensures(PalettePreferences::take_pending, (preferences,), taken) ==> {
                &&& taken == preferences.pending
                &&& final(preferences).pending is None
                &&& final(preferences).writable == preferences.writable
            },
        forall|preferences: &mut PalettePreferences|
            #[trigger] call_ensures(PalettePreferences::written, (preferences, succeeded), ())
                ==> {
                &&& succeeded <==> final(preferences).notice is None
                &&& final(preferences).pending == preferences.pending
            },
{
}

/// The pins are kept in the configured file, else beside the layout, else in
/// the application's directory.
pub proof fn pins_have_their_place(
    configured: Option<FilePath>,
    layout: Option<FilePath>,
    application: Option<FilePath>,
    place: Option<FilePath>,
)
    requires
        call_ensures(settings_path, (configured, layout, application), place),
    ensures
        configured matches Some(path) ==> place matches Some(found) && found@ == path@,
        configured is None && layout is Some ==> (place matches Some(found) && found@.directory
            == layout->0@.directory && (layout->0@.name is Some ==> found@.name->0.stem
            == layout->0@.name->0.stem)),
        configured is None && layout is None ==> (place is Some <==> application is Some),
{
}

/// A record shows its tool, colours and settings, with the brush of its slot.
pub proof fn records_show_their_brush(record: ProjectToolState)
    requires
        record.wf(),
    ensures
        ({
            let shown = record.restored();
            let brush = record.remembered@[record.last_painting_slot as int];
            &&& shown.tool == record.tool
            &&& shown.pencil_template == record.pencil_template
            &&& shown.color == record.color
            &&& shown.background_color == record.background_color
            &&& shown.edit_settings == record.edit_settings
            &&& shown.size_tenths == brush.size_tenths
            &&& shown.opacity_u16 == brush.opacity_u16
            &&& shown.brush_settings == brush.settings
            &&& shown.remembered == record.remembered@
            &&& shown.last_painting_slot == record.last_painting_slot
        }),
{
}

/// The project's own settings win over the shared ones; what could not be read
/// is said and never written over.
pub proof fn project_settings_win(
    project: Result<Option<DrawingConfig>, ()>,
    global: Result<Option<DrawingConfig>, ()>,
    has_path: bool,
    loaded: Loaded,
)
    requires
        call_ensures(Store::load, (project, global, has_path), loaded),
    ensures
        project matches Ok(Some(drawing)) ==> loaded.drawing == Some(drawing),
        (project is Err || project->Ok_0 is None) && global is Ok ==> loaded.drawing
            == global->Ok_0,
        (project is Err || project->Ok_0 is None) && global is Err ==> loaded.drawing is None,
        project is Err ==> !loaded.store.project_writable && loaded.notice,
        project is Ok ==> loaded.store.project_writable,
        global is Err ==> !loaded.store.global_writable && loaded.notice,
        global is Ok ==> (loaded.store.global_writable <==> has_path),
        project is Ok && global is Ok ==> !loaded.notice,
        loaded.store.initialize_project <==> (project matches Ok(found) && found is None),
        !loaded.store.failed_notice_sent,
{
}

/// First settings are given once, settings go only where they may be written,
/// and a failure is announced once.
pub proof fn settings_are_written_where_they_may(project_failed: bool, global_failed: bool)
    ensures
        forall|store: &mut Store, write: bool|
            #[trigger] call_ensures(Store::initialize, (store,), write) ==> {
                &&& write <==> store.initialize_project
                &&& !final(store).initialize_project
                &&& final(store).project_writable == store.project_writable
                &&& final(store).failed_notice_sent == store.failed_notice_sent
            },
        forall|store: Store, places: Destinations|
            #[trigger] call_ensures(Store::destinations, (&store,), places) ==> {
                &&& places.project <==> store.project_writable
                &&& places.global <==> store.global_writable
            },
        forall|store: &mut Store, notify: bool|
            #[trigger] call_ensures(Store::persist, (store, project_failed, global_failed), notify)
                ==> {
                &&& store.failed_notice_sent ==> !notify
                &&& notify ==> final(store).failed_notice_sent
                &&& !store.failed_notice_sent ==> (notify <==> project_failed
                    && store.project_writable || global_failed && store.global_writable)
                &&& final(store).project_writable == store.project_writable
                &&& final(store).global_writable == store.global_writable
            },
{
}

/// Only the latest settings wait, one flush is asked for, and it takes them.
pub proof fn the_latest_settings_wait(drawing: DrawingConfig)
    ensures
        forall|pending: &mut Pending, first: bool|
            #[trigger] call_ensures(Pending::submit, (pending, drawing), first) ==> {
                &&& first <==> pending.drawing is None
                &&& final(pending).drawing == Some(drawing)
            },
        forall|pending: &mut Pending, taken: Option<DrawingConfig>|
            #[trigger] call_ensures(Pending::flush, (pending,), taken) ==> {
                &&& taken == pending.drawing
                &&& final(pending).drawing is None
            },
{
}

/// A used value moves to the front and the others keep their order; a new one
/// pushes the oldest out.
pub proof fn used_values_move_to_the_front<T>(entries: Seq<Option<T>>, value: T, at: int)
    requires
        entries.len() > 0,
    ensures
        promoted(entries, value)[0] == Some(value),
        promoted(entries, value).len() == entries.len(),
        !entries.contains(Some(value)) ==> promoted(entries, value) == seq![Some(value)]
            + entries.drop_last(),
        0 <= at < entries.len() && entries[at] == Some(value) && (forall|i: int|
            0 <= i < at ==> #[trigger] entries[i] != Some(value)) ==> {
            &&& forall|i: int|
                0 <= i < at ==> #[trigger] promoted(entries, value)[i + 1] == entries[i]
            &&& forall|i: int|
                at < i < entries.len() ==> #[trigger] promoted(entries, value)[i] == entries[i]
        },
{
    let found = entries.index_of_first(Some(value));
    if !entries.contains(Some(value)) {
        assert(promoted(entries, value) =~= seq![Some(value)] + entries.drop_last());
    } else {
        entries.index_of_first_ensures(Some(value));
    }
    if 0 <= at < entries.len() && entries[at] == Some(value) && (forall|i: int|
        0 <= i < at ==> #[trigger] entries[i] != Some(value)) {
        assert(entries.contains(Some(value)));
        entries.index_of_first_ensures(Some(value));
        let first = found->0;
        assert(first == at);
        assert(promotion_index(entries, value) == at);
    }
}

/// What was used is staged from the oldest to the newest, each value once, and
/// free slots count for nothing.
pub proof fn used_values_are_staged_newest_last<T>(entries: Seq<Option<T>>)
    ensures
        oldest_first(entries).len() <= entries.len(),
        entries.len() > 0 && entries[0] is Some ==> oldest_first(entries).len() > 0
            && oldest_first(entries).last() == entries[0]->0,
        (forall|i: int| 0 <= i < entries.len() ==> #[trigger] entries[i] is Some) ==> oldest_first(
            entries,
        ).len() == entries.len() && forall|i: int|
            0 <= i < entries.len() ==> #[trigger] oldest_first(entries)[i] == entries[entries.len()
                - 1 - i]->0,
        (forall|i: int| 0 <= i < entries.len() ==> #[trigger] entries[i] is None) ==> oldest_first(
            entries,
        ).len() == 0,
    decreases entries.len(),
{
    if entries.len() > 0 {
        let before = entries.drop_last();
        used_values_are_staged_newest_last(before);
        assert(entries[entries.len() - 1] == entries.last());
        if before.len() > 0 {
            assert(before[0] == entries[0]);
        }
        if forall|i: int| 0 <= i < entries.len() ==> #[trigger] entries[i] is Some {
            assert forall|i: int| 0 <= i < before.len() implies #[trigger] before[i] is Some by {
                assert(before[i] == entries[i]);
            }
            assert forall|i: int| 0 <= i < entries.len() implies #[trigger] oldest_first(entries)[i]
                == entries[entries.len() - 1 - i]->0 by {
                if i > 0 {
                    assert(oldest_first(before)[i - 1] == before[before.len() - 1 - (i - 1)]->0);
                }
            }
        }
        if forall|i: int| 0 <= i < entries.len() ==> #[trigger] entries[i] is None {
            assert forall|i: int| 0 <= i < before.len() implies #[trigger] before[i] is None by {
                assert(before[i] == entries[i]);
            }
            assert(entries.last() is None);
        }
    }
}

/// The units of a path with every slash turned into a backslash.
pub open spec fn backslashed(units: Seq<u16>) -> Seq<u16> {
    units.map_values(|unit: u16| if unit == 47 { 92u16 } else { unit })
}

/// No piece of a path holds a separator, and the pieces make up the rest.
pub proof fn pieces_hold_no_separators(units: Seq<u16>, verbatim: bool)
    ensures
        pieces(units, verbatim).len() >= 1,
        forall|i: int, j: int|
            0 <= i < pieces(units, verbatim).len() && 0 <= j < pieces(units, verbatim)[i].len()
                ==> !separates(#[trigger] pieces(units, verbatim)[i][j], verbatim),
        (forall|j: int| 0 <= j < units.len() ==> !separates(#[trigger] units[j], verbatim))
            ==> pieces(units, verbatim) == seq![units],
    decreases units.len(),
{
    let all = pieces(units, verbatim);
    if units.len() > 0 {
        let shorter = units.drop_last();
        let before = pieces(shorter, verbatim);
        pieces_hold_no_separators(shorter, verbatim);
        assert forall|i: int, j: int|
            0 <= i < all.len() && 0 <= j < all[i].len() implies !separates(
            #[trigger] all[i][j],
            verbatim,
        ) by {
            if i < before.len() && j < before[i].len() {
                assert(!separates(before[i][j], verbatim));
            }
        }
        if forall|j: int| 0 <= j < units.len() ==> !separates(#[trigger] units[j], verbatim) {
            assert forall|j: int| 0 <= j < shorter.len() implies !separates(
                #[trigger] shorter[j],
                verbatim,
            ) by {
                assert(shorter[j] == units[j]);
            }
            assert(units[units.len() - 1] == units.last());
            assert(before.last() == shorter);
            assert(shorter.push(units.last()) =~= units);
            assert(all =~= seq![units]);
        }
    } else {
        assert(units =~= Seq::empty());
    }
}

/// Slashes and backslashes cut a path into the same pieces.
pub proof fn separators_cut_alike(units: Seq<u16>)
    ensures
        pieces(backslashed(units), false) == pieces(units, false),
    decreases units.len(),
{
    if units.len() > 0 {
        separators_cut_alike(units.drop_last());
        assert(backslashed(units).drop_last() =~= backslashed(units.drop_last()));
        assert(backslashed(units).last() == if units.last() == 47 {
            92u16
        } else {
            units.last()
        });
    } else {
        assert(backslashed(units) =~= units);
    }
}

/// A drive is the same in either case of its letter.
pub proof fn drives_have_no_case(letter: u16, rest: Seq<u16>)
    requires
        97 <= letter <= 122,
    ensures
        same_path(seq![letter, 58u16] + rest, seq![(letter - 32) as u16, 58u16] + rest),
{
    let lower = seq![letter, 58u16] + rest;
    let upper = seq![(letter - 32) as u16, 58u16] + rest;
    assert(lower[0] == letter && lower[1] == 58);
    assert(upper[0] == letter - 32 && upper[1] == 58);
    assert(start_of(lower) == Some(PathStart::Disk((letter - 32) as u16)));
    assert(start_of(upper) == Some(PathStart::Disk((letter - 32) as u16)));
    assert(lower.skip(2) =~= rest);
    assert(upper.skip(2) =~= rest);
    assert(parts(lower) == parts(upper));
}

/// A name on a drive's root is absolute and is the name that the path ends in;
/// it names a project where it ends in that extension, in either case, with
/// something before it.
pub proof fn names_on_a_drive_are_found(letter: u16, name: Seq<u16>)
    requires
        65 <= letter <= 90,
        name.len() > 0,
        forall|j: int| 0 <= j < name.len() ==> !separates(#[trigger] name[j], false),
        name != seq![46u16],
        name != seq![46u16, 46u16],
    ensures
        ({
            let path = seq![letter, 58u16, 92u16] + name;
            &&& is_absolute(path)
            &&& file_name(path) == Some(name)
            &&& is_project(path) <==> name.len() > 5 && name[name.len() - 5] == 46
                && crate::file_path::spells(
                name.skip(name.len() - 4),
                seq![110u16, 116u16, 100u16, 114u16],
            )
        }),
{
    let path = seq![letter, 58u16, 92u16] + name;
    assert(path[0] == letter && path[1] == 58 && path[2] == 92);
    assert(start_of(path) == Some(PathStart::Disk(letter)));
    let rest = path.skip(2);
    assert(rest[0] == 92);
    assert(rest.skip(1) =~= name);
    pieces_hold_no_separators(name, false);
    assert(rooted(path));
    let all = seq![name];
    assert(all.drop_last() =~= Seq::<Seq<u16>>::empty());
    reveal(Seq::filter);
    reveal_with_fuel(Seq::filter, 3);
    assert(is_part(false)(name));
    assert(all.filter(is_part(false)) =~= seq![name]);
    assert(parts(path).names =~= seq![name]);
}

/// A path names the same file with slashes and with backslashes.
pub proof fn slashes_and_backslashes_are_alike(units: Seq<u16>)
    requires
        !marked_verbatim(units),
        !marked_verbatim(backslashed(units)),
    ensures
        same_path(units, backslashed(units)),
{
    let turned = backslashed(units);
    assert(turned.len() == units.len());
    assert(forall|i: int|
        0 <= i < units.len() ==> separates(#[trigger] turned[i], false) == separates(
            units[i],
            false,
        ));
    if units.len() >= 4 {
        assert(turned.skip(4) =~= backslashed(units.skip(4)));
        separators_cut_alike(units.skip(4));
    }
    if units.len() >= 2 {
        assert(turned.skip(2) =~= backslashed(units.skip(2)));
        separators_cut_alike(units.skip(2));
    }
    assert(start_of(turned) == start_of(units));
    crate::windows_path::lemma_start_fits(units);
    let n = crate::windows_path::start_len(start_of(units)) as int;
    let rest = units.skip(n);
    assert(turned.skip(n) =~= backslashed(rest));
    separators_cut_alike(rest);
    if rest.len() > 0 {
        assert(backslashed(rest).skip(1) =~= backslashed(rest.skip(1)));
        separators_cut_alike(rest.skip(1));
        assert(separates(turned.skip(n)[0], false) == separates(rest[0], false));
    }
    assert(rooted(turned) == rooted(units));
    assert(!crate::windows_path::starts_verbatim(start_of(units)));
    if units.len() > 0 {
        assert(turned[0] == if units[0] == 47 {
            92u16
        } else {
            units[0]
        });
    }
    if units.len() > 1 {
        assert(separates(turned[1], false) == separates(units[1], false));
    }
    assert(leads_with_dot(turned) == leads_with_dot(units));
}

} // verus!
