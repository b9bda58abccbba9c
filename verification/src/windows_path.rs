//! What a Windows path consists of. Two spellings name one path where they have
//! the same parts: separators may be repeated or written either way, `.` stands
//! for nothing, and drive letters have no case.
use vstd::prelude::*;

use crate::file_path::{copy_units, ntdr_extension, same_units, spells_word};

verus! {

pub const BACKSLASH: u16 = 92;

pub const SLASH: u16 = 47;

pub const DOT: u16 = 46;

pub const COLON: u16 = 58;

pub const QUESTION: u16 = 63;

/// Verbatim paths are separated by backslashes alone.
pub open spec fn separates(unit: u16, verbatim: bool) -> bool {
    unit == BACKSLASH || (unit == SLASH && !verbatim)
}

/// The pieces between the separators, empty ones among them.
pub open spec fn pieces(units: Seq<u16>, verbatim: bool) -> Seq<Seq<u16>>
    decreases units.len(),
{
    if units.len() == 0 {
        seq![Seq::empty()]
    } else {
        let before = pieces(units.drop_last(), verbatim);
        if separates(units.last(), verbatim) {
            before.push(Seq::empty())
        } else {
            before.drop_last().push(before.last().push(units.last()))
        }
    }
}

/// The second piece, where there is one.
pub open spec fn second_piece(all: Seq<Seq<u16>>) -> Seq<u16> {
    if all.len() > 1 { all[1] } else { Seq::empty() }
}

/// A piece that stands for a part of the path.
pub open spec fn is_part(verbatim: bool) -> spec_fn(Seq<u16>) -> bool {
    |piece: Seq<u16>| piece.len() > 0 && (verbatim || piece != seq![DOT])
}

/// How a path begins.
#[verifier::ext_equal]
pub enum PathStart {
    /// `\\?\name`
    Verbatim(Seq<u16>),
    /// `\\?\UNC\server\share`
    VerbatimUnc(Seq<u16>, Seq<u16>),
    /// `\\?\C:`, the letter in upper case
    VerbatimDisk(u16),
    /// `\\.\name`
    Device(Seq<u16>),
    /// `\\server\share`
    Unc(Seq<u16>, Seq<u16>),
    /// `C:`, the letter in upper case
    Disk(u16),
}

impl PathStart {
    pub open spec fn is_verbatim(self) -> bool {
        self is Verbatim || self is VerbatimUnc || self is VerbatimDisk
    }

    /// The number of units that it takes.
    pub open spec fn len(self) -> nat {
        match self {
            PathStart::Verbatim(name) => 4 + name.len(),
            PathStart::VerbatimUnc(server, share) => 8 + server.len() + (if share.len() > 0 {
                1 + share.len()
            } else {
                0
            }),
            PathStart::VerbatimDisk(_) => 6,
            PathStart::Device(name) => 4 + name.len(),
            PathStart::Unc(server, share) => 2 + server.len() + (if share.len() > 0 {
                1 + share.len()
            } else {
                0
            }),
            PathStart::Disk(_) => 2,
        }
    }
}

pub open spec fn ascii_upper(unit: u16) -> u16 {
    if 97 <= unit <= 122 { (unit - 32) as u16 } else { unit }
}

/// The drive that the units begin with, its letter in upper case.
pub open spec fn drive(units: Seq<u16>) -> Option<u16> {
    if units.len() >= 2 && 65 <= ascii_upper(units[0]) <= 90 && units[1] == COLON {
        Some(ascii_upper(units[0]))
    } else {
        None
    }
}

/// How a path begins that starts with `\\?\`; `rest` is what follows that.
pub open spec fn verbatim_start(rest: Seq<u16>) -> PathStart {
    if rest.len() >= 4 && rest[0] == 85 && rest[1] == 78 && rest[2] == 67 && separates(
        rest[3],
        false,
    ) {
        let all = pieces(rest.skip(4), true);
        PathStart::VerbatimUnc(all[0], second_piece(all))
    } else if drive(rest) is Some && (rest.len() == 2 || separates(rest[2], false)) {
        PathStart::VerbatimDisk(drive(rest)->0)
    } else {
        PathStart::Verbatim(pieces(rest, true)[0])
    }
}

pub open spec fn two_separators(units: Seq<u16>) -> bool {
    units.len() >= 2 && separates(units[0], false) && separates(units[1], false)
}

/// The path begins with `\\?\`, in backslashes.
pub open spec fn marked_verbatim(units: Seq<u16>) -> bool {
    units.len() >= 4 && units[0] == BACKSLASH && units[1] == BACKSLASH && units[2]
        == QUESTION && units[3] == BACKSLASH
}

/// The path begins with `\\.\`.
pub open spec fn marked_device(units: Seq<u16>) -> bool {
    two_separators(units) && units.len() >= 4 && units[2] == DOT && separates(units[3], false)
}

pub open spec fn start_of(units: Seq<u16>) -> Option<PathStart> {
    if marked_verbatim(units) {
        Some(verbatim_start(units.skip(4)))
    } else if marked_device(units) {
        Some(PathStart::Device(pieces(units.skip(4), false)[0]))
    } else if two_separators(units) {
        let all = pieces(units.skip(2), false);
        if all[0].len() > 0 && second_piece(all).len() > 0 {
            Some(PathStart::Unc(all[0], second_piece(all)))
        } else {
            None
        }
    } else if drive(units) is Some {
        Some(PathStart::Disk(drive(units)->0))
    } else {
        None
    }
}

pub open spec fn start_len(start: Option<PathStart>) -> nat {
    match start {
        Some(start) => start.len(),
        None => 0,
    }
}

pub open spec fn starts_verbatim(start: Option<PathStart>) -> bool {
    start matches Some(start) && start.is_verbatim()
}

/// What a path consists of. `names` hold `..`, and `.` where it counts.
#[verifier::ext_equal]
pub struct Parts {
    pub start: Option<PathStart>,
    /// A root stands between the start and the names.
    pub root: bool,
    pub names: Seq<Seq<u16>>,
}

/// A separator follows the start.
pub open spec fn rooted(units: Seq<u16>) -> bool {
    let rest = units.skip(start_len(start_of(units)) as int);
    rest.len() > 0 && separates(rest[0], false)
}

/// The path is relative to the current directory, and says so.
pub open spec fn leads_with_dot(units: Seq<u16>) -> bool {
    &&& units.len() > 0
    &&& units[0] == DOT
    &&& units.len() == 1 || separates(units[1], false)
}

/// The parts of a path.
pub open spec fn parts(units: Seq<u16>) -> Parts {
    let start = start_of(units);
    let verbatim = starts_verbatim(start);
    let rest = units.skip(start_len(start) as int);
    let below = if rooted(units) { rest.skip(1) } else { rest };
    let named = pieces(below, verbatim).filter(is_part(verbatim));
    Parts {
        start,
        root: rooted(units) || start is Some && !(start->0 is Disk) && !verbatim,
        names: if leads_with_dot(units) { seq![seq![DOT]] + named } else { named },
    }
}

/// Two spellings of one path.
pub open spec fn same_path(a: Seq<u16>, b: Seq<u16>) -> bool {
    parts(a) == parts(b)
}

/// The path has a start and a root. All starts but a drive imply the root.
pub open spec fn is_absolute(units: Seq<u16>) -> bool {
    start_of(units) matches Some(start) && (rooted(units) || !(start is Disk))
}

/// The name that a path ends in, where it ends in one.
pub open spec fn file_name(units: Seq<u16>) -> Option<Seq<u16>> {
    let names = parts(units).names;
    if names.len() == 0 || names.last() == seq![DOT] || names.last() == seq![DOT, DOT] {
        None
    } else {
        Some(names.last())
    }
}

/// The name ends in the extension of a project, in any case, and has something
/// before it.
pub open spec fn named_as_project(name: Seq<u16>) -> bool {
    &&& name.len() > 5
    &&& name[name.len() - 5] == DOT
    &&& crate::file_path::spells(name.skip(name.len() - 4), crate::file_path::ntdr_units())
}

/// The path names a project.
pub open spec fn is_project(units: Seq<u16>) -> bool {
    file_name(units) matches Some(name) && named_as_project(name)
}

pub proof fn lemma_first_pieces(units: Seq<u16>, verbatim: bool)
    ensures
        pieces(units, verbatim).len() >= 1,
        pieces(units, verbatim)[0].len() <= units.len(),
        pieces(units, verbatim).len() > 1 ==> pieces(units, verbatim)[0].len() + 1 + pieces(
            units,
            verbatim,
        )[1].len() <= units.len(),
    decreases units.len(),
{
    if units.len() > 0 {
        lemma_first_pieces(units.drop_last(), verbatim);
    }
}

pub proof fn lemma_start_fits(units: Seq<u16>)
    ensures
        start_len(start_of(units)) <= units.len(),
{
    if marked_verbatim(units) {
        let rest = units.skip(4);
        lemma_first_pieces(rest, true);
        if rest.len() >= 4 {
            lemma_first_pieces(rest.skip(4), true);
        }
    } else if marked_device(units) {
        lemma_first_pieces(units.skip(4), false);
    } else if two_separators(units) {
        lemma_first_pieces(units.skip(2), false);
    }
}

fn is_separator(unit: u16, verbatim: bool) -> (r: bool)
    ensures
        r == separates(unit, verbatim),
{
    unit == BACKSLASH || (unit == SLASH && !verbatim)
}

pub open spec fn names_view(names: Seq<Vec<u16>>) -> Seq<Seq<u16>> {
    names.map_values(|name: Vec<u16>| name@)
}

/// The pieces of what follows the first `from` units.
fn split(units: &Vec<u16>, from: usize, verbatim: bool) -> (r: Vec<Vec<u16>>)
    requires
        from <= units@.len(),
    ensures
        names_view(r@) == pieces(units@.skip(from as int), verbatim),
        r@.len() >= 1,
{
    let mut done: Vec<Vec<u16>> = Vec::new();
    let mut current: Vec<u16> = Vec::new();
    let mut at: usize = from;
    let ghost rest = units@.skip(from as int);
    proof {
        assert(rest.take(0) =~= Seq::empty());
        assert(current@ =~= Seq::empty());
        assert(names_view(done@).push(current@) =~= seq![Seq::<u16>::empty()]);
    }
    while at < units.len()
        invariant
            from <= at <= units@.len(),
            rest == units@.skip(from as int),
            names_view(done@).push(current@) == pieces(rest.take(at - from), verbatim),
        decreases units@.len() - at,
    {
        let unit: u16 = units[at];
        let ghost before = names_view(done@);
        let ghost piece = current@;
        proof {
            let taken = rest.take(at - from + 1);
            assert(taken.drop_last() =~= rest.take(at - from));
            assert(taken.last() == unit);
            assert(before.push(piece).drop_last() =~= before);
        }
        if is_separator(unit, verbatim) {
            done.push(current);
            current = Vec::new();
            assert(current@ =~= Seq::empty());
            assert(names_view(done@) =~= before.push(piece));
        } else {
            current.push(unit);
        }
        at = at + 1;
    }
    assert(rest.take(at - from) =~= rest);
    let ghost before = names_view(done@);
    let ghost piece = current@;
    done.push(current);
    assert(names_view(done@) =~= before.push(piece));
    done
}

/// How a path begins, as it is computed.
#[derive(Debug)]
pub enum StartUnits {
    Verbatim(Vec<u16>),
    VerbatimUnc(Vec<u16>, Vec<u16>),
    VerbatimDisk(u16),
    Device(Vec<u16>),
    Unc(Vec<u16>, Vec<u16>),
    Disk(u16),
}

impl View for StartUnits {
    type V = PathStart;

    open spec fn view(&self) -> PathStart {
        match *self {
            StartUnits::Verbatim(name) => PathStart::Verbatim(name@),
            StartUnits::VerbatimUnc(server, share) => PathStart::VerbatimUnc(server@, share@),
            StartUnits::VerbatimDisk(letter) => PathStart::VerbatimDisk(letter),
            StartUnits::Device(name) => PathStart::Device(name@),
            StartUnits::Unc(server, share) => PathStart::Unc(server@, share@),
            StartUnits::Disk(letter) => PathStart::Disk(letter),
        }
    }
}

pub open spec fn start_view(start: Option<StartUnits>) -> Option<PathStart> {
    match start {
        Some(start) => Some(start@),
        None => None,
    }
}

impl StartUnits {
    fn taken(&self) -> (r: usize)
        requires
            self@.len() <= usize::MAX,
        ensures
            r == self@.len(),
    {
        match self {
            StartUnits::Verbatim(name) => 4 + name.len(),
            StartUnits::VerbatimUnc(server, share) => if share.len() > 0 {
                8 + server.len() + 1 + share.len()
            } else {
                8 + server.len()
            },
            StartUnits::VerbatimDisk(_) => 6,
            StartUnits::Device(name) => 4 + name.len(),
            StartUnits::Unc(server, share) => if share.len() > 0 {
                2 + server.len() + 1 + share.len()
            } else {
                2 + server.len()
            },
            StartUnits::Disk(_) => 2,
        }
    }

    fn verbatim(&self) -> (r: bool)
        ensures
            r == self@.is_verbatim(),
    {
        match self {
            StartUnits::Verbatim(_)
            | StartUnits::VerbatimUnc(_, _)
            | StartUnits::VerbatimDisk(_) => true,
            StartUnits::Device(_) | StartUnits::Unc(_, _) | StartUnits::Disk(_) => false,
        }
    }

    fn same(&self, other: &StartUnits) -> (r: bool)
        ensures
            r == (self@ == other@),
    {
        match (self, other) {
            (StartUnits::Verbatim(a), StartUnits::Verbatim(b)) => same_units(a, b),
            (StartUnits::VerbatimUnc(a, c), StartUnits::VerbatimUnc(b, d)) => same_units(a, b)
                && same_units(c, d),
            (StartUnits::VerbatimDisk(a), StartUnits::VerbatimDisk(b)) => *a == *b,
            (StartUnits::Device(a), StartUnits::Device(b)) => same_units(a, b),
            (StartUnits::Unc(a, c), StartUnits::Unc(b, d)) => same_units(a, b) && same_units(c, d),
            (StartUnits::Disk(a), StartUnits::Disk(b)) => *a == *b,
            _ => false,
        }
    }
}

/// The drive that stands at `from`.
fn drive_at(units: &Vec<u16>, from: usize) -> (r: Option<u16>)
    requires
        from <= units@.len(),
    ensures
        r == drive(units@.skip(from as int)),
{
    if units.len() - from < 2 {
        return None;
    }
    let first: u16 = units[from];
    let letter: u16 = if 97 <= first && first <= 122 {
        first - 32
    } else {
        first
    };
    if 65 <= letter && letter <= 90 && units[from + 1] == COLON {
        Some(letter)
    } else {
        None
    }
}

fn first_of(all: &Vec<Vec<u16>>) -> (r: Vec<u16>)
    requires
        all@.len() >= 1,
    ensures
        r@ == names_view(all@)[0],
{
    copy_units(&all[0])
}

fn second_of(all: &Vec<Vec<u16>>) -> (r: Vec<u16>)
    ensures
        r@ == second_piece(names_view(all@)),
{
    if all.len() > 1 {
        copy_units(&all[1])
    } else {
        let r: Vec<u16> = Vec::new();
        assert(r@ =~= Seq::empty());
        r
    }
}

fn find_verbatim_start(units: &Vec<u16>) -> (r: StartUnits)
    requires
        units@.len() >= 4,
    ensures
        r@ == verbatim_start(units@.skip(4)),
{
    let ghost rest = units@.skip(4);
    let len: usize = units.len();
    if len >= 8 && units[4] == 85 && units[5] == 78 && units[6] == 67 && is_separator(
        units[7],
        false,
    ) {
        let all = split(units, 8, true);
        assert(rest.skip(4) =~= units@.skip(8));
        return StartUnits::VerbatimUnc(first_of(&all), second_of(&all));
    }
    if let Some(letter) = drive_at(units, 4) {
        if len == 6 || is_separator(units[6], false) {
            return StartUnits::VerbatimDisk(letter);
        }
    }
    StartUnits::Verbatim(first_of(&split(units, 4, true)))
}

fn find_start(units: &Vec<u16>) -> (r: Option<StartUnits>)
    ensures
        start_view(r) == start_of(units@),
{
    let len: usize = units.len();
    if len >= 4 && units[0] == BACKSLASH && units[1] == BACKSLASH && units[2] == QUESTION
        && units[3] == BACKSLASH {
        return Some(find_verbatim_start(units));
    }
    if len >= 2 && is_separator(units[0], false) && is_separator(units[1], false) {
        if len >= 4 && units[2] == DOT && is_separator(units[3], false) {
            return Some(StartUnits::Device(first_of(&split(units, 4, false))));
        }
        let all = split(units, 2, false);
        let server = first_of(&all);
        let share = second_of(&all);
        if server.len() > 0 && share.len() > 0 {
            return Some(StartUnits::Unc(server, share));
        }
        return None;
    }
    assert(units@.skip(0) =~= units@);
    match drive_at(units, 0) {
        Some(letter) => Some(StartUnits::Disk(letter)),
        None => None,
    }
}

/// The parts of a path, as they are computed.
#[derive(Debug)]
pub struct PartUnits {
    pub start: Option<StartUnits>,
    pub root: bool,
    pub names: Vec<Vec<u16>>,
}

impl View for PartUnits {
    type V = Parts;

    open spec fn view(&self) -> Parts {
        Parts { start: start_view(self.start), root: self.root, names: names_view(self.names@) }
    }
}

/// `units` are a single dot.
fn is_dot(units: &Vec<u16>) -> (r: bool)
    ensures
        r == (units@ == seq![DOT]),
{
    if units.len() == 1 && units[0] == DOT {
        assert(units@ =~= seq![DOT]);
        true
    } else {
        assert(units@ != seq![DOT]) by {
            if units@ == seq![DOT] {
                assert(units@.len() == 1 && units@[0] == DOT);
            }
        }
        false
    }
}

/// The pieces that stand for parts, behind those that are there already.
fn push_parts(names: &mut Vec<Vec<u16>>, all: &Vec<Vec<u16>>, verbatim: bool)
    ensures
        names_view(final(names)@) == names_view(old(names)@) + names_view(all@).filter(
            is_part(verbatim),
        ),
{
    let ghost start = names_view(names@);
    let ghost views = names_view(all@);
    let ghost counts = is_part(verbatim);
    let mut index: usize = 0;
    proof {
        reveal(Seq::filter);
        assert(views.take(0).filter(counts) =~= Seq::empty());
        assert(names_view(names@) =~= start + views.take(0).filter(counts));
    }
    while index < all.len()
        invariant
            index <= all@.len(),
            views == names_view(all@),
            counts == is_part(verbatim),
            names_view(names@) == start + views.take(index as int).filter(counts),
        decreases all@.len() - index,
    {
        let keep = all[index].len() > 0 && (verbatim || !is_dot(&all[index]));
        let ghost before = names_view(names@);
        proof {
            reveal(Seq::filter);
            assert(views.take(index + 1).drop_last() =~= views.take(index as int));
            assert(keep == counts(all@[index as int]@));
        }
        if keep {
            names.push(copy_units(&all[index]));
            assert(names_view(names@) =~= before.push(all@[index as int]@));
        }
        assert(names_view(names@) =~= start + views.take(index + 1).filter(counts));
        index = index + 1;
    }
    assert(views.take(index as int) =~= views);
}

/// The parts of a path.
pub fn parts_of(units: &Vec<u16>) -> (r: PartUnits)
    ensures
        r@ == parts(units@),
{
    let start = find_start(units);
    let len: usize = units.len();
    proof {
        lemma_start_fits(units@);
        assert(start_len(start_view(start)) <= len);
    }
    let (taken, verbatim, implied): (usize, bool, bool) = match &start {
        Some(start) => (
            start.taken(),
            start.verbatim(),
            !start.verbatim() && !matches!(start, StartUnits::Disk(_)),
        ),
        None => (0, false, false),
    };
    let rooted_here = taken < len && is_separator(units[taken], false);
    let below: usize = if rooted_here {
        taken + 1
    } else {
        taken
    };
    let ghost rest = units@.skip(taken as int);
    proof {
        assert(rooted_here ==> rest.skip(1) =~= units@.skip(taken + 1));
        assert(rooted_here == rooted(units@));
    }
    let all = split(units, below, verbatim);
    let mut names: Vec<Vec<u16>> = Vec::new();
    let leading = len > 0 && units[0] == DOT && (len == 1 || is_separator(
        units[1],
        false,
    ));
    if leading {
        let here: Vec<u16> = vec![DOT];
        assert(here@ =~= seq![DOT]);
        names.push(here);
    }
    let ghost first = names_view(names@);
    push_parts(&mut names, &all, verbatim);
    proof {
        let named = names_view(all@).filter(is_part(verbatim));
        if leading {
            assert(first =~= seq![seq![DOT]]);
        } else {
            assert(first =~= Seq::empty());
            assert(first + named =~= named);
        }
    }
    PartUnits { start, root: rooted_here || implied, names }
}

fn same_names(a: &Vec<Vec<u16>>, b: &Vec<Vec<u16>>) -> (r: bool)
    ensures
        r == (names_view(a@) == names_view(b@)),
{
    if a.len() != b.len() {
        assert(names_view(a@).len() != names_view(b@).len());
        return false;
    }
    let mut index: usize = 0;
    while index < a.len()
        invariant
            index <= a@.len(),
            a@.len() == b@.len(),
            forall|i: int| 0 <= i < index ==> (#[trigger] a@[i])@ == b@[i]@,
        decreases a@.len() - index,
    {
        if !same_units(&a[index], &b[index]) {
            assert(names_view(a@)[index as int] != names_view(b@)[index as int]);
            return false;
        }
        index = index + 1;
    }
    assert(names_view(a@) =~= names_view(b@));
    true
}

impl PartUnits {
    pub fn same(&self, other: &PartUnits) -> (r: bool)
        ensures
            r == (self@ == other@),
    {
        let starts = match (&self.start, &other.start) {
            (Some(a), Some(b)) => a.same(b),
            (None, None) => true,
            _ => false,
        };
        starts && self.root == other.root && same_names(&self.names, &other.names)
    }
}

/// Whether two spellings name one path.
pub fn is_same_path(a: &Vec<u16>, b: &Vec<u16>) -> (r: bool)
    ensures
        r == same_path(a@, b@),
{
    parts_of(a).same(&parts_of(b))
}

/// Whether the path does not depend on a current directory or drive.
pub fn path_is_absolute(units: &Vec<u16>) -> (r: bool)
    ensures
        r == is_absolute(units@),
{
    let parts = parts_of(units);
    match &parts.start {
        Some(StartUnits::Disk(_)) => parts.root,
        Some(_) => true,
        None => false,
    }
}

/// Whether the path names a project.
pub fn path_is_project(units: &Vec<u16>) -> (r: bool)
    ensures
        r == is_project(units@),
{
    let parts = parts_of(units);
    let count: usize = parts.names.len();
    if count == 0 {
        return false;
    }
    let name = &parts.names[count - 1];
    assert(name@ == names_view(parts.names@).last());
    let len: usize = name.len();
    if len <= 5 || name[len - 5] != DOT {
        return false;
    }
    let mut ending: Vec<u16> = Vec::new();
    let mut at: usize = len - 4;
    while at < len
        invariant
            len - 4 <= at <= len,
            len == name@.len(),
            len > 5,
            ending@ == name@.subrange(len - 4, at as int),
        decreases len - at,
    {
        ending.push(name[at]);
        at = at + 1;
        assert(ending@ =~= name@.subrange(len - 4, at as int));
    }
    assert(ending@ =~= name@.skip(len - 4));
    spells_word(&ending, &ntdr_extension())
}

} // verus!
