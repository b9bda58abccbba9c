//! The list of recent projects and its file.
use vstd::prelude::*;

use crate::file_path::{copy_units, FilePath};
use crate::little_endian::{push_le16, push_le32, push_units, read_units};
use crate::windows_path::{is_same_path, path_is_absolute, path_is_project};

verus! {

pub const MAX_PROJECTS: usize = 20;

pub const MAX_PATH_UNITS: usize = 32_768;

/// The longest file that the list can fill.
pub const MAX_BYTES: usize = 1_310_810;

/// The list is damaged; the file is left as it is.
#[derive(Clone, Copy, Debug, PartialEq, Eq, Structural)]
pub struct RecentError;

impl RecentError {
    pub fn message(self) -> (r: &'static str)
        ensures
            r@
                == "최근 그림 목록을 읽지 못했습니다. 기존 목록을 보존합니다."@,
    {
        "최근 그림 목록을 읽지 못했습니다. 기존 목록을 보존합니다."
    }
}

pub fn invalid() -> (r: RecentError)
    ensures
        r == RecentError,
{
    RecentError
}

/// A path that can be written to the list as it is.
pub open spec fn storable(units: Seq<u16>) -> bool {
    0 < units.len() <= MAX_PATH_UNITS && !units.contains(0)
}

fn is_storable(units: &Vec<u16>) -> (r: bool)
    ensures
        r == storable(units@),
{
    if units.len() == 0 || units.len() > MAX_PATH_UNITS {
        return false;
    }
    let mut index: usize = 0;
    while index < units.len()
        invariant
            index <= units@.len(),
            forall|i: int| 0 <= i < index ==> units@[i] != 0,
        decreases units@.len() - index,
    {
        if units[index] == 0 {
            assert(units@[index as int] == 0);
            return false;
        }
        index = index + 1;
    }
    true
}

/// A path that may stand in the list: an absolute one that names a project.
pub open spec fn listable(units: Seq<u16>) -> bool {
    &&& crate::windows_path::is_absolute(units)
    &&& crate::windows_path::is_project(units)
    &&& storable(units)
}

pub fn valid_path(units: &Vec<u16>) -> (r: bool)
    ensures
        r == listable(units@),
{
    path_is_absolute(units) && path_is_project(units) && is_storable(units)
}

/// The mark at the start of the file.
pub open spec fn magic() -> Seq<u8> {
    seq![78, 89, 82, 69, 67, 48, 48, 49]
}

/// One path as it is stored: its length and its units.
pub open spec fn entry(units: Seq<u16>) -> Seq<u8> {
    crate::little_endian::le32(units.len() as int) + crate::little_endian::unit_bytes(units)
}

pub open spec fn entries(paths: Seq<Seq<u16>>) -> Seq<u8>
    decreases paths.len(),
{
    if paths.len() == 0 {
        Seq::empty()
    } else {
        entries(paths.drop_last()) + entry(paths.last())
    }
}

/// The stored form of a list.
pub open spec fn stored(paths: Seq<Seq<u16>>) -> Seq<u8> {
    magic() + crate::little_endian::le16(paths.len() as int) + entries(paths)
}

/// No path stands in the list twice, in whatever spelling.
pub open spec fn unrepeated(paths: Seq<Seq<u16>>) -> bool {
    forall|i: int, j: int|
        0 <= i < j < paths.len() ==> !crate::windows_path::same_path(
            #[trigger] paths[i],
            #[trigger] paths[j],
        )
}

/// A list as it is kept: short enough, of paths that may stand in it, none
/// twice.
pub open spec fn keepable(paths: Seq<Seq<u16>>) -> bool {
    &&& paths.len() <= MAX_PROJECTS
    &&& forall|i: int| 0 <= i < paths.len() ==> listable(#[trigger] paths[i])
    &&& unrepeated(paths)
}

pub open spec fn paths_view(paths: Seq<Vec<u16>>) -> Seq<Seq<u16>> {
    paths.map_values(|path: Vec<u16>| path@)
}

proof fn lemma_entries_split(paths: Seq<Seq<u16>>, k: int)
    requires
        0 <= k < paths.len(),
    ensures
        entries(paths) == entries(paths.take(k)) + entry(paths[k]) + entries(paths.skip(k + 1)),
    decreases paths.len(),
{
    if k == paths.len() - 1 {
        assert(paths.take(k) =~= paths.drop_last());
        assert(paths.skip(k + 1) =~= Seq::empty());
        assert(entries(paths.skip(k + 1)) =~= Seq::empty());
        assert(entries(paths) =~= entries(paths.take(k)) + entry(paths[k]) + entries(
            paths.skip(k + 1),
        ));
    } else {
        let shorter = paths.drop_last();
        lemma_entries_split(shorter, k);
        assert(shorter.take(k) =~= paths.take(k));
        assert(shorter.skip(k + 1) =~= paths.skip(k + 1).drop_last());
        assert(paths.skip(k + 1).last() == paths.last());
        assert(entries(paths) =~= entries(paths.take(k)) + entry(paths[k]) + entries(
            paths.skip(k + 1),
        ));
    }
}

/// Where the parts of a whole stand in it.
proof fn lemma_middle(
    head: Seq<u8>,
    before: Seq<u8>,
    size: Seq<u8>,
    content: Seq<u8>,
    after: Seq<u8>,
)
    ensures
        ({
            let whole = head + (before + (size + content) + after);
            let at = head.len() + before.len();
            &&& at + size.len() + content.len() <= whole.len()
            &&& whole.subrange(at as int, (at + size.len()) as int) == size
            &&& forall|j: int|
                0 <= j < content.len() ==> whole[at + size.len() + j] == #[trigger] content[j]
        }),
{
    let whole = head + (before + (size + content) + after);
    let at = head.len() + before.len();
    assert(whole.subrange(at as int, (at + size.len()) as int) =~= size);
}

/// What stands at a place of stored bytes where the next path begins.
#[verifier::rlimit(40)]
proof fn lemma_next_entry(paths: Seq<Seq<u16>>, k: int)
    requires
        keepable(paths),
        0 <= k < paths.len(),
    ensures
        ({
            let at = 10 + entries(paths.take(k)).len() as int;
            let bytes = stored(paths);
            let units = paths[k];
            &&& at + 4 + 2 * units.len() <= bytes.len()
            &&& bytes.subrange(at, at + 4) == crate::little_endian::le32(units.len() as int)
            &&& forall|i: int|
                0 <= i < units.len() ==> bytes[at + 4 + 2 * i] == (#[trigger] units[i]) as int % 256
                    && bytes[at + 4 + 2 * i + 1] == units[i] as int / 256
        }),
{
    lemma_entries_split(paths, k);
    let before = entries(paths.take(k));
    let at = 10 + before.len() as int;
    let bytes = stored(paths);
    let units = paths[k];
    let after = entries(paths.skip(k + 1));
    crate::little_endian::lemma_unit_bytes(units);
    let head = magic() + crate::little_endian::le16(paths.len() as int);
    let size = crate::little_endian::le32(units.len() as int);
    let content = crate::little_endian::unit_bytes(units);
    assert(head.len() == 10);
    assert(size.len() == 4);
    assert(entry(units) == size + content);
    assert(bytes == head + (before + (size + content) + after));
    lemma_middle(head, before, size, content, after);
    assert forall|i: int| 0 <= i < units.len() implies bytes[at + 4 + 2 * i] == (
    #[trigger] units[i]) as int % 256 && bytes[at + 4 + 2 * i + 1] == units[i] as int / 256 by {
        assert(bytes[at + 4 + 2 * i] == content[2 * i]);
        assert(bytes[at + 4 + (2 * i + 1)] == content[2 * i + 1]);
    }
}

proof fn lemma_entries_len(paths: Seq<Seq<u16>>)
    requires
        forall|i: int| 0 <= i < paths.len() ==> listable(#[trigger] paths[i]),
    ensures
        entries(paths).len() <= 65540 * paths.len(),
    decreases paths.len(),
{
    if paths.len() > 0 {
        assert forall|i: int| 0 <= i < paths.drop_last().len() implies listable(
            #[trigger] paths.drop_last()[i],
        ) by {
            assert(paths.drop_last()[i] == paths[i]);
        }
        lemma_entries_len(paths.drop_last());
        crate::little_endian::lemma_unit_bytes(paths.last());
        assert(listable(paths[paths.len() - 1]));
    }
}

fn magic_bytes() -> (r: Vec<u8>)
    ensures
        r@ == magic(),
{
    let r: Vec<u8> = vec![78, 89, 82, 69, 67, 48, 48, 49];
    assert(r@ =~= magic());
    r
}

fn push_entry(bytes: &mut Vec<u8>, units: &Vec<u16>)
    requires
        units@.len() <= MAX_PATH_UNITS,
    ensures
        final(bytes)@ == old(bytes)@ + entry(units@),
{
    push_le32(bytes, units.len() as u32);
    push_units(bytes, units);
    assert(bytes@ =~= old(bytes)@ + entry(units@));
}

/// The stored form of a list.
pub fn encode(paths: &Vec<Vec<u16>>) -> (r: Result<Vec<u8>, RecentError>)
    ensures
        r is Ok <==> (paths@.len() <= MAX_PROJECTS && forall|i: int|
            0 <= i < paths@.len() ==> listable(#[trigger] paths@[i]@)),
        r matches Ok(bytes) ==> bytes@ == stored(paths_view(paths@)),
{
    if paths.len() > MAX_PROJECTS {
        return Err(invalid());
    }
    let mut bytes = magic_bytes();
    push_le16(&mut bytes, paths.len() as u16);
    let ghost start = bytes@;
    let ghost views = paths_view(paths@);
    let mut index: usize = 0;
    assert(views.take(0) =~= Seq::empty());
    assert(bytes@ =~= start + entries(views.take(0)));
    while index < paths.len()
        invariant
            index <= paths@.len(),
            views == paths_view(paths@),
            bytes@ == start + entries(views.take(index as int)),
            forall|i: int| 0 <= i < index ==> listable(#[trigger] paths@[i]@),
        decreases paths@.len() - index,
    {
        if !valid_path(&paths[index]) {
            assert(!listable(paths@[index as int]@));
            return Err(invalid());
        }
        push_entry(&mut bytes, &paths[index]);
        assert(views.take(index + 1).drop_last() =~= views.take(index as int));
        assert(bytes@ =~= start + entries(views.take(index + 1)));
        index = index + 1;
    }
    assert(views.take(index as int) =~= views);
    assert(bytes@ =~= stored(views));
    Ok(bytes)
}

/// The next bytes, moving on past them.
pub fn take(bytes: &Vec<u8>, at: &mut usize, count: usize) -> (r: Result<Vec<u8>, RecentError>)
    requires
        *old(at) <= bytes@.len(),
    ensures
        *old(at) + count <= bytes@.len() ==> (r matches Ok(taken) && taken@ == bytes@.subrange(
            *old(at) as int,
            *old(at) + count,
        )) && *final(at) == *old(at) + count,
        *old(at) + count > bytes@.len() ==> r is Err && *final(at) == *old(at),
{
    let total: usize = bytes.len();
    if count > total - *at {
        return Err(invalid());
    }
    let mut taken: Vec<u8> = Vec::new();
    let start: usize = *at;
    let mut index: usize = 0;
    while index < count
        invariant
            index <= count,
            total == bytes@.len(),
            start + count <= total,
            taken@ == bytes@.subrange(start as int, start + index),
        decreases count - index,
    {
        taken.push(bytes[start + index]);
        index = index + 1;
        assert(taken@ =~= bytes@.subrange(start as int, start + index));
    }
    *at = start + count;
    Ok(taken)
}

/// Every list that these bytes could be stands with `count` paths that begin
/// as `done` does.
spec fn only_continues(bytes: Seq<u8>, count: int, done: Seq<Seq<u16>>) -> bool {
    forall|paths: Seq<Seq<u16>>|
        keepable(paths) && bytes == #[trigger] stored(paths) ==> paths.len() == count && paths.take(
            done.len() as int,
        ) == done
}

/// Stored bytes begin with the mark and the number of paths.
proof fn lemma_header(paths: Seq<Seq<u16>>)
    requires
        keepable(paths),
    ensures
        stored(paths).len() >= 10,
        stored(paths).len() <= MAX_BYTES,
        stored(paths).take(8) == magic(),
        stored(paths)[8] as int + 256 * stored(paths)[9] as int == paths.len(),
{
    lemma_entries_len(paths);
    assert(stored(paths).take(8) =~= magic());
}

/// What a path read at `at` says about every list that the bytes could be.
proof fn lemma_read_entry(
    bytes: Seq<u8>,
    count: int,
    done: Seq<Seq<u16>>,
    at: int,
    paths: Seq<Seq<u16>>,
)
    requires
        keepable(paths),
        bytes == stored(paths),
        only_continues(bytes, count, done),
        done.len() < count,
        at == 10 + entries(done).len(),
    ensures
        at + 4 <= bytes.len(),
        ({
            let length = bytes[at] as int + 256 * bytes[at + 1] as int + 65536 * bytes[at + 2] as int
                + 16777216 * bytes[at + 3] as int;
            &&& length == paths[done.len() as int].len()
            &&& 0 < length <= MAX_PATH_UNITS
            &&& at + 4 + 2 * length <= bytes.len()
        }),
        forall|i: int|
            0 <= i < paths[done.len() as int].len() ==> bytes[at + 4 + 2 * i] as int + 256
                * bytes[at + 4 + 2 * i + 1] as int == (#[trigger] paths[done.len() as int][i]),
{
    let k = done.len() as int;
    assert(paths.take(k) == done);
    lemma_next_entry(paths, k);
    let units = paths[k];
    assert(listable(units));
    let head = bytes.subrange(at, at + 4);
    crate::little_endian::lemma_le32_value(units.len() as int);
    assert(head[0] == bytes[at]);
    assert(head[1] == bytes[at + 1]);
    assert(head[2] == bytes[at + 2]);
    assert(head[3] == bytes[at + 3]);
    assert forall|i: int| 0 <= i < units.len() implies bytes[at + 4 + 2 * i] as int + 256
        * bytes[at + 4 + 2 * i + 1] as int == (#[trigger] units[i]) by {
        crate::little_endian::lemma_u16_parts(units[i]);
    }
}

fn lists_path(paths: &Vec<Vec<u16>>, units: &Vec<u16>) -> (r: bool)
    ensures
        r == exists|i: int|
            0 <= i < paths@.len() && crate::windows_path::same_path(#[trigger] paths@[i]@, units@),
{
    let mut index: usize = 0;
    while index < paths.len()
        invariant
            index <= paths@.len(),
            forall|i: int|
                0 <= i < index ==> !crate::windows_path::same_path(#[trigger] paths@[i]@, units@),
        decreases paths@.len() - index,
    {
        if is_same_path(&paths[index], units) {
            assert(crate::windows_path::same_path(paths@[index as int]@, units@));
            return true;
        }
        index = index + 1;
    }
    false
}

fn starts_with_magic(bytes: &Vec<u8>) -> (r: bool)
    requires
        bytes@.len() >= 8,
    ensures
        r == (bytes@.take(8) == magic()),
{
    let mark = magic_bytes();
    let mut index: usize = 0;
    while index < 8
        invariant
            index <= 8,
            bytes@.len() >= 8,
            mark@ == magic(),
            forall|i: int| 0 <= i < index ==> bytes@[i] == magic()[i],
        decreases 8 - index,
    {
        if bytes[index] != mark[index] {
            assert(bytes@.take(8)[index as int] != magic()[index as int]);
            return false;
        }
        index = index + 1;
    }
    assert(bytes@.take(8) =~= magic());
    true
}

/// Reads a stored list. Damaged bytes are refused whole.
#[verifier::rlimit(40)]
pub fn decode(bytes: &Vec<u8>) -> (r: Result<Vec<Vec<u16>>, RecentError>)
    ensures
        match r {
            Ok(paths) => keepable(paths_view(paths@)) && bytes@ == stored(paths_view(paths@)),
            Err(_) => forall|paths: Seq<Seq<u16>>|
                keepable(paths) ==> bytes@ != #[trigger] stored(paths),
        },
{
    proof {
        assert forall|paths: Seq<Seq<u16>>| keepable(paths) implies {
            let bytes = #[trigger] stored(paths);
            10 <= bytes.len() <= MAX_BYTES && bytes.take(8) == magic() && bytes[8] as int + 256
                * bytes[9] as int == paths.len()
        } by {
            lemma_header(paths);
        }
    }
    if bytes.len() > MAX_BYTES || bytes.len() < 10 {
        return Err(invalid());
    }
    if !starts_with_magic(bytes) {
        return Err(invalid());
    }
    let count: usize = bytes[8] as usize + 256 * bytes[9] as usize;
    if count > MAX_PROJECTS {
        return Err(invalid());
    }
    let mut paths: Vec<Vec<u16>> = Vec::new();
    let mut at: usize = 10;
    proof {
        assert(paths_view(paths@) =~= Seq::empty());
        assert forall|list: Seq<Seq<u16>>| keepable(list) && bytes@ == #[trigger] stored(
            list,
        ) implies list.len() == count && list.take(0) == paths_view(paths@) by {
            assert(list.take(0) =~= Seq::empty());
        }
        assert(only_continues(bytes@, count as int, paths_view(paths@)));
        assert(bytes@.take(10) =~= magic() + crate::little_endian::le16(count as int) + entries(paths_view(paths@)));
    }
    let mut index: usize = 0;
    while index < count
        invariant
            index <= count <= MAX_PROJECTS,
            paths@.len() == index,
            10 <= at <= bytes@.len() <= MAX_BYTES,
            at == 10 + entries(paths_view(paths@)).len(),
            keepable(paths_view(paths@)),
            only_continues(bytes@, count as int, paths_view(paths@)),
            bytes@.take(at as int) == magic() + crate::little_endian::le16(count as int) + entries(paths_view(paths@)),
        decreases count - index,
    {
        let ghost done = paths_view(paths@);
        let ghost start = at as int;
        proof {
            assert forall|list: Seq<Seq<u16>>| keepable(list) && bytes@ == #[trigger] stored(
                list,
            ) implies ({
                let length = bytes@[start] as int + 256 * bytes@[start + 1] as int + 65536
                    * bytes@[start + 2] as int + 16777216 * bytes@[start + 3] as int;
                &&& start + 4 <= bytes@.len()
                &&& length == list[index as int].len()
                &&& 0 < length <= MAX_PATH_UNITS
                &&& start + 4 + 2 * length <= bytes@.len()
            }) by {
                lemma_read_entry(bytes@, count as int, done, start, list);
            }
        }
        let head = match take(bytes, &mut at, 4) {
            Ok(head) => head,
            Err(_) => {
                return Err(invalid());
            },
        };
        let length: usize = head[0] as usize + 256 * head[1] as usize + 65536 * head[2] as usize
            + 16777216 * head[3] as usize;
        if length > MAX_PATH_UNITS || length > (bytes.len() - at) / 2 {
            return Err(invalid());
        }
        let units = read_units(bytes, at, length);
        proof {
            assert forall|list: Seq<Seq<u16>>| keepable(list) && bytes@ == #[trigger] stored(
                list,
            ) implies list[index as int] == units@ && list.take(index as int) == done by {
                lemma_read_entry(bytes@, count as int, done, start, list);
                assert(list[index as int] =~= units@);
            }
        }
        if !valid_path(&units) || lists_path(&paths, &units) {
            proof {
                assert forall|list: Seq<Seq<u16>>| keepable(list) implies bytes@
                    != #[trigger] stored(list) by {
                    if bytes@ == stored(list) {
                        assert(listable(list[index as int]));
                        let i = choose|i: int|
                            0 <= i < paths@.len() && crate::windows_path::same_path(
                                #[trigger] paths@[i]@,
                                units@,
                            );
                        assert(done[i] == paths@[i]@);
                        assert(list.take(index as int)[i] == list[i]);
                        assert(!crate::windows_path::same_path(list[i], list[index as int]));
                    }
                }
            }
            return Err(invalid());
        }
        at = at + 2 * length;
        let ghost unit_view = units@;
        paths.push(units);
        proof {
            let next = paths_view(paths@);
            assert(next =~= done.push(unit_view));
            assert(next.drop_last() =~= done);
            assert(head@ =~= crate::little_endian::le32(length as int));
            assert(bytes@.take(at as int) =~= bytes@.take(start) + head@ + bytes@.subrange(
                start + 4,
                at as int,
            ));
            assert(entries(next) == entries(done) + entry(unit_view));
            assert(bytes@.take(at as int) =~= magic() + crate::little_endian::le16(count as int) + entries(next));
            assert forall|i: int, j: int|
                0 <= i < j < next.len() implies !crate::windows_path::same_path(
                #[trigger] next[i],
                #[trigger] next[j],
            ) by {
                if j == next.len() - 1 {
                    assert(done[i] == paths@[i]@);
                } else {
                    assert(!crate::windows_path::same_path(done[i], done[j]));
                }
            }
            assert forall|list: Seq<Seq<u16>>| keepable(list) && bytes@ == #[trigger] stored(
                list,
            ) implies list.len() == count && list.take(next.len() as int) == next by {
                assert(list.take(next.len() as int) =~= list.take(index as int).push(
                    list[index as int],
                ));
            }
        }
        index = index + 1;
    }
    if at != bytes.len() {
        proof {
            let done = paths_view(paths@);
            assert forall|list: Seq<Seq<u16>>| keepable(list) implies bytes@ != #[trigger] stored(
                list,
            ) by {
                if bytes@ == stored(list) {
                    assert(list.take(count as int) =~= list);
                    assert(stored(list).len() == at);
                }
            }
        }
        return Err(invalid());
    }
    assert(bytes@.take(at as int) =~= bytes@);
    Ok(paths)
}

pub open spec fn differs_from(path: Seq<u16>) -> spec_fn(Seq<u16>) -> bool {
    |other: Seq<u16>| !crate::windows_path::same_path(other, path)
}

/// The list after a project was opened: it comes first, and the oldest give
/// way.
pub open spec fn opened(paths: Seq<Seq<u16>>, path: Seq<u16>) -> Seq<Seq<u16>> {
    let list = seq![path] + paths.filter(differs_from(path));
    if list.len() > MAX_PROJECTS { list.take(MAX_PROJECTS as int) } else { list }
}

/// The list after a project was opened, where that changes it.
pub fn record_opened(paths: &Vec<Vec<u16>>, path: Vec<u16>) -> (r: Option<Vec<Vec<u16>>>)
    ensures
        match r {
            Some(list) => paths_view(list@) == opened(paths_view(paths@), path@),
            None => paths@.len() > 0 && crate::windows_path::same_path(paths@[0]@, path@),
        },
        r is None <==> paths@.len() > 0 && crate::windows_path::same_path(paths@[0]@, path@),
{
    if paths.len() > 0 && is_same_path(&paths[0], &path) {
        return None;
    }
    let ghost views = paths_view(paths@);
    let ghost others = differs_from(path@);
    let mut list: Vec<Vec<u16>> = Vec::new();
    let ghost first = path@;
    list.push(copy_units(&path));
    let mut index: usize = 0;
    proof {
        assert(views.take(0).filter(others) =~= Seq::empty()) by {
            reveal(Seq::filter);
        }
        assert(paths_view(list@) =~= seq![first] + views.take(0).filter(others));
    }
    while index < paths.len()
        invariant
            index <= paths@.len(),
            views == paths_view(paths@),
            first == path@,
            others == differs_from(first),
            paths_view(list@) == seq![first] + views.take(index as int).filter(others),
        decreases paths@.len() - index,
    {
        let keep = !is_same_path(&paths[index], &path);
        proof {
            assert(views.take(index + 1).drop_last() =~= views.take(index as int));
            reveal(Seq::filter);
        }
        let ghost before = paths_view(list@);
        if keep {
            list.push(copy_units(&paths[index]));
            assert(paths_view(list@) =~= before.push(paths@[index as int]@));
        }
        assert(paths_view(list@) =~= seq![first] + views.take(index + 1).filter(others));
        index = index + 1;
    }
    assert(views.take(index as int) =~= views);
    if list.len() > MAX_PROJECTS {
        let ghost full = paths_view(list@);
        list.truncate(MAX_PROJECTS);
        assert(paths_view(list@) =~= full.take(MAX_PROJECTS as int));
    }
    Some(list)
}

/// The list as it was last read or written.
pub struct RecentCache {
    pub paths: Result<Vec<Vec<u16>>, RecentError>,
}

pub open spec fn cached(cache: RecentCache) -> Result<Seq<Seq<u16>>, RecentError> {
    match cache.paths {
        Ok(paths) => Ok(paths_view(paths@)),
        Err(error) => Err(error),
    }
}

/// The list of a session: what was loaded, or an empty one where there is no
/// file to keep it in.
pub fn cache(loaded: Option<Result<Vec<Vec<u16>>, RecentError>>) -> (r: RecentCache)
    ensures
        match loaded {
            Some(paths) => r.paths == paths,
            None => cached(r) == Ok::<Seq<Seq<u16>>, RecentError>(Seq::empty()),
        },
{
    match loaded {
        Some(paths) => RecentCache { paths },
        None => {
            let paths: Vec<Vec<u16>> = Vec::new();
            assert(paths_view(paths@) =~= Seq::empty());
            RecentCache { paths: Ok(paths) }
        },
    }
}

/// A copy of the list.
pub fn list(cache: &RecentCache) -> (r: Result<Vec<Vec<u16>>, RecentError>)
    ensures
        match r {
            Ok(paths) => cached(*cache) == Ok::<_, RecentError>(paths_view(paths@)),
            Err(error) => cached(*cache) == Err::<Seq<Seq<u16>>, _>(error),
        },
{
    match &cache.paths {
        Err(error) => Err(*error),
        Ok(paths) => {
            let mut copied: Vec<Vec<u16>> = Vec::new();
            let mut index: usize = 0;
            while index < paths.len()
                invariant
                    index <= paths@.len(),
                    copied@.len() == index,
                    forall|i: int| 0 <= i < index ==> (#[trigger] copied@[i])@ == paths@[i]@,
                decreases paths@.len() - index,
            {
                copied.push(copy_units(&paths[index]));
                index = index + 1;
            }
            assert(paths_view(copied@) =~= paths_view(paths@));
            Ok(copied)
        },
    }
}

/// `found` is the first place that holds, where one does.
pub open spec fn first_place(places: Seq<bool>, found: Option<usize>) -> bool {
    match found {
        Some(index) => index < places.len() && places[index as int] && forall|i: int|
            0 <= i < index ==> !#[trigger] places[i],
        None => forall|i: int| 0 <= i < places.len() ==> !#[trigger] places[i],
    }
}

/// The first listed project whose file is still there.
pub fn last_existing(is_file: &Vec<bool>) -> (r: Option<usize>)
    ensures
        first_place(is_file@, r),
{
    let mut index: usize = 0;
    while index < is_file.len()
        invariant
            index <= is_file@.len(),
            forall|i: int| 0 <= i < index ==> !is_file@[i],
        decreases is_file@.len() - index,
    {
        if is_file[index] {
            return Some(index);
        }
        index = index + 1;
    }
    None
}

pub open spec fn recent_units() -> Seq<u16> {
    seq![114, 101, 99, 101, 110, 116]
}

/// The list lies beside the layout settings.
pub fn settings_path(settings: Option<FilePath>) -> (r: Option<FilePath>)
    ensures
        match settings {
            Some(path) => r matches Some(recent) && recent@ == path@.with_extension(recent_units()),
            None => r is None,
        },
{
    match settings {
        Some(path) => {
            let extension: Vec<u16> = vec![114, 101, 99, 101, 110, 116];
            assert(extension@ =~= recent_units());
            Some(path.with_extension(extension))
        },
        None => None,
    }
}

/// Reading gives back the list that was written.
pub proof fn lists_round_trip(paths: Seq<Seq<u16>>, other: Seq<Seq<u16>>)
    requires
        keepable(paths),
        keepable(other),
        stored(paths) == stored(other),
    ensures
        paths == other,
{
    no_list_continues_another(paths, other);
}

/// Stored bytes that begin with a whole stored list are that list: neither a
/// stored list cut short nor one with bytes behind it can be read.
pub proof fn no_list_continues_another(paths: Seq<Seq<u16>>, other: Seq<Seq<u16>>)
    requires
        keepable(paths),
        keepable(other),
        stored(paths).is_prefix_of(stored(other)),
    ensures
        paths == other,
        stored(paths) == stored(other),
{
    lemma_header(paths);
    lemma_header(other);
    assert(stored(paths)[8] == stored(other)[8] && stored(paths)[9] == stored(other)[9]);
    lemma_same_prefix(paths, other, paths.len() as int);
    assert(paths.take(paths.len() as int) =~= paths);
    assert(other.take(other.len() as int) =~= other);
}

proof fn lemma_prefix_bytes(bytes: Seq<u8>, longer: Seq<u8>, i: int)
    requires
        bytes.is_prefix_of(longer),
        0 <= i < bytes.len(),
    ensures
        longer[i] == bytes[i],
{
    assert(longer.subrange(0, bytes.len() as int)[i] == longer[i]);
}

/// Where one stored list continues another and both agree up to a path, they
/// agree on that path too.
proof fn lemma_same_entry(paths: Seq<Seq<u16>>, other: Seq<Seq<u16>>, k: int)
    requires
        keepable(paths),
        keepable(other),
        stored(paths).is_prefix_of(stored(other)),
        0 <= k < paths.len(),
        k < other.len(),
        paths.take(k) == other.take(k),
    ensures
        paths[k] == other[k],
{
    lemma_next_entry(paths, k);
    lemma_next_entry(other, k);
    let at = 10 + entries(paths.take(k)).len() as int;
    let bytes = stored(paths);
    let longer = stored(other);
    let mine = paths[k];
    let theirs = other[k];
    assert(listable(mine) && listable(theirs));
    lemma_prefix_bytes(bytes, longer, at);
    lemma_prefix_bytes(bytes, longer, at + 1);
    lemma_prefix_bytes(bytes, longer, at + 2);
    lemma_prefix_bytes(bytes, longer, at + 3);
    assert(longer.subrange(at, at + 4) =~= bytes.subrange(at, at + 4));
    crate::little_endian::lemma_le32_injective(mine.len() as int, theirs.len() as int);
    assert forall|i: int| 0 <= i < mine.len() implies mine[i] == theirs[i] by {
        lemma_prefix_bytes(bytes, longer, at + 4 + 2 * i);
        lemma_prefix_bytes(bytes, longer, at + 4 + 2 * i + 1);
        crate::little_endian::lemma_u16_parts(mine[i]);
        crate::little_endian::lemma_u16_parts(theirs[i]);
    }
    assert(mine =~= theirs);
}

proof fn lemma_same_prefix(paths: Seq<Seq<u16>>, other: Seq<Seq<u16>>, k: int)
    requires
        keepable(paths),
        keepable(other),
        stored(paths).is_prefix_of(stored(other)),
        paths.len() == other.len(),
        0 <= k <= paths.len(),
    ensures
        paths.take(k) == other.take(k),
    decreases k,
{
    if k == 0 {
        assert(paths.take(0) =~= other.take(0));
    } else {
        lemma_same_prefix(paths, other, k - 1);
        lemma_same_entry(paths, other, k - 1);
        assert(paths.take(k) =~= paths.take(k - 1).push(paths[k - 1]));
        assert(other.take(k) =~= other.take(k - 1).push(other[k - 1]));
    }
}

/// An opened project stands first and once, and the list stays storable.
pub proof fn opened_projects_come_first(paths: Seq<Seq<u16>>, path: Seq<u16>)
    requires
        keepable(paths),
        listable(path),
    ensures
        opened(paths, path)[0] == path,
        keepable(opened(paths, path)),
{
    let others = differs_from(path);
    let kept = paths.filter(others);
    lemma_filter_distinct(paths, path);
    let list = seq![path] + kept;
    assert(list[0] == path);
    assert forall|i: int| 0 <= i < list.len() implies listable(#[trigger] list[i]) by {
        if i > 0 {
            assert(list[i] == kept[i - 1]);
            assert(kept.contains(kept[i - 1]));
            assert(paths.contains(kept[i - 1]));
        }
    }
    assert forall|i: int, j: int| 0 <= i < j < list.len() implies !crate::windows_path::same_path(
            #[trigger] list[i],
            #[trigger] list[j],
        ) by {
        assert(list[j] == kept[j - 1]);
        assert(others(kept[j - 1]));
        if i > 0 {
            assert(list[i] == kept[i - 1]);
        }
    }
    let shown = opened(paths, path);
    assert forall|i: int| 0 <= i < shown.len() implies listable(#[trigger] shown[i]) by {
        assert(shown[i] == list[i]);
    }
    assert forall|i: int, j: int| 0 <= i < j < shown.len() implies !crate::windows_path::same_path(
            #[trigger] shown[i],
            #[trigger] shown[j],
        ) by {
        assert(shown[i] == list[i]);
        assert(shown[j] == list[j]);
    }
}

proof fn lemma_filter_distinct(paths: Seq<Seq<u16>>, path: Seq<u16>)
    requires
        unrepeated(paths),
    ensures
        ({
            let kept = paths.filter(differs_from(path));
            &&& unrepeated(kept)
            &&& forall|i: int|
                0 <= i < kept.len() ==> paths.contains(#[trigger] kept[i])
                    && !crate::windows_path::same_path(kept[i], path)
        }),
    decreases paths.len(),
{
    reveal(Seq::filter);
    let others = differs_from(path);
    if paths.len() > 0 {
        let shorter = paths.drop_last();
        lemma_filter_distinct(shorter, path);
        let kept = paths.filter(others);
        let before = shorter.filter(others);
        assert forall|i: int| 0 <= i < kept.len() implies paths.contains(#[trigger] kept[i])
            && !crate::windows_path::same_path(kept[i], path) by {
            if i < before.len() {
                assert(kept[i] == before[i]);
                let at = choose|at: int| 0 <= at < shorter.len() && shorter[at] == before[i];
                assert(paths[at] == kept[i]);
            } else {
                assert(kept[i] == paths.last());
                assert(paths[paths.len() - 1] == kept[i]);
            }
        }
        assert forall|i: int, j: int| 0 <= i < j < kept.len() implies !crate::windows_path::same_path(
            #[trigger] kept[i],
            #[trigger] kept[j],
        ) by {
            assert(kept[i] == before[i]);
            if j < before.len() {
                assert(kept[j] == before[j]);
            } else {
                let at = choose|at: int| 0 <= at < shorter.len() && shorter[at] == before[i];
                assert(paths[at] == before[i]);
                assert(paths[paths.len() - 1] == kept[j]);
            }
        }
    }
}

} // verus!
