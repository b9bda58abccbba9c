//! New drawings: where they go and which name they get.
use vstd::prelude::*;

use crate::file_path::{copy_units, ntdr_extension, FileName, FilePath};

verus! {

/// How many names are tried.
pub const NAME_LIMIT: u32 = 100_000;

/// What was found under a name.
#[derive(Clone, Copy, Debug, PartialEq, Eq, Structural)]
pub enum NameProbe {
    /// An image of that name exists.
    ImageExists,
    /// Whether one exists could not be told.
    ImageUnknown,
    /// The project file was created.
    Created,
    ProjectExists,
    /// It could not be created.
    NotCreated,
}

#[derive(Clone, Copy, Debug, PartialEq, Eq, Structural)]
pub enum ReserveError {
    NoDirectory,
    DirectoryNotCreated,
    /// The host's own message.
    ImageUnknown,
    NotCreated,
    NoName,
}

impl ReserveError {
    /// The message, or what precedes the host's.
    pub fn text(self) -> (r: &'static str)
        ensures
            self is NoDirectory ==> r@ == "자동 복구 폴더를 찾지 못했습니다."@,
            self is DirectoryNotCreated ==> r@ == "자동 복구 폴더: "@,
            self is ImageUnknown ==> r@ == ""@,
            self is NotCreated ==> r@
                == "새 그림의 복구 파일을 준비하지 못했습니다: "@,
            self is NoName ==> r@
                == "새 그림 이름을 확보하지 못했습니다. 다른 이름으로 저장을 사용해주세요."@,
    {
        match self {
            ReserveError::NoDirectory => "자동 복구 폴더를 찾지 못했습니다.",
            ReserveError::DirectoryNotCreated => "자동 복구 폴더: ",
            ReserveError::ImageUnknown => "",
            ReserveError::NotCreated => "새 그림의 복구 파일을 준비하지 못했습니다: ",
            ReserveError::NoName =>
                "새 그림 이름을 확보하지 못했습니다. 다른 이름으로 저장을 사용해주세요.",
        }
    }
}

/// How the search for a name goes on.
#[derive(Clone, Copy, Debug, PartialEq, Eq)]
pub enum ReserveStep {
    /// Try this number.
    Try(u32),
    /// The drawing has this number.
    Reserved(u32),
    Failed(ReserveError),
}

pub open spec fn probed(index: u32, probe: NameProbe) -> ReserveStep {
    match probe {
        NameProbe::ImageExists | NameProbe::ProjectExists => if index < NAME_LIMIT {
            ReserveStep::Try((index + 1) as u32)
        } else {
            ReserveStep::Failed(ReserveError::NoName)
        },
        NameProbe::ImageUnknown => ReserveStep::Failed(ReserveError::ImageUnknown),
        NameProbe::Created => ReserveStep::Reserved(index),
        NameProbe::NotCreated => ReserveStep::Failed(ReserveError::NotCreated),
    }
}

/// Begins the search for a name.
pub fn reserve_new_drawing(has_directory: bool, directory_created: bool) -> (r: ReserveStep)
    ensures
        r == (if !has_directory {
            ReserveStep::Failed(ReserveError::NoDirectory)
        } else if !directory_created {
            ReserveStep::Failed(ReserveError::DirectoryNotCreated)
        } else {
            ReserveStep::Try(1)
        }),
{
    if !has_directory {
        return ReserveStep::Failed(ReserveError::NoDirectory);
    }
    if !directory_created {
        return ReserveStep::Failed(ReserveError::DirectoryNotCreated);
    }
    ReserveStep::Try(1)
}

/// Takes what was found under a number. A name that is taken, be it by a
/// project or by an image, is passed over.
pub fn reserve_in(index: u32, probe: NameProbe) -> (r: ReserveStep)
    ensures
        r == probed(index, probe),
{
    match probe {
        NameProbe::ImageExists | NameProbe::ProjectExists => {
            if index < NAME_LIMIT {
                ReserveStep::Try(index + 1)
            } else {
                ReserveStep::Failed(ReserveError::NoName)
            }
        },
        NameProbe::ImageUnknown => ReserveStep::Failed(ReserveError::ImageUnknown),
        NameProbe::Created => ReserveStep::Reserved(index),
        NameProbe::NotCreated => ReserveStep::Failed(ReserveError::NotCreated),
    }
}

/// The decimal digits of a number as wide units.
pub open spec fn digit_units(value: nat) -> Seq<u16>
    decreases value,
{
    if value < 10 {
        seq![(48 + value) as u16]
    } else {
        digit_units(value / 10).push((48 + value % 10) as u16)
    }
}

/// "새 그림 " in wide units.
pub open spec fn drawing_units() -> Seq<u16> {
    seq![49352, 32, 44536, 47548, 32]
}

/// "Sketchbook" in wide units.
pub open spec fn sketchbook_units() -> Seq<u16> {
    seq![83, 107, 101, 116, 99, 104, 98, 111, 111, 107]
}

fn push_digits(units: &mut Vec<u16>, value: u32)
    ensures
        final(units)@ == old(units)@ + digit_units(value as nat),
    decreases value,
{
    if value >= 10 {
        push_digits(units, value / 10);
    }
    let ghost before = units@;
    units.push(48 + (value % 10) as u16);
    assert(units@ =~= old(units)@ + digit_units(value as nat));
}

/// The path of the drawing with this number.
pub fn drawing_path(directory: &Vec<u16>, index: u32) -> (r: FilePath)
    ensures
        r@.directory == directory@,
        r@.name == Some(
            crate::file_path::NameParts {
                stem: drawing_units() + digit_units(index as nat),
                extension: Some(crate::file_path::ntdr_units()),
            },
        ),
{
    let mut stem: Vec<u16> = vec![49352, 32, 44536, 47548, 32];
    assert(stem@ =~= drawing_units());
    push_digits(&mut stem, index);
    FilePath {
        directory: copy_units(directory),
        name: Some(FileName { stem, extension: Some(ntdr_extension()) }),
    }
}

/// The directory of the sketchbook, in the directory of the settings.
pub fn directory(parent: Option<Vec<u16>>) -> (r: Option<FilePath>)
    ensures
        match parent {
            Some(parent) => r matches Some(sketchbook) && sketchbook@.directory == parent@
                && sketchbook@.name == Some(
                crate::file_path::NameParts { stem: sketchbook_units(), extension: None },
            ),
            None => r is None,
        },
{
    match parent {
        Some(parent) => {
            let stem: Vec<u16> = vec![83, 107, 101, 116, 99, 104, 98, 111, 111, 107];
            assert(stem@ =~= sketchbook_units());
            Some(
                FilePath {
                    directory: parent,
                    name: Some(FileName { stem, extension: None }),
                },
            )
        },
        None => None,
    }
}

/// A name is reserved only where nothing of that name was there, and every
/// earlier name was taken.
pub proof fn taken_names_are_passed_over(index: u32, probe: NameProbe)
    requires
        1 <= index <= NAME_LIMIT,
    ensures
        probed(index, probe) is Reserved ==> probe is Created && probed(index, probe)
            == ReserveStep::Reserved(index),
        probed(index, probe) matches ReserveStep::Try(next) ==> next == index + 1 && (probe
            is ImageExists || probe is ProjectExists),
        probed(index, probe) matches ReserveStep::Try(next) ==> next <= NAME_LIMIT,
{
}

} // verus!
