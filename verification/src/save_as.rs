//! Copies of closed projects. An existing destination is never replaced.
use vstd::prelude::*;
use vstd::string::*;

use crate::decimal::to_decimal;
use crate::file_path::{ntdr_extension, png_extension, spells_word, FilePath};
use crate::session_open::TreeChoice;

verus! {

/// What stands at a destination.
#[derive(Clone, Copy, Debug, PartialEq, Eq, Structural)]
pub enum TargetEntry {
    Free,
    Taken,
    /// The file system gave no answer.
    Unknown,
}

/// The file of a destination that spoke against it.
#[derive(Clone, Copy, Debug, PartialEq, Eq, Structural)]
pub enum TargetFile {
    Project,
    Image,
}

#[derive(Clone, Copy, Debug, PartialEq, Eq, Structural)]
pub enum TargetError {
    Extension,
    Taken(TargetFile),
    /// The host's own message.
    Unknown(TargetFile),
}

impl TargetError {
    /// The message, or what precedes the path in it.
    pub fn text(self) -> (r: &'static str)
        ensures
            self is Extension ==> r@
                == "다른 이름으로 저장은 .ntdr 확장자를 사용해주세요"@,
            self is Taken ==> r@ == "이미 존재하는 파일은 덮어쓰지 않습니다: "@,
            self is Unknown ==> r@ == ""@,
    {
        match self {
            TargetError::Extension =>
                "다른 이름으로 저장은 .ntdr 확장자를 사용해주세요",
            TargetError::Taken(_) => "이미 존재하는 파일은 덮어쓰지 않습니다: ",
            TargetError::Unknown(_) => "",
        }
    }
}

/// A destination names a project, and neither it nor its image exists.
pub open spec fn target_verdict(
    is_project: bool,
    project: TargetEntry,
    image: TargetEntry,
) -> Result<(), TargetError> {
    if !is_project {
        Err(TargetError::Extension)
    } else if project is Taken {
        Err(TargetError::Taken(TargetFile::Project))
    } else if project is Unknown {
        Err(TargetError::Unknown(TargetFile::Project))
    } else if image is Taken {
        Err(TargetError::Taken(TargetFile::Image))
    } else if image is Unknown {
        Err(TargetError::Unknown(TargetFile::Image))
    } else {
        Ok(())
    }
}

/// The image beside a project.
pub fn image_beside(path: &FilePath) -> (r: FilePath)
    ensures
        r@ == path@.with_extension(crate::file_path::png_units()),
{
    path.with_extension(png_extension())
}

/// Checks a destination, given what stands at it and at its image.
pub fn validate_target(path: &FilePath, project: TargetEntry, image: TargetEntry) -> (r: Result<
    (),
    TargetError,
>)
    ensures
        r == target_verdict(
            path@.extension() matches Some(extension) && crate::file_path::spells(
                extension,
                crate::file_path::ntdr_units(),
            ),
            project,
            image,
        ),
{
    let is_project = match &path.name {
        Some(name) => match &name.extension {
            Some(extension) => spells_word(extension, &ntdr_extension()),
            None => false,
        },
        None => false,
    };
    if !is_project {
        return Err(TargetError::Extension);
    }
    match project {
        TargetEntry::Free => {},
        TargetEntry::Taken => {
            return Err(TargetError::Taken(TargetFile::Project));
        },
        TargetEntry::Unknown => {
            return Err(TargetError::Unknown(TargetFile::Project));
        },
    }
    match image {
        TargetEntry::Free => Ok(()),
        TargetEntry::Taken => Err(TargetError::Taken(TargetFile::Image)),
        TargetEntry::Unknown => Err(TargetError::Unknown(TargetFile::Image)),
    }
}

/// The steps of a copy, in order. The image is published before the project,
/// so that a visible project always has its image.
#[derive(Clone, Copy, Debug, PartialEq, Eq, Structural)]
pub enum CopyStage {
    Validate,
    LockSource,
    CreateStaging,
    CreateCopy,
    CopyBytes,
    SyncCopy,
    OpenCopy,
    LoadHistory,
    LoadCanvas,
    LoadTree,
    Flatten,
    EncodeImage,
    SyncImage,
    PublishImage,
    PublishProject,
}

#[derive(Clone, Copy, Debug, PartialEq, Eq, Structural)]
pub enum CopyStep {
    Do(CopyStage),
    Copied,
    /// The copy ends with this stage's failure.
    Failed(CopyStage),
}

impl CopyStage {
    pub open spec fn number(self) -> int {
        match self {
            CopyStage::Validate => 0,
            CopyStage::LockSource => 1,
            CopyStage::CreateStaging => 2,
            CopyStage::CreateCopy => 3,
            CopyStage::CopyBytes => 4,
            CopyStage::SyncCopy => 5,
            CopyStage::OpenCopy => 6,
            CopyStage::LoadHistory => 7,
            CopyStage::LoadCanvas => 8,
            CopyStage::LoadTree => 9,
            CopyStage::Flatten => 10,
            CopyStage::EncodeImage => 11,
            CopyStage::SyncImage => 12,
            CopyStage::PublishImage => 13,
            CopyStage::PublishProject => 14,
        }
    }

    /// Files at the destination exist only after these stages.
    pub open spec fn publishes(self) -> bool {
        self is PublishImage || self is PublishProject
    }

    pub open spec fn followed_by(self, succeeded: bool) -> CopyStep {
        if !succeeded {
            CopyStep::Failed(self)
        } else {
            match self {
                CopyStage::Validate => CopyStep::Do(CopyStage::LockSource),
                CopyStage::LockSource => CopyStep::Do(CopyStage::CreateStaging),
                CopyStage::CreateStaging => CopyStep::Do(CopyStage::CreateCopy),
                CopyStage::CreateCopy => CopyStep::Do(CopyStage::CopyBytes),
                CopyStage::CopyBytes => CopyStep::Do(CopyStage::SyncCopy),
                CopyStage::SyncCopy => CopyStep::Do(CopyStage::OpenCopy),
                CopyStage::OpenCopy => CopyStep::Do(CopyStage::LoadHistory),
                CopyStage::LoadHistory => CopyStep::Do(CopyStage::LoadCanvas),
                CopyStage::LoadCanvas => CopyStep::Do(CopyStage::LoadTree),
                CopyStage::LoadTree => CopyStep::Do(CopyStage::Flatten),
                CopyStage::Flatten => CopyStep::Do(CopyStage::EncodeImage),
                CopyStage::EncodeImage => CopyStep::Do(CopyStage::SyncImage),
                CopyStage::SyncImage => CopyStep::Do(CopyStage::PublishImage),
                CopyStage::PublishImage => CopyStep::Do(CopyStage::PublishProject),
                CopyStage::PublishProject => CopyStep::Copied,
            }
        }
    }

    pub open spec fn error_lead_text(self) -> Seq<char> {
        match self {
            CopyStage::LockSource => "원본 잠금: "@,
            CopyStage::CreateStaging => "임시 저장 위치: "@,
            CopyStage::CopyBytes => "프로젝트 복사: "@,
            CopyStage::OpenCopy => "복사본 검증: "@,
            CopyStage::Flatten => "PNG 합성: "@,
            CopyStage::EncodeImage => "PNG 생성: "@,
            CopyStage::PublishImage => "PNG 게시 실패 (원본 유지): "@,
            CopyStage::PublishProject => "프로젝트 게시 실패 (완료된 PNG는 유지): "@,
            _ => ""@,
        }
    }

    /// What precedes the host's message where the stage failed.
    pub fn error_lead(self) -> (r: &'static str)
        ensures
            r@ == self.error_lead_text(),
    {
        match self {
            CopyStage::LockSource => "원본 잠금: ",
            CopyStage::CreateStaging => "임시 저장 위치: ",
            CopyStage::CopyBytes => "프로젝트 복사: ",
            CopyStage::OpenCopy => "복사본 검증: ",
            CopyStage::Flatten => "PNG 합성: ",
            CopyStage::EncodeImage => "PNG 생성: ",
            CopyStage::PublishImage => "PNG 게시 실패 (원본 유지): ",
            CopyStage::PublishProject => "프로젝트 게시 실패 (완료된 PNG는 유지): ",
            _ => "",
        }
    }
}

/// What follows a finished stage of a copy.
pub fn copy_closed_project(stage: CopyStage, succeeded: bool) -> (r: CopyStep)
    ensures
        r == stage.followed_by(succeeded),
{
    if !succeeded {
        return CopyStep::Failed(stage);
    }
    match stage {
        CopyStage::Validate => CopyStep::Do(CopyStage::LockSource),
        CopyStage::LockSource => CopyStep::Do(CopyStage::CreateStaging),
        CopyStage::CreateStaging => CopyStep::Do(CopyStage::CreateCopy),
        CopyStage::CreateCopy => CopyStep::Do(CopyStage::CopyBytes),
        CopyStage::CopyBytes => CopyStep::Do(CopyStage::SyncCopy),
        CopyStage::SyncCopy => CopyStep::Do(CopyStage::OpenCopy),
        CopyStage::OpenCopy => CopyStep::Do(CopyStage::LoadHistory),
        CopyStage::LoadHistory => CopyStep::Do(CopyStage::LoadCanvas),
        CopyStage::LoadCanvas => CopyStep::Do(CopyStage::LoadTree),
        CopyStage::LoadTree => CopyStep::Do(CopyStage::Flatten),
        CopyStage::Flatten => CopyStep::Do(CopyStage::EncodeImage),
        CopyStage::EncodeImage => CopyStep::Do(CopyStage::SyncImage),
        CopyStage::SyncImage => CopyStep::Do(CopyStage::PublishImage),
        CopyStage::PublishImage => CopyStep::Do(CopyStage::PublishProject),
        CopyStage::PublishProject => CopyStep::Copied,
    }
}

/// The tree whose pixels a copy shows: the stored one, else that of a project
/// with history and no layer metadata, else that of a new document.
pub fn copied_tree(has_tree: bool, has_history: bool) -> (r: TreeChoice)
    ensures
        r == (if has_tree {
            TreeChoice::Stored
        } else if has_history {
            TreeChoice::Legacy
        } else {
            TreeChoice::Default
        }),
{
    if has_tree {
        TreeChoice::Stored
    } else if has_history {
        TreeChoice::Legacy
    } else {
        TreeChoice::Default
    }
}

/// The name of the directory in which a copy is prepared.
pub fn staging_name(process: u32, nanos: u128) -> (r: String)
    ensures
        r@ == ".nyatidraw-save-as-"@ + crate::decimal::decimal(process as nat) + "-"@
            + crate::decimal::decimal(nanos as nat),
{
    let mut name = ".nyatidraw-save-as-".to_owned();
    name.append(to_decimal(process as u128).as_str());
    name.append("-");
    name.append(to_decimal(nanos).as_str());
    name
}

/// A copy moves forward, ends with the first failure, and publishes only after
/// everything before succeeded: the image, and then the project.
pub proof fn copies_publish_last(stage: CopyStage, succeeded: bool)
    ensures
        stage.followed_by(succeeded) matches CopyStep::Do(next) ==> succeeded && next.number()
            == stage.number() + 1,
        !succeeded ==> stage.followed_by(succeeded) == CopyStep::Failed(stage),
        stage.followed_by(succeeded) is Copied <==> succeeded && stage is PublishProject,
        stage.followed_by(succeeded) == CopyStep::Do(CopyStage::PublishProject) ==> stage
            is PublishImage,
{
}

/// A destination where anything stands, or might stand, is refused.
pub proof fn taken_targets_are_refused(
    is_project: bool,
    project: TargetEntry,
    image: TargetEntry,
)
    ensures
        target_verdict(is_project, project, image) is Ok <==> is_project && project is Free
            && image is Free,
{
}

} // verus!
