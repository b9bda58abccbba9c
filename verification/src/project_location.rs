//! Where a document is stored, and how an activated path becomes a document.
use vstd::prelude::*;

use crate::file_path::{
    ntdr_extension, png_extension, spells_word, FilePath, PathParts,
};

verus! {

/// The storage of a document, chosen once for each canvas runtime.
#[derive(Clone, Debug, PartialEq, Eq)]
pub enum ProjectLocation {
    Explicit { path: FilePath, bootstrap_png: Option<FilePath> },
    UntitledRecovery(FilePath),
}

/// The mathematical content of a [`ProjectLocation`].
pub enum Location {
    Explicit { path: PathParts, bootstrap_png: Option<PathParts> },
    UntitledRecovery(PathParts),
}

pub open spec fn optional_path(path: Option<FilePath>) -> Option<PathParts> {
    match path {
        Some(path) => Some(path@),
        None => None,
    }
}

impl View for ProjectLocation {
    type V = Location;

    open spec fn view(&self) -> Location {
        match *self {
            ProjectLocation::Explicit { path, bootstrap_png } => Location::Explicit {
                path: path@,
                bootstrap_png: optional_path(bootstrap_png),
            },
            ProjectLocation::UntitledRecovery(path) => Location::UntitledRecovery(path@),
        }
    }
}

/// What the file system says about a project file.
#[derive(Clone, Copy, Debug, PartialEq, Eq, Structural)]
pub enum ProjectFile {
    Missing,
    Empty,
    NonEmpty,
    /// Its metadata could not be read; it may well exist.
    Unreadable,
}

/// Why an activated path became no document.
#[derive(Clone, Copy, Debug, PartialEq, Eq, Structural)]
pub enum ActivationError {
    ProjectUnreadable,
}

impl Location {
    pub open spec fn storage(self) -> PathParts {
        match self {
            Location::Explicit { path, bootstrap_png } => path,
            Location::UntitledRecovery(path) => path,
        }
    }

    /// Both name the same store.
    pub open spec fn shares_storage(self, other: Location) -> bool {
        (self is Explicit) == (other is Explicit) && self.storage().same(other.storage())
    }
}

/// The document that an activated path names. Only a project that is certainly
/// missing or empty takes its pixels from the image; an unreadable one never
/// does.
pub open spec fn activated(path: PathParts, project: ProjectFile) -> Result<
    Option<Location>,
    ActivationError,
> {
    match path.extension() {
        Some(extension) => if crate::file_path::spells(extension, crate::file_path::ntdr_units()) {
            Ok(Some(Location::Explicit { path, bootstrap_png: None }))
        } else if crate::file_path::spells(extension, crate::file_path::png_units()) {
            let stored = path.with_extension(crate::file_path::ntdr_units());
            match project {
                ProjectFile::NonEmpty => Ok(
                    Some(Location::Explicit { path: stored, bootstrap_png: None }),
                ),
                ProjectFile::Empty | ProjectFile::Missing => Ok(
                    Some(Location::Explicit { path: stored, bootstrap_png: Some(path) }),
                ),
                ProjectFile::Unreadable => Err(ActivationError::ProjectUnreadable),
            }
        } else {
            Ok(None)
        },
        None => Ok(None),
    }
}

pub open spec fn location_view(
    location: Result<Option<ProjectLocation>, ActivationError>,
) -> Result<Option<Location>, ActivationError> {
    match location {
        Ok(Some(location)) => Ok(Some(location@)),
        Ok(None) => Ok(None),
        Err(error) => Err(error),
    }
}

/// The first unit of a pair.
pub open spec fn leads_pair(unit: u16) -> bool {
    0xd800 <= unit <= 0xdbff
}

/// The second unit of a pair.
pub open spec fn ends_pair(unit: u16) -> bool {
    0xdc00 <= unit <= 0xdfff
}

/// The text of wide units. Each half of a pair that has lost the other half
/// becomes the replacement character.
pub open spec fn utf16_lossy(units: Seq<u16>) -> Seq<char>
    decreases units.len(),
{
    if units.len() == 0 {
        Seq::empty()
    } else if !leads_pair(units[0]) && !ends_pair(units[0]) {
        seq![units[0] as char] + utf16_lossy(units.skip(1))
    } else if leads_pair(units[0]) && units.len() > 1 && ends_pair(units[1]) {
        seq![(0x10000 + (units[0] - 0xd800) * 0x400 + (units[1] - 0xdc00)) as char] + utf16_lossy(
            units.skip(2),
        )
    } else {
        seq!['\u{fffd}'] + utf16_lossy(units.skip(1))
    }
}

/// Calls `String::from_utf16_lossy`: it decodes UTF-16 and puts U+FFFD in place
/// of every unit that is not valid there.
#[verifier::external_body]
fn decode_utf16_lossy(units: &Vec<u16>) -> (r: String)
    ensures
        r@ == utf16_lossy(units@),
{
    String::from_utf16_lossy(units)
}

impl ProjectLocation {
    /// Resolves a positional path. `project` tells of the sibling project of an
    /// image; it is not looked at otherwise.
    pub fn from_positional_path(path: FilePath, project: ProjectFile) -> (r: Result<
        Option<Self>,
        ActivationError,
    >)
        ensures
            location_view(r) == activated(path@, project),
    {
        let (is_project, is_image) = match &path.name {
            Some(name) => match &name.extension {
                Some(extension) => (
                    spells_word(extension, &ntdr_extension()),
                    spells_word(extension, &png_extension()),
                ),
                None => (false, false),
            },
            None => (false, false),
        };
        if is_project {
            return Ok(Some(ProjectLocation::Explicit { path, bootstrap_png: None }));
        }
        if !is_image {
            return Ok(None);
        }
        let stored = path.with_extension(ntdr_extension());
        match project {
            ProjectFile::NonEmpty => Ok(
                Some(ProjectLocation::Explicit { path: stored, bootstrap_png: None }),
            ),
            ProjectFile::Empty | ProjectFile::Missing => Ok(
                Some(ProjectLocation::Explicit { path: stored, bootstrap_png: Some(path) }),
            ),
            ProjectFile::Unreadable => Err(ActivationError::ProjectUnreadable),
        }
    }

    pub fn same_storage(&self, other: &Self) -> (r: bool)
        ensures
            r == self@.shares_storage(other@),
    {
        match (self, other) {
            (
                ProjectLocation::Explicit { path: left, .. },
                ProjectLocation::Explicit { path: right, .. },
            ) => left.same(right),
            (
                ProjectLocation::UntitledRecovery(left),
                ProjectLocation::UntitledRecovery(right),
            ) => left.same(right),
            _ => false,
        }
    }

    /// The path of the store.
    pub fn storage_path(&self) -> (r: &FilePath)
        ensures
            r@ == self@.storage(),
    {
        match self {
            ProjectLocation::Explicit { path, .. } => path,
            ProjectLocation::UntitledRecovery(path) => path,
        }
    }

    /// The title of a stored document, given the text of its file stem.
    pub fn title_from_stem(stem: Option<String>) -> (r: String)
        ensures
            r@ == (match stem {
                Some(stem) => stem@,
                None => "Untitled"@,
            }),
    {
        match stem {
            Some(stem) => stem,
            None => "Untitled".to_owned(),
        }
    }

    pub fn title(&self) -> (r: String)
        ensures
            r@ == (match self@ {
                Location::Explicit { path, bootstrap_png } => match path.name {
                    Some(name) => utf16_lossy(name.stem),
                    None => "Untitled"@,
                },
                Location::UntitledRecovery(_) => "Untitled (Recovery)"@,
            }),
    {
        match self {
            ProjectLocation::Explicit { path, .. } => {
                let stem = match &path.name {
                    Some(name) => Some(decode_utf16_lossy(&name.stem)),
                    None => None,
                };
                Self::title_from_stem(stem)
            },
            ProjectLocation::UntitledRecovery(_) => "Untitled (Recovery)".to_owned(),
        }
    }

    /// Where a save exports to. A recovery has no visible destination.
    pub fn export_path(&self) -> (r: Option<FilePath>)
        ensures
            optional_path(r) == (match self@ {
                Location::Explicit { path, bootstrap_png } => Some(
                    path.with_extension(crate::file_path::png_units()),
                ),
                Location::UntitledRecovery(_) => None,
            }),
    {
        match self {
            ProjectLocation::Explicit { path, .. } => Some(path.with_extension(png_extension())),
            ProjectLocation::UntitledRecovery(_) => None,
        }
    }

    /// The document of a launch: the activated path, else the configured
    /// project, else the sketchbook, else a recovery.
    pub fn from_environment_or_args(
        activated: Option<ProjectLocation>,
        configured: Option<FilePath>,
        sketchbook: Option<FilePath>,
        recovery: FilePath,
    ) -> (r: Self)
        ensures
            r@ == (match activated {
                Some(location) => location@,
                None => match configured {
                    Some(path) => Location::Explicit { path: path@, bootstrap_png: None },
                    None => match sketchbook {
                        Some(path) => Location::Explicit { path: path@, bootstrap_png: None },
                        None => Location::UntitledRecovery(recovery@),
                    },
                },
            }),
    {
        if let Some(location) = activated {
            return location;
        }
        if let Some(path) = configured {
            return ProjectLocation::Explicit { path, bootstrap_png: None };
        }
        if let Some(path) = sketchbook {
            return ProjectLocation::Explicit { path, bootstrap_png: None };
        }
        ProjectLocation::UntitledRecovery(recovery)
    }
}

/// The absolute form of an activated path: its canonical form where it has
/// one, else itself, else itself below the current directory.
pub fn absolute_activation_path(
    path: FilePath,
    canonical: Option<FilePath>,
    is_absolute: bool,
    below_current: Option<FilePath>,
) -> (r: FilePath)
    ensures
        r@ == (if canonical is Some {
            canonical->0@
        } else if is_absolute || below_current is None {
            path@
        } else {
            below_current->0@
        }),
{
    if let Some(canonical) = canonical {
        return canonical;
    }
    if is_absolute {
        return path;
    }
    match below_current {
        Some(joined) => joined,
        None => path,
    }
}

/// How far the check of an activation target has come.
#[derive(Clone, Copy, Debug, PartialEq, Eq, Structural)]
pub enum PreflightProgress {
    Start,
    ImageDecoded(bool),
    Metadata(ProjectFile),
    Opened(bool),
    TreeLoaded(bool),
    CanvasLoaded(bool),
    HistoryLoaded(bool),
}

/// Which part of an activation target was not usable.
#[derive(Clone, Copy, Debug, PartialEq, Eq, Structural)]
pub enum PreflightFailure {
    NotExternal,
    Image,
    Metadata,
    Project,
    LayerTree,
    Canvas,
    History,
}

impl PreflightFailure {
    /// The words before the path that was looked at, and those after the error
    /// that it gave. Only a target that is no file has neither path nor error.
    pub fn text(self) -> (r: (&'static str, &'static str))
        ensures
            r.0@ == (match self {
                PreflightFailure::NotExternal =>
                    "untitled recovery is not an external activation target"@,
                PreflightFailure::Image => "png activation decode path="@,
                PreflightFailure::Metadata => "activation project metadata path="@,
                PreflightFailure::Project => "project activation preflight path="@,
                PreflightFailure::LayerTree => "activation layer tree path="@,
                PreflightFailure::Canvas => "activation canvas path="@,
                PreflightFailure::History => "activation history path="@,
            }),
            r.1@ == (if self is Project {
                ": invalid-non-empty-preserved=true"@
            } else {
                ""@
            }),
    {
        match self {
            PreflightFailure::NotExternal => (
                "untitled recovery is not an external activation target",
                "",
            ),
            PreflightFailure::Image => ("png activation decode path=", ""),
            PreflightFailure::Metadata => ("activation project metadata path=", ""),
            PreflightFailure::Project => (
                "project activation preflight path=",
                ": invalid-non-empty-preserved=true",
            ),
            PreflightFailure::LayerTree => ("activation layer tree path=", ""),
            PreflightFailure::Canvas => ("activation canvas path=", ""),
            PreflightFailure::History => ("activation history path=", ""),
        }
    }
}

#[derive(Clone, Copy, Debug, PartialEq, Eq, Structural)]
pub enum PreflightStep {
    DecodeImage,
    ReadMetadata,
    OpenProject,
    LoadTree,
    LoadCanvas,
    LoadHistory,
    Accept,
    Refuse(PreflightFailure),
}

pub open spec fn preflight(location: Location, progress: PreflightProgress) -> PreflightStep {
    match progress {
        PreflightProgress::Start => match location {
            Location::UntitledRecovery(_) => PreflightStep::Refuse(PreflightFailure::NotExternal),
            Location::Explicit { path, bootstrap_png } => if bootstrap_png is Some {
                PreflightStep::DecodeImage
            } else {
                PreflightStep::ReadMetadata
            },
        },
        PreflightProgress::ImageDecoded(ok) => if ok {
            PreflightStep::ReadMetadata
        } else {
            PreflightStep::Refuse(PreflightFailure::Image)
        },
        PreflightProgress::Metadata(file) => match file {
            ProjectFile::NonEmpty => PreflightStep::OpenProject,
            ProjectFile::Empty | ProjectFile::Missing => PreflightStep::Accept,
            ProjectFile::Unreadable => PreflightStep::Refuse(PreflightFailure::Metadata),
        },
        PreflightProgress::Opened(ok) => if ok {
            PreflightStep::LoadTree
        } else {
            PreflightStep::Refuse(PreflightFailure::Project)
        },
        PreflightProgress::TreeLoaded(ok) => if ok {
            PreflightStep::LoadCanvas
        } else {
            PreflightStep::Refuse(PreflightFailure::LayerTree)
        },
        PreflightProgress::CanvasLoaded(ok) => if ok {
            PreflightStep::LoadHistory
        } else {
            PreflightStep::Refuse(PreflightFailure::Canvas)
        },
        PreflightProgress::HistoryLoaded(ok) => if ok {
            PreflightStep::Accept
        } else {
            PreflightStep::Refuse(PreflightFailure::History)
        },
    }
}

/// Checks an activation target while the current document is still live. No
/// step creates a file.
pub fn preflight_project_activation(location: &ProjectLocation, progress: PreflightProgress) -> (r:
    PreflightStep)
    ensures
        r == preflight(location@, progress),
{
    match progress {
        PreflightProgress::Start => match location {
            ProjectLocation::UntitledRecovery(_) => PreflightStep::Refuse(
                PreflightFailure::NotExternal,
            ),
            ProjectLocation::Explicit { bootstrap_png, .. } => {
                if bootstrap_png.is_some() {
                    PreflightStep::DecodeImage
                } else {
                    PreflightStep::ReadMetadata
                }
            },
        },
        PreflightProgress::ImageDecoded(ok) => {
            if ok {
                PreflightStep::ReadMetadata
            } else {
                PreflightStep::Refuse(PreflightFailure::Image)
            }
        },
        PreflightProgress::Metadata(file) => match file {
            ProjectFile::NonEmpty => PreflightStep::OpenProject,
            ProjectFile::Empty | ProjectFile::Missing => PreflightStep::Accept,
            ProjectFile::Unreadable => PreflightStep::Refuse(PreflightFailure::Metadata),
        },
        PreflightProgress::Opened(ok) => {
            if ok {
                PreflightStep::LoadTree
            } else {
                PreflightStep::Refuse(PreflightFailure::Project)
            }
        },
        PreflightProgress::TreeLoaded(ok) => {
            if ok {
                PreflightStep::LoadCanvas
            } else {
                PreflightStep::Refuse(PreflightFailure::LayerTree)
            }
        },
        PreflightProgress::CanvasLoaded(ok) => {
            if ok {
                PreflightStep::LoadHistory
            } else {
                PreflightStep::Refuse(PreflightFailure::Canvas)
            }
        },
        PreflightProgress::HistoryLoaded(ok) => {
            if ok {
                PreflightStep::Accept
            } else {
                PreflightStep::Refuse(PreflightFailure::History)
            }
        },
    }
}

/// An image is imported only into a project that is known to be missing or
/// empty, never over one that has content or could not be looked at.
pub proof fn images_never_replace_projects(path: PathParts, project: ProjectFile)
    requires
        activated(path, project) matches Ok(
            Some(Location::Explicit { path: stored, bootstrap_png: Some(source) }),
        ),
    ensures
        project is Missing || project is Empty,
{
}

/// The project and the image of a pair activate the same store.
pub proof fn pairs_share_storage(path: PathParts, project: ProjectFile)
    requires
        path.name is Some,
    ensures
        activated(path.with_extension(crate::file_path::png_units()), project) matches Ok(
            Some(image),
        ) ==> image.storage() == path.with_extension(crate::file_path::ntdr_units()),
        activated(path.with_extension(crate::file_path::ntdr_units()), project) matches Ok(
            Some(stored),
        ) && stored.storage() == path.with_extension(crate::file_path::ntdr_units()),
{
    let png = path.with_extension(crate::file_path::png_units());
    let ntdr = path.with_extension(crate::file_path::ntdr_units());
    assert(crate::file_path::spells(
        crate::file_path::ntdr_units(),
        crate::file_path::ntdr_units(),
    ));
    assert(!crate::file_path::spells(
        crate::file_path::png_units(),
        crate::file_path::ntdr_units(),
    ));
    crate::file_path::last_extension_wins(
        path,
        crate::file_path::png_units(),
        crate::file_path::ntdr_units(),
    );
}

} // verus!
