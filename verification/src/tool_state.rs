//! Tool settings that outlive a session: per project, and as the last used ones
//! of the person drawing.
use vstd::prelude::*;

use crate::document::Rgba;
use crate::drawing::{
    DrawingConfig, DrawingState, DrawingTool, EditSettings, PencilTemplate, RememberedBrush,
};
use crate::file_path::FilePath;

verus! {

/// The stored tool settings.
#[derive(Clone, Copy, Debug, PartialEq, Eq)]
pub struct ProjectToolState {
    pub tool: DrawingTool,
    pub pencil_template: PencilTemplate,
    pub last_painting_slot: u8,
    pub color: Rgba,
    pub background_color: Rgba,
    pub edit_settings: EditSettings,
    pub remembered: [RememberedBrush; 5],
}

impl ProjectToolState {
    /// The record names one of its brushes.
    pub open spec fn wf(self) -> bool {
        self.last_painting_slot < 5
    }

    /// The settings that the record stands for: the brush of its slot is in
    /// use.
    pub open spec fn restored(self) -> DrawingState {
        DrawingState {
            edit_settings: self.edit_settings,
            tool: self.tool,
            pencil_template: self.pencil_template,
            size_tenths: self.remembered@[self.last_painting_slot as int].size_tenths,
            opacity_u16: self.remembered@[self.last_painting_slot as int].opacity_u16,
            brush_settings: self.remembered@[self.last_painting_slot as int].settings,
            remembered: self.remembered@,
            last_painting_slot: self.last_painting_slot as int,
            color: self.color,
            background_color: self.background_color,
        }
    }
}

/// The record of the current settings, the brush in use included.
pub fn encode(drawing: DrawingConfig) -> (r: ProjectToolState)
    requires
        drawing@.wf(),
    ensures
        r.wf(),
        r.restored() == drawing@.remembering(),
{
    let mut drawing = drawing;
    let ghost before = drawing@;
    drawing.remember_current();
    let r = ProjectToolState {
        tool: drawing.tool,
        pencil_template: drawing.pencil_template,
        last_painting_slot: drawing.last_painting_slot as u8,
        color: drawing.color,
        background_color: drawing.background_color,
        edit_settings: drawing.edit_settings,
        remembered: drawing.remembered,
    };
    assert(r.restored() =~= before.remembering());
    r
}

pub fn decode(state: ProjectToolState) -> (r: DrawingConfig)
    requires
        state.wf(),
    ensures
        r@ == state.restored(),
        r@.wf(),
{
    let slot: usize = state.last_painting_slot as usize;
    let active = state.remembered[slot];
    DrawingConfig {
        edit_settings: state.edit_settings,
        tool: state.tool,
        pencil_template: state.pencil_template,
        size_tenths: active.size_tenths,
        opacity_u16: active.opacity_u16,
        brush_settings: active.settings,
        remembered: state.remembered,
        last_painting_slot: slot,
        color: state.color,
        background_color: state.background_color,
    }
}

/// Where tool settings are kept.
#[derive(Clone, Copy, Debug, PartialEq, Eq, Structural)]
pub struct Store {
    pub project_writable: bool,
    pub initialize_project: bool,
    pub global_writable: bool,
    pub failed_notice_sent: bool,
}

/// What loading gave.
#[derive(Clone, Copy, Debug, PartialEq, Eq)]
pub struct Loaded {
    pub store: Store,
    pub drawing: Option<DrawingConfig>,
    /// Some settings could not be read.
    pub notice: bool,
}

/// Both places to which settings are written.
#[derive(Clone, Copy, Debug, PartialEq, Eq, Structural)]
pub struct Destinations {
    pub project: bool,
    pub global: bool,
}

impl Store {
    /// Takes what both places hold. The project's settings win; settings that
    /// could not be read are never overwritten.
    pub fn load(
        project: Result<Option<DrawingConfig>, ()>,
        global: Result<Option<DrawingConfig>, ()>,
        has_global_path: bool,
    ) -> (r: Loaded)
        ensures
            r.store == (Store {
                project_writable: project is Ok,
                initialize_project: project is Ok && project->Ok_0 is None,
                global_writable: global is Ok && has_global_path,
                failed_notice_sent: false,
            }),
            r.notice == (project is Err || global is Err),
            r.drawing == (if project is Ok && project->Ok_0 is Some {
                project->Ok_0
            } else if global is Ok {
                global->Ok_0
            } else {
                None
            }),
    {
        let notice = project.is_err() || global.is_err();
        let initialize_project = match project {
            Ok(None) => true,
            _ => false,
        };
        let store = Store {
            project_writable: project.is_ok(),
            initialize_project,
            global_writable: global.is_ok() && has_global_path,
            failed_notice_sent: false,
        };
        let fallback = match global {
            Ok(drawing) => drawing,
            Err(_) => None,
        };
        let drawing = match project {
            Ok(Some(drawing)) => Some(drawing),
            _ => fallback,
        };
        Loaded { store, drawing, notice }
    }

    pub fn load_notice() -> (r: &'static str)
        ensures
            r@
                == "일부 도구 설정을 읽지 못했습니다. 사용 가능한 설정으로 열었으며 기존 값은 보존했습니다."@,
    {
        "일부 도구 설정을 읽지 못했습니다. 사용 가능한 설정으로 열었으며 기존 값은 보존했습니다."
    }

    /// Whether a project without settings has to be given its first ones. That
    /// happens once.
    pub fn initialize(&mut self) -> (write: bool)
        ensures
            write == old(self).initialize_project,
            *final(self) == (Store { initialize_project: false, ..*old(self) }),
    {
        let write = self.initialize_project;
        self.initialize_project = false;
        write
    }

    pub fn destinations(&self) -> (r: Destinations)
        ensures
            r == (Destinations { project: self.project_writable, global: self.global_writable }),
    {
        Destinations { project: self.project_writable, global: self.global_writable }
    }

    /// Takes how writing went. Returns whether the failure is announced; it is
    /// announced once.
    pub fn persist(&mut self, project_failed: bool, global_failed: bool) -> (notify: bool)
        ensures
            notify == ((old(self).project_writable && project_failed || old(self).global_writable
                && global_failed) && !old(self).failed_notice_sent),
            *final(self) == (Store {
                failed_notice_sent: old(self).failed_notice_sent || notify,
                ..*old(self)
            }),
    {
        let failed = self.project_writable && project_failed || self.global_writable
            && global_failed;
        if failed && !self.failed_notice_sent {
            self.notify_failure();
            return true;
        }
        false
    }

    /// Remembers that a failure was announced. The announcement is returned.
    pub fn notify_failure(&mut self) -> (r: &'static str)
        ensures
            *final(self) == (Store { failed_notice_sent: true, ..*old(self) }),
            r@
                == "도구 설정을 저장하지 못했습니다. 그림 저장과는 별개이며 현재 작업은 계속할 수 있습니다."@,
    {
        self.failed_notice_sent = true;
        "도구 설정을 저장하지 못했습니다. 그림 저장과는 별개이며 현재 작업은 계속할 수 있습니다."
    }
}

/// The latest settings that wait to be written.
#[derive(Clone, Copy, Debug, PartialEq, Eq)]
pub struct Pending {
    pub drawing: Option<DrawingConfig>,
}

impl Pending {
    pub fn new() -> (r: Self)
        ensures
            r.drawing is None,
    {
        Pending { drawing: None }
    }

    /// Keeps only the latest settings. Returns whether a flush has to be asked
    /// for; while one is owed, none is.
    pub fn submit(&mut self, drawing: DrawingConfig) -> (first: bool)
        ensures
            first == (old(self).drawing is None),
            final(self).drawing == Some(drawing),
    {
        let first = self.drawing.is_none();
        self.drawing = Some(drawing);
        first
    }

    /// The settings to write now.
    pub fn flush(&mut self) -> (r: Option<DrawingConfig>)
        ensures
            r == old(self).drawing,
            final(self).drawing is None,
    {
        let drawing = self.drawing;
        self.drawing = None;
        drawing
    }
}

pub open spec fn tools_units() -> Seq<u16> {
    seq![116, 111, 111, 108, 115]
}

/// The shared tool settings lie beside the layout settings.
pub fn global_settings_path(settings: Option<FilePath>) -> (r: Option<FilePath>)
    ensures
        match settings {
            Some(path) => r matches Some(tools) && tools@ == path@.with_extension(tools_units()),
            None => r is None,
        },
{
    match settings {
        Some(path) => {
            let extension: Vec<u16> = vec![116, 111, 111, 108, 115];
            assert(extension@ =~= tools_units());
            Some(path.with_extension(extension))
        },
        None => None,
    }
}

/// Settings come back as they were stored, the brush in use included.
pub proof fn settings_round_trip(drawing: DrawingState, record: ProjectToolState)
    requires
        drawing.wf(),
        record.wf(),
        record.restored() == drawing.remembering(),
    ensures
        record.restored().tool == drawing.tool,
        record.restored().current_brush() == drawing.current_brush(),
        record.restored().color == drawing.color,
        record.restored().background_color == drawing.background_color,
        record.restored().edit_settings == drawing.edit_settings,
        record.restored().remembering() == record.restored(),
        drawing.remembering() == drawing ==> record.restored() == drawing,
{
    assert(record.restored().remembering().remembered =~= record.restored().remembered);
}

} // verus!
