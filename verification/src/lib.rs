//! The decision core of the NyatiDraw desktop application.
//!
//! The library holds the rules by which pen input becomes strokes, by which
//! editor commands are admitted, and by which closed artwork reaches the
//! project store. Windows, graphics devices, files and threads stay with the
//! host; every module here works on plain values and states what it does in
//! contracts.
use vstd::prelude::*;

pub mod artwork;
pub mod artwork_laws;
pub mod brush_step;
pub mod canvas;
pub mod closed_queue;
pub mod closing;
pub mod command;
pub mod command_laws;
pub mod commits;
pub mod decimal;
pub mod dirty;
pub mod document;
pub mod drain;
pub mod drain_laws;
pub mod drawing;
pub mod edit;
pub mod editor_command;
pub mod effect;
pub mod export;
pub mod export_laws;
pub mod file_path;
pub mod frame;
pub mod frame_laws;
pub mod frame_trace;
pub mod gesture_laws;
pub mod gpu_ops;
pub mod history_install;
pub mod histogram;
pub mod host_laws;
pub mod input;
pub mod layer_command;
pub mod layer_laws;
pub mod layer_tree;
pub mod little_endian;
pub mod materialized;
pub mod operation_laws;
pub mod page_laws;
pub mod page_panel;
pub mod page_tiles;
pub mod palette_preferences;
pub mod performance;
pub mod performance_probe;
pub mod performance_report;
pub mod performance_workload;
pub mod picker;
pub mod picker_preview;
pub mod pipeline_laws;
pub mod probe_laws;
pub mod probes;
pub mod project_laws;
pub mod project_location;
pub mod project_switch;
pub mod recent_projects;
pub mod render_host;
pub mod sample_route;
pub mod save_as;
pub mod scene_laws;
pub mod session_open;
pub mod settings_laws;
pub mod shutdown;
pub mod single_instance;
pub mod sketchbook;
pub mod stroke;
pub mod stroke_laws;
pub mod stroke_pipeline;
pub mod text;
pub mod tile_laws;
pub mod tile_map;
pub mod tiles;
pub mod tool_command;
pub mod tool_laws;
pub mod tool_state;
pub mod transform;
pub mod transform_display;
pub mod transform_laws;
pub mod transform_panel;
pub mod transform_runtime;
pub mod transform_settle;
pub mod uploads;
pub mod usage;
pub mod view_laws;
pub mod windows_path;
pub mod writer;
pub mod writer_laws;

verus! {

} // verus!
