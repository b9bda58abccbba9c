use nyatidraw_desktop::decimal::{parse_decimal, to_decimal};
use nyatidraw_desktop::document::{CanvasSpec, PixelSize, Rgba};
use nyatidraw_desktop::drawing::{
    BrushDefaults, BrushSettings, DrawingConfig, DrawingControls, DrawingTool, EditSettings,
    EditSource, FillSettings, PencilTemplate, SelectionMode,
};
use nyatidraw_desktop::file_path::{
    ntdr_extension, png_extension, spells_word, FileName, FilePath,
};
use nyatidraw_desktop::little_endian::{push_le16, push_le32, push_units, read_units};
use nyatidraw_desktop::page_panel::{
    page_busy_message, page_change, preset, within_output_limit, CanvasDraft, CanvasSizeInput,
    PageChange, PresetUse, SizeError,
};
use nyatidraw_desktop::palette_preferences;
use nyatidraw_desktop::palette_preferences::{PaletteNotice, PalettePreferences, Pins, StoredPins};
use nyatidraw_desktop::recent_projects;
use nyatidraw_desktop::recent_projects::RecentError;
use nyatidraw_desktop::tool_state;
use nyatidraw_desktop::tool_state::{Pending, Store};
use nyatidraw_desktop::transform::{AffineTransform, MilliPoint, ScalePpm};
use nyatidraw_desktop::windows_path::{is_same_path, path_is_absolute, path_is_project};

fn units(text: &str) -> Vec<u16> {
    text.encode_utf16().collect()
}

fn file(directory: &str, stem: &str, extension: Option<&str>) -> FilePath {
    FilePath {
        directory: units(directory),
        name: Some(FileName { stem: units(stem), extension: extension.map(units) }),
    }
}

const LIMIT: u64 = 268_435_456;

#[test]
fn pins_are_stored_in_fixed_slots() {
    let mut pins = Pins { slots: [None; 10] };
    pins.slots[1] = Some(Rgba { red: 9, green: 8, blue: 7, alpha: 6 });
    let bytes = palette_preferences::encode(&pins);
    assert_eq!(bytes.len(), 58);
    assert_eq!(&bytes[..8], b"NYCOLR01");
    assert_eq!(&bytes[8..18], &[0, 0, 0, 0, 0, 1, 9, 8, 7, 6]);
    assert_eq!(palette_preferences::load(&bytes).unwrap().slots, pins.slots);
}

#[test]
fn damaged_pins_are_refused() {
    let good = palette_preferences::encode(&Pins { slots: [None; 10] });
    let mut short = good.clone();
    short.pop();
    assert!(palette_preferences::load(&short).is_none());
    let mut long = good.clone();
    long.push(0);
    assert!(palette_preferences::load(&long).is_none());
    let mut renamed = good.clone();
    renamed[0] = b'X';
    assert!(palette_preferences::load(&renamed).is_none());
    let mut flag = good.clone();
    flag[8] = 2;
    assert!(palette_preferences::load(&flag).is_none());
    let mut hidden = good.clone();
    hidden[9] = 1;
    assert!(palette_preferences::load(&hidden).is_none());
    let mut transparent = good.clone();
    transparent[8] = 1;
    assert!(palette_preferences::load(&transparent).is_none());
    let mut repeated = good;
    for slot in [8, 13] {
        repeated[slot..slot + 5].copy_from_slice(&[1, 2, 3, 4, 5]);
    }
    assert!(palette_preferences::load(&repeated).is_none());
}

#[test]
fn pins_have_one_place() {
    let given = file("D:\\pins", "mine", Some("bin"));
    let layout = file("C:\\N", "workspace", Some("layout"));
    let application = file("C:\\N", "palette", Some("colors"));
    assert_eq!(
        palette_preferences::settings_path(
            Some(given.clone()),
            Some(layout.clone()),
            Some(application.clone())
        ),
        Some(given)
    );
    assert_eq!(
        palette_preferences::settings_path(None, Some(layout), Some(application.clone())),
        Some(file("C:\\N", "workspace", Some("colors")))
    );
    assert_eq!(
        palette_preferences::settings_path(None, None, Some(application.clone())),
        Some(application)
    );
    assert_eq!(palette_preferences::settings_path(None, None, None), None);
    assert_eq!(palette_preferences::temporary_name(7, 8), ".nyatidraw-colors-7-8.tmp");
}

#[test]
fn unreadable_pins_are_never_overwritten() {
    let (mut preferences, pins) = PalettePreferences::open(StoredPins::Unreadable, true);
    assert_eq!(pins.slots, [None; 10]);
    assert_eq!(preferences.notice, Some(PaletteNotice::NotRead));
    assert!(!preferences.save(pins));
    assert!(preferences.take_pending().is_none());
}

#[test]
fn only_the_latest_pins_are_written() {
    let (mut preferences, pins) = PalettePreferences::open(StoredPins::Missing, true);
    assert!(preferences.save(Pins { slots: pins.slots }));
    let mut second = [None; 10];
    second[9] = Some(Rgba { red: 1, green: 1, blue: 1, alpha: 1 });
    preferences.save(Pins { slots: second });
    assert_eq!(preferences.take_pending().unwrap().slots, second);
    assert!(preferences.take_pending().is_none());
    preferences.written(false);
    assert_eq!(preferences.notice, Some(PaletteNotice::NotWritten));
    preferences.written(true);
    assert_eq!(preferences.notice, None);
}

#[test]
fn recent_lists_round_trip_and_refuse_damage() {
    let path = units("E:\\새 그림.ntdr");
    let paths = vec![path.clone()];
    let bytes = recent_projects::encode(&paths).unwrap();
    assert_eq!(&bytes[..14], &[78, 89, 82, 69, 67, 48, 48, 49, 1, 0, 12, 0, 0, 0]);
    assert_eq!(bytes.len(), 14 + 24);
    assert_eq!(recent_projects::decode(&bytes), Ok(paths.clone()));
    let mut cut = bytes.clone();
    cut.pop();
    for damage in [b"invalid".to_vec(), vec![0; recent_projects::MAX_BYTES + 1], cut] {
        assert_eq!(recent_projects::decode(&damage), Err(RecentError));
    }
    for length in 0..bytes.len() {
        assert_eq!(recent_projects::decode(&bytes[..length].to_vec()), Err(RecentError));
    }
    let mut trailing = bytes.clone();
    trailing.push(0);
    assert_eq!(recent_projects::decode(&trailing), Err(RecentError));
    let mut twice = bytes[..8].to_vec();
    twice.extend([2, 0]);
    twice.extend(&bytes[10..]);
    twice.extend(&bytes[10..]);
    assert_eq!(recent_projects::decode(&twice), Err(RecentError));
}

#[test]
fn recent_lists_refuse_foreign_paths() {
    for foreign in [
        units("drawing.ntdr"),
        units("\\drawing.ntdr"),
        units("C:drawing.ntdr"),
        units("C:\\drawing.png"),
        units("C:\\.ntdr"),
        units("C:\\a.ntdr\\.."),
        units("C:\\a\0b.ntdr"),
        Vec::new(),
    ] {
        assert_eq!(recent_projects::encode(&vec![foreign]), Err(RecentError));
    }
    let many: Vec<Vec<u16>> = (0..21).map(numbered).collect();
    assert_eq!(recent_projects::encode(&many), Err(RecentError));
    let long = units(&format!("C:\\{}.ntdr", "a".repeat(32_760)));
    assert_eq!(long.len(), 32_768);
    assert!(recent_projects::encode(&vec![long.clone()]).is_ok());
    let longer = units(&format!("C:\\{}.ntdr", "a".repeat(32_761)));
    assert_eq!(recent_projects::encode(&vec![longer]), Err(RecentError));
}

fn numbered(index: u16) -> Vec<u16> {
    units(&format!("C:\\art\\{index}.ntdr"))
}

/// A stored list of these paths, whatever they are.
fn stored_list(paths: &[Vec<u16>]) -> Vec<u8> {
    let mut bytes = b"NYREC001".to_vec();
    push_le16(&mut bytes, u16::try_from(paths.len()).unwrap());
    for path in paths {
        push_le32(&mut bytes, u32::try_from(path.len()).unwrap());
        push_units(&mut bytes, path);
    }
    bytes
}

#[test]
fn recent_lists_refuse_a_path_in_two_spellings() {
    let first = units("C:\\a\\b.ntdr");
    for again in ["C:/a/b.ntdr", "c:\\a\\b.ntdr", "C:\\a\\.\\b.ntdr", "C:\\\\a\\b.ntdr\\"] {
        let bytes = stored_list(&[first.clone(), units(again)]);
        assert_eq!(recent_projects::decode(&bytes), Err(RecentError));
    }
    let apart = vec![first, units("C:\\a\\B.ntdr"), units("\\\\?\\C:\\a\\b.ntdr")];
    assert_eq!(recent_projects::decode(&stored_list(&apart)), Ok(apart.clone()));
    assert_eq!(recent_projects::encode(&apart), Ok(stored_list(&apart)));
}

#[test]
fn opened_projects_move_to_the_front() {
    let paths: Vec<Vec<u16>> = (0..20).map(numbered).collect();
    assert_eq!(recent_projects::record_opened(&paths, numbered(0)), None);
    assert_eq!(recent_projects::record_opened(&paths, units("c:/art/0.ntdr")), None);
    let moved = recent_projects::record_opened(&paths, units("C:/art/5.ntdr")).unwrap();
    assert_eq!(moved.len(), 20);
    assert_eq!(moved[0], units("C:/art/5.ntdr"));
    assert_eq!(moved[1], numbered(0));
    assert_eq!(moved[5], numbered(4));
    assert_eq!(moved[6], numbered(6));
    let fresh = recent_projects::record_opened(&paths, numbered(70)).unwrap();
    assert_eq!(fresh.len(), 20);
    assert_eq!(fresh[0], numbered(70));
    assert_eq!(fresh[19], numbered(18));
}

#[test]
fn spellings_of_one_path_are_the_same() {
    let same = |a: &str, b: &str| is_same_path(&units(a), &units(b));
    assert!(same("a/b", "a//b"));
    assert!(same("a/./b", "a/b"));
    assert!(same("a/b/", "a\\b"));
    assert!(same("d:\\x", "D:/x"));
    assert!(same("\\\\server\\share\\x", "//server/share/x"));
    assert!(same("\\\\server\\share", "\\\\server\\share\\"));
    assert!(same("\\\\?\\c:\\x\\\\y", "\\\\?\\C:\\x\\y"));
    assert!(!same("./a", "a"));
    assert!(!same("a/../b", "b"));
    assert!(!same("C:a", "C:\\a"));
    assert!(!same("C:\\A", "C:\\a"));
    assert!(!same("\\\\?\\C:\\x", "C:\\x"));
    assert!(!same("\\\\?\\C:\\x\\.\\y", "\\\\?\\C:\\x\\y"));
    assert!(!same("\\\\?\\UNC\\server\\share\\x", "\\\\server\\share\\x"));
    assert!(!same("\\\\.\\COM1", "\\\\.\\COM2"));
}

#[test]
fn absolute_paths_have_a_start_and_a_root() {
    let absolute = |path: &str| path_is_absolute(&units(path));
    assert!(absolute("C:\\x"));
    assert!(absolute("z:/"));
    assert!(absolute("\\\\server\\share"));
    assert!(absolute("\\\\?\\C:"));
    assert!(absolute("\\\\?\\UNC\\server\\share\\x"));
    assert!(absolute("\\\\?\\name"));
    assert!(absolute("\\\\.\\COM42"));
    assert!(!absolute("\\x"));
    assert!(!absolute("C:x"));
    assert!(!absolute("x"));
    assert!(!absolute("\\\\server"));
    assert!(!absolute("1:\\x"));
    assert!(!absolute(""));
}

#[test]
fn projects_are_known_by_their_extension() {
    let project = |path: &str| path_is_project(&units(path));
    assert!(project("C:\\cat.ntdr"));
    assert!(project("cat.NtDr\\"));
    assert!(project("a.b.ntdr"));
    assert!(project("..ntdr"));
    assert!(!project(".ntdr"));
    assert!(!project("cat.ntdr.png"));
    assert!(!project("cat.ntdr\\.."));
    assert!(!project("catntdr"));
    assert!(!project("C:\\"));
}

#[test]
fn the_last_project_is_the_first_that_still_exists() {
    assert_eq!(recent_projects::last_existing(&vec![false, true, true]), Some(1));
    assert_eq!(recent_projects::last_existing(&vec![false, false]), None);
    let settings = file("C:\\N", "workspace", Some("layout"));
    assert_eq!(
        recent_projects::settings_path(Some(settings)),
        Some(file("C:\\N", "workspace", Some("recent")))
    );
    let unread = recent_projects::cache(Some(Err(RecentError)));
    assert_eq!(recent_projects::list(&unread), Err(RecentError));
    let none = recent_projects::cache(None);
    assert_eq!(recent_projects::list(&none), Ok(Vec::new()));
}

fn settings(hardness_u16: u16, smoothing: u8) -> BrushSettings {
    BrushSettings {
        size_pressure: true,
        opacity_pressure: false,
        size_minimum_u16: 1,
        opacity_minimum_u16: 2,
        hardness_u16,
        smoothing,
    }
}

fn drawing(tool: DrawingTool) -> DrawingConfig {
    DrawingConfig::from_projection(
        DrawingControls {
            edit_settings: EditSettings {
                source: EditSource::AllVisible,
                tolerance: 4,
                fill: FillSettings { gap_close_px: 1, expand_px: 2, antialias: false },
                selection_mode: SelectionMode::Add,
            },
            drawing_tool: tool,
            pencil_template: PencilTemplate::Graphite2B,
            brush_size_tenths: 33,
            brush_opacity_u16: 44,
            brush_settings: settings(55, 66),
            brush_color: Rgba { red: 1, green: 2, blue: 3, alpha: 4 },
            background_color: Rgba { red: 5, green: 6, blue: 7, alpha: 8 },
        },
        BrushDefaults {
            pencil: settings(1, 1),
            pen: settings(2, 2),
            brush: settings(3, 3),
            eraser: settings(4, 4),
            graphite: settings(5, 5),
        },
    )
}

#[test]
fn persisted_brush_parameters_cannot_reopen_as_a_different_or_invalid_brush() {
    let mut config = drawing(DrawingTool::Pen);
    config.color = Rgba { red: 21, green: 42, blue: 63, alpha: 255 };
    config.background_color = Rgba { red: 65, green: 43, blue: 21, alpha: 255 };
    config.pencil_template = PencilTemplate::Graphite2B;
    for (index, tool) in
        [DrawingTool::Pencil, DrawingTool::Pen, DrawingTool::Brush, DrawingTool::Eraser]
            .into_iter()
            .enumerate()
    {
        config.select_tool(tool);
        config.size_tenths = 10 + u16::try_from(index).unwrap();
        config.opacity_u16 = 40_000 + u16::try_from(index).unwrap();
        config.brush_settings.size_minimum_u16 = 15_000;
        config.brush_settings.opacity_minimum_u16 = 7_000;
        config.brush_settings.hardness_u16 = 32_000;
        config.brush_settings.smoothing = 37;
        config.remember_current();
    }
    for tool in [
        DrawingTool::Move,
        DrawingTool::MoveSelection,
        DrawingTool::Pencil,
        DrawingTool::Pen,
        DrawingTool::Brush,
        DrawingTool::Eraser,
        DrawingTool::Wand,
        DrawingTool::Lasso,
        DrawingTool::RectangleSelection,
        DrawingTool::Eyedropper,
        DrawingTool::Fill,
        DrawingTool::Gradient,
    ] {
        config.select_tool(tool);
        assert_eq!(tool_state::decode(tool_state::encode(config)), config);
    }
}

#[test]
fn project_tool_settings_win_over_global_ones() {
    let project = drawing(DrawingTool::Pen);
    let global = drawing(DrawingTool::Fill);
    let loaded = Store::load(Ok(Some(project)), Ok(Some(global)), true);
    assert_eq!(loaded.drawing, Some(project));
    assert!(!loaded.notice);
    let fresh = Store::load(Ok(None), Ok(Some(global)), true);
    assert_eq!(fresh.drawing, Some(global));
    let mut store = fresh.store;
    assert!(store.initialize());
    assert!(!store.initialize());
}

#[test]
fn unreadable_tool_settings_are_left_alone() {
    let mut loaded = Store::load(Err(()), Err(()), true);
    assert!(loaded.notice);
    assert_eq!(loaded.drawing, None);
    assert!(!loaded.store.initialize());
    let destinations = loaded.store.destinations();
    assert!(!destinations.project);
    assert!(!destinations.global);
}

#[test]
fn failed_tool_settings_are_reported_once() {
    let mut loaded = Store::load(Ok(None), Ok(None), true);
    assert!(loaded.store.persist(true, false));
    loaded.store.notify_failure();
    assert!(!loaded.store.persist(true, true));
}

#[test]
fn only_the_latest_tool_settings_are_flushed() {
    let mut pending = Pending::new();
    assert!(pending.submit(drawing(DrawingTool::Pen)));
    assert!(!pending.submit(drawing(DrawingTool::Fill)));
    assert_eq!(pending.flush(), Some(drawing(DrawingTool::Fill)));
    assert_eq!(pending.flush(), None);
}

fn canvas(width_px: u32, height_px: u32) -> CanvasSpec {
    CanvasSpec { width_px, height_px, pixels_per_inch: 96 }
}

fn typed(width: &str, height: &str) -> CanvasSizeInput {
    CanvasSizeInput { width: width.to_string(), height: height.to_string(), source: None }
}

#[test]
fn page_sizes_are_read_from_text() {
    let size = typed("640", "480").size(LIMIT);
    assert_eq!(size, Ok(PixelSize { width: 640, height: 480 }));
    assert_eq!(typed(" 640", "480").size(LIMIT), Err(SizeError::NotNumbers));
    assert_eq!(typed("", "1").size(LIMIT), Err(SizeError::NotNumbers));
    assert_eq!(typed("4294967296", "1").size(LIMIT), Err(SizeError::NotNumbers));
    assert_eq!(typed("0", "1").size(LIMIT), Err(SizeError::Zero));
    assert_eq!(typed("20000", "20000").size(LIMIT), Err(SizeError::OverLimit));
    assert!(within_output_limit(PixelSize { width: 16_384, height: 16_384 }, LIMIT));
    assert!(!within_output_limit(PixelSize { width: 16_384, height: 16_385 }, LIMIT));
}

#[test]
fn known_page_sizes_carry_their_name() {
    assert_eq!(preset(5).name, "4K UHD");
    assert_eq!(preset(5).size, PixelSize { width: 3840, height: 2160 });
    let input = CanvasSizeInput::new(canvas(1080, 1920));
    assert_eq!(input.source, Some(PresetUse { preset: 0, multiplier: 1 }));
    assert_eq!(input.label(), "FHD");
    let doubled = input.multiplied(2, LIMIT).unwrap();
    assert_eq!(doubled.label(), "FHD ×2");
    assert_eq!(doubled.width, "2160");
    assert_eq!(doubled.height, "3840");
    assert!(input.multiplied(20, LIMIT).is_none());
    assert_eq!(CanvasSizeInput::new(canvas(7, 9)).label(), "커스텀");
}

#[test]
fn page_drafts_undo_whole_changes() {
    let mut draft = CanvasDraft::new(canvas(100, 50));
    assert!(!draft.can_undo());
    draft.type_dimension(true, "1".to_string());
    draft.type_dimension(true, "12".to_string());
    draft.finish_typing();
    assert_eq!(draft.current.width, "12");
    draft.swap_axes();
    assert_eq!((draft.current.width.as_str(), draft.current.height.as_str()), ("50", "12"));
    draft.undo();
    assert_eq!((draft.current.width.as_str(), draft.current.height.as_str()), ("12", "50"));
    draft.undo();
    assert_eq!((draft.current.width.as_str(), draft.current.height.as_str()), ("100", "50"));
    assert!(!draft.can_undo());
}

#[test]
fn portrait_drafts_choose_portrait_presets() {
    let mut draft = CanvasDraft::new(canvas(50, 100));
    draft.choose_preset(0, LIMIT);
    assert_eq!((draft.current.width.as_str(), draft.current.height.as_str()), ("1080", "1920"));
    draft.multiply(2, LIMIT);
    assert_eq!((draft.current.width.as_str(), draft.current.height.as_str()), ("2160", "3840"));
}

#[test]
fn page_changes_are_told_apart() {
    let page = canvas(640, 480);
    assert_eq!(page_change(&typed("640", "480"), page, LIMIT), PageChange::Unchanged);
    assert_eq!(
        page_change(&typed("640", "481"), page, LIMIT),
        PageChange::Resize(PixelSize { width: 640, height: 481 })
    );
    assert_eq!(
        page_change(&typed("x", "481"), page, LIMIT),
        PageChange::Invalid(SizeError::NotNumbers)
    );
    assert!(!page_busy_message().is_empty());
}

#[test]
fn decimals_round_trip() {
    for value in [0, 7, 10, 4_294_967_295, u128::MAX] {
        assert_eq!(to_decimal(value), format!("{value}"));
        assert_eq!(parse_decimal(&format!("{value}"), u128::MAX), Some(value));
    }
    assert_eq!(parse_decimal("256", 255), None);
    assert_eq!(parse_decimal("", 255), None);
    assert_eq!(parse_decimal("1a", 255), None);
    assert_eq!(parse_decimal("+7", 255), Some(7));
}

#[test]
fn little_endian_units_round_trip() {
    let mut bytes = Vec::new();
    push_le16(&mut bytes, 0x1234);
    push_le32(&mut bytes, 0x89ab_cdef);
    push_units(&mut bytes, &vec![0xbeef]);
    assert_eq!(bytes, vec![0x34, 0x12, 0xef, 0xcd, 0xab, 0x89, 0xef, 0xbe]);
    assert_eq!(read_units(&bytes, 6, 1), vec![0xbeef]);
}

#[test]
fn extensions_are_replaced_and_compared_without_case() {
    let project = file("D:\\art", "cat", Some("NtDr"));
    let extension = project.name.as_ref().unwrap().extension.clone().unwrap();
    assert!(spells_word(&extension, &ntdr_extension()));
    assert!(!spells_word(&extension, &png_extension()));
    assert_eq!(project.with_extension(png_extension()), file("D:\\art", "cat", Some("png")));
    assert!(project.same(&project.copy()));
    assert!(project.same(&file("d:/art/", "cat", Some("NtDr"))));
    assert!(!project.same(&file("D:\\art", "cat", Some("ntdr"))));
    assert!(!project.same(&file("D:art", "cat", Some("NtDr"))));
    let nameless = FilePath { directory: units("D:\\"), name: None };
    assert!(!project.same(&nameless));
    assert!(nameless.same(&FilePath { directory: units("d:/"), name: None }));
}

#[test]
fn opposite_moves_cancel() {
    let transform = AffineTransform {
        offset_milli: MilliPoint { x: 0, y: 0 },
        scale_ppm: ScalePpm { x: 1_000_000, y: 1_000_000 },
        rotation_millidegrees: 0,
        flip_x: false,
        flip_y: false,
    };
    let moved = transform.moved(1_500, -2_500).unwrap();
    assert_eq!(moved.offset_milli, MilliPoint { x: 1_500, y: -2_500 });
    assert_eq!(moved.moved(-1_500, 2_500), Ok(transform));
}
