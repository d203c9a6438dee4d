use ini::{Ini, Properties};
use skin_ini::document::load_ini;
use skin_ini::mania::parser::{
    parse_colours, parse_column_layout, parse_flip_config, parse_images, parse_key_images,
    parse_mania_config, parse_note_flip_per_column, parse_note_images, read_mania_config,
};
use skin_ini::mania::structs::ManiaConfig;

fn shown(configs: &[ManiaConfig]) -> String {
    format!("{:?}", configs)
}

#[test]
fn a_section_with_only_keys_resolves_to_the_defaults() {
    let ini = load_ini("[Mania]\nKeys=4\n").unwrap();
    let configs = read_mania_config(&ini);
    assert_eq!(configs.len(), 1);
    let config = &configs[0];

    assert_eq!(config.keys.count, 4);
    assert!(!config.keys.keys_under_notes);

    assert_eq!(config.special_style.style_type, 0);
    assert!(!config.special_style.split_stages);
    assert_eq!(config.special_style.stage_separation, 0);
    assert!(!config.special_style.separate_score);

    assert_eq!(config.column_layout.column_start, 0);
    assert_eq!(config.column_layout.column_right, 0);
    assert!(config.column_layout.column_width.is_empty());
    assert!(config.column_layout.column_spacing.is_empty());
    assert!(config.column_layout.column_line_width.is_empty());
    assert_eq!(config.column_layout.barline_height, None);
    assert!(config.column_layout.lighting_width.n_width.is_empty());
    assert!(config.column_layout.lighting_width.l_width.is_empty());
    assert_eq!(config.column_layout.width_for_note_height_scale, None);

    assert_eq!(config.positions.hit_position, 0);
    assert_eq!(config.positions.light_position, 0);
    assert_eq!(config.positions.score_position, 0);
    assert_eq!(config.positions.combo_position, 0);

    assert!(config.colours.columns.is_empty());
    assert!(config.colours.lights.is_empty());
    assert_eq!(config.colours.column_line, [255, 255, 255, 255]);
    assert_eq!(config.colours.barline, [255, 255, 255, 255]);
    assert_eq!(config.colours.judgement_line, [255, 255, 255]);
    assert_eq!(config.colours.key_warning, [255, 0, 0]);
    assert_eq!(config.colours.hold, [255, 230, 0, 255]);
    assert_eq!(config.colours.break_colour, [255, 0, 0]);

    assert_eq!(config.images.keys.normal, vec![""; 4]);
    assert_eq!(config.images.keys.pressed, vec![""; 4]);
    assert_eq!(config.images.notes.regular, vec![""; 4]);
    assert_eq!(config.images.notes.hold_head, vec![""; 4]);
    assert_eq!(config.images.notes.hold_body, vec![""; 4]);
    assert_eq!(config.images.notes.hold_tail, vec![""; 4]);
    assert_eq!(config.images.stage.left, "");
    assert_eq!(config.images.stage.warning_arrow, "");
    assert_eq!(config.images.hits.hit_0, "");
    assert_eq!(config.images.hits.hit_300g, "");

    assert!(!config.behavior.judgement_line);
    assert_eq!(config.behavior.light_frame_per_second, 24);
    assert!(!config.behavior.upside_down);
    assert_eq!(config.behavior.combo_burst_style, 0);
    assert_eq!(config.behavior.note_body_style.global, 0);
    assert_eq!(config.behavior.note_body_style.per_column, vec![0; 4]);
    assert!(!config.behavior.flip_config.key_flip);
    assert!(!config.behavior.flip_config.note_flip);
    assert_eq!(config.behavior.flip_config.per_column_key_flip, vec![false; 4]);
    assert_eq!(config.behavior.flip_config.per_column_note_flip.note, vec![false; 4]);
    assert_eq!(config.behavior.flip_config.per_column_note_flip.hold_head, vec![false; 4]);
    assert_eq!(config.behavior.flip_config.per_column_note_flip.hold_body, vec![false; 4]);
    assert_eq!(config.behavior.flip_config.per_column_note_flip.hold_tail, vec![false; 4]);
}

#[test]
fn a_section_without_keys_is_passed_over() {
    let ini = load_ini("[Mania]\nColumnStart: 136\n").unwrap();
    assert!(read_mania_config(&ini).is_empty());
}

#[test]
fn a_section_with_unreadable_keys_is_passed_over() {
    let ini = load_ini("[Mania]\nKeys=abc\n").unwrap();
    assert!(read_mania_config(&ini).is_empty());
    let ini = load_ini("[Mania]\nKeys=\n").unwrap();
    assert!(read_mania_config(&ini).is_empty());
    let ini = load_ini("[Mania]\nKeys=-4\n").unwrap();
    assert!(read_mania_config(&ini).is_empty());
    let ini = load_ini("[Mania]\nKeys=4.0\n").unwrap();
    assert!(read_mania_config(&ini).is_empty());
}

#[test]
fn a_section_with_no_columns_is_passed_over() {
    let ini = load_ini("[Mania]\nKeys=0\n").unwrap();
    assert!(read_mania_config(&ini).is_empty());
}

#[test]
fn a_section_that_is_passed_over_does_not_hide_the_next() {
    let ini = load_ini("[Mania]\nKeys=abc\n[Mania]\nKeys=5\n[Mania]\nHitPosition=1\n").unwrap();
    let configs = read_mania_config(&ini);
    assert_eq!(configs.len(), 1);
    assert_eq!(configs[0].keys.count, 5);
    assert_eq!(configs[0].positions.hit_position, 0);
}

#[test]
fn every_mania_section_gives_a_configuration_in_document_order() {
    let ini = load_ini(
        "[General]\nName: x\nKeys: 9\n[Mania]\nKeys: 4\nHitPosition: 402\n[Fonts]\nKeys: 1\n[Mania]\nKeys: 7\nHitPosition: 380\n",
    )
    .unwrap();
    let configs = read_mania_config(&ini);
    assert_eq!(configs.len(), 2);
    assert_eq!(configs[0].keys.count, 4);
    assert_eq!(configs[0].positions.hit_position, 402);
    assert_eq!(configs[1].keys.count, 7);
    assert_eq!(configs[1].positions.hit_position, 380);
    assert_eq!(configs[1].images.keys.normal.len(), 7);
}

#[test]
fn only_sections_named_mania_count() {
    let ini = load_ini("Keys: 4\n[mania]\nKeys: 4\n[Mania2]\nKeys: 4\n[General]\nKeys: 4\n").unwrap();
    assert!(read_mania_config(&ini).is_empty());
    assert!(read_mania_config(&Ini::new()).is_empty());
}

#[test]
fn resolving_twice_gives_the_same() {
    let ini = load_ini(
        "[Mania]\nKeys: 4\nColour1: 1,2,3\nKeyImage0: a\\b\nColumnWidth: 30,x,31\nBarlineHeight: 1.2\n[Mania]\nKeys: 2\nNoteBodyStyle1: 2\n",
    )
    .unwrap();
    let first = read_mania_config(&ini);
    let second = read_mania_config(&ini);
    assert_eq!(first.len(), 2);
    assert_eq!(shown(&first), shown(&second));
    let again = load_ini(
        "[Mania]\nKeys: 4\nColour1: 1,2,3\nKeyImage0: a\\b\nColumnWidth: 30,x,31\nBarlineHeight: 1.2\n[Mania]\nKeys: 2\nNoteBodyStyle1: 2\n",
    )
    .unwrap();
    assert_eq!(shown(&first), shown(&read_mania_config(&again)));
}

#[test]
fn a_full_section_resolves_field_by_field() {
    let ini = load_ini(
        "[Mania]\n\
         Keys: 2\n\
         KeysUnderNotes: 1\n\
         SpecialStyle: 2\n\
         SplitStages: 1\n\
         StageSeparation: 40\n\
         SeparateScore: 0\n\
         ColumnStart: 136\n\
         ColumnRight: 19\n\
         ColumnWidth: 30,31\n\
         ColumnSpacing: 2\n\
         ColumnLineWidth: 0,1,0\n\
         BarlineHeight: 1.2\n\
         LightingNWidth: 5,6\n\
         LightingLWidth: 7\n\
         WidthForNoteHeightScale: 50\n\
         HitPosition: 402\n\
         LightPosition: 413\n\
         ScorePosition: 325\n\
         ComboPosition: 111\n\
         Colour1: 1,1,1\n\
         Colour2: 2,2,2,2\n\
         ColourLight2: 9,9,9\n\
         ColourColumnLine: 3,3,3,3\n\
         ColourBarline: 4,4,4\n\
         ColourJudgementLine: 5,5,5,5\n\
         ColourKeyWarning: 6,6,6\n\
         ColourHold: 7,7,7,7\n\
         ColourBreak: bad\n\
         KeyImage0: k0\n\
         KeyImage1: mania\\k1\n\
         KeyImage0D: k0d\n\
         NoteImage1: n1\n\
         NoteImage0H: h0\n\
         NoteImage1L: l1\n\
         NoteImage0T: t0\n\
         StageLeft: sl\n\
         StageRight: sr\n\
         StageBottom: sb\n\
         StageHint: sh\n\
         StageLight: slt\n\
         StageLightingN: sn\n\
         StageLightingL: sll\n\
         WarningArrow: wa\n\
         Hit0: h-0\n\
         Hit50: h-50\n\
         Hit100: h-100\n\
         Hit200: h-200\n\
         Hit300: h-300\n\
         Hit300g: h-300g\n\
         JudgementLine: 1\n\
         LightFramePerSecond: 60\n\
         UpsideDown: 1\n\
         ComboBurstStyle: 1\n\
         NoteBodyStyle: 2\n\
         NoteBodyStyle1: 1\n\
         KeyFlip: 1\n\
         NoteFlip: 0\n\
         KeyFlip1: 1\n\
         NoteFlip0: 1\n\
         NoteFlipH1: 1\n\
         NoteFlipL0: 1\n\
         NoteFlipT1: 2\n",
    )
    .unwrap();
    let configs = read_mania_config(&ini);
    assert_eq!(configs.len(), 1);
    let c = &configs[0];
    assert_eq!(c.keys.count, 2);
    assert!(c.keys.keys_under_notes);
    assert_eq!(c.special_style.style_type, 2);
    assert!(c.special_style.split_stages);
    assert_eq!(c.special_style.stage_separation, 40);
    assert!(!c.special_style.separate_score);
    assert_eq!(c.column_layout.column_start, 136);
    assert_eq!(c.column_layout.column_right, 19);
    assert_eq!(c.column_layout.column_width, vec![30, 31]);
    assert_eq!(c.column_layout.column_spacing, vec![2]);
    assert_eq!(c.column_layout.column_line_width, vec![0, 1, 0]);
    assert_eq!(c.column_layout.barline_height.as_deref(), Some("1.2"));
    assert_eq!(c.column_layout.lighting_width.n_width, vec![5, 6]);
    assert_eq!(c.column_layout.lighting_width.l_width, vec![7]);
    assert_eq!(c.column_layout.width_for_note_height_scale, Some(50));
    assert_eq!(c.positions.hit_position, 402);
    assert_eq!(c.positions.light_position, 413);
    assert_eq!(c.positions.score_position, 325);
    assert_eq!(c.positions.combo_position, 111);
    assert_eq!(c.colours.columns, vec![[1, 1, 1, 255], [2, 2, 2, 2]]);
    assert_eq!(c.colours.lights, vec![[9, 9, 9, 255]]);
    assert_eq!(c.colours.column_line, [3, 3, 3, 3]);
    assert_eq!(c.colours.barline, [4, 4, 4, 255]);
    assert_eq!(c.colours.judgement_line, [5, 5, 5]);
    assert_eq!(c.colours.key_warning, [6, 6, 6]);
    assert_eq!(c.colours.hold, [7, 7, 7, 7]);
    assert_eq!(c.colours.break_colour, [255, 0, 0]);
    assert_eq!(c.images.keys.normal, vec!["k0", "mania\\k1"]);
    assert_eq!(c.images.keys.pressed, vec!["k0d", ""]);
    assert_eq!(c.images.notes.regular, vec!["", "n1"]);
    assert_eq!(c.images.notes.hold_head, vec!["h0", ""]);
    assert_eq!(c.images.notes.hold_body, vec!["", "l1"]);
    assert_eq!(c.images.notes.hold_tail, vec!["t0", ""]);
    assert_eq!(c.images.stage.left, "sl");
    assert_eq!(c.images.stage.right, "sr");
    assert_eq!(c.images.stage.bottom, "sb");
    assert_eq!(c.images.stage.hint, "sh");
    assert_eq!(c.images.stage.light, "slt");
    assert_eq!(c.images.stage.lighting_n, "sn");
    assert_eq!(c.images.stage.lighting_l, "sll");
    assert_eq!(c.images.stage.warning_arrow, "wa");
    assert_eq!(c.images.hits.hit_0, "h-0");
    assert_eq!(c.images.hits.hit_50, "h-50");
    assert_eq!(c.images.hits.hit_100, "h-100");
    assert_eq!(c.images.hits.hit_200, "h-200");
    assert_eq!(c.images.hits.hit_300, "h-300");
    assert_eq!(c.images.hits.hit_300g, "h-300g");
    assert!(c.behavior.judgement_line);
    assert_eq!(c.behavior.light_frame_per_second, 60);
    assert!(c.behavior.upside_down);
    assert_eq!(c.behavior.combo_burst_style, 1);
    assert_eq!(c.behavior.note_body_style.global, 2);
    assert_eq!(c.behavior.note_body_style.per_column, vec![0, 1]);
    assert!(c.behavior.flip_config.key_flip);
    assert!(!c.behavior.flip_config.note_flip);
    assert_eq!(c.behavior.flip_config.per_column_key_flip, vec![false, true]);
    assert_eq!(c.behavior.flip_config.per_column_note_flip.note, vec![true, false]);
    assert_eq!(c.behavior.flip_config.per_column_note_flip.hold_head, vec![false, true]);
    assert_eq!(c.behavior.flip_config.per_column_note_flip.hold_body, vec![true, false]);
    assert_eq!(c.behavior.flip_config.per_column_note_flip.hold_tail, vec![false, true]);
}

#[test]
fn the_records_can_be_built_one_by_one() {
    let mut props = Properties::new();
    props.insert("KeyImage1D", "d1");
    props.insert("NoteImage0L", "l0");
    props.insert("Hit50", "fifty");
    props.insert("NoteFlipT0", "1");
    props.insert("Colour2", "1,2,3,4");
    props.insert("BarlineHeight", "oops");

    let keys = parse_key_images(&props, 2);
    assert_eq!(keys.normal, vec!["", ""]);
    assert_eq!(keys.pressed, vec!["", "d1"]);
    let notes = parse_note_images(&props, 1);
    assert_eq!(notes.hold_body, vec!["l0"]);
    assert_eq!(notes.hold_head, vec![""]);
    let images = parse_images(&props, 2);
    assert_eq!(images.keys.pressed, vec!["", "d1"]);
    assert_eq!(images.hits.hit_50, "fifty");
    assert_eq!(images.stage.left, "");
    let flips = parse_note_flip_per_column(&props, 2);
    assert_eq!(flips.hold_tail, vec![true, false]);
    assert_eq!(flips.note, vec![false, false]);
    let config = parse_flip_config(&props, 1);
    assert_eq!(config.per_column_note_flip.hold_tail, vec![true]);
    let colours = parse_colours(&props, 2);
    assert_eq!(colours.columns, vec![[1, 2, 3, 4]]);
    let layout = parse_column_layout(&props, 2);
    assert_eq!(layout.barline_height.as_deref(), Some("oops"));
    let whole = parse_mania_config(&props, 3);
    assert_eq!(whole.keys.count, 3);
    assert_eq!(whole.images.keys.pressed, vec!["", "d1", ""]);
    assert_eq!(whole.colours.columns, vec![[1, 2, 3, 4]]);
}
