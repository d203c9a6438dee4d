//! How a `[Mania]` section resolves to a configuration: which key feeds
//! which field, through which resolver and with which default.

use crate::document::{
    ini_sections, lookup, property_entries, section_list, section_of, Entries, Section,
};
use crate::mania::structs::{
    config_views, Behavior, BehaviorView, Colours, ColoursView, ColumnLayout, ColumnLayoutView,
    FlipConfig, FlipConfigView, HitImages, HitImagesView, Images, ImagesView, KeyImages,
    KeyImagesView, Keys, LightingWidth, LightingWidthView, ManiaConfig, ManiaConfigView,
    NoteBodyStyle, NoteBodyStyleView, NoteFlipPerColumn, NoteFlipPerColumnView, NoteImages,
    NoteImagesView, Positions, SpecialStyle, StageImages, StageImagesView,
};
use crate::resolve::{
    color_family, family, lemma_color_family_len, optional_number_list, optional_scalar, parse_numbered_bools,
    parse_numbered_colors, parse_numbered_strings, parse_numbered_values, resolve_numbers,
    resolve_optional, resolve_optional_text, resolve_rgb, resolve_rgba, resolve_scalar,
    resolve_text, rgb_or, rgba_or, scalar, text_family, text_value,
};
use crate::text::{chars_of, same_text};
use ini::{Ini, Properties};
use vstd::prelude::*;

verus! {

/// The keys record of a section with `key_count` columns.
pub open spec fn keys_of(entries: Entries, key_count: u32) -> Keys {
    Keys { count: key_count, keys_under_notes: scalar(entries, "KeysUnderNotes"@, false) }
}

/// The special style of a section.
pub open spec fn special_style_of(entries: Entries) -> SpecialStyle {
    SpecialStyle {
        style_type: scalar(entries, "SpecialStyle"@, 0u8),
        split_stages: scalar(entries, "SplitStages"@, false),
        stage_separation: scalar(entries, "StageSeparation"@, 0u32),
        separate_score: scalar(entries, "SeparateScore"@, false),
    }
}

/// The lighting widths of a section.
pub open spec fn lighting_width_of(entries: Entries) -> LightingWidthView {
    LightingWidthView {
        n_width: optional_number_list(lookup(entries, "LightingNWidth"@)),
        l_width: optional_number_list(lookup(entries, "LightingLWidth"@)),
    }
}

/// The column layout of a section.
pub open spec fn column_layout_of(entries: Entries) -> ColumnLayoutView {
    ColumnLayoutView {
        column_start: scalar(entries, "ColumnStart"@, 0u32),
        column_right: scalar(entries, "ColumnRight"@, 0u32),
        column_width: optional_number_list(lookup(entries, "ColumnWidth"@)),
        column_spacing: optional_number_list(lookup(entries, "ColumnSpacing"@)),
        column_line_width: optional_number_list(lookup(entries, "ColumnLineWidth"@)),
        barline_height: lookup(entries, "BarlineHeight"@),
        lighting_width: lighting_width_of(entries),
        width_for_note_height_scale: optional_scalar::<u32>(entries, "WidthForNoteHeightScale"@),
    }
}

/// The positions of a section.
pub open spec fn positions_of(entries: Entries) -> Positions {
    Positions {
        hit_position: scalar(entries, "HitPosition"@, 0u32),
        light_position: scalar(entries, "LightPosition"@, 0u32),
        score_position: scalar(entries, "ScorePosition"@, 0u32),
        combo_position: scalar(entries, "ComboPosition"@, 0u32),
    }
}

/// The colours of a section with `key_count` columns.
pub open spec fn colours_of(entries: Entries, key_count: u32) -> ColoursView {
    ColoursView {
        columns: color_family(entries, "Colour"@, key_count),
        lights: color_family(entries, "ColourLight"@, key_count),
        column_line: rgba_or(entries, "ColourColumnLine"@, seq![255u8, 255u8, 255u8, 255u8]),
        barline: rgba_or(entries, "ColourBarline"@, seq![255u8, 255u8, 255u8, 255u8]),
        judgement_line: rgb_or(entries, "ColourJudgementLine"@, seq![255u8, 255u8, 255u8]),
        key_warning: rgb_or(entries, "ColourKeyWarning"@, seq![255u8, 0u8, 0u8]),
        hold: rgba_or(entries, "ColourHold"@, seq![255u8, 230u8, 0u8, 255u8]),
        break_colour: rgb_or(entries, "ColourBreak"@, seq![255u8, 0u8, 0u8]),
    }
}

/// The key images of a section with `key_count` columns.
pub open spec fn key_images_of(entries: Entries, key_count: u32) -> KeyImagesView {
    KeyImagesView {
        normal: text_family(entries, "KeyImage"@, key_count, ""@),
        pressed: text_family(entries, "KeyImage"@, key_count, "D"@),
    }
}

/// The note images of a section with `key_count` columns.
pub open spec fn note_images_of(entries: Entries, key_count: u32) -> NoteImagesView {
    NoteImagesView {
        regular: text_family(entries, "NoteImage"@, key_count, ""@),
        hold_head: text_family(entries, "NoteImage"@, key_count, "H"@),
        hold_body: text_family(entries, "NoteImage"@, key_count, "L"@),
        hold_tail: text_family(entries, "NoteImage"@, key_count, "T"@),
    }
}

/// The stage images of a section.
pub open spec fn stage_images_of(entries: Entries) -> StageImagesView {
    StageImagesView {
        left: text_value(entries, "StageLeft"@),
        right: text_value(entries, "StageRight"@),
        bottom: text_value(entries, "StageBottom"@),
        hint: text_value(entries, "StageHint"@),
        light: text_value(entries, "StageLight"@),
        lighting_n: text_value(entries, "StageLightingN"@),
        lighting_l: text_value(entries, "StageLightingL"@),
        warning_arrow: text_value(entries, "WarningArrow"@),
    }
}

/// The hit images of a section.
pub open spec fn hit_images_of(entries: Entries) -> HitImagesView {
    HitImagesView {
        hit_0: text_value(entries, "Hit0"@),
        hit_50: text_value(entries, "Hit50"@),
        hit_100: text_value(entries, "Hit100"@),
        hit_200: text_value(entries, "Hit200"@),
        hit_300: text_value(entries, "Hit300"@),
        hit_300g: text_value(entries, "Hit300g"@),
    }
}

/// The images of a section with `key_count` columns.
pub open spec fn images_of(entries: Entries, key_count: u32) -> ImagesView {
    ImagesView {
        keys: key_images_of(entries, key_count),
        notes: note_images_of(entries, key_count),
        stage: stage_images_of(entries),
        hits: hit_images_of(entries),
    }
}

/// The note body style of a section with `key_count` columns.
pub open spec fn note_body_style_of(entries: Entries, key_count: u32) -> NoteBodyStyleView {
    NoteBodyStyleView {
        global: scalar(entries, "NoteBodyStyle"@, 0u8),
        per_column: family(entries, "NoteBodyStyle"@, key_count, 0u8),
    }
}

/// The per-column note flips of a section with `key_count` columns.
pub open spec fn note_flip_per_column_of(entries: Entries, key_count: u32) -> NoteFlipPerColumnView {
    NoteFlipPerColumnView {
        note: family(entries, "NoteFlip"@, key_count, false),
        hold_head: family(entries, "NoteFlipH"@, key_count, false),
        hold_body: family(entries, "NoteFlipL"@, key_count, false),
        hold_tail: family(entries, "NoteFlipT"@, key_count, false),
    }
}

/// The flips of a section with `key_count` columns.
pub open spec fn flip_config_of(entries: Entries, key_count: u32) -> FlipConfigView {
    FlipConfigView {
        key_flip: scalar(entries, "KeyFlip"@, false),
        note_flip: scalar(entries, "NoteFlip"@, false),
        per_column_key_flip: family(entries, "KeyFlip"@, key_count, false),
        per_column_note_flip: note_flip_per_column_of(entries, key_count),
    }
}

/// The behaviour of a section with `key_count` columns.
pub open spec fn behavior_of(entries: Entries, key_count: u32) -> BehaviorView {
    BehaviorView {
        judgement_line: scalar(entries, "JudgementLine"@, false),
        light_frame_per_second: scalar(entries, "LightFramePerSecond"@, 24u32),
        upside_down: scalar(entries, "UpsideDown"@, false),
        note_body_style: note_body_style_of(entries, key_count),
        flip_config: flip_config_of(entries, key_count),
        combo_burst_style: scalar(entries, "ComboBurstStyle"@, 0u8),
    }
}

/// The whole configuration of a section with `key_count` columns.
pub open spec fn mania_config_of(entries: Entries, key_count: u32) -> ManiaConfigView {
    ManiaConfigView {
        keys: keys_of(entries, key_count),
        special_style: special_style_of(entries),
        column_layout: column_layout_of(entries),
        positions: positions_of(entries),
        colours: colours_of(entries, key_count),
        images: images_of(entries, key_count),
        behavior: behavior_of(entries, key_count),
    }
}

/// Builds the keys record: the given number of columns, and the
/// `KeysUnderNotes` flag.
pub fn parse_keys(props: &Properties, key_count: u32) -> (keys: Keys)
    ensures
        keys == keys_of(property_entries(*props), key_count),
{
    Keys { count: key_count, keys_under_notes: resolve_scalar(props, "KeysUnderNotes", false) }
}

/// Builds the special style from `SpecialStyle`, `SplitStages`,
/// `StageSeparation` and `SeparateScore`; what is absent or unreadable is 0
/// or `false`.
pub fn parse_special_style(props: &Properties) -> (style: SpecialStyle)
    ensures
        style == special_style_of(property_entries(*props)),
{
    SpecialStyle {
        style_type: resolve_scalar(props, "SpecialStyle", 0u8),
        split_stages: resolve_scalar(props, "SplitStages", false),
        stage_separation: resolve_scalar(props, "StageSeparation", 0u32),
        separate_score: resolve_scalar(props, "SeparateScore", false),
    }
}

/// Builds the column layout: `ColumnStart` and `ColumnRight` (0 by
/// default), the lists `ColumnWidth`, `ColumnSpacing` and `ColumnLineWidth`,
/// the text of `BarlineHeight`, the lighting widths, and
/// `WidthForNoteHeightScale` where it is readable. The layout does not
/// depend on the number of columns.
#[allow(unused_variables)]
pub fn parse_column_layout(props: &Properties, key_count: u32) -> (layout: ColumnLayout)
    ensures
        layout@ == column_layout_of(property_entries(*props)),
{
    ColumnLayout {
        column_start: resolve_scalar(props, "ColumnStart", 0u32),
        column_right: resolve_scalar(props, "ColumnRight", 0u32),
        column_width: resolve_numbers(props, "ColumnWidth"),
        column_spacing: resolve_numbers(props, "ColumnSpacing"),
        column_line_width: resolve_numbers(props, "ColumnLineWidth"),
        barline_height: resolve_optional_text(props, "BarlineHeight"),
        lighting_width: parse_lighting_width(props),
        width_for_note_height_scale: resolve_optional::<u32>(props, "WidthForNoteHeightScale"),
    }
}

/// Builds the lighting widths from the lists `LightingNWidth` and
/// `LightingLWidth`.
pub fn parse_lighting_width(props: &Properties) -> (widths: LightingWidth)
    ensures
        widths@ == lighting_width_of(property_entries(*props)),
{
    LightingWidth {
        n_width: resolve_numbers(props, "LightingNWidth"),
        l_width: resolve_numbers(props, "LightingLWidth"),
    }
}

/// Builds the positions from `HitPosition`, `LightPosition`,
/// `ScorePosition` and `ComboPosition`; what is absent or unreadable is 0.
pub fn parse_positions(props: &Properties) -> (positions: Positions)
    ensures
        positions == positions_of(property_entries(*props)),
{
    Positions {
        hit_position: resolve_scalar(props, "HitPosition", 0u32),
        light_position: resolve_scalar(props, "LightPosition", 0u32),
        score_position: resolve_scalar(props, "ScorePosition", 0u32),
        combo_position: resolve_scalar(props, "ComboPosition", 0u32),
    }
}

/// Builds the colours: the families `Colour1..` and `ColourLight1..`, which
/// leave out what is missing, and the single colours, each with its own
/// default: white for `ColourColumnLine`, `ColourBarline` and
/// `ColourJudgementLine`, red for `ColourKeyWarning` and `ColourBreak`,
/// yellow for `ColourHold`.
pub fn parse_colours(props: &Properties, key_count: u32) -> (colours: Colours)
    ensures
        colours@ == colours_of(property_entries(*props), key_count),
{
    Colours {
        columns: parse_numbered_colors(props, "Colour", key_count),
        lights: parse_numbered_colors(props, "ColourLight", key_count),
        column_line: resolve_rgba(props, "ColourColumnLine", [255, 255, 255, 255]),
        barline: resolve_rgba(props, "ColourBarline", [255, 255, 255, 255]),
        judgement_line: resolve_rgb(props, "ColourJudgementLine", [255, 255, 255]),
        key_warning: resolve_rgb(props, "ColourKeyWarning", [255, 0, 0]),
        hold: resolve_rgba(props, "ColourHold", [255, 230, 0, 255]),
        break_colour: resolve_rgb(props, "ColourBreak", [255, 0, 0]),
    }
}

/// Builds the image names of the keys, the notes, the stage and the hits.
pub fn parse_images(props: &Properties, key_count: u32) -> (images: Images)
    ensures
        images@ == images_of(property_entries(*props), key_count),
{
    Images {
        keys: parse_key_images(props, key_count),
        notes: parse_note_images(props, key_count),
        stage: parse_stage_images(props),
        hits: parse_hit_images(props),
    }
}

/// Builds the key images, per column: `KeyImage#` and `KeyImage#D`.
pub fn parse_key_images(props: &Properties, key_count: u32) -> (images: KeyImages)
    ensures
        images@ == key_images_of(property_entries(*props), key_count),
{
    KeyImages {
        normal: parse_numbered_strings(props, "KeyImage", key_count, Some("")),
        pressed: parse_numbered_strings(props, "KeyImage", key_count, Some("D")),
    }
}

/// Builds the note images, per column: `NoteImage#`, `NoteImage#H`,
/// `NoteImage#L` and `NoteImage#T`.
pub fn parse_note_images(props: &Properties, key_count: u32) -> (images: NoteImages)
    ensures
        images@ == note_images_of(property_entries(*props), key_count),
{
    NoteImages {
        regular: parse_numbered_strings(props, "NoteImage", key_count, Some("")),
        hold_head: parse_numbered_strings(props, "NoteImage", key_count, Some("H")),
        hold_body: parse_numbered_strings(props, "NoteImage", key_count, Some("L")),
        hold_tail: parse_numbered_strings(props, "NoteImage", key_count, Some("T")),
    }
}

/// Builds the stage images from `StageLeft`, `StageRight`, `StageBottom`,
/// `StageHint`, `StageLight`, `StageLightingN`, `StageLightingL` and
/// `WarningArrow`; a name that is absent is empty.
pub fn parse_stage_images(props: &Properties) -> (images: StageImages)
    ensures
        images@ == stage_images_of(property_entries(*props)),
{
    StageImages {
        left: resolve_text(props, "StageLeft"),
        right: resolve_text(props, "StageRight"),
        bottom: resolve_text(props, "StageBottom"),
        hint: resolve_text(props, "StageHint"),
        light: resolve_text(props, "StageLight"),
        lighting_n: resolve_text(props, "StageLightingN"),
        lighting_l: resolve_text(props, "StageLightingL"),
        warning_arrow: resolve_text(props, "WarningArrow"),
    }
}

/// Builds the hit images from `Hit0`, `Hit50`, `Hit100`, `Hit200`, `Hit300`
/// and `Hit300g`; a name that is absent is empty.
pub fn parse_hit_images(props: &Properties) -> (images: HitImages)
    ensures
        images@ == hit_images_of(property_entries(*props)),
{
    HitImages {
        hit_0: resolve_text(props, "Hit0"),
        hit_50: resolve_text(props, "Hit50"),
        hit_100: resolve_text(props, "Hit100"),
        hit_200: resolve_text(props, "Hit200"),
        hit_300: resolve_text(props, "Hit300"),
        hit_300g: resolve_text(props, "Hit300g"),
    }
}

/// Builds the behaviour: the flags `JudgementLine` and `UpsideDown`,
/// `LightFramePerSecond` (24 by default), `ComboBurstStyle` (0 by default),
/// the note body style and the flips.
pub fn parse_behavior(props: &Properties, key_count: u32) -> (behavior: Behavior)
    ensures
        behavior@ == behavior_of(property_entries(*props), key_count),
{
    Behavior {
        judgement_line: resolve_scalar(props, "JudgementLine", false),
        light_frame_per_second: resolve_scalar(props, "LightFramePerSecond", 24u32),
        upside_down: resolve_scalar(props, "UpsideDown", false),
        note_body_style: parse_note_body_style(props, key_count),
        flip_config: parse_flip_config(props, key_count),
        combo_burst_style: resolve_scalar(props, "ComboBurstStyle", 0u8),
    }
}

/// Builds the note body style: `NoteBodyStyle` for all columns, and
/// `NoteBodyStyle#` per column; 0 by default.
pub fn parse_note_body_style(props: &Properties, key_count: u32) -> (style: NoteBodyStyle)
    ensures
        style@ == note_body_style_of(property_entries(*props), key_count),
{
    NoteBodyStyle {
        global: resolve_scalar(props, "NoteBodyStyle", 0u8),
        per_column: parse_numbered_values(props, "NoteBodyStyle", key_count, 0u8),
    }
}

/// Builds the flips: the flags `KeyFlip` and `NoteFlip`, `KeyFlip#` per
/// column, and the per-column note flips.
pub fn parse_flip_config(props: &Properties, key_count: u32) -> (flips: FlipConfig)
    ensures
        flips@ == flip_config_of(property_entries(*props), key_count),
{
    FlipConfig {
        key_flip: resolve_scalar(props, "KeyFlip", false),
        note_flip: resolve_scalar(props, "NoteFlip", false),
        per_column_key_flip: parse_numbered_bools(props, "KeyFlip", key_count),
        per_column_note_flip: parse_note_flip_per_column(props, key_count),
    }
}

/// Builds the per-column note flips: `NoteFlip#`, `NoteFlipH#`,
/// `NoteFlipL#` and `NoteFlipT#`.
pub fn parse_note_flip_per_column(props: &Properties, key_count: u32) -> (flips: NoteFlipPerColumn)
    ensures
        flips@ == note_flip_per_column_of(property_entries(*props), key_count),
{
    NoteFlipPerColumn {
        note: parse_numbered_bools(props, "NoteFlip", key_count),
        hold_head: parse_numbered_bools(props, "NoteFlipH", key_count),
        hold_body: parse_numbered_bools(props, "NoteFlipL", key_count),
        hold_tail: parse_numbered_bools(props, "NoteFlipT", key_count),
    }
}

/// The number of columns that a section declares: what its `Keys` denotes
/// as a `u32`, where that is positive.
pub open spec fn key_count(entries: Entries) -> Option<u32> {
    match optional_scalar::<u32>(entries, "Keys"@) {
        Some(n) if n > 0 => Some(n),
        _ => None,
    }
}

/// The configuration that one section of a document resolves to: a section
/// named `Mania` that declares its number of columns gives one, any other
/// section gives none.
pub open spec fn section_config(section: Section) -> Option<ManiaConfigView> {
    if section.0 == Some("Mania"@) {
        match key_count(section.1) {
            Some(n) => Some(mania_config_of(section.1, n)),
            None => None,
        }
    } else {
        None
    }
}

/// The configurations of a document: one for each section that resolves to
/// one, in the order of the sections.
pub open spec fn mania_configs(sections: Seq<Section>) -> Seq<ManiaConfigView> {
    sections.filter_map(|section: Section| section_config(section))
}

/// Builds the configuration of a section with `key_count` columns.
pub fn parse_mania_config(props: &Properties, key_count: u32) -> (config: ManiaConfig)
    ensures
        config@ == mania_config_of(property_entries(*props), key_count),
{
    ManiaConfig {
        keys: parse_keys(props, key_count),
        special_style: parse_special_style(props),
        column_layout: parse_column_layout(props, key_count),
        positions: parse_positions(props),
        colours: parse_colours(props, key_count),
        images: parse_images(props, key_count),
        behavior: parse_behavior(props, key_count),
    }
}

/// Resolves every `[Mania]` section of `ini` that declares its number of
/// columns, in document order. A section without a readable, positive
/// `Keys` is passed over; a document without such sections gives nothing.
pub fn read_mania_config(ini: &Ini) -> (configs: Vec<ManiaConfig>)
    ensures
        config_views(configs@) == mania_configs(ini_sections(*ini)),
{
    let sections = section_list(ini);
    let target = chars_of("Mania");
    let ghost all = ini_sections(*ini);
    let mut configs: Vec<ManiaConfig> = Vec::new();
    let mut k: usize = 0;
    assert(all.take(0) == Seq::<Section>::empty());
    while k < sections.len()
        invariant
            k <= sections@.len(),
            sections@.len() == all.len(),
            forall|i: int| 0 <= i < sections@.len() ==> section_of(#[trigger] sections@[i]) == all[i],
            target@ == "Mania"@,
            config_views(configs@) == mania_configs(all.take(k as int)),
        decreases sections@.len() - k,
    {
        let name = sections[k].0;
        let props = sections[k].1;
        proof {
            assert(section_of(sections@[k as int]) == all[k as int]);
            assert(all.take(k as int + 1).drop_last() == all.take(k as int));
        }
        let named = match name {
            Some(text) => {
                let chars = chars_of(text);
                same_text(chars.as_slice(), target.as_slice())
            },
            None => false,
        };
        if named {
            match resolve_optional::<u32>(props, "Keys") {
                Some(n) => {
                    if n > 0 {
                        let config = parse_mania_config(props, n);
                        proof {
                            assert(config_views(configs@.push(config)) == config_views(
                                configs@,
                            ).push(config@));
                            assert(config_views(configs@).push(config@) == config_views(configs@)
                                + seq![config@]);
                        }
                        configs.push(config);
                    }
                },
                None => {},
            }
        }
        k += 1;
    }
    assert(all.take(k as int) == all);
    configs
}

/// The configurations of a document come in document order: those of its
/// first sections, then those of the sections that follow.
pub proof fn lemma_mania_configs_concat(first: Seq<Section>, rest: Seq<Section>)
    ensures
        mania_configs(first + rest) == mania_configs(first) + mania_configs(rest),
    decreases rest.len(),
{
    if rest.len() == 0 {
        assert(first + rest == first);
    } else {
        assert((first + rest).drop_last() == first + rest.drop_last());
        lemma_mania_configs_concat(first, rest.drop_last());
    }
}

/// A section that has no `Keys`, or whose `Keys` denotes no positive
/// number, is passed over: the document gives the configurations that it
/// would give without that section.
pub proof fn lemma_section_without_key_count_is_skipped(sections: Seq<Section>, i: int)
    requires
        0 <= i < sections.len(),
        key_count(sections[i].1) is None,
    ensures
        section_config(sections[i]) is None,
        mania_configs(sections) == mania_configs(sections.remove(i)),
{
    let before = sections.take(i);
    let after = sections.skip(i + 1);
    let one = seq![sections[i]];
    assert(sections == before + one + after);
    assert(sections.remove(i) == before + after);
    lemma_mania_configs_concat(before + one, after);
    lemma_mania_configs_concat(before, one);
    lemma_mania_configs_concat(before, after);
    assert(mania_configs(one) == Seq::<ManiaConfigView>::empty()) by {
        reveal_with_fuel(Seq::filter_map, 2);
        assert(one.drop_last() == Seq::<Section>::empty());
        assert(one.last() == sections[i]);
    }
}

/// Resolving one document twice gives equal configurations: what comes out
/// depends on the sections of the document and on nothing else.
pub proof fn lemma_resolution_is_repeatable(ini: Ini, first: Vec<ManiaConfig>, second: Vec<ManiaConfig>)
    requires
        config_views(first@) == mania_configs(ini_sections(ini)),
        config_views(second@) == mania_configs(ini_sections(ini)),
    ensures
        config_views(first@) == config_views(second@),
        first@.len() == second@.len(),
        forall|i: int| 0 <= i < first@.len() ==> first@[i]@ == second@[i]@,
{
    assert(config_views(first@).len() == first@.len());
    assert(config_views(second@).len() == second@.len());
    assert forall|i: int| 0 <= i < first@.len() implies first@[i]@ == second@[i]@ by {
        assert(config_views(first@)[i] == first@[i]@);
        assert(config_views(second@)[i] == second@[i]@);
    }
}

/// The number of columns fixes the length of every family of a
/// configuration that is numbered from 0; a family of colours has at most
/// that many members.
pub proof fn lemma_families_follow_key_count(entries: Entries, key_count: u32)
    ensures
        ({
            let config = mania_config_of(entries, key_count);
            &&& config.keys.count == key_count
            &&& config.images.keys.normal.len() == key_count
            &&& config.images.keys.pressed.len() == key_count
            &&& config.images.notes.regular.len() == key_count
            &&& config.images.notes.hold_head.len() == key_count
            &&& config.images.notes.hold_body.len() == key_count
            &&& config.images.notes.hold_tail.len() == key_count
            &&& config.behavior.note_body_style.per_column.len() == key_count
            &&& config.behavior.flip_config.per_column_key_flip.len() == key_count
            &&& config.behavior.flip_config.per_column_note_flip.note.len() == key_count
            &&& config.behavior.flip_config.per_column_note_flip.hold_head.len() == key_count
            &&& config.behavior.flip_config.per_column_note_flip.hold_body.len() == key_count
            &&& config.behavior.flip_config.per_column_note_flip.hold_tail.len() == key_count
            &&& config.colours.columns.len() <= key_count
            &&& config.colours.lights.len() <= key_count
        }),
{
    lemma_color_family_len(entries, "Colour"@, key_count);
    lemma_color_family_len(entries, "ColourLight"@, key_count);
}

/// A document gives at most one configuration per section, and each has at
/// least one column.
pub proof fn lemma_configs_have_columns(sections: Seq<Section>)
    ensures
        mania_configs(sections).len() <= sections.len(),
        forall|i: int|
            0 <= i < mania_configs(sections).len() ==> (#[trigger] mania_configs(
                sections,
            )[i]).keys.count > 0,
    decreases sections.len(),
{
    if sections.len() > 0 {
        lemma_configs_have_columns(sections.drop_last());
    }
}

} // verus!
