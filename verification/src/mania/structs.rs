//! The records of a resolved mania configuration, and the mathematical
//! value (`view`) of each record that owns text or sequences.

use crate::resolve::{rgba_views, string_views};
use vstd::prelude::*;

verus! {

/// One mania configuration: everything a `[Mania]` section says about the
/// layout for one number of columns.
#[derive(Debug)]
pub struct ManiaConfig {
    pub keys: Keys,
    pub special_style: SpecialStyle,
    pub column_layout: ColumnLayout,
    pub positions: Positions,
    pub colours: Colours,
    pub images: Images,
    pub behavior: Behavior,
}

/// The value of a `ManiaConfig`.
pub struct ManiaConfigView {
    pub keys: Keys,
    pub special_style: SpecialStyle,
    pub column_layout: ColumnLayoutView,
    pub positions: Positions,
    pub colours: ColoursView,
    pub images: ImagesView,
    pub behavior: BehaviorView,
}

impl View for ManiaConfig {
    type V = ManiaConfigView;

    open spec fn view(&self) -> ManiaConfigView {
        ManiaConfigView {
            keys: self.keys,
            special_style: self.special_style,
            column_layout: self.column_layout@,
            positions: self.positions,
            colours: self.colours@,
            images: self.images@,
            behavior: self.behavior@,
        }
    }
}

/// The values of each configuration in `configs`.
pub open spec fn config_views(configs: Seq<ManiaConfig>) -> Seq<ManiaConfigView> {
    configs.map_values(|c: ManiaConfig| c@)
}

/// The number of columns, and whether the keys are drawn under the notes.
#[derive(Debug)]
pub struct Keys {
    pub count: u32,
    pub keys_under_notes: bool,
}

/// The special (extra-column) style of the stage.
#[derive(Debug)]
pub struct SpecialStyle {
    /// 0, 1 or 2.
    pub style_type: u8,
    pub split_stages: bool,
    pub stage_separation: u32,
    pub separate_score: bool,
}

/// Where the columns stand and how wide they are.
#[derive(Debug)]
pub struct ColumnLayout {
    pub column_start: u32,
    pub column_right: u32,
    pub column_width: Vec<u32>,
    pub column_spacing: Vec<u32>,
    pub column_line_width: Vec<u32>,
    /// The bar line's height as the section writes it, when it states one.
    /// It is a decimal fraction: who draws the bar line reads the number
    /// from this text, and takes 1.0 where there is none to read.
    pub barline_height: Option<String>,
    pub lighting_width: LightingWidth,
    pub width_for_note_height_scale: Option<u32>,
}

/// The value of a `ColumnLayout`.
pub struct ColumnLayoutView {
    pub column_start: u32,
    pub column_right: u32,
    pub column_width: Seq<u32>,
    pub column_spacing: Seq<u32>,
    pub column_line_width: Seq<u32>,
    pub barline_height: Option<Seq<char>>,
    pub lighting_width: LightingWidthView,
    pub width_for_note_height_scale: Option<u32>,
}

impl View for ColumnLayout {
    type V = ColumnLayoutView;

    open spec fn view(&self) -> ColumnLayoutView {
        ColumnLayoutView {
            column_start: self.column_start,
            column_right: self.column_right,
            column_width: self.column_width@,
            column_spacing: self.column_spacing@,
            column_line_width: self.column_line_width@,
            barline_height: match self.barline_height {
                Some(text) => Some(text@),
                None => None,
            },
            lighting_width: self.lighting_width@,
            width_for_note_height_scale: self.width_for_note_height_scale,
        }
    }
}

/// The widths of the lighting images, per column.
#[derive(Debug)]
pub struct LightingWidth {
    pub n_width: Vec<u32>,
    pub l_width: Vec<u32>,
}

/// The value of a `LightingWidth`.
pub struct LightingWidthView {
    pub n_width: Seq<u32>,
    pub l_width: Seq<u32>,
}

impl View for LightingWidth {
    type V = LightingWidthView;

    open spec fn view(&self) -> LightingWidthView {
        LightingWidthView { n_width: self.n_width@, l_width: self.l_width@ }
    }
}

/// Vertical positions on the stage.
#[derive(Debug)]
pub struct Positions {
    pub hit_position: u32,
    pub light_position: u32,
    pub score_position: u32,
    pub combo_position: u32,
}

/// The colours of the stage. A colour with four components ends in its
/// alpha; one with three has none.
#[derive(Debug)]
pub struct Colours {
    pub columns: Vec<[u8; 4]>,
    pub lights: Vec<[u8; 4]>,
    pub column_line: [u8; 4],
    pub barline: [u8; 4],
    pub judgement_line: [u8; 3],
    pub key_warning: [u8; 3],
    pub hold: [u8; 4],
    pub break_colour: [u8; 3],
}

/// The value of a `Colours`.
pub struct ColoursView {
    pub columns: Seq<Seq<u8>>,
    pub lights: Seq<Seq<u8>>,
    pub column_line: Seq<u8>,
    pub barline: Seq<u8>,
    pub judgement_line: Seq<u8>,
    pub key_warning: Seq<u8>,
    pub hold: Seq<u8>,
    pub break_colour: Seq<u8>,
}

impl View for Colours {
    type V = ColoursView;

    open spec fn view(&self) -> ColoursView {
        ColoursView {
            columns: rgba_views(self.columns@),
            lights: rgba_views(self.lights@),
            column_line: self.column_line@,
            barline: self.barline@,
            judgement_line: self.judgement_line@,
            key_warning: self.key_warning@,
            hold: self.hold@,
            break_colour: self.break_colour@,
        }
    }
}

/// The image names of a configuration.
#[derive(Debug)]
pub struct Images {
    pub keys: KeyImages,
    pub notes: NoteImages,
    pub stage: StageImages,
    pub hits: HitImages,
}

/// The value of a `Images`.
pub struct ImagesView {
    pub keys: KeyImagesView,
    pub notes: NoteImagesView,
    pub stage: StageImagesView,
    pub hits: HitImagesView,
}

impl View for Images {
    type V = ImagesView;

    open spec fn view(&self) -> ImagesView {
        ImagesView {
            keys: self.keys@,
            notes: self.notes@,
            stage: self.stage@,
            hits: self.hits@,
        }
    }
}

/// The key images, per column: `KeyImage#` and `KeyImage#D`.
#[derive(Debug)]
pub struct KeyImages {
    pub normal: Vec<String>,
    pub pressed: Vec<String>,
}

/// The value of a `KeyImages`.
pub struct KeyImagesView {
    pub normal: Seq<Seq<char>>,
    pub pressed: Seq<Seq<char>>,
}

impl View for KeyImages {
    type V = KeyImagesView;

    open spec fn view(&self) -> KeyImagesView {
        KeyImagesView {
            normal: string_views(self.normal@),
            pressed: string_views(self.pressed@),
        }
    }
}

/// The note images, per column: `NoteImage#` and, for the head, the body
/// and the tail of a hold, `NoteImage#H`, `NoteImage#L` and `NoteImage#T`.
#[derive(Debug)]
pub struct NoteImages {
    pub regular: Vec<String>,
    pub hold_head: Vec<String>,
    pub hold_body: Vec<String>,
    pub hold_tail: Vec<String>,
}

/// The value of a `NoteImages`.
pub struct NoteImagesView {
    pub regular: Seq<Seq<char>>,
    pub hold_head: Seq<Seq<char>>,
    pub hold_body: Seq<Seq<char>>,
    pub hold_tail: Seq<Seq<char>>,
}

impl View for NoteImages {
    type V = NoteImagesView;

    open spec fn view(&self) -> NoteImagesView {
        NoteImagesView {
            regular: string_views(self.regular@),
            hold_head: string_views(self.hold_head@),
            hold_body: string_views(self.hold_body@),
            hold_tail: string_views(self.hold_tail@),
        }
    }
}

/// The images of the stage itself.
#[derive(Debug)]
pub struct StageImages {
    pub left: String,
    pub right: String,
    pub bottom: String,
    pub hint: String,
    pub light: String,
    pub lighting_n: String,
    pub lighting_l: String,
    pub warning_arrow: String,
}

/// The value of a `StageImages`.
pub struct StageImagesView {
    pub left: Seq<char>,
    pub right: Seq<char>,
    pub bottom: Seq<char>,
    pub hint: Seq<char>,
    pub light: Seq<char>,
    pub lighting_n: Seq<char>,
    pub lighting_l: Seq<char>,
    pub warning_arrow: Seq<char>,
}

impl View for StageImages {
    type V = StageImagesView;

    open spec fn view(&self) -> StageImagesView {
        StageImagesView {
            left: self.left@,
            right: self.right@,
            bottom: self.bottom@,
            hint: self.hint@,
            light: self.light@,
            lighting_n: self.lighting_n@,
            lighting_l: self.lighting_l@,
            warning_arrow: self.warning_arrow@,
        }
    }
}

/// The images of the hit judgements.
#[derive(Debug)]
pub struct HitImages {
    pub hit_0: String,
    pub hit_50: String,
    pub hit_100: String,
    pub hit_200: String,
    pub hit_300: String,
    pub hit_300g: String,
}

/// The value of a `HitImages`.
pub struct HitImagesView {
    pub hit_0: Seq<char>,
    pub hit_50: Seq<char>,
    pub hit_100: Seq<char>,
    pub hit_200: Seq<char>,
    pub hit_300: Seq<char>,
    pub hit_300g: Seq<char>,
}

impl View for HitImages {
    type V = HitImagesView;

    open spec fn view(&self) -> HitImagesView {
        HitImagesView {
            hit_0: self.hit_0@,
            hit_50: self.hit_50@,
            hit_100: self.hit_100@,
            hit_200: self.hit_200@,
            hit_300: self.hit_300@,
            hit_300g: self.hit_300g@,
        }
    }
}

/// How the stage behaves.
#[derive(Debug)]
pub struct Behavior {
    pub judgement_line: bool,
    pub light_frame_per_second: u32,
    pub upside_down: bool,
    pub note_body_style: NoteBodyStyle,
    pub flip_config: FlipConfig,
    pub combo_burst_style: u8,
}

/// The value of a `Behavior`.
pub struct BehaviorView {
    pub judgement_line: bool,
    pub light_frame_per_second: u32,
    pub upside_down: bool,
    pub note_body_style: NoteBodyStyleView,
    pub flip_config: FlipConfigView,
    pub combo_burst_style: u8,
}

impl View for Behavior {
    type V = BehaviorView;

    open spec fn view(&self) -> BehaviorView {
        BehaviorView {
            judgement_line: self.judgement_line,
            light_frame_per_second: self.light_frame_per_second,
            upside_down: self.upside_down,
            note_body_style: self.note_body_style@,
            flip_config: self.flip_config@,
            combo_burst_style: self.combo_burst_style,
        }
    }
}

/// How the body of a hold note is drawn: for all columns, and per column.
#[derive(Debug)]
pub struct NoteBodyStyle {
    /// 0, 1 or 2.
    pub global: u8,
    pub per_column: Vec<u8>,
}

/// The value of a `NoteBodyStyle`.
pub struct NoteBodyStyleView {
    pub global: u8,
    pub per_column: Seq<u8>,
}

impl View for NoteBodyStyle {
    type V = NoteBodyStyleView;

    open spec fn view(&self) -> NoteBodyStyleView {
        NoteBodyStyleView { global: self.global, per_column: self.per_column@ }
    }
}

/// Which images are flipped when the stage is upside down.
#[derive(Debug)]
pub struct FlipConfig {
    pub key_flip: bool,
    pub note_flip: bool,
    pub per_column_key_flip: Vec<bool>,
    pub per_column_note_flip: NoteFlipPerColumn,
}

/// The value of a `FlipConfig`.
pub struct FlipConfigView {
    pub key_flip: bool,
    pub note_flip: bool,
    pub per_column_key_flip: Seq<bool>,
    pub per_column_note_flip: NoteFlipPerColumnView,
}

impl View for FlipConfig {
    type V = FlipConfigView;

    open spec fn view(&self) -> FlipConfigView {
        FlipConfigView {
            key_flip: self.key_flip,
            note_flip: self.note_flip,
            per_column_key_flip: self.per_column_key_flip@,
            per_column_note_flip: self.per_column_note_flip@,
        }
    }
}

/// The flip flags of the note images, per column.
#[derive(Debug)]
pub struct NoteFlipPerColumn {
    pub note: Vec<bool>,
    pub hold_head: Vec<bool>,
    pub hold_body: Vec<bool>,
    pub hold_tail: Vec<bool>,
}

/// The value of a `NoteFlipPerColumn`.
pub struct NoteFlipPerColumnView {
    pub note: Seq<bool>,
    pub hold_head: Seq<bool>,
    pub hold_body: Seq<bool>,
    pub hold_tail: Seq<bool>,
}

impl View for NoteFlipPerColumn {
    type V = NoteFlipPerColumnView;

    open spec fn view(&self) -> NoteFlipPerColumnView {
        NoteFlipPerColumnView {
            note: self.note@,
            hold_head: self.hold_head@,
            hold_body: self.hold_body@,
            hold_tail: self.hold_tail@,
        }
    }
}

} // verus!
