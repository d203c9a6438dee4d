//! The records of the general part of a skin (metadata, cursor, spinner,
//! colours, fonts, catch mode) and the values they hold when a skin says
//! nothing about them.

use vstd::prelude::*;

verus! {

/// The `[General]` part of a skin.
pub struct General {
    pub metadata: SkinMetadata,
    pub cursor: CursorConfig,
    pub spinner: SpinnerConfig,
    pub gameplay: GameplayConfig,
}

impl General {
    /// Whether every part holds its default.
    pub open spec fn is_default(&self) -> bool {
        &&& self.metadata.is_default()
        &&& self.cursor.is_default()
        &&& self.spinner.is_default()
        &&& self.gameplay.is_default()
    }
}

impl Default for General {
    fn default() -> (general: Self)
        ensures
            general.is_default(),
    {
        Self {
            metadata: SkinMetadata::default(),
            cursor: CursorConfig::default(),
            spinner: SpinnerConfig::default(),
            gameplay: GameplayConfig::default(),
        }
    }
}

/// What a skin says about itself.
pub struct SkinMetadata {
    pub name: String,
    pub author: String,
    pub version: String,
    pub animation_framerate: i32,
}

impl SkinMetadata {
    /// Whether this is the metadata of a skin that states none: the name
    /// `Unknown`, no author, the version `latest`, the frame rate -1.
    pub open spec fn is_default(&self) -> bool {
        &&& self.name@ == "Unknown"@
        &&& self.author@ == Seq::<char>::empty()
        &&& self.version@ == "latest"@
        &&& self.animation_framerate == -1
    }
}

impl Default for SkinMetadata {
    fn default() -> (metadata: Self)
        ensures
            metadata.is_default(),
    {
        Self {
            name: "Unknown".to_owned(),
            author: String::new(),
            version: "latest".to_owned(),
            animation_framerate: -1,
        }
    }
}

/// How the cursor behaves.
pub struct CursorConfig {
    pub centre: bool,
    pub expand: bool,
    pub rotate: bool,
    pub trail_rotate: bool,
}

impl CursorConfig {
    /// Whether every flag holds its default: all are set.
    pub open spec fn is_default(&self) -> bool {
        self.centre && self.expand && self.rotate && self.trail_rotate
    }
}

impl Default for CursorConfig {
    fn default() -> (cursor: Self)
        ensures
            cursor.is_default(),
    {
        Self { centre: true, expand: true, rotate: true, trail_rotate: true }
    }
}

/// How the spinner behaves.
pub struct SpinnerConfig {
    pub fade_playfield: bool,
    pub frequency_modulate: bool,
    pub no_blink: bool,
}

impl SpinnerConfig {
    /// Whether every flag holds its default: only the frequency modulation
    /// is set.
    pub open spec fn is_default(&self) -> bool {
        !self.fade_playfield && self.frequency_modulate && !self.no_blink
    }
}

impl Default for SpinnerConfig {
    fn default() -> (spinner: Self)
        ensures
            spinner.is_default(),
    {
        Self { fade_playfield: false, frequency_modulate: true, no_blink: false }
    }
}

/// How the play field behaves.
pub struct GameplayConfig {
    pub allow_slider_ball_tint: bool,
    pub combo_burst_random: bool,
    pub custom_combo_burst_sounds: Vec<u32>,
    pub hit_circle_overlay_above_number: bool,
    pub layered_hit_sounds: bool,
    pub slider_ball_flip: bool,
}

impl GameplayConfig {
    /// Whether every field holds its default: no tint, no random bursts, no
    /// custom burst sounds; the overlay above the number, layered hit
    /// sounds and the flipped slider ball set.
    pub open spec fn is_default(&self) -> bool {
        &&& !self.allow_slider_ball_tint
        &&& !self.combo_burst_random
        &&& self.custom_combo_burst_sounds@ == Seq::<u32>::empty()
        &&& self.hit_circle_overlay_above_number
        &&& self.layered_hit_sounds
        &&& self.slider_ball_flip
    }
}

impl Default for GameplayConfig {
    fn default() -> (gameplay: Self)
        ensures
            gameplay.is_default(),
    {
        Self {
            allow_slider_ball_tint: false,
            combo_burst_random: false,
            custom_combo_burst_sounds: Vec::new(),
            hit_circle_overlay_above_number: true,
            layered_hit_sounds: true,
            slider_ball_flip: true,
        }
    }
}

/// A colour without alpha.
#[derive(Clone, Copy, Debug)]
pub struct RgbColor {
    pub r: u8,
    pub g: u8,
    pub b: u8,
}

impl RgbColor {
    /// The colour with these components.
    pub fn new(r: u8, g: u8, b: u8) -> (color: Self)
        ensures
            color == (RgbColor { r, g, b }),
    {
        Self { r, g, b }
    }
}

impl Default for RgbColor {
    /// Black.
    fn default() -> (color: Self)
        ensures
            color == (RgbColor { r: 0, g: 0, b: 0 }),
    {
        Self { r: 0, g: 0, b: 0 }
    }
}

/// The `[Colours]` part of a skin.
pub struct Colours {
    pub combo: ComboColours,
    pub interface: InterfaceColours,
    pub gameplay: GameplayColours,
}

impl Colours {
    /// Whether every part holds its default.
    pub open spec fn is_default(&self) -> bool {
        &&& self.combo == ComboColours::default_value()
        &&& self.interface == InterfaceColours::default_value()
        &&& self.gameplay == GameplayColours::default_value()
    }
}

impl Default for Colours {
    fn default() -> (colours: Self)
        ensures
            colours.is_default(),
    {
        Self {
            combo: ComboColours::default(),
            interface: InterfaceColours::default(),
            gameplay: GameplayColours::default(),
        }
    }
}

/// The combo colours: four are always there, four more may be.
pub struct ComboColours {
    pub combo1: RgbColor,
    pub combo2: RgbColor,
    pub combo3: RgbColor,
    pub combo4: RgbColor,
    pub combo5: Option<RgbColor>,
    pub combo6: Option<RgbColor>,
    pub combo7: Option<RgbColor>,
    pub combo8: Option<RgbColor>,
}

impl ComboColours {
    /// Orange, green, blue and red, and no further colour.
    pub open spec fn default_value() -> ComboColours {
        ComboColours {
            combo1: RgbColor { r: 255, g: 192, b: 0 },
            combo2: RgbColor { r: 0, g: 202, b: 0 },
            combo3: RgbColor { r: 18, g: 124, b: 255 },
            combo4: RgbColor { r: 242, g: 24, b: 57 },
            combo5: None,
            combo6: None,
            combo7: None,
            combo8: None,
        }
    }
}

impl Default for ComboColours {
    fn default() -> (colours: Self)
        ensures
            colours == ComboColours::default_value(),
    {
        Self {
            combo1: RgbColor::new(255, 192, 0),
            combo2: RgbColor::new(0, 202, 0),
            combo3: RgbColor::new(18, 124, 255),
            combo4: RgbColor::new(242, 24, 57),
            combo5: None,
            combo6: None,
            combo7: None,
            combo8: None,
        }
    }
}

/// The colours of the menus.
pub struct InterfaceColours {
    pub menu_glow: RgbColor,
    pub song_select_active_text: RgbColor,
    pub song_select_inactive_text: RgbColor,
    pub input_overlay_text: RgbColor,
}

impl InterfaceColours {
    /// A blue glow, black active text, white inactive text, black overlay
    /// text.
    pub open spec fn default_value() -> InterfaceColours {
        InterfaceColours {
            menu_glow: RgbColor { r: 0, g: 78, b: 155 },
            song_select_active_text: RgbColor { r: 0, g: 0, b: 0 },
            song_select_inactive_text: RgbColor { r: 255, g: 255, b: 255 },
            input_overlay_text: RgbColor { r: 0, g: 0, b: 0 },
        }
    }
}

impl Default for InterfaceColours {
    fn default() -> (colours: Self)
        ensures
            colours == InterfaceColours::default_value(),
    {
        Self {
            menu_glow: RgbColor::new(0, 78, 155),
            song_select_active_text: RgbColor::new(0, 0, 0),
            song_select_inactive_text: RgbColor::new(255, 255, 255),
            input_overlay_text: RgbColor::new(0, 0, 0),
        }
    }
}

/// The colours of the play field.
pub struct GameplayColours {
    pub slider_ball: RgbColor,
    pub slider_border: RgbColor,
    pub slider_track_override: Option<RgbColor>,
    pub spinner_background: RgbColor,
    pub star_break_additive: RgbColor,
}

impl GameplayColours {
    /// The stock colours, and no override of the slider track.
    pub open spec fn default_value() -> GameplayColours {
        GameplayColours {
            slider_ball: RgbColor { r: 2, g: 170, b: 255 },
            slider_border: RgbColor { r: 255, g: 255, b: 255 },
            slider_track_override: None,
            spinner_background: RgbColor { r: 100, g: 100, b: 100 },
            star_break_additive: RgbColor { r: 255, g: 182, b: 193 },
        }
    }
}

impl Default for GameplayColours {
    fn default() -> (colours: Self)
        ensures
            colours == GameplayColours::default_value(),
    {
        Self {
            slider_ball: RgbColor::new(2, 170, 255),
            slider_border: RgbColor::new(255, 255, 255),
            slider_track_override: None,
            spinner_background: RgbColor::new(100, 100, 100),
            star_break_additive: RgbColor::new(255, 182, 193),
        }
    }
}

/// The `[Fonts]` part of a skin.
pub struct Fonts {
    pub hit_circle: FontConfig,
    pub score: FontConfig,
    pub combo: FontConfig,
}

impl Fonts {
    /// Whether every font holds its default: the prefix `default` with an
    /// overlap of -2 for the hit circles, the prefix `score` with no
    /// overlap for the score and for the combo.
    pub open spec fn is_default(&self) -> bool {
        &&& self.hit_circle.holds("default"@, -2i32)
        &&& self.score.holds("score"@, 0i32)
        &&& self.combo.holds("score"@, 0i32)
    }
}

impl Default for Fonts {
    fn default() -> (fonts: Self)
        ensures
            fonts.is_default(),
    {
        Self {
            hit_circle: FontConfig::new("default", -2),
            score: FontConfig::new("score", 0),
            combo: FontConfig::new("score", 0),
        }
    }
}

/// One font: the prefix of its image names, and by how many pixels its
/// glyphs overlap.
pub struct FontConfig {
    pub prefix: String,
    pub overlap: i32,
}

impl FontConfig {
    /// Whether the font has this prefix and this overlap.
    pub open spec fn holds(&self, prefix: Seq<char>, overlap: i32) -> bool {
        self.prefix@ == prefix && self.overlap == overlap
    }

    /// The font with this prefix and this overlap.
    pub fn new(prefix: &str, overlap: i32) -> (font: Self)
        ensures
            font.holds(prefix@, overlap),
    {
        Self { prefix: prefix.to_owned(), overlap }
    }
}

/// The `[CatchTheBeat]` part of a skin.
pub struct CatchTheBeat {
    pub hyper_dash_colors: HyperDashColors,
}

impl Default for CatchTheBeat {
    fn default() -> (catch: Self)
        ensures
            catch.hyper_dash_colors == HyperDashColors::default_value(),
    {
        Self { hyper_dash_colors: HyperDashColors::default() }
    }
}

/// The colours of a hyper dash: that of the catcher, and those of the fruit
/// and of the after-image where they differ from it.
pub struct HyperDashColors {
    pub main: RgbColor,
    pub fruit: Option<RgbColor>,
    pub after_image: Option<RgbColor>,
}

impl HyperDashColors {
    /// Red, for the catcher and so for all three.
    pub open spec fn default_value() -> HyperDashColors {
        HyperDashColors { main: RgbColor { r: 255, g: 0, b: 0 }, fruit: None, after_image: None }
    }

    /// The colour of the fruit: its own where it has one, else that of the
    /// catcher.
    pub fn get_fruit_color(&self) -> (color: RgbColor)
        ensures
            color == match self.fruit {
                Some(own) => own,
                None => self.main,
            },
    {
        match self.fruit {
            Some(own) => own,
            None => self.main,
        }
    }

    /// The colour of the after-image: its own where it has one, else that
    /// of the catcher.
    pub fn get_after_image_color(&self) -> (color: RgbColor)
        ensures
            color == match self.after_image {
                Some(own) => own,
                None => self.main,
            },
    {
        match self.after_image {
            Some(own) => own,
            None => self.main,
        }
    }
}

impl Default for HyperDashColors {
    fn default() -> (colors: Self)
        ensures
            colors == HyperDashColors::default_value(),
    {
        let default_color = RgbColor::new(255, 0, 0);
        Self { main: default_color, fruit: None, after_image: None }
    }
}

} // verus!
