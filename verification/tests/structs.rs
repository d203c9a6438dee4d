use skin_ini::structs::{
    CatchTheBeat, Colours, ComboColours, CursorConfig, FontConfig, Fonts, GameplayColours,
    GameplayConfig, General, HyperDashColors, InterfaceColours, RgbColor, SkinMetadata,
    SpinnerConfig,
};

fn rgb(color: RgbColor) -> (u8, u8, u8) {
    (color.r, color.g, color.b)
}

#[test]
fn a_colour_holds_its_components() {
    assert_eq!(rgb(RgbColor::new(1, 2, 3)), (1, 2, 3));
    assert_eq!(rgb(RgbColor::default()), (0, 0, 0));
}

#[test]
fn a_font_holds_its_prefix_and_overlap() {
    let font = FontConfig::new("score", -3);
    assert_eq!(font.prefix, "score");
    assert_eq!(font.overlap, -3);
}

#[test]
fn default_metadata_names_no_skin() {
    let metadata = SkinMetadata::default();
    assert_eq!(metadata.name, "Unknown");
    assert_eq!(metadata.author, "");
    assert_eq!(metadata.version, "latest");
    assert_eq!(metadata.animation_framerate, -1);
}

#[test]
fn default_cursor_and_spinner() {
    let cursor = CursorConfig::default();
    assert!(cursor.centre && cursor.expand && cursor.rotate && cursor.trail_rotate);
    let spinner = SpinnerConfig::default();
    assert!(!spinner.fade_playfield);
    assert!(spinner.frequency_modulate);
    assert!(!spinner.no_blink);
}

#[test]
fn default_gameplay() {
    let gameplay = GameplayConfig::default();
    assert!(!gameplay.allow_slider_ball_tint);
    assert!(!gameplay.combo_burst_random);
    assert!(gameplay.custom_combo_burst_sounds.is_empty());
    assert!(gameplay.hit_circle_overlay_above_number);
    assert!(gameplay.layered_hit_sounds);
    assert!(gameplay.slider_ball_flip);
}

#[test]
fn default_general_is_made_of_the_defaults() {
    let general = General::default();
    assert_eq!(general.metadata.name, "Unknown");
    assert_eq!(general.metadata.animation_framerate, -1);
    assert!(general.cursor.centre);
    assert!(general.spinner.frequency_modulate);
    assert!(general.gameplay.layered_hit_sounds);
}

#[test]
fn default_combo_colours() {
    let combo = ComboColours::default();
    assert_eq!(rgb(combo.combo1), (255, 192, 0));
    assert_eq!(rgb(combo.combo2), (0, 202, 0));
    assert_eq!(rgb(combo.combo3), (18, 124, 255));
    assert_eq!(rgb(combo.combo4), (242, 24, 57));
    assert!(combo.combo5.is_none());
    assert!(combo.combo6.is_none());
    assert!(combo.combo7.is_none());
    assert!(combo.combo8.is_none());
}

#[test]
fn default_interface_and_gameplay_colours() {
    let interface = InterfaceColours::default();
    assert_eq!(rgb(interface.menu_glow), (0, 78, 155));
    assert_eq!(rgb(interface.song_select_active_text), (0, 0, 0));
    assert_eq!(rgb(interface.song_select_inactive_text), (255, 255, 255));
    assert_eq!(rgb(interface.input_overlay_text), (0, 0, 0));
    let gameplay = GameplayColours::default();
    assert_eq!(rgb(gameplay.slider_ball), (2, 170, 255));
    assert_eq!(rgb(gameplay.slider_border), (255, 255, 255));
    assert!(gameplay.slider_track_override.is_none());
    assert_eq!(rgb(gameplay.spinner_background), (100, 100, 100));
    assert_eq!(rgb(gameplay.star_break_additive), (255, 182, 193));
    let colours = Colours::default();
    assert_eq!(rgb(colours.combo.combo1), (255, 192, 0));
    assert_eq!(rgb(colours.interface.menu_glow), (0, 78, 155));
    assert_eq!(rgb(colours.gameplay.slider_ball), (2, 170, 255));
}

#[test]
fn default_fonts() {
    let fonts = Fonts::default();
    assert_eq!(fonts.hit_circle.prefix, "default");
    assert_eq!(fonts.hit_circle.overlap, -2);
    assert_eq!(fonts.score.prefix, "score");
    assert_eq!(fonts.score.overlap, 0);
    assert_eq!(fonts.combo.prefix, "score");
    assert_eq!(fonts.combo.overlap, 0);
}

#[test]
fn hyper_dash_colours_fall_back_to_the_main_one() {
    let colors = HyperDashColors::default();
    assert_eq!(rgb(colors.main), (255, 0, 0));
    assert_eq!(rgb(colors.get_fruit_color()), (255, 0, 0));
    assert_eq!(rgb(colors.get_after_image_color()), (255, 0, 0));
    let catch = CatchTheBeat::default();
    assert_eq!(rgb(catch.hyper_dash_colors.main), (255, 0, 0));
    assert!(catch.hyper_dash_colors.fruit.is_none());
    assert!(catch.hyper_dash_colors.after_image.is_none());
}

#[test]
fn hyper_dash_colours_of_their_own_win() {
    let colors = HyperDashColors {
        main: RgbColor::new(1, 2, 3),
        fruit: Some(RgbColor::new(4, 5, 6)),
        after_image: None,
    };
    assert_eq!(rgb(colors.get_fruit_color()), (4, 5, 6));
    assert_eq!(rgb(colors.get_after_image_color()), (1, 2, 3));
    let colors = HyperDashColors {
        main: RgbColor::new(1, 2, 3),
        fruit: None,
        after_image: Some(RgbColor::new(7, 8, 9)),
    };
    assert_eq!(rgb(colors.get_fruit_color()), (1, 2, 3));
    assert_eq!(rgb(colors.get_after_image_color()), (7, 8, 9));
}
