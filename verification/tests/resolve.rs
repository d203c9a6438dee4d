use ini::Properties;
use skin_ini::resolve::{
    numbered_key, parse_color, parse_color_rgb, parse_comma_separated_numbers,
    parse_numbered_bools, parse_numbered_colors, parse_numbered_strings, parse_numbered_values,
    resolve_numbers, resolve_optional, resolve_optional_text, resolve_rgb, resolve_rgba,
    resolve_scalar, resolve_text,
};

fn section(entries: &[(&str, &str)]) -> Properties {
    let mut props = Properties::new();
    for (key, value) in entries {
        props.append(key.to_string(), value.to_string());
    }
    props
}

#[test]
fn a_scalar_is_read_or_defaulted() {
    let props = section(&[("HitPosition", "402"), ("Bad", "4o2"), ("Spaced", " 7")]);
    assert_eq!(resolve_scalar(&props, "HitPosition", 0u32), 402);
    assert_eq!(resolve_scalar(&props, "Bad", 9u32), 9);
    assert_eq!(resolve_scalar(&props, "Spaced", 9u32), 9);
    assert_eq!(resolve_scalar(&props, "Absent", 24u32), 24);
    assert_eq!(resolve_scalar(&props, "hitposition", 5u32), 5);
    assert_eq!(resolve_scalar(&props, "HitPosition", 0u8), 0);
    assert_eq!(resolve_scalar(&props, "HitPosition", -1i32), 402);
}

#[test]
fn a_flag_is_written_as_a_number() {
    let props = section(&[("A", "1"), ("B", "0"), ("C", "7"), ("D", "true"), ("E", "")]);
    assert!(resolve_scalar(&props, "A", false));
    assert!(!resolve_scalar(&props, "B", true));
    assert!(resolve_scalar(&props, "C", false));
    assert!(!resolve_scalar(&props, "D", false));
    assert!(resolve_scalar(&props, "D", true));
    assert!(!resolve_scalar(&props, "E", false));
    assert!(!resolve_scalar(&props, "F", false));
}

#[test]
fn the_first_of_several_values_counts() {
    let props = section(&[("Keys", "4"), ("Other", "x"), ("Keys", "7")]);
    assert_eq!(resolve_scalar(&props, "Keys", 0u32), 4);
    assert_eq!(resolve_text(&props, "Keys"), "4");
}

#[test]
fn an_optional_scalar_tells_absent_from_zero() {
    let props = section(&[("Scale", "0"), ("Bad", "-")]);
    assert_eq!(resolve_optional::<u32>(&props, "Scale"), Some(0));
    assert_eq!(resolve_optional::<u32>(&props, "Bad"), None);
    assert_eq!(resolve_optional::<u32>(&props, "Absent"), None);
}

#[test]
fn text_is_copied_as_it_stands() {
    let props = section(&[("StageLeft", " left\\a.png "), ("Empty", "")]);
    assert_eq!(resolve_text(&props, "StageLeft"), " left\\a.png ");
    assert_eq!(resolve_text(&props, "Empty"), "");
    assert_eq!(resolve_text(&props, "Absent"), "");
    assert_eq!(resolve_optional_text(&props, "Empty"), Some(String::new()));
    assert_eq!(resolve_optional_text(&props, "Absent"), None);
    assert_eq!(resolve_optional_text(&props, "StageLeft"), Some(" left\\a.png ".to_string()));
}

#[test]
fn a_list_drops_what_is_no_number() {
    assert_eq!(parse_comma_separated_numbers(Some("1,x,3")), vec![1, 3]);
    assert_eq!(parse_comma_separated_numbers(Some("1,,3,")), vec![1, 3]);
    assert_eq!(parse_comma_separated_numbers(Some("")), Vec::<u32>::new());
    assert_eq!(parse_comma_separated_numbers(Some("abc")), Vec::<u32>::new());
    assert_eq!(parse_comma_separated_numbers(Some(" 7 ")), vec![7]);
    assert_eq!(parse_comma_separated_numbers(Some("-1, 1.5, +2, 4294967296, 4294967295")), vec![2, 4294967295]);
    assert_eq!(parse_comma_separated_numbers(Some("3,1,2,1")), vec![3, 1, 2, 1]);
}

#[test]
fn a_list_is_read_from_its_key() {
    let props = section(&[("ColumnWidth", "32, 48,x,32")]);
    assert_eq!(resolve_numbers(&props, "ColumnWidth"), vec![32, 48, 32]);
    assert_eq!(resolve_numbers(&props, "ColumnSpacing"), Vec::<u32>::new());
}

#[test]
fn a_family_key_is_prefix_index_suffix() {
    assert_eq!(numbered_key("KeyImage", 0, ""), "KeyImage0");
    assert_eq!(numbered_key("KeyImage", 10, "D"), "KeyImage10D");
    assert_eq!(numbered_key("", 4294967295, "T"), "4294967295T");
    assert_eq!(numbered_key("Colour", 1, ""), "Colour1");
}

#[test]
fn a_family_without_keys_is_all_defaults() {
    let props = Properties::new();
    let values: Vec<u32> = parse_numbered_values(&props, "NoteBodyStyle", 3, 0);
    assert_eq!(values, vec![0, 0, 0]);
    let values: Vec<u8> = parse_numbered_values(&props, "NoteBodyStyle", 2, 9);
    assert_eq!(values, vec![9, 9]);
    assert_eq!(parse_numbered_bools(&props, "KeyFlip", 4), vec![false; 4]);
    assert_eq!(parse_numbered_strings(&props, "KeyImage", 2, Some("D")), vec!["", ""]);
}

#[test]
fn a_family_has_as_many_members_as_asked_for() {
    let props = section(&[("V1", "5"), ("V3", "x"), ("V9", "7"), ("V10", "8")]);
    let values: Vec<u32> = parse_numbered_values(&props, "V", 0, 1);
    assert!(values.is_empty());
    let values: Vec<u32> = parse_numbered_values(&props, "V", 5, 1);
    assert_eq!(values, vec![1, 5, 1, 1, 1]);
    let values: Vec<u32> = parse_numbered_values(&props, "V", 11, 0);
    assert_eq!(values, vec![0, 5, 0, 0, 0, 0, 0, 0, 0, 7, 8]);
}

#[test]
fn a_family_of_texts_uses_the_suffix() {
    let props = section(&[("NoteImage0", "n0"), ("NoteImage0H", "h0"), ("NoteImage1H", "h1"), ("NoteImageH1", "no")]);
    assert_eq!(parse_numbered_strings(&props, "NoteImage", 2, None), vec!["n0", ""]);
    assert_eq!(parse_numbered_strings(&props, "NoteImage", 2, Some("")), vec!["n0", ""]);
    assert_eq!(parse_numbered_strings(&props, "NoteImage", 3, Some("H")), vec!["h0", "h1", ""]);
    assert_eq!(parse_numbered_strings(&props, "NoteImage", 0, Some("H")), Vec::<String>::new());
}

#[test]
fn a_colour_needs_three_good_components() {
    assert_eq!(parse_color("0,0,0"), Some([0, 0, 0, 255]));
    assert_eq!(parse_color(" 1 ,\t2 , 3 , 4 "), Some([1, 2, 3, 4]));
    assert_eq!(parse_color("1,2,x"), None);
    assert_eq!(parse_color("x,2,3"), None);
    assert_eq!(parse_color("1,256,3"), None);
    assert_eq!(parse_color("1,-2,3"), None);
    assert_eq!(parse_color("1,2,"), None);
    assert_eq!(parse_color(""), None);
    assert_eq!(parse_color("1 2 3"), None);
}

#[test]
fn alpha_is_255_unless_a_fourth_component_says_otherwise() {
    assert_eq!(parse_color("1,2,3,x"), Some([1, 2, 3, 255]));
    assert_eq!(parse_color("1,2,3,"), Some([1, 2, 3, 255]));
    assert_eq!(parse_color("1,2,3,256"), Some([1, 2, 3, 255]));
    assert_eq!(parse_color("1,2,3,0"), Some([1, 2, 3, 0]));
    assert_eq!(parse_color("1,2,3,4,5"), Some([1, 2, 3, 4]));
    assert_eq!(parse_color("1,2,3,x,5"), Some([1, 2, 3, 255]));
}

#[test]
fn a_colour_without_alpha_ignores_a_fourth_component() {
    assert_eq!(parse_color_rgb("1,2,3,4"), Some([1, 2, 3]));
    assert_eq!(parse_color_rgb("1,2,3,x"), Some([1, 2, 3]));
    assert_eq!(parse_color_rgb("255,128"), None);
    assert_eq!(parse_color_rgb("1,2,256"), None);
    assert_eq!(parse_color_rgb(" 9,9 ,9"), Some([9, 9, 9]));
}

#[test]
fn a_single_colour_falls_back_to_its_default() {
    let props = section(&[("Good", "1,2,3"), ("Bad", "1,2"), ("Four", "1,2,3,4")]);
    assert_eq!(resolve_rgba(&props, "Good", [9, 9, 9, 9]), [1, 2, 3, 255]);
    assert_eq!(resolve_rgba(&props, "Four", [9, 9, 9, 9]), [1, 2, 3, 4]);
    assert_eq!(resolve_rgba(&props, "Bad", [9, 8, 7, 6]), [9, 8, 7, 6]);
    assert_eq!(resolve_rgba(&props, "Absent", [9, 8, 7, 6]), [9, 8, 7, 6]);
    assert_eq!(resolve_rgb(&props, "Good", [9, 9, 9]), [1, 2, 3]);
    assert_eq!(resolve_rgb(&props, "Four", [9, 9, 9]), [1, 2, 3]);
    assert_eq!(resolve_rgb(&props, "Bad", [9, 8, 7]), [9, 8, 7]);
    assert_eq!(resolve_rgb(&props, "Absent", [9, 8, 7]), [9, 8, 7]);
}

#[test]
fn a_family_of_colours_skips_what_is_missing() {
    let props = section(&[("Colour1", "1,1,1")]);
    assert_eq!(parse_numbered_colors(&props, "Colour", 2), vec![[1, 1, 1, 255]]);
}

#[test]
fn a_family_of_colours_skips_what_is_no_colour() {
    let props = section(&[
        ("Colour0", "0,0,0"),
        ("Colour1", "1,1,1"),
        ("Colour2", "oops"),
        ("Colour3", "3,3,3,3"),
        ("Colour4", "4,4,4"),
    ]);
    assert_eq!(parse_numbered_colors(&props, "Colour", 3), vec![[1, 1, 1, 255], [3, 3, 3, 3]]);
    assert_eq!(parse_numbered_colors(&props, "Colour", 4).len(), 3);
    assert_eq!(parse_numbered_colors(&props, "Colour", 0), Vec::<[u8; 4]>::new());
    assert_eq!(parse_numbered_colors(&props, "ColourLight", 4), Vec::<[u8; 4]>::new());
}
