use gerg_ui::colors::{
    determine_conversion_type, from_hex_triplet, from_name, from_rgb_decimal, parse_color,
    try_parse_color, ConversionType,
};

#[test]
fn hex_triplet_packs_red_low_alpha_high() {
    assert_eq!(parse_color(&"#ff0000".to_string()), 0xff0000ff);
    assert_eq!(parse_color(&"#5d8aa8".to_string()), 0xffa88a5d);
    assert_eq!(from_hex_triplet(&"#6495ed".to_string()), 0xffed9564);
}

#[test]
fn hex_digits_match_either_case() {
    assert_eq!(parse_color(&"#AbCdEf".to_string()), 0xffefcdab);
}

#[test]
fn rgb_decimal_defaults_alpha_to_255() {
    assert_eq!(parse_color(&"255;0;0".to_string()), 0xff0000ff);
    assert_eq!(from_rgb_decimal(&" 10 ; 20 ; 30 ".to_string()), 0xff1e140a);
}

#[test]
fn rgba_decimal_takes_the_fourth_component_as_alpha() {
    assert_eq!(parse_color(&"0;128;255;64".to_string()), 0x40ff8000);
}

#[test]
fn color_names_match_regardless_of_case() {
    assert_eq!(parse_color(&"red".to_string()), 0xff0000ff);
    assert_eq!(parse_color(&"Cornflower Blue".to_string()), 0xffed9564);
    assert_eq!(from_name(&"WHITE".to_string()), 0xffffffff);
    assert_eq!(from_name(&"navy blue".to_string()), 0xff800000);
}

#[test]
fn conversion_type_follows_the_written_form() {
    assert!(matches!(
        determine_conversion_type(&" #aabbcc".to_string()),
        ConversionType::FromHexTriplet
    ));
    assert!(matches!(
        determine_conversion_type(&"1;2;3".to_string()),
        ConversionType::FromRgbDecimal
    ));
    assert!(matches!(
        determine_conversion_type(&"1;2".to_string()),
        ConversionType::FromName
    ));
    assert!(matches!(
        determine_conversion_type(&"amber".to_string()),
        ConversionType::FromName
    ));
}

#[test]
fn unreadable_colors_are_rejected_not_guessed() {
    assert_eq!(try_parse_color(&"#12345".to_string()), None);
    assert_eq!(try_parse_color(&"#12345g".to_string()), None);
    assert_eq!(try_parse_color(&"300;0;0".to_string()), None);
    assert_eq!(try_parse_color(&"1;2;3;4;5".to_string()), None);
    assert_eq!(try_parse_color(&"no such color".to_string()), None);
}

#[test]
fn valid_colors_parse_through_the_total_form_too() {
    assert_eq!(try_parse_color(&"#010203".to_string()), Some(0xff030201));
    assert_eq!(try_parse_color(&"1;2;3".to_string()), Some(0xff030201));
    assert_eq!(try_parse_color(&"black".to_string()), Some(0xff000000));
}

#[test]
fn every_dictionary_group_answers() {
    // one name from each alphabetical group of the dictionary
    assert_eq!(parse_color(&"azure".to_string()), 0xffff7f00);
    assert_eq!(parse_color(&"black".to_string()), 0xff000000);
    assert_eq!(parse_color(&"crimson".to_string()), 0xff3c14dc);
    assert_eq!(parse_color(&"dark red".to_string()), 0xff00008b);
    assert_eq!(parse_color(&"teal".to_string()), 0xff808000);
}
