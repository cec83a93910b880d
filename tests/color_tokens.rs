use colors::{hex_to_rgb, identify_color_type, is_hex_color, is_rgb_color, parse_rgb, ColorType, RGB};

#[test]
fn hex_with_and_without_hash() {
    assert_eq!(identify_color_type("#ff8800"), ColorType::Hex);
    assert_eq!(identify_color_type("ff8800"), ColorType::Hex);
    assert_eq!(hex_to_rgb("#ff8800"), Some(RGB::new(255, 136, 0)));
    assert_eq!(hex_to_rgb("ff8800"), Some(RGB::new(255, 136, 0)));
    assert_eq!(hex_to_rgb("#FFaa0B"), Some(RGB::new(255, 170, 11)));
}

#[test]
fn hex_rejects_malformed_tokens() {
    assert_eq!(hex_to_rgb(""), None);
    assert_eq!(hex_to_rgb("#ff00"), None);
    assert_eq!(hex_to_rgb("#ff000000"), None);
    assert_eq!(hex_to_rgb("#gg0000"), None);
    assert_eq!(hex_to_rgb("##ff0000"), None);
    assert_eq!(hex_to_rgb("+f+f+f"), None);
    assert!(!is_hex_color("#12345"));
    assert!(is_hex_color("#abcdef"));
    assert!(!is_hex_color("#abcdeg"));
}

#[test]
fn to_hex_is_lowercase_with_hash() {
    assert_eq!(RGB::new(255, 136, 0).to_hex(), "#ff8800");
    assert_eq!(RGB::new(0, 10, 171).to_hex(), "#000aab");
}

#[test]
fn hex_round_trips() {
    for (r, g, b) in [(0u8, 0u8, 0u8), (255, 255, 255), (1, 2, 3), (171, 205, 239)] {
        let c = RGB::new(r, g, b);
        let h = c.to_hex();
        assert_eq!(identify_color_type(&h), ColorType::Hex);
        assert_eq!(hex_to_rgb(&h), Some(c));
    }
}

#[test]
fn rgb_literal_decodes() {
    assert_eq!(parse_rgb("rgb(1,2,3)"), Some(RGB::new(1, 2, 3)));
    assert_eq!(parse_rgb("rgb(0,128,255)"), Some(RGB::new(0, 128, 255)));
    assert_eq!(parse_rgb("rgb( 10 , 20 ,\t30 )"), Some(RGB::new(10, 20, 30)));
    assert_eq!(parse_rgb("rgb(+5,007,0)"), Some(RGB::new(5, 7, 0)));
    assert_eq!(parse_rgb("rgb(\u{3000}7,8,9\u{a0})"), Some(RGB::new(7, 8, 9)));
}

#[test]
fn rgb_literal_rejects() {
    assert_eq!(parse_rgb("rgb(256,0,0)"), None);
    assert_eq!(parse_rgb("rgb(1000,0,0)"), None);
    assert_eq!(parse_rgb("rgb(a,0,0)"), None);
    assert_eq!(parse_rgb("rgb(1,2)"), None);
    assert_eq!(parse_rgb("rgb(1,2,3,4)"), None);
    assert_eq!(parse_rgb("rgb(,1,2)"), None);
    assert_eq!(parse_rgb("rgb(-1,2,3)"), None);
    assert_eq!(parse_rgb("rgb(+,2,3)"), None);
    assert_eq!(parse_rgb("rgb(1 2,2,3)"), None);
    assert_eq!(parse_rgb("rgb(\u{200b}7,8,9)"), None);
    assert_eq!(parse_rgb("RGB(1,2,3)"), None);
    assert_eq!(parse_rgb("rgb(1,2,3) "), None);
    assert_eq!(parse_rgb(" rgb(1,2,3)"), None);
}

#[test]
fn classification_is_total() {
    assert_eq!(identify_color_type("rgb(1,2,3)"), ColorType::RGB);
    assert_eq!(identify_color_type("rgb(oops)"), ColorType::RGB);
    assert!(is_rgb_color("rgb()"));
    assert!(!is_rgb_color("rgb("));
    assert_eq!(identify_color_type("text_blue_500"), ColorType::Accent);
    assert_eq!(identify_color_type("bg_red_50"), ColorType::Accent);
    assert_eq!(identify_color_type("hello"), ColorType::Default);
    assert_eq!(identify_color_type(""), ColorType::Default);
    assert_eq!(identify_color_type("##ff0000"), ColorType::Default);
}
