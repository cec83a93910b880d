use colors::{render_gradient, Colors, Target};

#[test]
fn gradient_of_empty_text_is_empty() {
    assert_eq!("".text_gradient(&["#000000", "#ffffff"]), "");
    assert_eq!("".bg_gradient(&["#000000", "#ffffff"]), "");
}

#[test]
fn gradient_without_stops_is_unchanged() {
    assert_eq!("hi".text_gradient(&[]), "hi");
}

#[test]
fn gradient_with_one_stop_is_unchanged() {
    assert_eq!("hi".text_gradient(&["#ff0000"]), "hi");
    assert_eq!("hi".text_gradient(&["#ff0000", "nonsense", "rgb(300,0,0)"]), "hi");
}

#[test]
fn gradient_ignores_accent_stops() {
    assert_eq!("hi".text_gradient(&["#f40420", "text_blue_500"]), "hi");
}

#[test]
fn gradient_two_characters_hit_both_ends() {
    assert_eq!(
        "AB".text_gradient(&["#000000", "#ffffff"]),
        "\x1b[38;2;0;0;0mA\x1b[38;2;255;255;255mB\x1b[0m"
    );
    assert_eq!(
        "AB".bg_gradient(&["#000000", "rgb(255, 255, 255)"]),
        "\x1b[48;2;0;0;0mA\x1b[48;2;255;255;255mB\x1b[0m"
    );
}

#[test]
fn gradient_midpoint_is_the_average() {
    assert_eq!(
        "abc".text_gradient(&["#000000", "#ffffff"]),
        "\x1b[38;2;0;0;0ma\x1b[38;2;127;127;127mb\x1b[38;2;255;255;255mc\x1b[0m"
    );
    assert_eq!(
        "abcde".text_gradient(&["#0a141e", "#141e28"]),
        "\x1b[38;2;10;20;30ma\x1b[38;2;12;22;32mb\x1b[38;2;15;25;35mc\x1b[38;2;17;27;37md\x1b[38;2;20;30;40me\x1b[0m"
    );
}

#[test]
fn gradient_middle_pair_brackets_the_average() {
    assert_eq!(
        "abcd".text_gradient(&["#000000", "#ffffff"]),
        "\x1b[38;2;0;0;0ma\x1b[38;2;85;85;85mb\x1b[38;2;170;170;170mc\x1b[38;2;255;255;255md\x1b[0m"
    );
    assert_eq!(
        "abcd".text_gradient(&["#ffffff", "#000000"]),
        "\x1b[38;2;255;255;255ma\x1b[38;2;170;170;170mb\x1b[38;2;85;85;85mc\x1b[38;2;0;0;0md\x1b[0m"
    );
}

#[test]
fn gradient_across_three_stops() {
    assert_eq!(
        "abc".text_gradient(&["#000000", "#ff0000", "#00ff00"]),
        "\x1b[38;2;0;0;0ma\x1b[38;2;255;0;0mb\x1b[38;2;0;255;0mc\x1b[0m"
    );
    assert_eq!(
        "abcd".text_gradient(&["#000000", "#ff0000", "#00ff00"]),
        "\x1b[38;2;0;0;0ma\x1b[38;2;170;0;0mb\x1b[38;2;170;85;0mc\x1b[38;2;0;255;0md\x1b[0m"
    );
}

#[test]
fn gradient_of_one_character_uses_the_first_stop() {
    assert_eq!(
        "x".text_gradient(&["#102030", "#ffffff"]),
        "\x1b[38;2;16;32;48mx\x1b[0m"
    );
}

#[test]
fn gradient_counts_characters_not_bytes() {
    assert_eq!(
        "éa".text_gradient(&["#000000", "#ffffff"]),
        "\x1b[38;2;0;0;0mé\x1b[38;2;255;255;255ma\x1b[0m"
    );
    assert_eq!(
        render_gradient("éa", &["#000000", "#ffffff"], Target::Background),
        "\x1b[48;2;0;0;0mé\x1b[48;2;255;255;255ma\x1b[0m"
    );
}

#[test]
fn code_wraps_plain_text() {
    assert_eq!("hi".bold(), "\x1b[1mhi\x1b[0m");
    assert_eq!("hi".text_red(), "\x1b[31mhi\x1b[0m");
    assert_eq!("hi".bg_white_bright(), "\x1b[107mhi\x1b[0m");
    assert_eq!("hi".code(123), "\x1b[123mhi\x1b[0m");
    assert_eq!("".underline(), "\x1b[4m\x1b[0m");
}

#[test]
fn codes_wraps_plain_text() {
    assert_eq!("hi".text_red_50(), "\x1b[38;2;254;242;242mhi\x1b[0m");
    assert_eq!("hi".bg_red_500(), "\x1b[48;2;239;68;68mhi\x1b[0m");
    assert_eq!("hi".codes(38, (1, 2, 3)), "\x1b[38;2;1;2;3mhi\x1b[0m");
}

#[test]
fn code_keeps_styled_segments() {
    let inner = "red".text_red();
    let s = format!("{} plain", inner);
    assert_eq!(s.bold(), "\x1b[31mred\x1b[0m\x1b[1m plain");
    assert_eq!(
        s.text_blue_500(),
        "\x1b[31mred\x1b[0m\x1b[38;2;59;130;246m plain"
    );
}

#[test]
fn code_opens_each_plain_segment() {
    let s = "a\x1b[0mb\x1b[32mc\x1b[0m";
    assert_eq!(s.bold(), "\x1b[1ma\x1b[0m\x1b[1mb\x1b[32mc\x1b[0m");
    assert_eq!("x\x1b[1my".dim(), "\x1b[2mx\x1b[1my");
}

#[test]
fn blink_wraps_whole_text() {
    assert_eq!("hi".blink_fast(), "\x1b[6mhi\x1b[0m");
    assert_eq!("hi".blink_slow(), "\x1b[5mhi\x1b[0m");
    assert_eq!("\x1b[1mhi".blink_slow(), "\x1b[5m\x1b[1mhi\x1b[0m");
}

#[test]
fn fades_cycle_through_grays() {
    assert_eq!("ab".fade_in(), "\x1b[38;5;232ma\x1b[38;5;236mb\x1b[0m");
    assert_eq!("ab".fade_out(), "\x1b[38;5;252ma\x1b[38;5;248mb\x1b[0m");
    assert_eq!("".fade_in(), "\x1b[0m");
    let seven = "abcdefg".fade_in();
    assert!(seven.ends_with("\x1b[38;5;252mf\x1b[38;5;232mg\x1b[0m"));
}

#[test]
fn center_pads_both_sides() {
    assert_eq!("hi".center(6), "  hi  ");
    assert_eq!("hi".center(1), "hi");
    assert_eq!("hi".center(5), " hi  ");
    assert_eq!("hé".center(4), " hé ");
}

#[test]
fn pads_count_characters() {
    assert_eq!("hi".pad_left(5), "   hi");
    assert_eq!("hi".pad_right(5), "hi   ");
    assert_eq!("hello".pad_left(3), "hello");
    assert_eq!("é".pad_right(2), "é ");
}

#[test]
fn frames_surround_text() {
    assert_eq!("hi".box_it(), "┌──┐\n│hi│\n└──┘");
    assert_eq!("hi".border(), "╭──╮\n│hi│\n╰──╯");
    assert_eq!("hi".double_border(), "╔══╗\n║hi║\n╚══╝");
    assert_eq!("".box_it(), "┌┐\n││\n└┘");
}
