use pickme::color::Color;

#[test]
fn darken_divides_each_channel_by_three() {
    let dark = Color { r: 255, g: 255, b: 255 }.darken();
    assert_eq!(dark, Color { r: 85, g: 85, b: 85 });
}

#[test]
fn darken_rounds_down() {
    assert_eq!(Color { r: 10, g: 20, b: 30 }.darken(), Color { r: 3, g: 6, b: 10 });
    assert_eq!(Color { r: 1, g: 2, b: 3 }.darken(), Color { r: 0, g: 0, b: 1 });
    assert_eq!(Color { r: 0, g: 0, b: 0 }.darken(), Color { r: 0, g: 0, b: 0 });
}

#[test]
fn darken_twice_is_a_ninth_rounded_down_twice() {
    let once = Color { r: 100, g: 8, b: 255 }.darken();
    assert_eq!(once, Color { r: 33, g: 2, b: 85 });
    assert_eq!(once.darken(), Color { r: 11, g: 0, b: 28 });
}

#[test]
fn darken_leaves_the_color_itself_alone() {
    let color = Color { r: 9, g: 90, b: 200 };
    let _ = color.darken();
    assert_eq!(color, Color { r: 9, g: 90, b: 200 });
}

#[test]
fn hex_of_a_color() {
    assert_eq!(Color { r: 255, g: 0, b: 128 }.hex(), "#ff0080");
}

#[test]
fn hex_pads_small_channels_and_is_lowercase() {
    assert_eq!(Color { r: 0, g: 0, b: 0 }.hex(), "#000000");
    assert_eq!(Color { r: 10, g: 10, b: 10 }.hex(), "#0a0a0a");
    assert_eq!(Color { r: 171, g: 205, b: 239 }.hex(), "#abcdef");
    assert_eq!(Color { r: 1, g: 35, b: 69 }.hex(), "#012345");
}

#[test]
fn hex_keeps_the_channel_order() {
    assert_eq!(Color { r: 0x12, g: 0x34, b: 0x56 }.hex(), "#123456");
    assert_eq!(Color { r: 0x56, g: 0x34, b: 0x12 }.hex(), "#563412");
}

#[test]
fn colors_are_equal_when_all_channels_are() {
    assert_eq!(Color { r: 1, g: 2, b: 3 }, Color { r: 1, g: 2, b: 3 });
    assert_ne!(Color { r: 1, g: 2, b: 3 }, Color { r: 1, g: 2, b: 4 });
    assert_ne!(Color { r: 1, g: 2, b: 3 }, Color { r: 3, g: 2, b: 1 });
}
