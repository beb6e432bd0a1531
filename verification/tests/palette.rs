use terminal::cell::{Attribute, Color};
use terminal::palette::{colors, palette, resolve};

#[test]
fn named_colours() {
    assert_eq!(palette(0), 0x000000);
    assert_eq!(palette(1), 0xcd0000);
    assert_eq!(palette(4), 0x0000ee);
    assert_eq!(palette(7), 0xe5e5e5);
    assert_eq!(palette(8), 0x7f7f7f);
    assert_eq!(palette(12), 0x5c5cff);
    assert_eq!(palette(15), 0xffffff);
}

#[test]
fn colour_cube() {
    assert_eq!(palette(16), 0x000000);
    assert_eq!(palette(17), 0x00005f);
    assert_eq!(palette(21), 0x0000ff);
    assert_eq!(palette(22), 0x005f00);
    assert_eq!(palette(52), 0x5f0000);
    assert_eq!(palette(196), 0xff0000);
    assert_eq!(palette(200), 0xff00d7);
    assert_eq!(palette(231), 0xffffff);
}

#[test]
fn grey_ramp() {
    assert_eq!(palette(232), 0x080808);
    assert_eq!(palette(233), 0x121212);
    assert_eq!(palette(255), 0xeeeeee);
}

#[test]
fn colours_resolve_against_the_default() {
    assert_eq!(resolve(Color::Default, 0xabcdef), 0xabcdef);
    assert_eq!(resolve(Color::Indexed(1), 0xabcdef), 0xcd0000);
    assert_eq!(resolve(Color::Rgb(1, 2, 3), 0xabcdef), 0x010203);
    assert_eq!(resolve(Color::Rgb(255, 255, 255), 0), 0xffffff);
}

#[test]
fn inverse_exchanges_the_colours() {
    let attribute = Attribute { foreground: Color::Indexed(2), ..Attribute::default() };
    assert_eq!(colors(&attribute, 0xffffff, 0x111111), (0x00cd00, 0x111111));
    let inverse = Attribute { inverse: true, ..attribute };
    assert_eq!(colors(&inverse, 0xffffff, 0x111111), (0x111111, 0x00cd00));
}
