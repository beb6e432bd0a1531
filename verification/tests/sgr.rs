use terminal::cell::{Attribute, Color};
use terminal::sgr::select_graphic_rendition;

fn apply(codes: &[u16]) -> Attribute {
    select_graphic_rendition(Attribute::default(), &codes.to_vec())
}

#[test]
fn no_parameters_reset_the_attribute() {
    let styled = Attribute {
        foreground: Color::Indexed(3),
        background: Color::Rgb(1, 2, 3),
        bold: true,
        underline: true,
        inverse: true,
    };
    assert_eq!(select_graphic_rendition(styled, &Vec::new()), Attribute::default());
    assert_eq!(select_graphic_rendition(styled, &vec![0]), Attribute::default());
}

#[test]
fn flags_are_set_and_cleared() {
    assert!(apply(&[1]).bold);
    assert!(apply(&[4]).underline);
    assert!(apply(&[7]).inverse);
    assert_eq!(apply(&[1, 4, 7, 22]), Attribute { underline: true, inverse: true, ..Attribute::default() });
    assert_eq!(apply(&[1, 4, 7, 24]), Attribute { bold: true, inverse: true, ..Attribute::default() });
    assert_eq!(apply(&[1, 4, 7, 27]), Attribute { bold: true, underline: true, ..Attribute::default() });
    assert_eq!(apply(&[1, 0, 4]), Attribute { underline: true, ..Attribute::default() });
}

#[test]
fn palette_colours() {
    assert_eq!(apply(&[30]).foreground, Color::Indexed(0));
    assert_eq!(apply(&[31]).foreground, Color::Indexed(1));
    assert_eq!(apply(&[37]).foreground, Color::Indexed(7));
    assert_eq!(apply(&[40]).background, Color::Indexed(0));
    assert_eq!(apply(&[47]).background, Color::Indexed(7));
    assert_eq!(apply(&[90]).foreground, Color::Indexed(8));
    assert_eq!(apply(&[97]).foreground, Color::Indexed(15));
    assert_eq!(apply(&[100]).background, Color::Indexed(8));
    assert_eq!(apply(&[107]).background, Color::Indexed(15));
    assert_eq!(apply(&[31, 39]).foreground, Color::Default);
    assert_eq!(apply(&[41, 49]).background, Color::Default);
    assert_eq!(apply(&[31]).background, Color::Default);
}

#[test]
fn extended_colours() {
    assert_eq!(apply(&[38, 5, 200]).foreground, Color::Indexed(200));
    assert_eq!(apply(&[48, 5, 17]).background, Color::Indexed(17));
    assert_eq!(apply(&[38, 2, 10, 20, 30]).foreground, Color::Rgb(10, 20, 30));
    assert_eq!(apply(&[48, 2, 255, 0, 255]).background, Color::Rgb(255, 0, 255));
    assert_eq!(
        apply(&[38, 5, 1, 1, 48, 2, 1, 2, 3, 4]),
        Attribute {
            foreground: Color::Indexed(1),
            background: Color::Rgb(1, 2, 3),
            bold: true,
            underline: true,
            inverse: false,
        }
    );
}

#[test]
fn an_extended_colour_without_a_colour_ends_the_sequence() {
    assert_eq!(apply(&[1, 38, 5]), Attribute { bold: true, ..Attribute::default() });
    assert_eq!(apply(&[1, 38, 5, 256, 4]), Attribute { bold: true, ..Attribute::default() });
    assert_eq!(apply(&[1, 38, 2, 1, 2]), Attribute { bold: true, ..Attribute::default() });
    assert_eq!(apply(&[1, 48, 2, 1, 2, 300, 4]), Attribute { bold: true, ..Attribute::default() });
    assert_eq!(apply(&[1, 38, 9, 4]), Attribute { bold: true, ..Attribute::default() });
    assert_eq!(apply(&[38]), Attribute::default());
}

#[test]
fn unknown_codes_change_nothing() {
    assert_eq!(apply(&[2, 3, 5, 8, 9, 38_000, 108, 98, 48_000]), Attribute::default());
    assert_eq!(apply(&[99, 1]), Attribute { bold: true, ..Attribute::default() });
}
