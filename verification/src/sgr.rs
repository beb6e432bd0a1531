//! Select Graphic Rendition: how the parameters of an `m` control sequence
//! change the write attribute.

use vstd::prelude::*;
use crate::cell::{Attribute, Color, default_attribute};

verus! {

/// The effect of one rendition code that stands alone. Codes that this
/// terminal does not render leave the attribute as it is.
pub open spec fn apply_code(attribute: Attribute, code: u16) -> Attribute {
    if code == 0 {
        default_attribute()
    } else if code == 1 {
        Attribute { bold: true, ..attribute }
    } else if code == 4 {
        Attribute { underline: true, ..attribute }
    } else if code == 7 {
        Attribute { inverse: true, ..attribute }
    } else if code == 22 {
        Attribute { bold: false, ..attribute }
    } else if code == 24 {
        Attribute { underline: false, ..attribute }
    } else if code == 27 {
        Attribute { inverse: false, ..attribute }
    } else if 30 <= code <= 37 {
        Attribute { foreground: Color::Indexed((code - 30) as u8), ..attribute }
    } else if code == 39 {
        Attribute { foreground: Color::Default, ..attribute }
    } else if 40 <= code <= 47 {
        Attribute { background: Color::Indexed((code - 40) as u8), ..attribute }
    } else if code == 49 {
        Attribute { background: Color::Default, ..attribute }
    } else if 90 <= code <= 97 {
        Attribute { foreground: Color::Indexed((code - 90 + 8) as u8), ..attribute }
    } else if 100 <= code <= 107 {
        Attribute { background: Color::Indexed((code - 100 + 8) as u8), ..attribute }
    } else {
        attribute
    }
}

/// The colour that the parameters after an extended-colour code (38 or 48
/// at place `i`) name, with the number of parameters that the whole colour
/// takes: `5;n` names palette entry `n`, `2;r;g;b` a direct colour. `None`
/// where the parameters name no colour.
pub open spec fn extended_color(params: Seq<u16>, i: int) -> Option<(Color, int)> {
    if i + 2 < params.len() && params[i + 1] == 5 && params[i + 2] <= 255 {
        Some((Color::Indexed(params[i + 2] as u8), 3))
    } else if i + 4 < params.len() && params[i + 1] == 2 && params[i + 2] <= 255 && params[i + 3]
        <= 255 && params[i + 4] <= 255 {
        Some((Color::Rgb(params[i + 2] as u8, params[i + 3] as u8, params[i + 4] as u8), 5))
    } else {
        None
    }
}

/// Sets the colour that code 38 (foreground) or 48 (background) selects.
pub open spec fn with_color(attribute: Attribute, code: u16, color: Color) -> Attribute {
    if code == 38 {
        Attribute { foreground: color, ..attribute }
    } else {
        Attribute { background: color, ..attribute }
    }
}

/// Applies the parameters from place `i` on, in order. An extended-colour
/// code whose parameters name no colour ends the sequence there.
pub open spec fn apply_from(attribute: Attribute, params: Seq<u16>, i: int) -> Attribute
    decreases params.len() - i,
{
    if i < 0 || i >= params.len() {
        attribute
    } else if params[i] == 38 || params[i] == 48 {
        match extended_color(params, i) {
            Some((color, used)) => apply_from(
                with_color(attribute, params[i], color),
                params,
                i + used,
            ),
            None => attribute,
        }
    } else {
        apply_from(apply_code(attribute, params[i]), params, i + 1)
    }
}

/// The attribute after an `m` sequence with these parameters. Without
/// parameters the sequence resets the attribute, as the code 0 does.
pub open spec fn apply(attribute: Attribute, params: Seq<u16>) -> Attribute {
    if params.len() == 0 {
        default_attribute()
    } else {
        apply_from(attribute, params, 0)
    }
}

fn code_effect(attribute: Attribute, code: u16) -> (changed: Attribute)
    ensures
        changed == apply_code(attribute, code),
{
    let mut changed = attribute;
    if code == 0 {
        changed = Attribute::default();
    } else if code == 1 {
        changed.bold = true;
    } else if code == 4 {
        changed.underline = true;
    } else if code == 7 {
        changed.inverse = true;
    } else if code == 22 {
        changed.bold = false;
    } else if code == 24 {
        changed.underline = false;
    } else if code == 27 {
        changed.inverse = false;
    } else if 30 <= code && code <= 37 {
        changed.foreground = Color::Indexed((code - 30) as u8);
    } else if code == 39 {
        changed.foreground = Color::Default;
    } else if 40 <= code && code <= 47 {
        changed.background = Color::Indexed((code - 40) as u8);
    } else if code == 49 {
        changed.background = Color::Default;
    } else if 90 <= code && code <= 97 {
        changed.foreground = Color::Indexed((code - 90 + 8) as u8);
    } else if 100 <= code && code <= 107 {
        changed.background = Color::Indexed((code - 100 + 8) as u8);
    }
    changed
}

fn read_extended_color(params: &Vec<u16>, i: usize) -> (found: Option<(Color, usize)>)
    requires
        i < params.len(),
    ensures
        match found {
            Some((color, used)) => extended_color(params@, i as int) == Some((color, used as int))
                && i + used <= params.len(),
            None => extended_color(params@, i as int) is None,
        },
{
    let n = params.len();
    if n - i > 2 && params[i + 1] == 5 && params[i + 2] <= 255 {
        Some((Color::Indexed(params[i + 2] as u8), 3))
    } else if n - i > 4 && params[i + 1] == 2 && params[i + 2] <= 255 && params[i + 3] <= 255
        && params[i + 4] <= 255 {
        Some((Color::Rgb(params[i + 2] as u8, params[i + 3] as u8, params[i + 4] as u8), 5))
    } else {
        None
    }
}

/// The attribute after an `m` control sequence with the given parameters,
/// an omitted parameter standing as 0.
pub fn select_graphic_rendition(attribute: Attribute, params: &Vec<u16>) -> (changed: Attribute)
    ensures
        changed == apply(attribute, params@),
{
    if params.len() == 0 {
        return Attribute::default();
    }
    let mut changed = attribute;
    let mut i: usize = 0;
    while i < params.len()
        invariant
            i <= params.len(),
            apply_from(changed, params@, i as int) == apply_from(attribute, params@, 0),
        decreases params.len() - i,
    {
        let code = params[i];
        if code == 38 || code == 48 {
            match read_extended_color(params, i) {
                Some((color, used)) => {
                    if code == 38 {
                        changed.foreground = color;
                    } else {
                        changed.background = color;
                    }
                    i = i + used;
                },
                None => {
                    return changed;
                },
            }
        } else {
            changed = code_effect(changed, code);
            i = i + 1;
        }
    }
    changed
}

/// An `m` sequence with the single parameter 0, or none, resets the
/// attribute whatever it was.
pub proof fn lemma_reset(attribute: Attribute)
    ensures
        apply(attribute, Seq::empty()) == default_attribute(),
        apply(attribute, seq![0u16]) == default_attribute(),
{
    reveal_with_fuel(apply_from, 2);
}

/// The codes 30 to 37 select the palette entries 0 to 7 as foreground and
/// change nothing else.
pub proof fn lemma_foreground(attribute: Attribute, code: u16)
    requires
        30 <= code <= 37,
    ensures
        apply(attribute, seq![code]) == (Attribute {
            foreground: Color::Indexed((code - 30) as u8),
            ..attribute
        }),
{
    reveal_with_fuel(apply_from, 2);
}

} // verus!
