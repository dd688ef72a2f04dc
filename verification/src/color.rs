//! The colours Todoist offers for projects, labels and filters.
//!
//! Each colour has a canonical string form used by the API, and a legacy
//! numeric ID in the range 30 to 49.

use vstd::prelude::*;
use crate::strutil::str_eq;

verus! {

/// The available colours for Todoist projects, labels and filters.
#[derive(Debug, Clone, Copy, PartialEq, Eq, Structural)]
pub enum Color {
    BerryRed,
    Red,
    Orange,
    Yellow,
    OliveGreen,
    LimeGreen,
    Green,
    MintGreen,
    Teal,
    SkyBlue,
    LightBlue,
    Blue,
    Grape,
    Violet,
    Lavender,
    Magenta,
    Salmon,
    Charcoal,
    Grey,
    Taupe,
}

/// The canonical API string for each colour.
pub open spec fn spec_color_str(c: Color) -> Seq<char> {
    match c {
        Color::BerryRed => "berry_red"@,
        Color::Red => "red"@,
        Color::Orange => "orange"@,
        Color::Yellow => "yellow"@,
        Color::OliveGreen => "olive_green"@,
        Color::LimeGreen => "lime_green"@,
        Color::Green => "green"@,
        Color::MintGreen => "mint_green"@,
        Color::Teal => "teal"@,
        Color::SkyBlue => "sky_blue"@,
        Color::LightBlue => "light_blue"@,
        Color::Blue => "blue"@,
        Color::Grape => "grape"@,
        Color::Violet => "violet"@,
        Color::Lavender => "lavender"@,
        Color::Magenta => "magenta"@,
        Color::Salmon => "salmon"@,
        Color::Charcoal => "charcoal"@,
        Color::Grey => "grey"@,
        Color::Taupe => "taupe"@,
    }
}

/// The colour denoted by an API string, or `None` for an unrecognized string.
pub open spec fn spec_color_from_str(s: Seq<char>) -> Option<Color> {
    if s == "berry_red"@ {
        Some(Color::BerryRed)
    } else if s == "red"@ {
        Some(Color::Red)
    } else if s == "orange"@ {
        Some(Color::Orange)
    } else if s == "yellow"@ {
        Some(Color::Yellow)
    } else if s == "olive_green"@ {
        Some(Color::OliveGreen)
    } else if s == "lime_green"@ {
        Some(Color::LimeGreen)
    } else if s == "green"@ {
        Some(Color::Green)
    } else if s == "mint_green"@ {
        Some(Color::MintGreen)
    } else if s == "teal"@ {
        Some(Color::Teal)
    } else if s == "sky_blue"@ {
        Some(Color::SkyBlue)
    } else if s == "light_blue"@ {
        Some(Color::LightBlue)
    } else if s == "blue"@ {
        Some(Color::Blue)
    } else if s == "grape"@ {
        Some(Color::Grape)
    } else if s == "violet"@ {
        Some(Color::Violet)
    } else if s == "lavender"@ {
        Some(Color::Lavender)
    } else if s == "magenta"@ {
        Some(Color::Magenta)
    } else if s == "salmon"@ {
        Some(Color::Salmon)
    } else if s == "charcoal"@ {
        Some(Color::Charcoal)
    } else if s == "grey"@ {
        Some(Color::Grey)
    } else if s == "taupe"@ {
        Some(Color::Taupe)
    } else {
        None
    }
}

/// The colour with the given legacy numeric ID, defined exactly for IDs
/// 30 to 49 inclusive.
pub open spec fn spec_color_from_id(id: u8) -> Option<Color> {
    match id {
        30u8 => Some(Color::BerryRed),
        31u8 => Some(Color::Red),
        32u8 => Some(Color::Orange),
        33u8 => Some(Color::Yellow),
        34u8 => Some(Color::OliveGreen),
        35u8 => Some(Color::LimeGreen),
        36u8 => Some(Color::Green),
        37u8 => Some(Color::MintGreen),
        38u8 => Some(Color::Teal),
        39u8 => Some(Color::SkyBlue),
        40u8 => Some(Color::LightBlue),
        41u8 => Some(Color::Blue),
        42u8 => Some(Color::Grape),
        43u8 => Some(Color::Violet),
        44u8 => Some(Color::Lavender),
        45u8 => Some(Color::Magenta),
        46u8 => Some(Color::Salmon),
        47u8 => Some(Color::Charcoal),
        48u8 => Some(Color::Grey),
        49u8 => Some(Color::Taupe),
        _ => None,
    }
}

impl Color {
    /// Return a colour from its legacy numeric ID, or `None` if the ID is
    /// outside the range 30 to 49.
    pub fn from_id(id: u8) -> (r: Option<Color>)
        ensures
            r == spec_color_from_id(id),
            (30 <= id <= 49) <==> r is Some,
    {
        match id {
            30 => Some(Color::BerryRed),
            31 => Some(Color::Red),
            32 => Some(Color::Orange),
            33 => Some(Color::Yellow),
            34 => Some(Color::OliveGreen),
            35 => Some(Color::LimeGreen),
            36 => Some(Color::Green),
            37 => Some(Color::MintGreen),
            38 => Some(Color::Teal),
            39 => Some(Color::SkyBlue),
            40 => Some(Color::LightBlue),
            41 => Some(Color::Blue),
            42 => Some(Color::Grape),
            43 => Some(Color::Violet),
            44 => Some(Color::Lavender),
            45 => Some(Color::Magenta),
            46 => Some(Color::Salmon),
            47 => Some(Color::Charcoal),
            48 => Some(Color::Grey),
            49 => Some(Color::Taupe),
            _ => None,
        }
    }

    /// Return the string which represents this colour in the Todoist API.
    pub fn to_str(&self) -> (r: &str)
        ensures
            r@ == spec_color_str(*self),
    {
        match self {
            Color::BerryRed => "berry_red",
            Color::Red => "red",
            Color::Orange => "orange",
            Color::Yellow => "yellow",
            Color::OliveGreen => "olive_green",
            Color::LimeGreen => "lime_green",
            Color::Green => "green",
            Color::MintGreen => "mint_green",
            Color::Teal => "teal",
            Color::SkyBlue => "sky_blue",
            Color::LightBlue => "light_blue",
            Color::Blue => "blue",
            Color::Grape => "grape",
            Color::Violet => "violet",
            Color::Lavender => "lavender",
            Color::Magenta => "magenta",
            Color::Salmon => "salmon",
            Color::Charcoal => "charcoal",
            Color::Grey => "grey",
            Color::Taupe => "taupe",
        }
    }

    /// Return the colour corresponding to an API string, or `None` for an
    /// unrecognized string.
    pub fn from_str(s: &str) -> (r: Option<Color>)
        ensures
            r == spec_color_from_str(s@),
    {
        if str_eq(s, "berry_red") {
            Some(Color::BerryRed)
        } else if str_eq(s, "red") {
            Some(Color::Red)
        } else if str_eq(s, "orange") {
            Some(Color::Orange)
        } else if str_eq(s, "yellow") {
            Some(Color::Yellow)
        } else if str_eq(s, "olive_green") {
            Some(Color::OliveGreen)
        } else if str_eq(s, "lime_green") {
            Some(Color::LimeGreen)
        } else if str_eq(s, "green") {
            Some(Color::Green)
        } else if str_eq(s, "mint_green") {
            Some(Color::MintGreen)
        } else if str_eq(s, "teal") {
            Some(Color::Teal)
        } else if str_eq(s, "sky_blue") {
            Some(Color::SkyBlue)
        } else if str_eq(s, "light_blue") {
            Some(Color::LightBlue)
        } else if str_eq(s, "blue") {
            Some(Color::Blue)
        } else if str_eq(s, "grape") {
            Some(Color::Grape)
        } else if str_eq(s, "violet") {
            Some(Color::Violet)
        } else if str_eq(s, "lavender") {
            Some(Color::Lavender)
        } else if str_eq(s, "magenta") {
            Some(Color::Magenta)
        } else if str_eq(s, "salmon") {
            Some(Color::Salmon)
        } else if str_eq(s, "charcoal") {
            Some(Color::Charcoal)
        } else if str_eq(s, "grey") {
            Some(Color::Grey)
        } else if str_eq(s, "taupe") {
            Some(Color::Taupe)
        } else {
            None
        }
    }
}

/// Law: converting any colour to its API string and back recovers the same
/// colour, and an unrecognized string never yields a colour.
pub proof fn lemma_color_round_trip(c: Color)
    ensures
        spec_color_from_str(spec_color_str(c)) == Some(c),
{
    reveal_strlit("berry_red");
    reveal_strlit("red");
    reveal_strlit("orange");
    reveal_strlit("yellow");
    reveal_strlit("olive_green");
    reveal_strlit("lime_green");
    reveal_strlit("green");
    reveal_strlit("mint_green");
    reveal_strlit("teal");
    reveal_strlit("sky_blue");
    reveal_strlit("light_blue");
    reveal_strlit("blue");
    reveal_strlit("grape");
    reveal_strlit("violet");
    reveal_strlit("lavender");
    reveal_strlit("magenta");
    reveal_strlit("salmon");
    reveal_strlit("charcoal");
    reveal_strlit("grey");
    reveal_strlit("taupe");
    assert("berry_red"@.len() == 9);
    assert("red"@.len() == 3);
    assert("orange"@.len() == 6);
    assert("yellow"@.len() == 6);
    assert("olive_green"@.len() == 11);
    assert("lime_green"@.len() == 10);
    assert("green"@.len() == 5);
    assert("mint_green"@.len() == 10);
    assert("teal"@.len() == 4);
    assert("sky_blue"@.len() == 8);
    assert("light_blue"@.len() == 10);
    assert("blue"@.len() == 4);
    assert("grape"@.len() == 5);
    assert("violet"@.len() == 6);
    assert("lavender"@.len() == 8);
    assert("magenta"@.len() == 7);
    assert("salmon"@.len() == 6);
    assert("charcoal"@.len() == 8);
    assert("grey"@.len() == 4);
    assert("taupe"@.len() == 5);
    assert("berry_red"@[0] == 'b');
    assert("red"@[0] == 'r');
    assert("orange"@[0] == 'o');
    assert("yellow"@[0] == 'y');
    assert("olive_green"@[0] == 'o');
    assert("lime_green"@[0] == 'l');
    assert("green"@[0] == 'g');
    assert("mint_green"@[0] == 'm');
    assert("teal"@[0] == 't');
    assert("sky_blue"@[0] == 's');
    assert("light_blue"@[0] == 'l');
    assert("blue"@[0] == 'b');
    assert("grape"@[0] == 'g');
    assert("violet"@[0] == 'v');
    assert("lavender"@[0] == 'l');
    assert("magenta"@[0] == 'm');
    assert("salmon"@[0] == 's');
    assert("charcoal"@[0] == 'c');
    assert("grey"@[0] == 'g');
    assert("taupe"@[0] == 't');
    assert("green"@[2] == 'e');
    assert("grape"@[2] == 'a');
    assert("grey"@[2] == 'e');
    assert("lime_green"@[2] == 'm');
    assert("light_blue"@[2] == 'g');
}

/// Law: `from_id` is defined exactly for IDs 30 to 49, and maps distinct IDs
/// in that range to distinct colours.
pub proof fn lemma_color_from_id_bijective(i: u8, j: u8)
    ensures
        (30 <= i <= 49) <==> spec_color_from_id(i) is Some,
        (30 <= i <= 49 && 30 <= j <= 49 && i != j) ==> spec_color_from_id(i)
            != spec_color_from_id(j),
{
}

/// Law: `from_id` recovers exactly the colour whose string form round-trips:
/// the ID range 30 to 49 maps onto all twenty colours.
pub proof fn lemma_color_from_id_onto(c: Color)
    ensures
        exists|id: u8| 30 <= id <= 49 && spec_color_from_id(id) == Some(c),
{
    match c {
        Color::BerryRed => assert(spec_color_from_id(30) == Some(c)),
        Color::Red => assert(spec_color_from_id(31) == Some(c)),
        Color::Orange => assert(spec_color_from_id(32) == Some(c)),
        Color::Yellow => assert(spec_color_from_id(33) == Some(c)),
        Color::OliveGreen => assert(spec_color_from_id(34) == Some(c)),
        Color::LimeGreen => assert(spec_color_from_id(35) == Some(c)),
        Color::Green => assert(spec_color_from_id(36) == Some(c)),
        Color::MintGreen => assert(spec_color_from_id(37) == Some(c)),
        Color::Teal => assert(spec_color_from_id(38) == Some(c)),
        Color::SkyBlue => assert(spec_color_from_id(39) == Some(c)),
        Color::LightBlue => assert(spec_color_from_id(40) == Some(c)),
        Color::Blue => assert(spec_color_from_id(41) == Some(c)),
        Color::Grape => assert(spec_color_from_id(42) == Some(c)),
        Color::Violet => assert(spec_color_from_id(43) == Some(c)),
        Color::Lavender => assert(spec_color_from_id(44) == Some(c)),
        Color::Magenta => assert(spec_color_from_id(45) == Some(c)),
        Color::Salmon => assert(spec_color_from_id(46) == Some(c)),
        Color::Charcoal => assert(spec_color_from_id(47) == Some(c)),
        Color::Grey => assert(spec_color_from_id(48) == Some(c)),
        Color::Taupe => assert(spec_color_from_id(49) == Some(c)),
    }
}

} // verus!
