//! The sixteen colors of the legacy formatting system.

use vstd::prelude::*;

verus! {

/// Various colors that a span can have.
#[derive(Debug, Copy, Clone, PartialEq, Eq, Structural, Hash, PartialOrd, Ord)]
pub enum Color {
    Black,
    DarkBlue,
    DarkGreen,
    DarkAqua,
    DarkRed,
    DarkPurple,
    Gold,
    Gray,
    DarkGray,
    Blue,
    Green,
    Aqua,
    Red,
    LightPurple,
    Yellow,
    White,
}

impl Color {
    /// The color that a formatting code character selects, if any.
    ///
    /// The digits select the first ten colors and the letters `a` to `f` the
    /// last six, in either case.
    pub open spec fn spec_from_char(c: char) -> Option<Color> {
        if c == '0' {
            Some(Color::Black)
        } else if c == '1' {
            Some(Color::DarkBlue)
        } else if c == '2' {
            Some(Color::DarkGreen)
        } else if c == '3' {
            Some(Color::DarkAqua)
        } else if c == '4' {
            Some(Color::DarkRed)
        } else if c == '5' {
            Some(Color::DarkPurple)
        } else if c == '6' {
            Some(Color::Gold)
        } else if c == '7' {
            Some(Color::Gray)
        } else if c == '8' {
            Some(Color::DarkGray)
        } else if c == '9' {
            Some(Color::Blue)
        } else if c == 'a' || c == 'A' {
            Some(Color::Green)
        } else if c == 'b' || c == 'B' {
            Some(Color::Aqua)
        } else if c == 'c' || c == 'C' {
            Some(Color::Red)
        } else if c == 'd' || c == 'D' {
            Some(Color::LightPurple)
        } else if c == 'e' || c == 'E' {
            Some(Color::Yellow)
        } else if c == 'f' || c == 'F' {
            Some(Color::White)
        } else {
            None
        }
    }

    /// Map a `char` to a `Color`.
    ///
    /// Returns `None` if `c` didn't map to a `Color`.
    pub fn from_char(c: char) -> (r: Option<Color>)
        ensures
            r == Color::spec_from_char(c),
    {
        match c {
            '0' => Some(Color::Black),
            '1' => Some(Color::DarkBlue),
            '2' => Some(Color::DarkGreen),
            '3' => Some(Color::DarkAqua),
            '4' => Some(Color::DarkRed),
            '5' => Some(Color::DarkPurple),
            '6' => Some(Color::Gold),
            '7' => Some(Color::Gray),
            '8' => Some(Color::DarkGray),
            '9' => Some(Color::Blue),
            // The vanilla client accepts lower or uppercase interchangeably
            'a' | 'A' => Some(Color::Green),
            'b' | 'B' => Some(Color::Aqua),
            'c' | 'C' => Some(Color::Red),
            'd' | 'D' => Some(Color::LightPurple),
            'e' | 'E' => Some(Color::Yellow),
            'f' | 'F' => Some(Color::White),
            _ => None,
        }
    }

    /// The character that selects this color behind a start character: a
    /// digit, or a lower-case letter from `a` to `f`.
    pub open spec fn spec_code(self) -> char {
        match self {
            Color::Black => '0',
            Color::DarkBlue => '1',
            Color::DarkGreen => '2',
            Color::DarkAqua => '3',
            Color::DarkRed => '4',
            Color::DarkPurple => '5',
            Color::Gold => '6',
            Color::Gray => '7',
            Color::DarkGray => '8',
            Color::Blue => '9',
            Color::Green => 'a',
            Color::Aqua => 'b',
            Color::Red => 'c',
            Color::LightPurple => 'd',
            Color::Yellow => 'e',
            Color::White => 'f',
        }
    }

    /// The formatting code character of this color, as a string.
    pub fn code(&self) -> (r: &'static str)
        ensures
            r@ == seq![self.spec_code()],
    {
        match self {
            Color::Black => {
                proof {
                    reveal_strlit("0");
                }
                "0"
            },
            Color::DarkBlue => {
                proof {
                    reveal_strlit("1");
                }
                "1"
            },
            Color::DarkGreen => {
                proof {
                    reveal_strlit("2");
                }
                "2"
            },
            Color::DarkAqua => {
                proof {
                    reveal_strlit("3");
                }
                "3"
            },
            Color::DarkRed => {
                proof {
                    reveal_strlit("4");
                }
                "4"
            },
            Color::DarkPurple => {
                proof {
                    reveal_strlit("5");
                }
                "5"
            },
            Color::Gold => {
                proof {
                    reveal_strlit("6");
                }
                "6"
            },
            Color::Gray => {
                proof {
                    reveal_strlit("7");
                }
                "7"
            },
            Color::DarkGray => {
                proof {
                    reveal_strlit("8");
                }
                "8"
            },
            Color::Blue => {
                proof {
                    reveal_strlit("9");
                }
                "9"
            },
            Color::Green => {
                proof {
                    reveal_strlit("a");
                }
                "a"
            },
            Color::Aqua => {
                proof {
                    reveal_strlit("b");
                }
                "b"
            },
            Color::Red => {
                proof {
                    reveal_strlit("c");
                }
                "c"
            },
            Color::LightPurple => {
                proof {
                    reveal_strlit("d");
                }
                "d"
            },
            Color::Yellow => {
                proof {
                    reveal_strlit("e");
                }
                "e"
            },
            Color::White => {
                proof {
                    reveal_strlit("f");
                }
                "f"
            },
        }
    }

    /// The name of this color in source text.
    pub open spec fn spec_ident(self) -> Seq<char> {
        match self {
            Color::Black => "Black"@,
            Color::DarkBlue => "DarkBlue"@,
            Color::DarkGreen => "DarkGreen"@,
            Color::DarkAqua => "DarkAqua"@,
            Color::DarkRed => "DarkRed"@,
            Color::DarkPurple => "DarkPurple"@,
            Color::Gold => "Gold"@,
            Color::Gray => "Gray"@,
            Color::DarkGray => "DarkGray"@,
            Color::Blue => "Blue"@,
            Color::Green => "Green"@,
            Color::Aqua => "Aqua"@,
            Color::Red => "Red"@,
            Color::LightPurple => "LightPurple"@,
            Color::Yellow => "Yellow"@,
            Color::White => "White"@,
        }
    }

    /// The name of this color in source text.
    pub fn ident(&self) -> (r: &'static str)
        ensures
            r@ == self.spec_ident(),
    {
        match self {
            Color::Black => "Black",
            Color::DarkBlue => "DarkBlue",
            Color::DarkGreen => "DarkGreen",
            Color::DarkAqua => "DarkAqua",
            Color::DarkRed => "DarkRed",
            Color::DarkPurple => "DarkPurple",
            Color::Gold => "Gold",
            Color::Gray => "Gray",
            Color::DarkGray => "DarkGray",
            Color::Blue => "Blue",
            Color::Green => "Green",
            Color::Aqua => "Aqua",
            Color::Red => "Red",
            Color::LightPurple => "LightPurple",
            Color::Yellow => "Yellow",
            Color::White => "White",
        }
    }

    /// The name of this color as it is shown to a user.
    pub open spec fn spec_name(self) -> Seq<char> {
        match self {
            Color::Black => "Black"@,
            Color::DarkBlue => "Dark blue"@,
            Color::DarkGreen => "Dark green"@,
            Color::DarkAqua => "Dark cyan"@,
            Color::DarkRed => "Dark red"@,
            Color::DarkPurple => "Purple"@,
            Color::Gold => "Gold"@,
            Color::Gray => "Gray"@,
            Color::DarkGray => "Dark gray"@,
            Color::Blue => "Blue"@,
            Color::Green => "Bright green"@,
            Color::Aqua => "Cyan"@,
            Color::Red => "Red"@,
            Color::LightPurple => "Pink"@,
            Color::Yellow => "Yellow"@,
            Color::White => "White"@,
        }
    }

    /// The name of this color as it is shown to a user.
    pub fn name(&self) -> (r: &'static str)
        ensures
            r@ == self.spec_name(),
    {
        match self {
            Color::Black => "Black",
            Color::DarkBlue => "Dark blue",
            Color::DarkGreen => "Dark green",
            Color::DarkAqua => "Dark cyan",
            Color::DarkRed => "Dark red",
            Color::DarkPurple => "Purple",
            Color::Gold => "Gold",
            Color::Gray => "Gray",
            Color::DarkGray => "Dark gray",
            Color::Blue => "Blue",
            Color::Green => "Bright green",
            Color::Aqua => "Cyan",
            Color::Red => "Red",
            Color::LightPurple => "Pink",
            Color::Yellow => "Yellow",
            Color::White => "White",
        }
    }

    /// The red, green and blue parts of this color as foreground.
    pub open spec fn spec_foreground_rgb(self) -> (u8, u8, u8) {
        match self {
            Color::Black => (0, 0, 0),
            Color::DarkBlue => (0, 0, 170),
            Color::DarkGreen => (0, 170, 0),
            Color::DarkAqua => (0, 170, 170),
            Color::DarkRed => (170, 0, 0),
            Color::DarkPurple => (170, 0, 170),
            Color::Gold => (255, 170, 0),
            Color::Gray => (170, 170, 170),
            Color::DarkGray => (85, 85, 85),
            Color::Blue => (85, 85, 255),
            Color::Green => (85, 255, 85),
            Color::Aqua => (85, 255, 255),
            Color::Red => (255, 85, 85),
            Color::LightPurple => (255, 85, 255),
            Color::Yellow => (255, 255, 85),
            Color::White => (255, 255, 255),
        }
    }

    /// The red, green and blue parts of this color as background: a darker
    /// shade of the foreground.
    pub open spec fn spec_background_rgb(self) -> (u8, u8, u8) {
        match self {
            Color::Black => (0, 0, 0),
            Color::DarkBlue => (0, 0, 42),
            Color::DarkGreen => (0, 42, 0),
            Color::DarkAqua => (0, 42, 42),
            Color::DarkRed => (42, 0, 0),
            Color::DarkPurple => (42, 0, 42),
            Color::Gold => (42, 42, 0),
            Color::Gray => (42, 42, 42),
            Color::DarkGray => (21, 21, 21),
            Color::Blue => (21, 21, 63),
            Color::Green => (21, 63, 21),
            Color::Aqua => (21, 63, 63),
            Color::Red => (63, 21, 21),
            Color::LightPurple => (63, 21, 63),
            Color::Yellow => (63, 63, 21),
            Color::White => (63, 63, 63),
        }
    }

    /// Get the correct foreground RGB color values for a given color
    ///
    /// Returns (red, green, blue)
    pub fn foreground_rgb(&self) -> (r: (u8, u8, u8))
        ensures
            r == self.spec_foreground_rgb(),
    {
        match self {
            Color::Black => (0, 0, 0),
            Color::DarkBlue => (0, 0, 170),
            Color::DarkGreen => (0, 170, 0),
            Color::DarkAqua => (0, 170, 170),
            Color::DarkRed => (170, 0, 0),
            Color::DarkPurple => (170, 0, 170),
            Color::Gold => (255, 170, 0),
            Color::Gray => (170, 170, 170),
            Color::DarkGray => (85, 85, 85),
            Color::Blue => (85, 85, 255),
            Color::Green => (85, 255, 85),
            Color::Aqua => (85, 255, 255),
            Color::Red => (255, 85, 85),
            Color::LightPurple => (255, 85, 255),
            Color::Yellow => (255, 255, 85),
            Color::White => (255, 255, 255),
        }
    }

    /// Get the correct background RGB color values for a given color
    ///
    /// Returns (red, green, blue)
    pub fn background_rgb(&self) -> (r: (u8, u8, u8))
        ensures
            r == self.spec_background_rgb(),
    {
        match self {
            Color::Black => (0, 0, 0),
            Color::DarkBlue => (0, 0, 42),
            Color::DarkGreen => (0, 42, 0),
            Color::DarkAqua => (0, 42, 42),
            Color::DarkRed => (42, 0, 0),
            Color::DarkPurple => (42, 0, 42),
            Color::Gold => (42, 42, 0),
            Color::Gray => (42, 42, 42),
            Color::DarkGray => (21, 21, 21),
            Color::Blue => (21, 21, 63),
            Color::Green => (21, 63, 21),
            Color::Aqua => (21, 63, 63),
            Color::Red => (63, 21, 21),
            Color::LightPurple => (63, 21, 63),
            Color::Yellow => (63, 63, 21),
            Color::White => (63, 63, 63),
        }
    }

    /// Get the correct foreground hex color string for a given color: a `#`
    /// and the two lower-case hex digits of each part of the foreground.
    pub fn foreground_hex_str(&self) -> (r: &'static str)
        ensures
            r@ == hex_color(self.spec_foreground_rgb()),
    {
        match self {
            Color::Black => {
                proof {
                    reveal_strlit("#000000");
                }
                "#000000"
            },
            Color::DarkBlue => {
                proof {
                    reveal_strlit("#0000aa");
                }
                "#0000aa"
            },
            Color::DarkGreen => {
                proof {
                    reveal_strlit("#00aa00");
                }
                "#00aa00"
            },
            Color::DarkAqua => {
                proof {
                    reveal_strlit("#00aaaa");
                }
                "#00aaaa"
            },
            Color::DarkRed => {
                proof {
                    reveal_strlit("#aa0000");
                }
                "#aa0000"
            },
            Color::DarkPurple => {
                proof {
                    reveal_strlit("#aa00aa");
                }
                "#aa00aa"
            },
            Color::Gold => {
                proof {
                    reveal_strlit("#ffaa00");
                }
                "#ffaa00"
            },
            Color::Gray => {
                proof {
                    reveal_strlit("#aaaaaa");
                }
                "#aaaaaa"
            },
            Color::DarkGray => {
                proof {
                    reveal_strlit("#555555");
                }
                "#555555"
            },
            Color::Blue => {
                proof {
                    reveal_strlit("#5555ff");
                }
                "#5555ff"
            },
            Color::Green => {
                proof {
                    reveal_strlit("#55ff55");
                }
                "#55ff55"
            },
            Color::Aqua => {
                proof {
                    reveal_strlit("#55ffff");
                }
                "#55ffff"
            },
            Color::Red => {
                proof {
                    reveal_strlit("#ff5555");
                }
                "#ff5555"
            },
            Color::LightPurple => {
                proof {
                    reveal_strlit("#ff55ff");
                }
                "#ff55ff"
            },
            Color::Yellow => {
                proof {
                    reveal_strlit("#ffff55");
                }
                "#ffff55"
            },
            Color::White => {
                proof {
                    reveal_strlit("#ffffff");
                }
                "#ffffff"
            },
        }
    }

    /// Get the correct background hex color string for a given color: a `#`
    /// and the two lower-case hex digits of each part of the background.
    pub fn background_hex_str(&self) -> (r: &'static str)
        ensures
            r@ == hex_color(self.spec_background_rgb()),
    {
        match self {
            Color::Black => {
                proof {
                    reveal_strlit("#000000");
                }
                "#000000"
            },
            Color::DarkBlue => {
                proof {
                    reveal_strlit("#00002a");
                }
                "#00002a"
            },
            Color::DarkGreen => {
                proof {
                    reveal_strlit("#002a00");
                }
                "#002a00"
            },
            Color::DarkAqua => {
                proof {
                    reveal_strlit("#002a2a");
                }
                "#002a2a"
            },
            Color::DarkRed => {
                proof {
                    reveal_strlit("#2a0000");
                }
                "#2a0000"
            },
            Color::DarkPurple => {
                proof {
                    reveal_strlit("#2a002a");
                }
                "#2a002a"
            },
            Color::Gold => {
                proof {
                    reveal_strlit("#2a2a00");
                }
                "#2a2a00"
            },
            Color::Gray => {
                proof {
                    reveal_strlit("#2a2a2a");
                }
                "#2a2a2a"
            },
            Color::DarkGray => {
                proof {
                    reveal_strlit("#151515");
                }
                "#151515"
            },
            Color::Blue => {
                proof {
                    reveal_strlit("#15153f");
                }
                "#15153f"
            },
            Color::Green => {
                proof {
                    reveal_strlit("#153f15");
                }
                "#153f15"
            },
            Color::Aqua => {
                proof {
                    reveal_strlit("#153f3f");
                }
                "#153f3f"
            },
            Color::Red => {
                proof {
                    reveal_strlit("#3f1515");
                }
                "#3f1515"
            },
            Color::LightPurple => {
                proof {
                    reveal_strlit("#3f153f");
                }
                "#3f153f"
            },
            Color::Yellow => {
                proof {
                    reveal_strlit("#3f3f15");
                }
                "#3f3f15"
            },
            Color::White => {
                proof {
                    reveal_strlit("#3f3f3f");
                }
                "#3f3f3f"
            },
        }
    }
}

/// The lower-case hex digit for a value below sixteen.
pub open spec fn hex_digit(v: int) -> char {
    if v == 0 {
        '0'
    } else if v == 1 {
        '1'
    } else if v == 2 {
        '2'
    } else if v == 3 {
        '3'
    } else if v == 4 {
        '4'
    } else if v == 5 {
        '5'
    } else if v == 6 {
        '6'
    } else if v == 7 {
        '7'
    } else if v == 8 {
        '8'
    } else if v == 9 {
        '9'
    } else if v == 10 {
        'a'
    } else if v == 11 {
        'b'
    } else if v == 12 {
        'c'
    } else if v == 13 {
        'd'
    } else if v == 14 {
        'e'
    } else {
        'f'
    }
}

/// The way a color is written in hex: a `#`, then two digits each for red,
/// green and blue.
pub open spec fn hex_color(rgb: (u8, u8, u8)) -> Seq<char> {
    seq![
        '#',
        hex_digit(rgb.0 as int / 16),
        hex_digit(rgb.0 as int % 16),
        hex_digit(rgb.1 as int / 16),
        hex_digit(rgb.1 as int % 16),
        hex_digit(rgb.2 as int / 16),
        hex_digit(rgb.2 as int % 16),
    ]
}

impl Default for Color {
    /// White: the color of text in front of which no color code stands.
    fn default() -> (r: Color)
        ensures
            r == Color::White,
    {
        Color::White
    }
}

} // verus!
