//! How a name is shown: which colours it gets by its kind and the user's
//! settings, and how its parts are put together. The colour codes
//! themselves belong to the terminal and come from outside.

use crate::filter::FileKind;
use crate::text::to_chars;
use crate::ColorConfig;
use vstd::prelude::*;
use vstd::string::StringExecFns;

verus! {

/// A colour of 24 bits.
#[derive(Clone, Copy, Debug, PartialEq, Eq, Structural)]
pub struct RgbColor {
    pub red: u8,
    pub green: u8,
    pub blue: u8,
}

/// The value of a hexadecimal digit of either case.
pub open spec fn hex_value(c: char) -> Option<int> {
    if '0' <= c && c <= '9' {
        Some(c as int - '0' as int)
    } else if 'a' <= c && c <= 'f' {
        Some(c as int - 'a' as int + 10)
    } else if 'A' <= c && c <= 'F' {
        Some(c as int - 'A' as int + 10)
    } else {
        None
    }
}

/// The byte that two hexadecimal digits at `at` spell.
pub open spec fn hex_byte(s: Seq<char>, at: int) -> Option<int> {
    match (hex_value(s[at]), hex_value(s[at + 1])) {
        (Some(high), Some(low)) => Some(high * 16 + low),
        _ => None,
    }
}

/// The colour that a text starts with: two hexadecimal digits each of red,
/// green and blue. What follows the six digits is not looked at.
pub open spec fn rgb_of(s: Seq<char>) -> Option<RgbColor> {
    if s.len() >= 6 {
        match (hex_byte(s, 0), hex_byte(s, 2), hex_byte(s, 4)) {
            (Some(red), Some(green), Some(blue)) => Some(
                RgbColor { red: red as u8, green: green as u8, blue: blue as u8 },
            ),
            _ => None,
        }
    } else {
        None
    }
}

fn hex_digit(c: char) -> (r: Option<u8>)
    ensures
        match r {
            Some(v) => hex_value(c) == Some(v as int) && v < 16,
            None => hex_value(c) is None,
        },
{
    if '0' <= c && c <= '9' {
        Some((c as u32 - '0' as u32) as u8)
    } else if 'a' <= c && c <= 'f' {
        Some((c as u32 - 'a' as u32 + 10) as u8)
    } else if 'A' <= c && c <= 'F' {
        Some((c as u32 - 'A' as u32 + 10) as u8)
    } else {
        None
    }
}

fn hex_pair(chars: &Vec<char>, at: usize) -> (r: Option<u8>)
    requires
        at + 2 <= chars.len(),
    ensures
        match r {
            Some(v) => hex_byte(chars@, at as int) == Some(v as int),
            None => hex_byte(chars@, at as int) is None,
        },
{
    match (hex_digit(chars[at]), hex_digit(chars[at + 1])) {
        (Some(high), Some(low)) => Some(high * 16 + low),
        _ => None,
    }
}

impl RgbColor {
    pub fn new(r: u8, g: u8, b: u8) -> (color: RgbColor)
        ensures
            color == (RgbColor { red: r, green: g, blue: b }),
    {
        RgbColor { red: r, green: g, blue: b }
    }

    /// Reads a colour from six hexadecimal digits.
    pub fn from_str(color_string: &str) -> (r: Option<RgbColor>)
        ensures
            r == rgb_of(color_string@),
    {
        let chars = to_chars(color_string);
        if chars.len() < 6 {
            return None;
        }
        match (hex_pair(&chars, 0), hex_pair(&chars, 2), hex_pair(&chars, 4)) {
            (Some(red), Some(green), Some(blue)) => Some(RgbColor { red, green, blue }),
            _ => None,
        }
    }
}

/// A colour to write a text in.
#[derive(Clone, Copy, Debug, PartialEq, Eq, Structural)]
pub enum Paint {
    /// The terminal's own colour.
    Reset,
    Blue,
    Cyan,
    LightRed,
    Magenta,
    Rgb(RgbColor),
}

/// How a name is to be shown.
#[derive(Clone, Copy, Debug, PartialEq, Eq, Structural)]
pub enum NameStyle {
    /// As it is.
    Plain,
    /// The directories that lead to the name in one colour, the name
    /// itself in another.
    Path { parent: Paint, name: Paint },
    /// The whole path in one colour.
    Whole { color: Paint },
}

/// The colour that the settings give, or a default where they give none.
/// `None` where the settings hold a text that is no colour.
pub open spec fn chosen(setting: Option<String>, default: Paint) -> Option<Paint> {
    match setting {
        Some(text) => match rgb_of(text@) {
            Some(color) => Some(Paint::Rgb(color)),
            None => None,
        },
        None => Some(default),
    }
}

/// The colour of names of a kind, as the settings give it or by default:
/// the terminal's own for files, cyan for links, light red for block
/// devices and pipes, magenta for sockets, blue for directories.
pub open spec fn kind_paint(kind: FileKind, config: Option<ColorConfig>) -> Option<Paint> {
    match kind {
        FileKind::File => chosen(
            match config {
                Some(c) => c.file,
                None => None,
            },
            Paint::Reset,
        ),
        FileKind::Link => chosen(
            match config {
                Some(c) => c.symlink,
                None => None,
            },
            Paint::Cyan,
        ),
        FileKind::BlockDevice => chosen(
            match config {
                Some(c) => c.device,
                None => None,
            },
            Paint::LightRed,
        ),
        FileKind::Fifo => chosen(
            match config {
                Some(c) => c.fifo,
                None => None,
            },
            Paint::LightRed,
        ),
        FileKind::Socket => chosen(
            match config {
                Some(c) => c.socket,
                None => None,
            },
            Paint::Magenta,
        ),
        FileKind::Dir => chosen(
            match config {
                Some(c) => c.dir,
                None => None,
            },
            Paint::Blue,
        ),
        FileKind::Other => Some(Paint::Reset),
    }
}

/// How the name of an entry of a kind is shown. Without colour mode, and
/// for a kind that has no colour, it is shown as it is; a directory is
/// shown whole in its colour; any other kind has its leading directories
/// in the prefix colour, blue by default, and the name in the colour of
/// its kind. `None` where a setting that is needed holds no colour.
pub open spec fn styled(kind: FileKind, config: Option<ColorConfig>, color_mode: bool) -> Option<
    NameStyle,
> {
    if !color_mode || kind == FileKind::Other {
        Some(NameStyle::Plain)
    } else if kind == FileKind::Dir {
        match kind_paint(kind, config) {
            Some(color) => Some(NameStyle::Whole { color }),
            None => None,
        }
    } else {
        match (
            chosen(
                match config {
                    Some(c) => c.prefix,
                    None => None,
                },
                Paint::Blue,
            ),
            kind_paint(kind, config),
        ) {
            (Some(parent), Some(name)) => Some(NameStyle::Path { parent, name }),
            _ => None,
        }
    }
}

fn choose_paint(setting: &Option<String>, default: Paint) -> (r: Option<Paint>)
    ensures
        r == chosen(*setting, default),
{
    match setting {
        Some(text) => match RgbColor::from_str(text.as_str()) {
            Some(color) => Some(Paint::Rgb(color)),
            None => None,
        },
        None => Some(default),
    }
}

fn paint_of(kind: FileKind, config: &Option<ColorConfig>) -> (r: Option<Paint>)
    ensures
        r == kind_paint(kind, *config),
{
    let none: Option<String> = None;
    match kind {
        FileKind::File => choose_paint(
            match config {
                Some(c) => &c.file,
                None => &none,
            },
            Paint::Reset,
        ),
        FileKind::Link => choose_paint(
            match config {
                Some(c) => &c.symlink,
                None => &none,
            },
            Paint::Cyan,
        ),
        FileKind::BlockDevice => choose_paint(
            match config {
                Some(c) => &c.device,
                None => &none,
            },
            Paint::LightRed,
        ),
        FileKind::Fifo => choose_paint(
            match config {
                Some(c) => &c.fifo,
                None => &none,
            },
            Paint::LightRed,
        ),
        FileKind::Socket => choose_paint(
            match config {
                Some(c) => &c.socket,
                None => &none,
            },
            Paint::Magenta,
        ),
        FileKind::Dir => choose_paint(
            match config {
                Some(c) => &c.dir,
                None => &none,
            },
            Paint::Blue,
        ),
        FileKind::Other => Some(Paint::Reset),
    }
}

/// Decides how the name of an entry is shown.
pub fn name_style(kind: FileKind, color_config: &Option<ColorConfig>, color_mode: bool) -> (r:
    Option<NameStyle>)
    ensures
        r == styled(kind, *color_config, color_mode),
{
    if !color_mode {
        return Some(NameStyle::Plain);
    }
    match kind {
        FileKind::Other => Some(NameStyle::Plain),
        FileKind::Dir => match paint_of(kind, color_config) {
            Some(color) => Some(NameStyle::Whole { color }),
            None => None,
        },
        _ => {
            let none: Option<String> = None;
            let parent = choose_paint(
                match color_config {
                    Some(c) => &c.prefix,
                    None => &none,
                },
                Paint::Blue,
            );
            match (parent, paint_of(kind, color_config)) {
                (Some(parent), Some(name)) => Some(NameStyle::Path { parent, name }),
                _ => None,
            }
        },
    }
}

/// A path in two colours: the code that resets the colour, the parent in
/// its colour, a slash, the name in its colour, and the reset code again.
/// A path without a name is its parent alone, uncoloured.
pub open spec fn painted_path(
    parent: Seq<char>,
    filename: Option<Seq<char>>,
    reset: Seq<char>,
    parent_color: Seq<char>,
    filename_color: Seq<char>,
) -> Seq<char> {
    match filename {
        Some(name) => reset + parent_color + parent + "/"@ + filename_color + name + reset,
        None => parent,
    }
}

/// Puts a path together in two colours, given the terminal's codes.
pub fn format_path(
    parent: &str,
    filename: Option<&str>,
    reset: &str,
    parent_color: &str,
    filename_color: &str,
) -> (r: String)
    ensures
        r@ == painted_path(
            parent@,
            match filename {
                Some(name) => Some(name@),
                None => None,
            },
            reset@,
            parent_color@,
            filename_color@,
        ),
{
    match filename {
        Some(name) => {
            let mut text = String::from_str(reset);
            text.append(parent_color);
            text.append(parent);
            text.append("/");
            text.append(filename_color);
            text.append(name);
            text.append(reset);
            text
        },
        None => String::from_str(parent),
    }
}

/// Puts a directory together in one colour, between two reset codes.
pub fn format_dir(path: &str, reset: &str, dir_color: &str) -> (r: String)
    ensures
        r@ == reset@ + dir_color@ + path@ + reset@,
{
    let mut text = String::from_str(reset);
    text.append(dir_color);
    text.append(path);
    text.append(reset);
    text
}

/// The word that names a kind of entry.
pub open spec fn kind_word(kind: FileKind) -> Seq<char> {
    match kind {
        FileKind::File => "file"@,
        FileKind::Dir => "dir"@,
        FileKind::Link => "symlink"@,
        FileKind::BlockDevice => "block_device"@,
        FileKind::Fifo => "pipe"@,
        FileKind::Socket => "socket"@,
        FileKind::Other => "unkown"@,
    }
}

/// Names the kind of an entry, the same in both modes.
pub fn format_filetype(ft: FileKind, machine_readable: bool) -> (r: String)
    ensures
        r@ == kind_word(ft),
{
    match ft {
        FileKind::File => String::from_str("file"),
        FileKind::Dir => String::from_str("dir"),
        FileKind::Link => String::from_str("symlink"),
        FileKind::BlockDevice => String::from_str("block_device"),
        FileKind::Fifo => String::from_str("pipe"),
        FileKind::Socket => String::from_str("socket"),
        FileKind::Other => String::from_str("unkown"),
    }
}

} // verus!
