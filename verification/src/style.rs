//! The style model: colors, emphasis modifiers, and incremental style merging.

use vstd::prelude::*;
use vstd::string::StringExecFns;

verus! {

/// A terminal cell color: named colors, an indexed palette value, an RGB
/// triple, or the special value `Reset`, which means "inherit the terminal
/// default".
#[derive(Debug, Clone, Copy, PartialEq, Eq, Hash)]
pub enum Color {
    Reset,
    Black,
    Red,
    Green,
    Yellow,
    Blue,
    Magenta,
    Cyan,
    Gray,
    DarkGray,
    LightRed,
    LightGreen,
    LightYellow,
    LightBlue,
    LightMagenta,
    LightCyan,
    White,
    Rgb(u8, u8, u8),
    Indexed(u8),
}

/// A set of independent text-emphasis flags, represented as a bit-set over a
/// fixed enumeration so that union, difference and containment are O(1).
#[derive(Debug, Clone, Copy, PartialEq, Eq, Hash)]
pub struct Modifier {
    pub bits: u16,
}

impl Modifier {
    /// The flag that renders text bold.
    pub fn bold() -> (r: Modifier)
        ensures
            r.spec_bits() == 0x0001u16,
    {
        Modifier { bits: 0x0001 }
    }

    /// The flag that renders text dim.
    pub fn dim() -> (r: Modifier)
        ensures
            r.spec_bits() == 0x0002u16,
    {
        Modifier { bits: 0x0002 }
    }

    /// The flag that renders text italic.
    pub fn italic() -> (r: Modifier)
        ensures
            r.spec_bits() == 0x0004u16,
    {
        Modifier { bits: 0x0004 }
    }

    /// The flag that underlines text.
    pub fn underlined() -> (r: Modifier)
        ensures
            r.spec_bits() == 0x0008u16,
    {
        Modifier { bits: 0x0008 }
    }

    /// The flag that makes text blink slowly.
    pub fn slow_blink() -> (r: Modifier)
        ensures
            r.spec_bits() == 0x0010u16,
    {
        Modifier { bits: 0x0010 }
    }

    /// The flag that makes text blink rapidly.
    pub fn rapid_blink() -> (r: Modifier)
        ensures
            r.spec_bits() == 0x0020u16,
    {
        Modifier { bits: 0x0020 }
    }

    /// The flag that swaps foreground and background.
    pub fn reversed() -> (r: Modifier)
        ensures
            r.spec_bits() == 0x0040u16,
    {
        Modifier { bits: 0x0040 }
    }

    /// The flag that hides text.
    pub fn hidden() -> (r: Modifier)
        ensures
            r.spec_bits() == 0x0080u16,
    {
        Modifier { bits: 0x0080 }
    }

    /// The flag that strikes text through.
    pub fn crossed_out() -> (r: Modifier)
        ensures
            r.spec_bits() == 0x0100u16,
    {
        Modifier { bits: 0x0100 }
    }

    /// The raw bit-set.
    pub open spec fn spec_bits(self) -> u16 {
        self.bits
    }

    /// True when every set bit belongs to one of the nine known flags.
    pub open spec fn known(self) -> bool {
        self.spec_bits() & 0xFE00u16 == 0u16
    }

    /// The empty set of flags.
    pub fn empty() -> (r: Modifier)
        ensures
            r.spec_bits() == 0u16,
    {
        Modifier { bits: 0 }
    }

    /// The set of all nine known flags.
    pub fn all() -> (r: Modifier)
        ensures
            r.spec_bits() == 0x01FFu16,
    {
        Modifier { bits: 0x01FF }
    }

    /// True when no flag is set.
    pub fn is_empty(self) -> (r: bool)
        ensures
            r == (self.spec_bits() == 0u16),
    {
        self.bits == 0
    }

    /// True when every flag of `other` is also set in `self`.
    pub fn contains(self, other: Modifier) -> (r: bool)
        ensures
            r == (self.spec_bits() & other.spec_bits() == other.spec_bits()),
    {
        self.bits & other.bits == other.bits
    }

    /// The flags set in `self` or in `other`.
    pub fn union(self, other: Modifier) -> (r: Modifier)
        ensures
            r.spec_bits() == self.spec_bits() | other.spec_bits(),
    {
        Modifier { bits: self.bits | other.bits }
    }

    /// The flags set in `self` but not in `other`.
    pub fn difference(self, other: Modifier) -> (r: Modifier)
        ensures
            r.spec_bits() == self.spec_bits() & !other.spec_bits(),
    {
        Modifier { bits: self.bits & !other.bits }
    }
}

/// The bit of the `i`-th flag, in enumeration order.
pub open spec fn flag_bit(i: int) -> u16 {
    if i == 0 {
        0x0001u16
    } else if i == 1 {
        0x0002u16
    } else if i == 2 {
        0x0004u16
    } else if i == 3 {
        0x0008u16
    } else if i == 4 {
        0x0010u16
    } else if i == 5 {
        0x0020u16
    } else if i == 6 {
        0x0040u16
    } else if i == 7 {
        0x0080u16
    } else {
        0x0100u16
    }
}

/// The name of the `i`-th flag, in enumeration order.
pub open spec fn flag_name(i: int) -> Seq<char> {
    if i == 0 {
        "BOLD"@
    } else if i == 1 {
        "DIM"@
    } else if i == 2 {
        "ITALIC"@
    } else if i == 3 {
        "UNDERLINED"@
    } else if i == 4 {
        "SLOW_BLINK"@
    } else if i == 5 {
        "RAPID_BLINK"@
    } else if i == 6 {
        "REVERSED"@
    } else if i == 7 {
        "HIDDEN"@
    } else {
        "CROSSED_OUT"@
    }
}

/// The names of the flags of `m` from position `i` on, joined by `" | "`;
/// `first` records whether no name has been emitted yet.
pub open spec fn joined_names_from(m: Modifier, i: int, first: bool) -> Seq<char>
    decreases 9 - i,
    when i <= 9
{
    if i >= 9 {
        Seq::empty()
    } else if m.spec_bits() & flag_bit(i) != 0u16 {
        (if first {
            flag_name(i)
        } else {
            " | "@ + flag_name(i)
        }) + joined_names_from(m, i + 1, false)
    } else {
        joined_names_from(m, i + 1, first)
    }
}

impl Modifier {
    /// The deterministic rendering of the set: `NONE` when empty, else the
    /// names of the set flags in enumeration order joined by `" | "`.
    pub open spec fn spec_name(self) -> Seq<char> {
        if self.spec_bits() == 0u16 {
            "NONE"@
        } else {
            joined_names_from(self, 0, true)
        }
    }

    /// Appends the names of the flags of `self` from position `i` on.
    fn append_names_from(self, s: &mut String, i: usize, first: bool)
        requires
            i <= 9,
        ensures
            final(s)@ == old(s)@ + joined_names_from(self, i as int, first),
        decreases 9 - i,
    {
        if i == 9 {
            assert(s@ =~= s@ + Seq::<char>::empty());
            return ;
        }
        let pair: (u16, &str) = match i {
            0 => (0x0001, "BOLD"),
            1 => (0x0002, "DIM"),
            2 => (0x0004, "ITALIC"),
            3 => (0x0008, "UNDERLINED"),
            4 => (0x0010, "SLOW_BLINK"),
            5 => (0x0020, "RAPID_BLINK"),
            6 => (0x0040, "REVERSED"),
            7 => (0x0080, "HIDDEN"),
            _ => (0x0100, "CROSSED_OUT"),
        };
        let bit = pair.0;
        let name = pair.1;
        assert(bit == flag_bit(i as int) && name@ == flag_name(i as int));
        if self.bits & bit != 0 {
            let ghost s0 = s@;
            if !first {
                s.append(" | ");
            }
            s.append(name);
            assert(s@ =~= s0 + (if first {
                flag_name(i as int)
            } else {
                " | "@ + flag_name(i as int)
            }));
            let ghost s1 = s@;
            self.append_names_from(s, i + 1, false);
            assert(s@ =~= s0 + joined_names_from(self, i as int, first)) by {
                assert(s@ == s1 + joined_names_from(self, i as int + 1, false));
            }
        } else {
            self.append_names_from(s, i + 1, first);
        }
    }

    /// The rendering of the set as text: `NONE` when empty, else the names of
    /// the set flags in enumeration order joined by `" | "`.
    pub fn name_string(&self) -> (r: String)
        ensures
            r@ == self.spec_name(),
    {
        if self.bits == 0 {
            return String::from_str("NONE");
        }
        let mut s = String::new();
        self.append_names_from(&mut s, 0, true);
        s
    }
}

/// `other` where it is present, else `fallback`: the field-merge rule of
/// [`Style::patch`].
pub open spec fn color_or(other: Option<Color>, fallback: Option<Color>) -> Option<Color> {
    if other is Some {
        other
    } else {
        fallback
    }
}

/// How one or more terminal cells should appear. Absent colors mean "not
/// specified here"; `add_modifier` lists the flags this style turns on when
/// merged in and `sub_modifier` the flags it turns off.
///
/// A `Style` is an incremental change: applying styles in sequence merges
/// them field by field (later layers win where they are explicit), it does
/// not replace earlier layers wholesale.
#[derive(Debug, Clone, Copy, PartialEq, Eq, Hash)]
pub struct Style {
    pub fg: Option<Color>,
    pub bg: Option<Color>,
    pub underline_color: Option<Color>,
    pub add_modifier: Modifier,
    pub sub_modifier: Modifier,
}

impl Default for Style {
    /// The style that changes nothing.
    fn default() -> (r: Style)
        ensures
            r == Style::spec_new(),
    {
        Style::new()
    }
}

impl Style {
    /// No flag is both added and removed: the invariant every public
    /// operation preserves.
    pub open spec fn modifiers_exclusive(self) -> bool {
        self.add_modifier.spec_bits() & self.sub_modifier.spec_bits() == 0u16
    }

    /// Both modifier sets hold known flags only.
    pub open spec fn modifiers_known(self) -> bool {
        self.add_modifier.known() && self.sub_modifier.known()
    }

    /// The style that changes nothing.
    pub open spec fn spec_new() -> Style {
        Style {
            fg: None,
            bg: None,
            underline_color: None,
            add_modifier: Modifier { bits: 0 },
            sub_modifier: Modifier { bits: 0 },
        }
    }

    /// The style that resets every property to the terminal default.
    pub open spec fn spec_reset() -> Style {
        Style {
            fg: Some(Color::Reset),
            bg: Some(Color::Reset),
            underline_color: Some(Color::Reset),
            add_modifier: Modifier { bits: 0 },
            sub_modifier: Modifier { bits: 0x01FF },
        }
    }

    pub open spec fn spec_fg(self, color: Color) -> Style {
        Style { fg: Some(color), ..self }
    }

    pub open spec fn spec_bg(self, color: Color) -> Style {
        Style { bg: Some(color), ..self }
    }

    pub open spec fn spec_underline_color(self, color: Color) -> Style {
        Style { underline_color: Some(color), ..self }
    }

    pub open spec fn spec_add_modifier(self, modifier: Modifier) -> Style {
        Style {
            add_modifier: Modifier {
                bits: self.add_modifier.spec_bits() | modifier.spec_bits(),
            },
            sub_modifier: Modifier {
                bits: self.sub_modifier.spec_bits() & !modifier.spec_bits(),
            },
            ..self
        }
    }

    pub open spec fn spec_remove_modifier(self, modifier: Modifier) -> Style {
        Style {
            add_modifier: Modifier {
                bits: self.add_modifier.spec_bits() & !modifier.spec_bits(),
            },
            sub_modifier: Modifier {
                bits: self.sub_modifier.spec_bits() | modifier.spec_bits(),
            },
            ..self
        }
    }

    /// The result of applying `self` and then `other`: explicit fields of
    /// `other` win, absent fields pass `self` through, and each modifier set
    /// of `other` overrides the opposite set of `self`.
    pub open spec fn spec_patch(self, other: Style) -> Style {
        Style {
            fg: color_or(other.fg, self.fg),
            bg: color_or(other.bg, self.bg),
            underline_color: color_or(other.underline_color, self.underline_color),
            add_modifier: Modifier {
                bits: (self.add_modifier.spec_bits() & !other.sub_modifier.spec_bits())
                    | other.add_modifier.spec_bits(),
            },
            sub_modifier: Modifier {
                bits: (self.sub_modifier.spec_bits() & !other.add_modifier.spec_bits())
                    | other.sub_modifier.spec_bits(),
            },
        }
    }

    /// The style that changes nothing: applying it to anything is a no-op.
    pub fn new() -> (r: Style)
        ensures
            r == Style::spec_new(),
    {
        Style {
            fg: None,
            bg: None,
            underline_color: None,
            add_modifier: Modifier::empty(),
            sub_modifier: Modifier::empty(),
        }
    }

    /// The style that resets all properties to the terminal default:
    /// applying it clears everything set so far.
    pub fn reset() -> (r: Style)
        ensures
            r == Style::spec_reset(),
    {
        Style {
            fg: Some(Color::Reset),
            bg: Some(Color::Reset),
            underline_color: Some(Color::Reset),
            add_modifier: Modifier::empty(),
            sub_modifier: Modifier::all(),
        }
    }

    /// Sets exactly the foreground color, leaving all else unchanged.
    pub fn fg(self, color: Color) -> (r: Style)
        ensures
            r == self.spec_fg(color),
    {
        Style { fg: Some(color), ..self }
    }

    /// Sets exactly the background color, leaving all else unchanged.
    pub fn bg(self, color: Color) -> (r: Style)
        ensures
            r == self.spec_bg(color),
    {
        Style { bg: Some(color), ..self }
    }

    /// Sets exactly the underline color, leaving all else unchanged.
    pub fn underline_color(self, color: Color) -> (r: Style)
        ensures
            r == self.spec_underline_color(color),
    {
        Style { underline_color: Some(color), ..self }
    }

    /// Removes the given flags from `sub_modifier` and adds them to
    /// `add_modifier`: a style never claims to add and remove the same flag,
    /// and "add" wins when set last.
    pub fn add_modifier(self, modifier: Modifier) -> (r: Style)
        ensures
            r == self.spec_add_modifier(modifier),
    {
        Style {
            add_modifier: self.add_modifier.union(modifier),
            sub_modifier: self.sub_modifier.difference(modifier),
            ..self
        }
    }

    /// Removes the given flags from `add_modifier` and adds them to
    /// `sub_modifier`: the mirror image of [`Style::add_modifier`].
    pub fn remove_modifier(self, modifier: Modifier) -> (r: Style)
        ensures
            r == self.spec_remove_modifier(modifier),
    {
        Style {
            add_modifier: self.add_modifier.difference(modifier),
            sub_modifier: self.sub_modifier.union(modifier),
            ..self
        }
    }

    /// The combined style equivalent to applying `self` and then `other`.
    pub fn patch(self, other: Style) -> (r: Style)
        ensures
            r == self.spec_patch(other),
    {
        let fg = if other.fg.is_some() {
            other.fg
        } else {
            self.fg
        };
        let bg = if other.bg.is_some() {
            other.bg
        } else {
            self.bg
        };
        let underline_color = if other.underline_color.is_some() {
            other.underline_color
        } else {
            self.underline_color
        };
        Style {
            fg,
            bg,
            underline_color,
            add_modifier: self.add_modifier.difference(other.sub_modifier).union(
                other.add_modifier,
            ),
            sub_modifier: self.sub_modifier.difference(other.add_modifier).union(
                other.sub_modifier,
            ),
        }
    }
}

/// Shorthands: mechanical sugar over [`Style::fg`], [`Style::bg`],
/// [`Style::add_modifier`] and [`Style::remove_modifier`] with fixed
/// arguments, one per color and per emphasis flag.
impl Style {
    pub fn black(self) -> (r: Style)
        ensures
            r == self.spec_fg(Color::Black),
    {
        self.fg(Color::Black)
    }

    pub fn red(self) -> (r: Style)
        ensures
            r == self.spec_fg(Color::Red),
    {
        self.fg(Color::Red)
    }

    pub fn green(self) -> (r: Style)
        ensures
            r == self.spec_fg(Color::Green),
    {
        self.fg(Color::Green)
    }

    pub fn yellow(self) -> (r: Style)
        ensures
            r == self.spec_fg(Color::Yellow),
    {
        self.fg(Color::Yellow)
    }

    pub fn blue(self) -> (r: Style)
        ensures
            r == self.spec_fg(Color::Blue),
    {
        self.fg(Color::Blue)
    }

    pub fn magenta(self) -> (r: Style)
        ensures
            r == self.spec_fg(Color::Magenta),
    {
        self.fg(Color::Magenta)
    }

    pub fn cyan(self) -> (r: Style)
        ensures
            r == self.spec_fg(Color::Cyan),
    {
        self.fg(Color::Cyan)
    }

    pub fn white(self) -> (r: Style)
        ensures
            r == self.spec_fg(Color::White),
    {
        self.fg(Color::White)
    }

    pub fn gray(self) -> (r: Style)
        ensures
            r == self.spec_fg(Color::Gray),
    {
        self.fg(Color::Gray)
    }

    pub fn dark_gray(self) -> (r: Style)
        ensures
            r == self.spec_fg(Color::DarkGray),
    {
        self.fg(Color::DarkGray)
    }

    pub fn light_red(self) -> (r: Style)
        ensures
            r == self.spec_fg(Color::LightRed),
    {
        self.fg(Color::LightRed)
    }

    pub fn light_green(self) -> (r: Style)
        ensures
            r == self.spec_fg(Color::LightGreen),
    {
        self.fg(Color::LightGreen)
    }

    pub fn light_yellow(self) -> (r: Style)
        ensures
            r == self.spec_fg(Color::LightYellow),
    {
        self.fg(Color::LightYellow)
    }

    pub fn light_blue(self) -> (r: Style)
        ensures
            r == self.spec_fg(Color::LightBlue),
    {
        self.fg(Color::LightBlue)
    }

    pub fn light_magenta(self) -> (r: Style)
        ensures
            r == self.spec_fg(Color::LightMagenta),
    {
        self.fg(Color::LightMagenta)
    }

    pub fn light_cyan(self) -> (r: Style)
        ensures
            r == self.spec_fg(Color::LightCyan),
    {
        self.fg(Color::LightCyan)
    }

    pub fn on_black(self) -> (r: Style)
        ensures
            r == self.spec_bg(Color::Black),
    {
        self.bg(Color::Black)
    }

    pub fn on_red(self) -> (r: Style)
        ensures
            r == self.spec_bg(Color::Red),
    {
        self.bg(Color::Red)
    }

    pub fn on_green(self) -> (r: Style)
        ensures
            r == self.spec_bg(Color::Green),
    {
        self.bg(Color::Green)
    }

    pub fn on_yellow(self) -> (r: Style)
        ensures
            r == self.spec_bg(Color::Yellow),
    {
        self.bg(Color::Yellow)
    }

    pub fn on_blue(self) -> (r: Style)
        ensures
            r == self.spec_bg(Color::Blue),
    {
        self.bg(Color::Blue)
    }

    pub fn on_magenta(self) -> (r: Style)
        ensures
            r == self.spec_bg(Color::Magenta),
    {
        self.bg(Color::Magenta)
    }

    pub fn on_cyan(self) -> (r: Style)
        ensures
            r == self.spec_bg(Color::Cyan),
    {
        self.bg(Color::Cyan)
    }

    pub fn on_white(self) -> (r: Style)
        ensures
            r == self.spec_bg(Color::White),
    {
        self.bg(Color::White)
    }

    pub fn on_gray(self) -> (r: Style)
        ensures
            r == self.spec_bg(Color::Gray),
    {
        self.bg(Color::Gray)
    }

    pub fn on_dark_gray(self) -> (r: Style)
        ensures
            r == self.spec_bg(Color::DarkGray),
    {
        self.bg(Color::DarkGray)
    }

    pub fn on_light_red(self) -> (r: Style)
        ensures
            r == self.spec_bg(Color::LightRed),
    {
        self.bg(Color::LightRed)
    }

    pub fn on_light_green(self) -> (r: Style)
        ensures
            r == self.spec_bg(Color::LightGreen),
    {
        self.bg(Color::LightGreen)
    }

    pub fn on_light_yellow(self) -> (r: Style)
        ensures
            r == self.spec_bg(Color::LightYellow),
    {
        self.bg(Color::LightYellow)
    }

    pub fn on_light_blue(self) -> (r: Style)
        ensures
            r == self.spec_bg(Color::LightBlue),
    {
        self.bg(Color::LightBlue)
    }

    pub fn on_light_magenta(self) -> (r: Style)
        ensures
            r == self.spec_bg(Color::LightMagenta),
    {
        self.bg(Color::LightMagenta)
    }

    pub fn on_light_cyan(self) -> (r: Style)
        ensures
            r == self.spec_bg(Color::LightCyan),
    {
        self.bg(Color::LightCyan)
    }

    pub fn bold(self) -> (r: Style)
        ensures
            r == self.spec_add_modifier(Modifier { bits: 0x1 }),
    {
        self.add_modifier(Modifier::bold())
    }

    pub fn dim(self) -> (r: Style)
        ensures
            r == self.spec_add_modifier(Modifier { bits: 0x2 }),
    {
        self.add_modifier(Modifier::dim())
    }

    pub fn italic(self) -> (r: Style)
        ensures
            r == self.spec_add_modifier(Modifier { bits: 0x4 }),
    {
        self.add_modifier(Modifier::italic())
    }

    pub fn underlined(self) -> (r: Style)
        ensures
            r == self.spec_add_modifier(Modifier { bits: 0x8 }),
    {
        self.add_modifier(Modifier::underlined())
    }

    pub fn slow_blink(self) -> (r: Style)
        ensures
            r == self.spec_add_modifier(Modifier { bits: 0x10 }),
    {
        self.add_modifier(Modifier::slow_blink())
    }

    pub fn rapid_blink(self) -> (r: Style)
        ensures
            r == self.spec_add_modifier(Modifier { bits: 0x20 }),
    {
        self.add_modifier(Modifier::rapid_blink())
    }

    pub fn reversed(self) -> (r: Style)
        ensures
            r == self.spec_add_modifier(Modifier { bits: 0x40 }),
    {
        self.add_modifier(Modifier::reversed())
    }

    pub fn hidden(self) -> (r: Style)
        ensures
            r == self.spec_add_modifier(Modifier { bits: 0x80 }),
    {
        self.add_modifier(Modifier::hidden())
    }

    pub fn crossed_out(self) -> (r: Style)
        ensures
            r == self.spec_add_modifier(Modifier { bits: 0x100 }),
    {
        self.add_modifier(Modifier::crossed_out())
    }

    pub fn not_bold(self) -> (r: Style)
        ensures
            r == self.spec_remove_modifier(Modifier { bits: 0x1 }),
    {
        self.remove_modifier(Modifier::bold())
    }

    pub fn not_dim(self) -> (r: Style)
        ensures
            r == self.spec_remove_modifier(Modifier { bits: 0x2 }),
    {
        self.remove_modifier(Modifier::dim())
    }

    pub fn not_italic(self) -> (r: Style)
        ensures
            r == self.spec_remove_modifier(Modifier { bits: 0x4 }),
    {
        self.remove_modifier(Modifier::italic())
    }

    pub fn not_underlined(self) -> (r: Style)
        ensures
            r == self.spec_remove_modifier(Modifier { bits: 0x8 }),
    {
        self.remove_modifier(Modifier::underlined())
    }

    pub fn not_slow_blink(self) -> (r: Style)
        ensures
            r == self.spec_remove_modifier(Modifier { bits: 0x10 }),
    {
        self.remove_modifier(Modifier::slow_blink())
    }

    pub fn not_rapid_blink(self) -> (r: Style)
        ensures
            r == self.spec_remove_modifier(Modifier { bits: 0x20 }),
    {
        self.remove_modifier(Modifier::rapid_blink())
    }

    pub fn not_reversed(self) -> (r: Style)
        ensures
            r == self.spec_remove_modifier(Modifier { bits: 0x40 }),
    {
        self.remove_modifier(Modifier::reversed())
    }

    pub fn not_hidden(self) -> (r: Style)
        ensures
            r == self.spec_remove_modifier(Modifier { bits: 0x80 }),
    {
        self.remove_modifier(Modifier::hidden())
    }

    pub fn not_crossed_out(self) -> (r: Style)
        ensures
            r == self.spec_remove_modifier(Modifier { bits: 0x100 }),
    {
        self.remove_modifier(Modifier::crossed_out())
    }

}

/// Patching is associative: applying `b` and then `c` on top of `a` is the
/// same as applying the pre-combined `b.patch(c)`, so layering any number of
/// styles does not depend on how the layers are grouped.
pub proof fn lemma_patch_associative(a: Style, b: Style, c: Style)
    ensures
        a.spec_patch(b).spec_patch(c) == a.spec_patch(b.spec_patch(c)),
{
    let aa = a.add_modifier.spec_bits();
    let au = a.sub_modifier.spec_bits();
    let ba = b.add_modifier.spec_bits();
    let bu = b.sub_modifier.spec_bits();
    let ca = c.add_modifier.spec_bits();
    let cu = c.sub_modifier.spec_bits();
    assert((((aa & !bu) | ba) & !cu) | ca == (aa & !((bu & !ca) | cu)) | ((ba & !cu) | ca))
        by (bit_vector);
    assert((((au & !ba) | bu) & !ca) | cu == (au & !((ba & !cu) | ca)) | ((bu & !ca) | cu))
        by (bit_vector);
}

/// Grouping does not matter for a chain of four patches on top of a base
/// style: the left-to-right layering equals patching the pre-combined rest.
pub proof fn lemma_patch_grouping(base: Style, a: Style, b: Style, c: Style, d: Style)
    ensures
        base.spec_patch(a).spec_patch(b).spec_patch(c).spec_patch(d) == base.spec_patch(
            a.spec_patch(b.spec_patch(c.spec_patch(d))),
        ),
{
    lemma_patch_associative(base.spec_patch(a).spec_patch(b), c, d);
    lemma_patch_associative(base.spec_patch(a), b, c.spec_patch(d));
    lemma_patch_associative(base, a, b.spec_patch(c.spec_patch(d)));
}

/// The empty style and the reset style satisfy both modifier invariants:
/// together with the preservation lemmas below, every style a sequence of
/// public operations builds keeps its two modifier sets disjoint and known.
pub proof fn lemma_constructors_invariants()
    ensures
        Style::spec_new().modifiers_exclusive(),
        Style::spec_new().modifiers_known(),
        Style::spec_reset().modifiers_exclusive(),
        Style::spec_reset().modifiers_known(),
{
    assert(0u16 & 0u16 == 0u16) by (bit_vector);
    assert(0u16 & 0xFE00u16 == 0u16) by (bit_vector);
    assert(0u16 & 0x01FFu16 == 0u16) by (bit_vector);
    assert(0x01FFu16 & 0xFE00u16 == 0u16) by (bit_vector);
}

/// [`Style::add_modifier`] keeps the two modifier sets disjoint and never
/// introduces unknown flags.
pub proof fn lemma_add_modifier_invariants(s: Style, m: Modifier)
    ensures
        s.modifiers_exclusive() ==> s.spec_add_modifier(m).modifiers_exclusive(),
        s.modifiers_known() && m.known() ==> s.spec_add_modifier(m).modifiers_known(),
{
    let a = s.add_modifier.spec_bits();
    let u = s.sub_modifier.spec_bits();
    let mb = m.spec_bits();
    assert(a & u == 0u16 ==> (a | mb) & (u & !mb) == 0u16) by (bit_vector);
    assert((a & 0xFE00u16 == 0u16 && u & 0xFE00u16 == 0u16 && mb & 0xFE00u16 == 0u16) ==> ((a
        | mb) & 0xFE00u16 == 0u16 && (u & !mb) & 0xFE00u16 == 0u16)) by (bit_vector);
}

/// [`Style::remove_modifier`] keeps the two modifier sets disjoint and never
/// introduces unknown flags.
pub proof fn lemma_remove_modifier_invariants(s: Style, m: Modifier)
    ensures
        s.modifiers_exclusive() ==> s.spec_remove_modifier(m).modifiers_exclusive(),
        s.modifiers_known() && m.known() ==> s.spec_remove_modifier(m).modifiers_known(),
{
    let a = s.add_modifier.spec_bits();
    let u = s.sub_modifier.spec_bits();
    let mb = m.spec_bits();
    assert(a & u == 0u16 ==> (a & !mb) & (u | mb) == 0u16) by (bit_vector);
    assert((a & 0xFE00u16 == 0u16 && u & 0xFE00u16 == 0u16 && mb & 0xFE00u16 == 0u16) ==> ((a
        & !mb) & 0xFE00u16 == 0u16 && (u | mb) & 0xFE00u16 == 0u16)) by (bit_vector);
}

/// [`Style::patch`] keeps the two modifier sets disjoint and never introduces
/// unknown flags: together with the two lemmas above, any sequence of public
/// style operations preserves both invariants.
pub proof fn lemma_patch_invariants(s: Style, other: Style)
    ensures
        s.modifiers_exclusive() && other.modifiers_exclusive() ==> s.spec_patch(
            other,
        ).modifiers_exclusive(),
        s.modifiers_known() && other.modifiers_known() ==> s.spec_patch(other).modifiers_known(),
{
    let a = s.add_modifier.spec_bits();
    let u = s.sub_modifier.spec_bits();
    let oa = other.add_modifier.spec_bits();
    let ou = other.sub_modifier.spec_bits();
    assert((a & u == 0u16 && oa & ou == 0u16) ==> ((a & !ou) | oa) & ((u & !oa) | ou) == 0u16)
        by (bit_vector);
    assert((a & 0xFE00u16 == 0u16 && u & 0xFE00u16 == 0u16 && oa & 0xFE00u16 == 0u16 && ou
        & 0xFE00u16 == 0u16) ==> (((a & !ou) | oa) & 0xFE00u16 == 0u16 && ((u & !oa) | ou)
        & 0xFE00u16 == 0u16)) by (bit_vector);
}

/// Patching with [`Style::reset`] neutralizes whatever came before: every
/// color becomes `Reset` whatever the earlier style was, and for a style
/// whose modifier sets hold only known flags the result is exactly the reset
/// style: no flag added, every known flag removed.
pub proof fn lemma_reset_neutralizes(x: Style)
    ensures
        x.spec_patch(Style::spec_reset()).fg == Some(Color::Reset),
        x.spec_patch(Style::spec_reset()).bg == Some(Color::Reset),
        x.spec_patch(Style::spec_reset()).underline_color == Some(Color::Reset),
        x.modifiers_known() ==> x.spec_patch(Style::spec_reset()) == Style::spec_reset(),
{
    let a = x.add_modifier.spec_bits();
    let u = x.sub_modifier.spec_bits();
    assert(a & 0xFE00u16 == 0u16 ==> (a & !0x01FFu16) | 0u16 == 0u16) by (bit_vector);
    assert(u & 0xFE00u16 == 0u16 ==> (u & !0u16) | 0x01FFu16 == 0x01FFu16) by (bit_vector);
}

} // verus!
