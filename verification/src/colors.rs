//! Colorized output utilities for the terminal using ANSI escape codes.
//!
//! Small helpers wrap strings with ANSI escape codes so they render in color
//! (or bold) in terminals that support ANSI coloring; `ColorString` pairs a
//! string with a color and caches the colorized rendering.

use vstd::prelude::*;

verus! {

/// The ANSI escape that starts a styling code.
pub open spec fn spec_escape() -> char {
    '\x1b'
}

/// The ANSI code that clears all styling.
pub open spec fn spec_reset_code() -> Seq<char> {
    seq![spec_escape(), '[', '0', 'm']
}

/// The ANSI code that starts the given style.
pub open spec fn spec_style_code(color: Color) -> Seq<char> {
    match color {
        Color::Red => seq![spec_escape(), '[', '3', '1', 'm'],
        Color::Green => seq![spec_escape(), '[', '3', '2', 'm'],
        Color::Blue => seq![spec_escape(), '[', '3', '4', 'm'],
        Color::Bold => seq![spec_escape(), '[', '1', 'm'],
    }
}

/// `s` wrapped in the given style's code and the reset code.
pub open spec fn spec_styled(color: Color, s: Seq<char>) -> Seq<char> {
    spec_style_code(color) + s + spec_reset_code()
}

/// `s` prefixed with one reset code and followed by another: unstyled.
pub open spec fn spec_unstyled(s: Seq<char>) -> Seq<char> {
    spec_reset_code() + s + spec_reset_code()
}

/// A color or style that can be applied to a string.
#[derive(Copy, Clone, Debug, PartialEq, Eq, Structural)]
pub enum Color {
    /// Red text
    Red,
    /// Green text
    Green,
    /// Blue text
    Blue,
    /// Bold text
    Bold,
}

/// Returns the input string wrapped in the ANSI escape code for red.
pub fn red(s: &str) -> (r: String)
    ensures
        r@ == spec_styled(Color::Red, s@),
{
    proof {
        reveal_strlit("\x1b[31m");
        reveal_strlit("\x1b[0m");
    }
    let mut r = String::new();
    r.append("\x1b[31m");
    r.append(s);
    r.append("\x1b[0m");
    proof {
        assert(r@ =~= spec_styled(Color::Red, s@));
    }
    r
}

/// Returns the input string wrapped in the ANSI escape code for green.
pub fn green(s: &str) -> (r: String)
    ensures
        r@ == spec_styled(Color::Green, s@),
{
    proof {
        reveal_strlit("\x1b[32m");
        reveal_strlit("\x1b[0m");
    }
    let mut r = String::new();
    r.append("\x1b[32m");
    r.append(s);
    r.append("\x1b[0m");
    proof {
        assert(r@ =~= spec_styled(Color::Green, s@));
    }
    r
}

/// Returns the input string wrapped in the ANSI escape code for blue.
pub fn blue(s: &str) -> (r: String)
    ensures
        r@ == spec_styled(Color::Blue, s@),
{
    proof {
        reveal_strlit("\x1b[34m");
        reveal_strlit("\x1b[0m");
    }
    let mut r = String::new();
    r.append("\x1b[34m");
    r.append(s);
    r.append("\x1b[0m");
    proof {
        assert(r@ =~= spec_styled(Color::Blue, s@));
    }
    r
}

/// Returns the input string wrapped in the ANSI code for bold text.
pub fn bold(s: &str) -> (r: String)
    ensures
        r@ == spec_styled(Color::Bold, s@),
{
    proof {
        reveal_strlit("\x1b[1m");
        reveal_strlit("\x1b[0m");
    }
    let mut r = String::new();
    r.append("\x1b[1m");
    r.append(s);
    r.append("\x1b[0m");
    proof {
        assert(r@ =~= spec_styled(Color::Bold, s@));
    }
    r
}

/// Resets any styling and returns the input string unchanged (no color).
///
/// This helper is mainly provided for symmetry with the other helpers.
pub fn reset(s: &str) -> (r: String)
    ensures
        r@ == spec_unstyled(s@),
{
    proof {
        reveal_strlit("\x1b[0m");
    }
    let mut r = String::new();
    r.append("\x1b[0m");
    r.append(s);
    r.append("\x1b[0m");
    proof {
        assert(r@ =~= spec_unstyled(s@));
    }
    r
}

/// A string with an associated color and a cached colorized representation.
pub struct ColorString {
    /// The color or style to apply
    pub color: Color,
    /// The original string content
    pub string: String,
    /// Cached colorized representation (empty until painted)
    pub colorized: String,
}

impl ColorString {
    /// Create a new `ColorString` for the given `color` and `string`.
    ///
    /// The returned instance has an empty `colorized` field until `paint` or
    /// `into_colorized` is called.
    pub fn new(color: Color, string: &str) -> (r: ColorString)
        ensures
            r.color == color,
            r.string@ == string@,
            r.colorized@ == Seq::<char>::empty(),
    {
        ColorString { color, string: string.to_owned(), colorized: String::new() }
    }

    /// Paint the internal `string` using the configured `color` and store
    /// the result in `colorized`.
    pub fn paint(&mut self)
        ensures
            final(self).color == old(self).color,
            final(self).string == old(self).string,
            final(self).colorized@ == spec_styled(old(self).color, old(self).string@),
    {
        match self.color {
            Color::Red => self.colorized = red(self.string.as_str()),
            Color::Green => self.colorized = green(self.string.as_str()),
            Color::Blue => self.colorized = blue(self.string.as_str()),
            Color::Bold => self.colorized = bold(self.string.as_str()),
        };
    }

    /// Reset the `colorized` representation to an unstyled version of the
    /// original string.
    pub fn reset(&mut self)
        ensures
            final(self).color == old(self).color,
            final(self).string == old(self).string,
            final(self).colorized@ == spec_unstyled(old(self).string@),
    {
        self.colorized = reset(self.string.as_str());
    }

    /// Consume `self`, ensure the `colorized` value is generated, and return
    /// it as an owned `String`.
    ///
    /// This is convenient when you want the final colored string and do not
    /// need to keep the `ColorString` value afterwards.
    pub fn into_colorized(self) -> (r: String)
        ensures
            r@ == if self.colorized@.len() == 0 {
                spec_styled(self.color, self.string@)
            } else {
                self.colorized@
            },
    {
        let mut cs = self;
        if cs.colorized.as_str().is_empty() {
            cs.paint();
        }
        cs.colorized
    }

    /// Borrow the current cached colorized string.
    ///
    /// If `paint` has not been called, this will be an empty string slice.
    pub fn colorized(&self) -> (r: &str)
        ensures
            r@ == self.colorized@,
    {
        self.colorized.as_str()
    }
}

} // verus!
