//! Editor themes: the declarative theme tree, color validation, and the
//! projection to CSS custom properties. Reading a theme file and emitting
//! the CSS to a window belong to the host harness.

use vstd::prelude::*;
use vstd::string::*;
use crate::text::{dec_digits, is_hex_digit, push_decimal};

verus! {

/// Window chrome visibility.
pub enum ChromeVisibility {
    Hidden,
    Minimal,
    Full,
}

/// Whether the theme renders on a dark, light or high-contrast base.
pub enum ThemeBase {
    Dark,
    Light,
    HighContrast,
}

pub struct ThemeMetadata {
    pub name: String,
    pub author: String,
    pub version: String,
    pub base: ThemeBase,
}

pub struct BackgroundTheme {
    pub base: String,
    pub blur: u32,
}

pub struct BorderTheme {
    pub radius: u32,
    pub width: u32,
    pub color: String,
}

pub struct WindowTheme {
    pub background: BackgroundTheme,
    pub border: BorderTheme,
}

pub struct ChromeTheme {
    pub background: String,
    pub foreground: String,
    pub height: u32,
}

pub struct CursorTheme {
    pub color: String,
    pub width: u32,
}

pub struct SelectionTheme {
    pub background: String,
}

pub struct EditorTheme {
    pub background: String,
    pub foreground: String,
    pub cursor: CursorTheme,
    pub selection: SelectionTheme,
}

/// The style of one token class.
pub struct TokenStyle {
    pub color: String,
    pub style: Option<String>,
}

pub struct SyntaxTheme {
    pub comment: TokenStyle,
    pub keyword: TokenStyle,
    pub string_literal: TokenStyle,
    pub number: TokenStyle,
    pub operator: TokenStyle,
    pub function: TokenStyle,
    pub variable: TokenStyle,
    pub type_style: TokenStyle,
    pub constant: TokenStyle,
}

/// A whole theme.
pub struct Theme {
    pub metadata: ThemeMetadata,
    pub window: WindowTheme,
    pub chrome: ChromeTheme,
    pub editor: EditorTheme,
    pub syntax: SyntaxTheme,
}

/// A hex CSS color: a hash sign and three, six or eight hex digits.
pub open spec fn valid_css_color(s: Seq<char>) -> bool {
    &&& s.len() == 4 || s.len() == 7 || s.len() == 9
    &&& s[0] == '#'
    &&& forall|i: int| 1 <= i < s.len() ==> is_hex_digit(#[trigger] s[i])
}

/// Checks a hex CSS color.
pub fn is_valid_css_color(s: &str) -> (r: bool)
    ensures
        r == valid_css_color(s@),
{
    let n = s.unicode_len();
    if !(n == 4 || n == 7 || n == 9) {
        return false;
    }
    if s.get_char(0) != '#' {
        return false;
    }
    let mut i: usize = 1;
    while i < n
        invariant
            1 <= i <= n,
            n == s@.len(),
            forall|j: int| 1 <= j < i ==> is_hex_digit(#[trigger] s@[j]),
        decreases n - i,
    {
        if crate::text::hex_char_val(s.get_char(i)).is_none() {
            return false;
        }
        i += 1;
    }
    true
}

/// Whether every color the CSS projection uses is a valid hex color and
/// the blur is at most 100 pixels.
pub open spec fn theme_valid(t: &Theme) -> bool {
    &&& valid_css_color(t.window.background.base@)
    &&& valid_css_color(t.editor.background@)
    &&& valid_css_color(t.editor.foreground@)
    &&& valid_css_color(t.editor.cursor.color@)
    &&& valid_css_color(t.editor.selection.background@)
    &&& valid_css_color(t.syntax.comment.color@)
    &&& valid_css_color(t.syntax.keyword.color@)
    &&& valid_css_color(t.syntax.string_literal.color@)
    &&& valid_css_color(t.syntax.function.color@)
    &&& t.window.background.blur <= 100
}

/// The CSS custom-property block a theme projects to.
pub open spec fn css_vars_of(t: &Theme) -> Seq<char> {
    ":root {\n  --window-bg: "@ + t.window.background.base@ + ";\n  --window-blur: "@
        + dec_digits(t.window.background.blur as nat) + "px;\n  --window-border-radius: "@
        + dec_digits(t.window.border.radius as nat) + "px;\n  --editor-bg: "@
        + t.editor.background@ + ";\n  --editor-fg: "@ + t.editor.foreground@
        + ";\n  --cursor-color: "@ + t.editor.cursor.color@ + ";\n  --selection-bg: "@
        + t.editor.selection.background@ + ";\n  --syntax-comment: "@
        + t.syntax.comment.color@ + ";\n  --syntax-keyword: "@ + t.syntax.keyword.color@
        + ";\n  --syntax-string: "@ + t.syntax.string_literal.color@
        + ";\n  --syntax-function: "@ + t.syntax.function.color@ + ";\n}\n"@
}

impl Theme {
    /// Refuses a theme whose colors do not parse or whose blur is over
    /// 100 pixels; the offending value comes back.
    pub fn validate(&self) -> (r: Result<(), String>)
        ensures
            r is Ok <==> theme_valid(self),
    {
        if !is_valid_css_color(self.window.background.base.as_str()) {
            return Err(self.window.background.base.clone());
        }
        if !is_valid_css_color(self.editor.background.as_str()) {
            return Err(self.editor.background.clone());
        }
        if !is_valid_css_color(self.editor.foreground.as_str()) {
            return Err(self.editor.foreground.clone());
        }
        if !is_valid_css_color(self.editor.cursor.color.as_str()) {
            return Err(self.editor.cursor.color.clone());
        }
        if !is_valid_css_color(self.editor.selection.background.as_str()) {
            return Err(self.editor.selection.background.clone());
        }
        if !is_valid_css_color(self.syntax.comment.color.as_str()) {
            return Err(self.syntax.comment.color.clone());
        }
        if !is_valid_css_color(self.syntax.keyword.color.as_str()) {
            return Err(self.syntax.keyword.color.clone());
        }
        if !is_valid_css_color(self.syntax.string_literal.color.as_str()) {
            return Err(self.syntax.string_literal.color.clone());
        }
        if !is_valid_css_color(self.syntax.function.color.as_str()) {
            return Err(self.syntax.function.color.clone());
        }
        if self.window.background.blur > 100 {
            return Err(self.window.background.base.clone());
        }
        Ok(())
    }

    /// Projects the theme to its CSS custom-property block.
    pub fn to_css_vars(&self) -> (r: String)
        ensures
            r@ == css_vars_of(self),
    {
        let mut css = String::new();
        css.append(":root {\n  --window-bg: ");
        css.append(self.window.background.base.as_str());
        css.append(";\n  --window-blur: ");
        push_decimal(&mut css, self.window.background.blur as u64);
        css.append("px;\n  --window-border-radius: ");
        push_decimal(&mut css, self.window.border.radius as u64);
        css.append("px;\n  --editor-bg: ");
        css.append(self.editor.background.as_str());
        css.append(";\n  --editor-fg: ");
        css.append(self.editor.foreground.as_str());
        css.append(";\n  --cursor-color: ");
        css.append(self.editor.cursor.color.as_str());
        css.append(";\n  --selection-bg: ");
        css.append(self.editor.selection.background.as_str());
        css.append(";\n  --syntax-comment: ");
        css.append(self.syntax.comment.color.as_str());
        css.append(";\n  --syntax-keyword: ");
        css.append(self.syntax.keyword.color.as_str());
        css.append(";\n  --syntax-string: ");
        css.append(self.syntax.string_literal.color.as_str());
        css.append(";\n  --syntax-function: ");
        css.append(self.syntax.function.color.as_str());
        css.append(";\n}\n");
        proof {
            assert(css@ =~= css_vars_of(self));
        }
        css
    }
}

} // verus!
