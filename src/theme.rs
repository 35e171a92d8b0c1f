//! Colour themes: styles, the scope-to-style lookup, and the pieces of a
//! colour-scheme file that are read as text (hex colours, scope names,
//! font styles).
use vstd::prelude::*;
use crate::text::{chars_of, contains_text, occurs_in, same_text};

verus! {

/// A 24-bit colour.
#[derive(Clone, Copy, Debug, PartialEq, Eq, Structural)]
pub struct Rgb {
    pub r: u8,
    pub g: u8,
    pub b: u8,
}

/// Foreground and background colours and font flags; a colour left out
/// falls back to the theme's default.
#[derive(Clone, Copy, Debug)]
pub struct Style {
    pub fg: Option<Rgb>,
    pub bg: Option<Rgb>,
    pub bold: bool,
    pub italic: bool,
}

impl Default for Style {
    fn default() -> (r: Style)
        ensures
            r.fg is None && r.bg is None && !r.bold && !r.italic,
    {
        Style { fg: None, bg: None, bold: false, italic: false }
    }
}

/// The style of the syntax scopes listed in `scope`.
pub struct TokenStyle {
    pub name: Option<String>,
    pub scope: Vec<String>,
    pub style: Style,
}

/// A colour theme: its default style and its token styles, in file order.
pub struct Theme {
    pub name: String,
    pub style: Style,
    pub token_style: Vec<TokenStyle>,
}

/// Why a colour could not be read.
#[derive(Clone, Copy, Debug, PartialEq, Eq, Structural)]
pub enum ColorError {
    /// The text does not start with `#`.
    NotHexCode,
    /// Fewer than six hex digits follow the `#`.
    BadDigits,
}

/// Whether token style `t` lists `scope`.
pub open spec fn lists_scope(t: TokenStyle, scope: Seq<char>) -> bool {
    exists|j: int| 0 <= j < t.scope@.len() && (#[trigger] t.scope@[j])@ == scope
}

/// The style of the first token style in `ts` that lists `scope`.
pub open spec fn first_style(ts: Seq<TokenStyle>, scope: Seq<char>) -> Option<Style>
    decreases ts.len(),
{
    if ts.len() == 0 {
        None
    } else if lists_scope(ts[0], scope) {
        Some(ts[0].style)
    } else {
        first_style(ts.drop_first(), scope)
    }
}

impl Style {
    /// The foreground and background to draw with: this style's colours,
    /// each falling back to `fallback_style`'s.
    pub fn convert_to_style(&self, fallback_style: &Style) -> (r: (Rgb, Rgb))
        requires
            self.fg is None ==> fallback_style.fg is Some,
            self.bg is None ==> fallback_style.bg is Some,
        ensures
            r.0 == (match self.fg {
                Some(c) => c,
                None => fallback_style.fg->0,
            }),
            r.1 == (match self.bg {
                Some(c) => c,
                None => fallback_style.bg->0,
            }),
    {
        let foreground_color = match self.fg {
            Some(col) => col,
            None => fallback_style.fg.unwrap(),
        };
        let background_color = match self.bg {
            Some(col) => col,
            None => fallback_style.bg.unwrap(),
        };
        (foreground_color, background_color)
    }
}

impl Theme {
    /// The style of the first token style that lists `scope`, if any.
    pub fn get_style(&self, scope: &str) -> (r: Option<Style>)
        ensures
            r == first_style(self.token_style@, scope@),
            r is None <==> forall|i: int|
                0 <= i < self.token_style@.len() ==> !lists_scope(
                    #[trigger] self.token_style@[i],
                    scope@,
                ),
            r is Some ==> exists|i: int|
                0 <= i < self.token_style@.len() && lists_scope(
                    #[trigger] self.token_style@[i],
                    scope@,
                ) && r->0 == self.token_style@[i].style && forall|k: int|
                    0 <= k < i ==> !lists_scope(#[trigger] self.token_style@[k], scope@),
    {
        let mut i: usize = 0;
        assert(self.token_style@.subrange(0, self.token_style@.len() as int) =~= self.token_style@);
        while i < self.token_style.len()
            invariant
                i <= self.token_style@.len(),
                forall|k: int| 0 <= k < i ==> !lists_scope(#[trigger] self.token_style@[k], scope@),
                first_style(self.token_style@, scope@) == first_style(
                    self.token_style@.subrange(i as int, self.token_style@.len() as int),
                    scope@,
                ),
            decreases self.token_style.len() - i,
        {
            let ghost rest = self.token_style@.subrange(i as int, self.token_style@.len() as int);
            assert(rest.drop_first() =~= self.token_style@.subrange(
                i + 1,
                self.token_style@.len() as int,
            ));
            assert(rest[0] == self.token_style@[i as int]);
            let ts = &self.token_style[i];
            let mut j: usize = 0;
            while j < ts.scope.len()
                invariant
                    i < self.token_style@.len(),
                    forall|k: int|
                        0 <= k < i ==> !lists_scope(#[trigger] self.token_style@[k], scope@),
                    ts == self.token_style@[i as int],
                    first_style(self.token_style@, scope@) == first_style(
                        self.token_style@.subrange(i as int, self.token_style@.len() as int),
                        scope@,
                    ),
                    j <= ts.scope@.len(),
                    forall|m: int| 0 <= m < j ==> (#[trigger] ts.scope@[m])@ != scope@,
                decreases ts.scope.len() - j,
            {
                if same_text(ts.scope[j].as_str(), scope) {
                    assert(lists_scope(self.token_style@[i as int], scope@));
                    return Some(ts.style);
                }
                j = j + 1;
            }
            i = i + 1;
        }
        None
    }
}

/// The value of a hex digit.
pub open spec fn hex_value(c: char) -> Option<u8> {
    if '0' <= c && c <= '9' {
        Some((c as u32 - '0' as u32) as u8)
    } else if 'a' <= c && c <= 'f' {
        Some((c as u32 - 'a' as u32 + 10) as u8)
    } else if 'A' <= c && c <= 'F' {
        Some((c as u32 - 'A' as u32 + 10) as u8)
    } else {
        None
    }
}

/// The byte written by the hex digits `hi` and `lo`.
pub open spec fn hex_byte(hi: char, lo: char) -> u8 {
    (hex_value(hi)->0 * 16 + hex_value(lo)->0) as u8
}

/// `#rrggbb` read as a colour; digits after the sixth (an alpha channel)
/// are not read.
pub open spec fn rgb_of(s: Seq<char>) -> Result<Rgb, ColorError> {
    if s.len() == 0 || s[0] != '#' {
        Err(ColorError::NotHexCode)
    } else if s.len() < 7 || exists|i: int| 1 <= i < 7 && (#[trigger] hex_value(s[i])) is None {
        Err(ColorError::BadDigits)
    } else {
        Ok(Rgb { r: hex_byte(s[1], s[2]), g: hex_byte(s[3], s[4]), b: hex_byte(s[5], s[6]) })
    }
}

fn hex_digit(c: char) -> (r: Option<u8>)
    ensures
        r == hex_value(c),
{
    if '0' <= c && c <= '9' {
        Some((c as u32 - '0' as u32) as u8)
    } else if 'a' <= c && c <= 'f' {
        Some((c as u32 - 'a' as u32 + 10) as u8)
    } else if 'A' <= c && c <= 'F' {
        Some((c as u32 - 'A' as u32 + 10) as u8)
    } else {
        None
    }
}

/// Reads a colour written `#rrggbb`.
pub fn parse_rgb(hexcode: &str) -> (r: Result<Rgb, ColorError>)
    ensures
        r == rgb_of(hexcode@),
{
    let s = chars_of(hexcode);
    if s.len() == 0 || s[0] != '#' {
        return Err(ColorError::NotHexCode);
    }
    if s.len() < 7 {
        return Err(ColorError::BadDigits);
    }
    let mut digits: Vec<u8> = Vec::new();
    let mut i: usize = 1;
    while i < 7
        invariant
            s@ == hexcode@,
            s.len() >= 7,
            s@[0] == '#',
            1 <= i <= 7,
            digits@.len() == i - 1,
            forall|k: int| 0 <= k < i - 1 ==> hex_value(s@[k + 1]) == Some(#[trigger] digits@[k]),
        decreases 7 - i,
    {
        match hex_digit(s[i]) {
            Some(d) => digits.push(d),
            None => {
                assert(hex_value(hexcode@[i as int]) is None);
                return Err(ColorError::BadDigits);
            },
        }
        i = i + 1;
    }
    assert(hex_value(s@[1]) == Some(digits@[0]));
    assert(hex_value(s@[2]) == Some(digits@[1]));
    assert(hex_value(s@[3]) == Some(digits@[2]));
    assert(hex_value(s@[4]) == Some(digits@[3]));
    assert(hex_value(s@[5]) == Some(digits@[4]));
    assert(hex_value(s@[6]) == Some(digits@[5]));
    let r = digits[0] * 16 + digits[1];
    let g = digits[2] * 16 + digits[3];
    let b = digits[4] * 16 + digits[5];
    Ok(Rgb { r, g, b })
}

/// A scope name of a colour-scheme file under the name the highlighter
/// gives the same syntax.
pub open spec fn scope_name(s: Seq<char>) -> Seq<char> {
    if s == "meta.function-call.constructor"@ {
        "constructor"@
    } else if s == "meta.annotation.rust"@ {
        "attribute"@
    } else {
        s
    }
}

/// Renames a scope of a colour-scheme file as `scope_name` says.
pub fn translate_scope(vscode_scope: String) -> (r: String)
    ensures
        r@ == scope_name(vscode_scope@),
{
    if same_text(vscode_scope.as_str(), "meta.function-call.constructor") {
        return "constructor".to_owned();
    }
    if same_text(vscode_scope.as_str(), "meta.annotation.rust") {
        return "attribute".to_owned();
    }
    vscode_scope
}

/// The style that the settings of one token colour give: colours written
/// `#rrggbb`, and a font style that makes the text bold or italic when it
/// holds those words.
pub open spec fn style_of(
    foreground: Option<Seq<char>>,
    background: Option<Seq<char>>,
    font_style: Option<Seq<char>>,
) -> Result<Style, ColorError> {
    let fg = match foreground {
        Some(f) => match rgb_of(f) {
            Ok(c) => Ok(Some(c)),
            Err(e) => Err(e),
        },
        None => Ok(None),
    };
    let bg = match background {
        Some(b) => match rgb_of(b) {
            Ok(c) => Ok(Some(c)),
            Err(e) => Err(e),
        },
        None => Ok(None),
    };
    if fg is Err {
        Err(fg->Err_0)
    } else if bg is Err {
        Err(bg->Err_0)
    } else {
        Ok(
            Style {
                fg: fg->Ok_0,
                bg: bg->Ok_0,
                bold: match font_style {
                    Some(f) => occurs_in(f, "bold"@),
                    None => false,
                },
                italic: match font_style {
                    Some(f) => occurs_in(f, "italic"@),
                    None => false,
                },
            },
        )
    }
}

fn read_color(text: &Option<String>) -> (r: Result<Option<Rgb>, ColorError>)
    ensures
        r == (match text {
            Some(f) => match rgb_of(f@) {
                Ok(c) => Ok(Some(c)),
                Err(e) => Err(e),
            },
            None => Ok(None),
        }),
{
    match text {
        Some(f) => match parse_rgb(f.as_str()) {
            Ok(c) => Ok(Some(c)),
            Err(e) => Err(e),
        },
        None => Ok(None),
    }
}

impl TokenStyle {
    /// A token style from the settings of one token colour of a
    /// colour-scheme file; its scope names are renamed by `scope_name`.
    pub fn from_settings(
        name: Option<String>,
        scope: Vec<String>,
        foreground: Option<String>,
        background: Option<String>,
        font_style: Option<String>,
    ) -> (r: Result<TokenStyle, ColorError>)
        ensures
            ({
                let want = style_of(
                    match foreground {
                        Some(f) => Some(f@),
                        None => None,
                    },
                    match background {
                        Some(b) => Some(b@),
                        None => None,
                    },
                    match font_style {
                        Some(f) => Some(f@),
                        None => None,
                    },
                );
                &&& r is Ok <==> want is Ok
                &&& r is Err ==> r->Err_0 == want->Err_0
                &&& r is Ok ==> {
                    &&& r->Ok_0.style == want->Ok_0
                    &&& r->Ok_0.name == name
                    &&& r->Ok_0.scope@.len() == scope@.len()
                    &&& forall|i: int|
                        0 <= i < scope@.len() ==> (#[trigger] r->Ok_0.scope@[i])@ == scope_name(
                            scope@[i]@,
                        )
                }
            }),
    {
        let fg = match read_color(&foreground) {
            Ok(c) => c,
            Err(e) => {
                return Err(e);
            },
        };
        let bg = match read_color(&background) {
            Ok(c) => c,
            Err(e) => {
                return Err(e);
            },
        };
        let (bold, italic) = match &font_style {
            Some(f) => {
                let bold_word = "bold";
                let italic_word = "italic";
                (contains_text(f.as_str(), bold_word), contains_text(f.as_str(), italic_word))
            },
            None => (false, false),
        };
        let mut scopes: Vec<String> = Vec::new();
        let mut i: usize = 0;
        while i < scope.len()
            invariant
                i <= scope@.len(),
                scopes@.len() == i,
                forall|k: int| 0 <= k < i ==> (#[trigger] scopes@[k])@ == scope_name(scope@[k]@),
            decreases scope.len() - i,
        {
            let renamed = translate_scope(scope[i].clone());
            scopes.push(renamed);
            i = i + 1;
        }
        Ok(TokenStyle { name, scope: scopes, style: Style { fg, bg, bold, italic } })
    }
}

/// A theme named `name` (empty when the file gives none) whose default
/// colours are `foreground` and `background`, written `#rrggbb`.
pub fn build_theme(
    name: Option<String>,
    foreground: &str,
    background: &str,
    token_style: Vec<TokenStyle>,
) -> (r: Result<Theme, ColorError>)
    ensures
        rgb_of(foreground@) is Err ==> r == Err::<Theme, ColorError>(rgb_of(foreground@)->Err_0),
        rgb_of(foreground@) is Ok && rgb_of(background@) is Err ==> r == Err::<Theme, ColorError>(
            rgb_of(background@)->Err_0,
        ),
        rgb_of(foreground@) is Ok && rgb_of(background@) is Ok ==> {
            &&& r is Ok
            &&& r->Ok_0.style.fg == Some(rgb_of(foreground@)->Ok_0)
            &&& r->Ok_0.style.bg == Some(rgb_of(background@)->Ok_0)
            &&& !r->Ok_0.style.bold && !r->Ok_0.style.italic
            &&& r->Ok_0.name@ == (match name {
                Some(n) => n@,
                None => Seq::<char>::empty(),
            })
            &&& r->Ok_0.token_style@ == token_style@
        },
{
    let fg = match parse_rgb(foreground) {
        Ok(c) => c,
        Err(e) => {
            return Err(e);
        },
    };
    let bg = match parse_rgb(background) {
        Ok(c) => c,
        Err(e) => {
            return Err(e);
        },
    };
    let name = match name {
        Some(n) => n,
        None => String::new(),
    };
    Ok(
        Theme {
            name,
            style: Style { fg: Some(fg), bg: Some(bg), bold: false, italic: false },
            token_style,
        },
    )
}

} // verus!
