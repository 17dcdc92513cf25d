use vstd::prelude::*;

verus! {

/// Mode of the color output of the process, chosen by the user.
#[derive(Debug, Clone, Copy, PartialEq, Eq, Structural)]
pub enum ColorMode {
    Auto,
    Always,
    Never,
}

/// The effective coloring decision for one stream, as the terminal backend
/// takes it: always color, never color, or color when the backend finds the
/// destination able to show it.
#[derive(Debug, Clone, Copy, PartialEq, Eq, Structural)]
pub enum ColorChoice {
    Always,
    Auto,
    Never,
}

/// The foreground colors that status tokens are drawn in.
#[derive(Debug, Clone, Copy, PartialEq, Eq, Structural)]
pub enum Color {
    Red,
    Green,
    Yellow,
    Cyan,
}

/// A settings value that could not be understood: the name of the setting
/// and the text that was given for it.
#[derive(Debug, Clone)]
pub struct ParseFailure {
    pub field: String,
    pub value: String,
}

impl ParseFailure {
    pub fn new(field: String, value: String) -> (r: ParseFailure)
        ensures
            r.field@ == field@,
            r.value@ == value@,
    {
        ParseFailure { field, value }
    }
}

/// The name under which a bad color mode is reported.
pub open spec fn color_mode_field() -> Seq<char> {
    "color mode"@
}

/// The color mode that a lowercase token names, if any.
pub open spec fn mode_of_token(token: Seq<char>) -> Option<ColorMode> {
    if token == "auto"@ {
        Some(ColorMode::Auto)
    } else if token == "always"@ {
        Some(ColorMode::Always)
    } else if token == "never"@ {
        Some(ColorMode::Never)
    } else {
        None
    }
}

/// The effective choice for a requested mode on a stream that is, or is not,
/// an interactive terminal.
pub open spec fn resolve_spec(mode: ColorMode, is_terminal: bool) -> ColorChoice {
    match mode {
        ColorMode::Always => ColorChoice::Always,
        ColorMode::Never => ColorChoice::Never,
        ColorMode::Auto => if is_terminal {
            ColorChoice::Auto
        } else {
            ColorChoice::Never
        },
    }
}

/// What `str::to_lowercase` gives for a string of characters.
pub uninterp spec fn lower_of(s: Seq<char>) -> Seq<char>;

/// Relies on `str::to_lowercase`: the lowercase form of a string depends on
/// its characters alone.
#[verifier::external_body]
fn lowercase(s: &str) -> (r: String)
    ensures
        r@ == lower_of(s@),
{
    s.to_lowercase()
}

impl ColorMode {
    /// Recognizes a token that is already in lowercase.
    pub fn from_lowercase(token: &str) -> (r: Option<ColorMode>)
        ensures
            r == mode_of_token(token@),
    {
        let t = token.to_owned();
        if t == "auto".to_owned() {
            Some(ColorMode::Auto)
        } else if t == "always".to_owned() {
            Some(ColorMode::Always)
        } else if t == "never".to_owned() {
            Some(ColorMode::Never)
        } else {
            None
        }
    }

    /// Parses a color mode, ignoring case. Any other token is a
    /// `ParseFailure` that names the setting and carries the token as given.
    pub fn parse(s: &str) -> (r: Result<ColorMode, ParseFailure>)
        ensures
            mode_of_token(lower_of(s@)) matches Some(m) ==> r == Ok::<ColorMode, ParseFailure>(m),
            mode_of_token(lower_of(s@)) is None ==> (r matches Err(e) && e.field@
                == color_mode_field() && e.value@ == s@),
    {
        let lowered = lowercase(s);
        match ColorMode::from_lowercase(lowered.as_str()) {
            Some(m) => Ok(m),
            None => Err(ParseFailure::new("color mode".to_owned(), s.to_owned())),
        }
    }

    /// The effective choice of this mode on a stream that is, or is not, an
    /// interactive terminal: `Always` and `Never` hold whatever the stream,
    /// `Auto` colors only a terminal.
    pub fn resolve(self, is_terminal: bool) -> (r: ColorChoice)
        ensures
            r == resolve_spec(self, is_terminal),
            self == ColorMode::Always ==> r == ColorChoice::Always,
            self == ColorMode::Never ==> r == ColorChoice::Never,
            self == ColorMode::Auto ==> (r == ColorChoice::Auto <==> is_terminal),
            self == ColorMode::Auto ==> (r == ColorChoice::Never <==> !is_terminal),
    {
        match self {
            ColorMode::Always => ColorChoice::Always,
            ColorMode::Never => ColorChoice::Never,
            ColorMode::Auto => if is_terminal {
                ColorChoice::Auto
            } else {
                ColorChoice::Never
            },
        }
    }
}

impl std::str::FromStr for ColorMode {
    type Err = ParseFailure;

    fn from_str(s: &str) -> Result<ColorMode, ParseFailure> {
        ColorMode::parse(s)
    }
}

} // verus!
