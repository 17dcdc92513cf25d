use vstd::prelude::*;
use vstd::string::*;

use crate::color::Color;

verus! {

/// Width, in columns, that a justified status token is padded to.
pub const JUSTIFY_STATUS_LEN: usize = 12;

/// One step of writing a status line to a destination.
#[derive(Debug, Clone, PartialEq, Eq)]
pub enum Piece {
    /// Drop every color and style that is in effect.
    Reset,
    /// Switch to a style: bold or not, with a foreground color or none.
    Style { bold: bool, fg: Option<Color> },
    /// Write this text.
    Text(String),
}

/// What a `Piece` means.
pub enum PieceV {
    Reset,
    Style { bold: bool, fg: Option<Color> },
    Text(Seq<char>),
}

impl View for Piece {
    type V = PieceV;

    open spec fn view(&self) -> PieceV {
        match self {
            Piece::Reset => PieceV::Reset,
            Piece::Style { bold, fg } => PieceV::Style { bold: *bold, fg: *fg },
            Piece::Text(s) => PieceV::Text(s@),
        }
    }
}

pub open spec fn pieces_view(v: Seq<Piece>) -> Seq<PieceV> {
    v.map_values(|p: Piece| p@)
}

pub open spec fn opt_text(s: Option<&str>) -> Option<Seq<char>> {
    match s {
        Some(t) => Some(t@),
        None => None,
    }
}

pub open spec fn spaces(n: nat) -> Seq<char> {
    Seq::new(n, |i: int| ' ')
}

/// `s` with spaces before it up to `n` columns; longer text stays as it is.
pub open spec fn padded_left(s: Seq<char>, n: nat) -> Seq<char> {
    if s.len() < n {
        spaces((n - s.len()) as nat) + s
    } else {
        s
    }
}

/// `s` with spaces after it up to `n` columns; longer text stays as it is.
pub open spec fn padded_right(s: Seq<char>, n: nat) -> Seq<char> {
    if s.len() < n {
        s + spaces((n - s.len()) as nat)
    } else {
        s
    }
}

/// The lines that textwrap breaks `text` into at `width` columns.
pub uninterp spec fn wrapped_lines(text: Seq<char>, width: nat) -> Seq<Seq<char>>;

/// Relies on `textwrap::wrap_iter`: the lines that a text is broken into at
/// a given width depend on the text and the width alone.
#[verifier::external_body]
fn wrap_lines(text: &str, width: usize) -> (r: Vec<String>)
    ensures
        r.deep_view() == wrapped_lines(text@, width as nat),
{
    textwrap::wrap_iter(text, width).map(|line| line.into_owned()).collect()
}

/// Columns taken by the status token before the message: the justified width
/// when the token is justified on a terminal, else the token and its colon.
pub open spec fn occupied_width(status: Seq<char>, tty_justified: bool) -> nat {
    if tty_justified {
        JUSTIFY_STATUS_LEN as nat
    } else {
        status.len() + 1
    }
}

/// Width that a message is wrapped to on a terminal of `width` columns after
/// `offset` columns of status and one space; never less than one.
pub open spec fn wrap_width(width: nat, offset: nat) -> nat {
    if width > offset + 1 {
        (width - offset - 1) as nat
    } else {
        1
    }
}

/// Lines laid out one per piece: the first after one space, every later line
/// after `indent`, each ended by a newline.
pub open spec fn indented_body(lines: Seq<Seq<char>>, indent: Seq<char>) -> Seq<PieceV> {
    Seq::new(
        lines.len(),
        |i: int|
            PieceV::Text(
                if i == 0 {
                    " "@ + lines[0] + "\n"@
                } else {
                    indent + lines[i] + "\n"@
                },
            ),
    )
}

/// A wrapped message after `offset` columns of status: later lines are
/// indented by `offset + 1` spaces, under the first line's text.
pub open spec fn wrapped_body(lines: Seq<Seq<char>>, offset: nat) -> Seq<PieceV> {
    indented_body(lines, spaces(offset + 1))
}

/// The status part on a terminal stream, with the reset that ends it.
pub open spec fn stream_head(status: Seq<char>, color: Color, tty_justified: bool) -> Seq<PieceV> {
    if tty_justified {
        seq![
            PieceV::Reset,
            PieceV::Style { bold: true, fg: Some(color) },
            PieceV::Text(padded_left(status, JUSTIFY_STATUS_LEN as nat)),
            PieceV::Reset,
        ]
    } else {
        seq![
            PieceV::Reset,
            PieceV::Style { bold: true, fg: Some(color) },
            PieceV::Text(status),
            PieceV::Style { bold: true, fg: None },
            PieceV::Text(":"@),
            PieceV::Reset,
        ]
    }
}

/// The message part on a terminal stream.
pub open spec fn stream_body(message: Option<Seq<char>>, width: Option<nat>, offset: nat) -> Seq<
    PieceV,
> {
    match message {
        None => seq![PieceV::Text(" "@)],
        Some(m) => match width {
            None => seq![PieceV::Text(" "@ + m + "\n"@)],
            Some(w) => wrapped_body(wrapped_lines(m, wrap_width(w, offset)), offset),
        },
    }
}

/// Everything written for one line on a terminal stream.
pub open spec fn stream_line(
    status: Seq<char>,
    message: Option<Seq<char>>,
    color: Color,
    justified: bool,
    is_tty: bool,
    width: Option<nat>,
) -> Seq<PieceV> {
    stream_head(status, color, justified && is_tty) + stream_body(
        message,
        width,
        occupied_width(status, justified && is_tty),
    )
}

/// Everything written for one line on a plain sink: no color, no colon, no
/// wrapping.
pub open spec fn plain_line(status: Seq<char>, message: Option<Seq<char>>, justified: bool) -> Seq<
    PieceV,
> {
    seq![
        PieceV::Text(
            if justified {
                padded_right(status, JUSTIFY_STATUS_LEN as nat)
            } else {
                status
            },
        ),
    ] + match message {
        Some(m) => seq![PieceV::Text(" "@ + m + "\n"@)],
        None => seq![PieceV::Text(" "@)],
    }
}

/// A string of `n` spaces.
pub fn spaces_string(n: usize) -> (r: String)
    ensures
        r@ == spaces(n as nat),
{
    let mut r = String::new();
    let mut i: usize = 0;
    while i < n
        invariant
            i <= n,
            r@ == spaces(i as nat),
        decreases n - i,
    {
        proof {
            reveal_strlit(" ");
            assert(" "@ =~= seq![' ']);
        }
        r.append(" ");
        i = i + 1;
        assert(r@ =~= spaces(i as nat));
    }
    r
}

/// `s` padded with spaces before it to `width` columns.
pub fn pad_left(s: &str, width: usize) -> (r: String)
    ensures
        r@ == padded_left(s@, width as nat),
{
    let len = s.unicode_len();
    if len < width {
        let r = spaces_string(width - len).concat(s);
        r
    } else {
        s.to_owned()
    }
}

/// `s` padded with spaces after it to `width` columns.
pub fn pad_right(s: &str, width: usize) -> (r: String)
    ensures
        r@ == padded_right(s@, width as nat),
{
    let len = s.unicode_len();
    if len < width {
        let pad = spaces_string(width - len);
        s.to_owned().concat(pad.as_str())
    } else {
        s.to_owned()
    }
}

/// `prefix`, then `text`, then a newline.
fn spaced_line(prefix: &str, text: &str) -> (r: String)
    ensures
        r@ == prefix@ + text@ + "\n"@,
{
    prefix.to_owned().concat(text).concat("\n")
}

/// Lays out already wrapped lines: the first after one space, each later one
/// after `indent`, every line ended by a newline.
pub fn wrapped_message(lines: &Vec<String>, indent: &str) -> (r: Vec<Piece>)
    ensures
        pieces_view(r@) == indented_body(lines.deep_view(), indent@),
{
    let ghost target = indented_body(lines.deep_view(), indent@);
    let mut r: Vec<Piece> = Vec::new();
    let mut i: usize = 0;
    while i < lines.len()
        invariant
            i <= lines.len(),
            target == indented_body(lines.deep_view(), indent@),
            r@.len() == i,
            forall|j: int| 0 <= j < i ==> #[trigger] r@[j]@ == target[j],
        decreases lines.len() - i,
    {
        let line = if i == 0 {
            spaced_line(" ", lines[i].as_str())
        } else {
            spaced_line(indent, lines[i].as_str())
        };
        assert(lines.deep_view()[i as int] == lines@[i as int]@);
        r.push(Piece::Text(line));
        i = i + 1;
    }
    assert(pieces_view(r@) =~= target);
    r
}

/// Writes a line to a terminal stream: the status token in bold and `color`,
/// justified to `JUSTIFY_STATUS_LEN` columns when asked for on a terminal and
/// otherwise followed by a bold colon; then the uncolored message, wrapped to
/// the terminal's width when that is known.
pub fn stream_pieces(
    status: &str,
    message: Option<&str>,
    color: Color,
    justified: bool,
    is_tty: bool,
    width: Option<usize>,
) -> (r: Vec<Piece>)
    ensures
        pieces_view(r@) == stream_line(
            status@,
            opt_text(message),
            color,
            justified,
            is_tty,
            match width {
                Some(w) => Some(w as nat),
                None => None,
            },
        ),
{
    let tty_justified = justified && is_tty;
    let status_len = status.unicode_len();
    let mut r: Vec<Piece> = Vec::new();
    r.push(Piece::Reset);
    r.push(Piece::Style { bold: true, fg: Some(color) });
    if tty_justified {
        r.push(Piece::Text(pad_left(status, JUSTIFY_STATUS_LEN)));
        r.push(Piece::Reset);
    } else {
        r.push(Piece::Text(status.to_owned()));
        r.push(Piece::Style { bold: true, fg: None });
        r.push(Piece::Text(":".to_owned()));
        r.push(Piece::Reset);
    }
    assert(pieces_view(r@) =~= stream_head(status@, color, tty_justified));
    let ghost offset = occupied_width(status@, tty_justified);
    let body: Vec<Piece> = match message {
        None => vec![Piece::Text(" ".to_owned())],
        Some(m) => match width {
            None => vec![Piece::Text(spaced_line(" ", m))],
            Some(w) => {
                // The status takes `offset` columns and one space follows it.
                let (wrap_to, indent) = if tty_justified {
                    let wrap_to: usize = if w > JUSTIFY_STATUS_LEN + 1 {
                        w - JUSTIFY_STATUS_LEN - 1
                    } else {
                        1
                    };
                    (wrap_to, spaces_string(JUSTIFY_STATUS_LEN + 1))
                } else {
                    let wrap_to: usize = if status_len < w && w - status_len > 2 {
                        w - status_len - 2
                    } else {
                        1
                    };
                    let mut indent = spaces_string(status_len);
                    proof {
                        reveal_strlit("  ");
                    }
                    indent.append("  ");
                    (wrap_to, indent)
                };
                assert(wrap_to as nat == wrap_width(w as nat, offset));
                assert(indent@ =~= spaces(offset + 1));
                let lines = wrap_lines(m, wrap_to);
                wrapped_message(&lines, indent.as_str())
            },
        },
    };
    let ghost head = r@;
    let mut body = body;
    r.append(&mut body);
    assert(pieces_view(r@) =~= pieces_view(head) + pieces_view(
        r@.subrange(head.len() as int, r@.len() as int),
    ));
    assert(pieces_view(r@) =~= stream_line(
        status@,
        opt_text(message),
        color,
        justified,
        is_tty,
        match width {
            Some(w) => Some(w as nat),
            None => None,
        },
    ));
    r
}

/// Writes a line to a plain sink: no color codes; the status padded after it
/// to `JUSTIFY_STATUS_LEN` columns when justified, else as it is; then the
/// message after one space and a newline, or one trailing space when there is
/// no message.
pub fn plain_pieces(status: &str, message: Option<&str>, justified: bool) -> (r: Vec<Piece>)
    ensures
        pieces_view(r@) == plain_line(status@, opt_text(message), justified),
{
    let head = if justified {
        pad_right(status, JUSTIFY_STATUS_LEN)
    } else {
        status.to_owned()
    };
    let tail = match message {
        Some(m) => spaced_line(" ", m),
        None => " ".to_owned(),
    };
    let r = vec![Piece::Text(head), Piece::Text(tail)];
    assert(pieces_view(r@) =~= plain_line(status@, opt_text(message), justified));
    r
}

/// On a terminal stream with a known width, the message takes one piece per
/// wrapped line after the status part, and every line after the first is
/// indented by the occupied width and one more space.
pub proof fn wrapped_continuation_indent(
    status: Seq<char>,
    message: Seq<char>,
    color: Color,
    justified: bool,
    is_tty: bool,
    width: nat,
    i: int,
)
    requires
        0 < i < wrapped_lines(
            message,
            wrap_width(width, occupied_width(status, justified && is_tty)),
        ).len(),
    ensures
        ({
            let offset = occupied_width(status, justified && is_tty);
            let lines = wrapped_lines(message, wrap_width(width, offset));
            let head = stream_head(status, color, justified && is_tty);
            let out = stream_line(status, Some(message), color, justified, is_tty, Some(width));
            &&& out.len() == head.len() + lines.len()
            &&& out[head.len() + i] == PieceV::Text(spaces(offset + 1) + lines[i] + "\n"@)
        }),
{
}

/// On a terminal stream whose width is unknown, the message is not wrapped:
/// it goes out whole, after one space, as a single line.
pub proof fn unknown_width_single_line(
    status: Seq<char>,
    message: Seq<char>,
    color: Color,
    justified: bool,
    is_tty: bool,
)
    ensures
        stream_line(status, Some(message), color, justified, is_tty, None) == stream_head(
            status,
            color,
            justified && is_tty,
        ) + seq![PieceV::Text(" "@ + message + "\n"@)],
{
}

} // verus!
