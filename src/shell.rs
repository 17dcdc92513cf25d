use vstd::prelude::*;

use crate::color::{resolve_spec, Color, ColorChoice, ColorMode};
use crate::render::{
    opt_text, pieces_view, plain_line, plain_pieces, stream_line, stream_pieces, Piece, PieceV,
};
use crate::settings::{verbosity_of, Opts, Verbosity};

verus! {

/// A standard output stream of the process.
#[derive(Debug, Clone, Copy, PartialEq, Eq, Structural)]
pub enum StreamKind {
    Stdout,
    Stderr,
}

/// Relies on `atty::is`: whether a standard stream is an interactive
/// terminal. The answer depends on the machine, so nothing is promised.
#[verifier::external_body]
fn is_terminal(stream: StreamKind) -> bool {
    match stream {
        StreamKind::Stdout => atty::is(atty::Stream::Stdout),
        StreamKind::Stderr => atty::is(atty::Stream::Stderr),
    }
}

/// A destination of output, as far as the rendering depends on it.
#[derive(Debug, Clone, Copy, PartialEq, Eq, Structural)]
pub enum OutSink {
    /// A bare writable destination: never colored, width never known.
    Plain,
    /// A standard stream behind the terminal backend, with the color choice
    /// that was resolved for it when it was opened.
    Stream { color_mode: ColorMode, choice: ColorChoice, stream_type: StreamKind, is_tty: bool },
}

/// The width that a line on `sink` is laid out with, when the terminal's
/// width was probed as `probed`: only a stream that is a terminal has one.
pub open spec fn sink_width(sink: OutSink, probed: Option<usize>) -> Option<nat> {
    match sink {
        OutSink::Stream { is_tty: true, .. } => match probed {
            Some(w) => Some(w as nat),
            None => None,
        },
        _ => None,
    }
}

/// Everything written for one line on `sink`.
pub open spec fn sink_line(
    sink: OutSink,
    status: Seq<char>,
    message: Option<Seq<char>>,
    color: Color,
    justified: bool,
    probed: Option<usize>,
) -> Seq<PieceV> {
    match sink {
        OutSink::Plain => plain_line(status, message, justified),
        OutSink::Stream { is_tty, .. } => stream_line(
            status,
            message,
            color,
            justified,
            is_tty,
            sink_width(sink, probed),
        ),
    }
}

/// The color mode that a sink reports: its own on a stream, `Never` on a
/// plain sink.
pub open spec fn sink_color_mode(sink: OutSink) -> ColorMode {
    match sink {
        OutSink::Plain => ColorMode::Never,
        OutSink::Stream { color_mode, .. } => color_mode,
    }
}

impl OutSink {
    /// A stream sink's color choice is the one its mode resolves to on it.
    pub open spec fn wf(self) -> bool {
        match self {
            OutSink::Plain => true,
            OutSink::Stream { color_mode, choice, is_tty, .. } => choice == resolve_spec(
                color_mode,
                is_tty,
            ),
        }
    }

    /// A sink for a standard stream, with its color choice resolved.
    pub fn stream(color_mode: ColorMode, stream_type: StreamKind, is_tty: bool) -> (r: OutSink)
        ensures
            r == (OutSink::Stream {
                color_mode,
                choice: resolve_spec(color_mode, is_tty),
                stream_type,
                is_tty,
            }),
            r.wf(),
    {
        OutSink::Stream { color_mode, choice: color_mode.resolve(is_tty), stream_type, is_tty }
    }

    /// The stream whose terminal width a line on this sink is laid out with:
    /// one only for a stream that is a terminal.
    pub fn width_stream(&self) -> (r: Option<StreamKind>)
        ensures
            r == (match *self {
                OutSink::Stream { is_tty: true, stream_type, .. } => Some(stream_type),
                _ => None,
            }),
    {
        match *self {
            OutSink::Stream { is_tty: true, stream_type, .. } => Some(stream_type),
            _ => None,
        }
    }

    /// Lays out a line on this sink, `probed` being the terminal width found
    /// for `width_stream` (it is not used where that is `None`).
    pub fn print(
        &self,
        status: &str,
        message: Option<&str>,
        color: Color,
        justified: bool,
        probed: Option<usize>,
    ) -> (r: Vec<Piece>)
        ensures
            pieces_view(r@) == sink_line(*self, status@, opt_text(message), color, justified, probed),
    {
        match *self {
            OutSink::Plain => plain_pieces(status, message, justified),
            OutSink::Stream { is_tty, .. } => {
                let width = if is_tty {
                    probed
                } else {
                    None
                };
                stream_pieces(status, message, color, justified, is_tty, width)
            },
        }
    }
}

/// The rendering state of a console: the verbosity and one sink for each
/// channel. Once built it never changes.
#[derive(Debug, Clone, Copy, PartialEq, Eq, Structural)]
pub struct Shell {
    pub verbosity: Verbosity,
    pub out: OutSink,
    pub err: OutSink,
}

/// The shell built from plain writable sinks.
pub open spec fn plain_shell() -> Shell {
    Shell { verbosity: Verbosity::Verbose, out: OutSink::Plain, err: OutSink::Plain }
}

/// The shell built from settings, on streams found to be, or not to be,
/// terminals.
pub open spec fn stream_shell(opts: Opts, out_tty: bool, err_tty: bool) -> Shell {
    Shell {
        verbosity: verbosity_of(opts.quiet, opts.verbose),
        out: OutSink::Stream {
            color_mode: opts.color_mode,
            choice: resolve_spec(opts.color_mode, out_tty),
            stream_type: StreamKind::Stdout,
            is_tty: out_tty,
        },
        err: OutSink::Stream {
            color_mode: opts.color_mode,
            choice: resolve_spec(opts.color_mode, err_tty),
            stream_type: StreamKind::Stderr,
            is_tty: err_tty,
        },
    }
}

/// Whether the shell colors its output, when the terminal backend reports
/// `backend` for the output stream.
pub open spec fn supports_color_spec(shell: Shell, backend: bool) -> bool {
    match shell.out {
        OutSink::Plain => false,
        OutSink::Stream { .. } => backend,
    }
}

/// A line that verbosity governs: nothing under `Quiet`, else the line on
/// the output channel.
pub open spec fn routine_line(
    shell: Shell,
    status: Seq<char>,
    message: Option<Seq<char>>,
    color: Color,
    probed: Option<usize>,
) -> Option<Seq<PieceV>> {
    if shell.verbosity == Verbosity::Quiet {
        None
    } else {
        Some(sink_line(shell.out, status, message, color, true, probed))
    }
}

impl Shell {
    pub open spec fn wf(self) -> bool {
        self.out.wf() && self.err.wf()
    }

    /// Builds the shell from settings, asking whether standard output and
    /// standard error are terminals. Meant to be called once per process.
    pub fn new(opts: &Opts) -> (r: Shell)
        ensures
            exists|out_tty: bool, err_tty: bool| r == stream_shell(*opts, out_tty, err_tty),
            r.wf(),
    {
        let out_tty = is_terminal(StreamKind::Stdout);
        let err_tty = is_terminal(StreamKind::Stderr);
        Shell::with_terminals(opts, out_tty, err_tty)
    }

    /// Builds the shell from settings, on streams that are, or are not,
    /// terminals: verbosity from the settings, each channel's color choice
    /// resolved from the mode and whether its stream is a terminal.
    pub fn with_terminals(opts: &Opts, out_tty: bool, err_tty: bool) -> (r: Shell)
        ensures
            r == stream_shell(*opts, out_tty, err_tty),
            r.wf(),
    {
        Shell {
            verbosity: Verbosity::from_opts(opts),
            out: OutSink::stream(opts.color_mode, StreamKind::Stdout, out_tty),
            err: OutSink::stream(opts.color_mode, StreamKind::Stderr, err_tty),
        }
    }

    /// Builds the shell for two plain writable sinks: no color, and the
    /// highest verbosity.
    pub fn from_write() -> (r: Shell)
        ensures
            r == plain_shell(),
            r.wf(),
    {
        Shell { verbosity: Verbosity::Verbose, out: OutSink::Plain, err: OutSink::Plain }
    }

    /// The sink of a channel: standard output or standard error.
    pub fn sink(&self, channel: StreamKind) -> (r: OutSink)
        ensures
            r == (match channel {
                StreamKind::Stdout => self.out,
                StreamKind::Stderr => self.err,
            }),
    {
        match channel {
            StreamKind::Stdout => self.out,
            StreamKind::Stderr => self.err,
        }
    }

    /// A status line on the output channel: the token justified in bold
    /// green, then the message. Nothing under `Quiet`.
    pub fn status(&self, status: &str, message: &str, probed: Option<usize>) -> (r: Option<
        Vec<Piece>,
    >)
        ensures
            r is None <==> self.verbosity == Verbosity::Quiet,
            r matches Some(v) ==> Some(pieces_view(v@)) == routine_line(
                *self,
                status@,
                Some(message@),
                Color::Green,
                probed,
            ),
    {
        self.routine(status, Some(message), Color::Green, probed)
    }

    /// A header on the output channel: the token justified in bold cyan and
    /// one space, with no line end. Nothing under `Quiet`.
    pub fn status_header(&self, status: &str, probed: Option<usize>) -> (r: Option<Vec<Piece>>)
        ensures
            r is None <==> self.verbosity == Verbosity::Quiet,
            r matches Some(v) ==> Some(pieces_view(v@)) == routine_line(
                *self,
                status@,
                None,
                Color::Cyan,
                probed,
            ),
    {
        self.routine(status, None, Color::Cyan, probed)
    }

    /// A line that verbosity governs, on the output channel, justified.
    fn routine(&self, status: &str, message: Option<&str>, color: Color, probed: Option<usize>) -> (r:
        Option<Vec<Piece>>)
        ensures
            r is None <==> self.verbosity == Verbosity::Quiet,
            r matches Some(v) ==> Some(pieces_view(v@)) == routine_line(
                *self,
                status@,
                opt_text(message),
                color,
                probed,
            ),
    {
        if self.verbosity.shows_routine() {
            Some(self.out.print(status, message, color, true, probed))
        } else {
            None
        }
    }

    /// An error on the error channel, whatever the verbosity: the token
    /// `(error)` justified in bold red, then the message.
    pub fn error(&self, message: &str, probed: Option<usize>) -> (r: Vec<Piece>)
        ensures
            pieces_view(r@) == sink_line(
                self.err,
                "(error)"@,
                Some(message@),
                Color::Red,
                true,
                probed,
            ),
    {
        proof {
            reveal_strlit("(error)");
        }
        self.err.print("(error)", Some(message), Color::Red, true, probed)
    }

    /// A warning on the output channel: the token `(warning)` justified in
    /// bold yellow, then the message. Nothing under `Quiet`.
    pub fn warn(&self, message: &str, probed: Option<usize>) -> (r: Option<Vec<Piece>>)
        ensures
            r is None <==> self.verbosity == Verbosity::Quiet,
            r matches Some(v) ==> Some(pieces_view(v@)) == routine_line(
                *self,
                "(warning)"@,
                Some(message@),
                Color::Yellow,
                probed,
            ),
    {
        proof {
            reveal_strlit("(warning)");
        }
        self.routine("(warning)", Some(message), Color::Yellow, probed)
    }

    /// A note on the output channel, whatever the verbosity: the token
    /// `(note)` justified in bold cyan, then the message.
    pub fn note(&self, message: &str, probed: Option<usize>) -> (r: Vec<Piece>)
        ensures
            pieces_view(r@) == sink_line(
                self.out,
                "(note)"@,
                Some(message@),
                Color::Cyan,
                true,
                probed,
            ),
    {
        proof {
            reveal_strlit("(note)");
        }
        self.out.print("(note)", Some(message), Color::Cyan, true, probed)
    }

    /// The color mode of the output channel; `Never` when it is a plain
    /// sink, whatever was asked for.
    pub fn color_mode(&self) -> (r: ColorMode)
        ensures
            r == sink_color_mode(self.out),
    {
        match self.out {
            OutSink::Stream { color_mode, .. } => color_mode,
            OutSink::Plain => ColorMode::Never,
        }
    }

    /// Whether the output is colored, `backend` being what the terminal
    /// backend of the output stream reports: never on a plain sink.
    pub fn supports_color(&self, backend: bool) -> (r: bool)
        ensures
            r == supports_color_spec(*self, backend),
    {
        match self.out {
            OutSink::Plain => false,
            OutSink::Stream { .. } => backend,
        }
    }
}

/// A shell built from plain writable sinks never colors its output and
/// reports the `Never` color mode, whatever the terminal backend would say.
pub proof fn plain_shell_never_colors(backend: bool)
    ensures
        !supports_color_spec(plain_shell(), backend),
        sink_color_mode(plain_shell().out) == ColorMode::Never,
{
}

/// A plain sink is laid out the same whatever terminal width was probed: it
/// is never wrapped.
pub proof fn plain_sink_ignores_width(
    status: Seq<char>,
    message: Option<Seq<char>>,
    color: Color,
    justified: bool,
    a: Option<usize>,
    b: Option<usize>,
)
    ensures
        sink_line(OutSink::Plain, status, message, color, justified, a) == sink_line(
            OutSink::Plain,
            status,
            message,
            color,
            justified,
            b,
        ),
{
}

/// Errors do not depend on verbosity: two shells that differ only in it
/// write the same error.
pub proof fn error_ignores_verbosity(shell: Shell, v: Verbosity, message: Seq<char>, probed: Option<usize>)
    ensures
        sink_line(
            (Shell { verbosity: v, ..shell }).err,
            "(error)"@,
            Some(message),
            Color::Red,
            true,
            probed,
        ) == sink_line(shell.err, "(error)"@, Some(message), Color::Red, true, probed),
{
}

} // verus!
