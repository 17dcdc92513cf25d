use shell_out::{
    Color, ColorChoice, ColorMode, Opts, OutSink, Piece, Shell, StreamKind, Verbosity,
    JUSTIFY_STATUS_LEN,
};

fn text(s: &str) -> Piece {
    Piece::Text(s.to_string())
}

fn bold(color: Color) -> Piece {
    Piece::Style { bold: true, fg: Some(color) }
}

fn opts(quiet: bool, verbose: bool, color_mode: ColorMode) -> Opts {
    Opts { quiet, verbose, color_mode }
}

fn terminal_shell(quiet: bool) -> Shell {
    Shell::with_terminals(&opts(quiet, false, ColorMode::Auto), true, true)
}

fn joined_text(pieces: &[Piece]) -> Vec<String> {
    pieces
        .iter()
        .filter_map(|p| match p {
            Piece::Text(s) => Some(s.clone()),
            _ => None,
        })
        .collect()
}

#[test]
fn resolution_follows_the_table() {
    assert_eq!(ColorMode::Always.resolve(true), ColorChoice::Always);
    assert_eq!(ColorMode::Always.resolve(false), ColorChoice::Always);
    assert_eq!(ColorMode::Never.resolve(true), ColorChoice::Never);
    assert_eq!(ColorMode::Never.resolve(false), ColorChoice::Never);
    assert_eq!(ColorMode::Auto.resolve(true), ColorChoice::Auto);
    assert_eq!(ColorMode::Auto.resolve(false), ColorChoice::Never);
}

#[test]
fn shell_resolves_each_stream_on_its_own() {
    let shell = Shell::with_terminals(&opts(false, false, ColorMode::Auto), true, false);
    assert_eq!(
        shell.out,
        OutSink::Stream {
            color_mode: ColorMode::Auto,
            choice: ColorChoice::Auto,
            stream_type: StreamKind::Stdout,
            is_tty: true,
        }
    );
    assert_eq!(
        shell.err,
        OutSink::Stream {
            color_mode: ColorMode::Auto,
            choice: ColorChoice::Never,
            stream_type: StreamKind::Stderr,
            is_tty: false,
        }
    );
}

#[test]
fn parsing_ignores_case() {
    assert_eq!("AUTO".parse::<ColorMode>().unwrap(), ColorMode::Auto);
    assert_eq!(ColorMode::parse("Always").unwrap(), ColorMode::Always);
    assert_eq!(ColorMode::parse("NEVER").unwrap(), ColorMode::Never);
    assert_eq!(ColorMode::parse("never").unwrap(), ColorMode::Never);
}

#[test]
fn parsing_reports_the_bad_token() {
    let e = ColorMode::parse("maybe").unwrap_err();
    assert_eq!(e.value, "maybe");
    assert_eq!(e.field, "color mode");
    let e = ColorMode::parse("Maybe").unwrap_err();
    assert_eq!(e.value, "Maybe");
    assert!(ColorMode::parse("").is_err());
}

#[test]
fn lowercase_tokens_only() {
    assert_eq!(ColorMode::from_lowercase("auto"), Some(ColorMode::Auto));
    assert_eq!(ColorMode::from_lowercase("AUTO"), None);
}

#[test]
fn verbosity_from_settings() {
    assert_eq!(Verbosity::from_opts(&opts(true, true, ColorMode::Auto)), Verbosity::Quiet);
    assert_eq!(Verbosity::from_opts(&opts(true, false, ColorMode::Auto)), Verbosity::Quiet);
    assert_eq!(Verbosity::from_opts(&opts(false, true, ColorMode::Auto)), Verbosity::Verbose);
    assert_eq!(Verbosity::from_opts(&opts(false, false, ColorMode::Auto)), Verbosity::Normal);
    assert!(!Verbosity::Quiet.shows_routine());
    assert!(Verbosity::Normal.shows_routine());
}

#[test]
fn status_on_a_terminal() {
    let shell = terminal_shell(false);
    assert_eq!(shell.verbosity, Verbosity::Normal);
    let pieces = shell.status("Compiling", "foo v1.0", Some(80)).unwrap();
    assert_eq!(
        pieces,
        vec![
            Piece::Reset,
            bold(Color::Green),
            text("   Compiling"),
            Piece::Reset,
            text(" foo v1.0\n"),
        ]
    );
}

#[test]
fn status_is_silent_when_quiet() {
    let shell = terminal_shell(true);
    assert_eq!(shell.status("Compiling", "foo v1.0", Some(80)), None);
    assert_eq!(shell.status_header("Compiling", Some(80)), None);
    assert_eq!(shell.warn("careful", Some(80)), None);
}

#[test]
fn error_ignores_quiet() {
    let shell = terminal_shell(true);
    let pieces = shell.error("disk full", None);
    assert_eq!(
        pieces,
        vec![
            Piece::Reset,
            bold(Color::Red),
            text("     (error)"),
            Piece::Reset,
            text(" disk full\n"),
        ]
    );
}

#[test]
fn note_ignores_quiet() {
    let shell = terminal_shell(true);
    let pieces = shell.note("hello", None);
    assert_eq!(
        pieces,
        vec![Piece::Reset, bold(Color::Cyan), text("      (note)"), Piece::Reset, text(" hello\n")]
    );
}

#[test]
fn warning_is_yellow() {
    let shell = terminal_shell(false);
    let pieces = shell.warn("careful", None).unwrap();
    assert_eq!(
        pieces,
        vec![
            Piece::Reset,
            bold(Color::Yellow),
            text("   (warning)"),
            Piece::Reset,
            text(" careful\n"),
        ]
    );
}

#[test]
fn header_ends_with_a_space() {
    let shell = terminal_shell(false);
    let pieces = shell.status_header("Fetching", Some(80)).unwrap();
    assert_eq!(
        pieces,
        vec![Piece::Reset, bold(Color::Cyan), text("    Fetching"), Piece::Reset, text(" ")]
    );
}

#[test]
fn long_message_wraps_with_indent() {
    let shell = terminal_shell(false);
    let message = "alpha beta gamma delta epsilon zeta eta theta iota kappa lambda mu nu xi omicron pi";
    assert!(message.len() > 80 - 13);
    let pieces = shell.status("Compiling", message, Some(80)).unwrap();
    let lines = joined_text(&pieces[4..]);
    assert!(lines.len() > 1);
    assert!(lines[0].starts_with(" alpha"));
    for line in &lines[1..] {
        assert!(line.starts_with(&" ".repeat(13)));
        assert!(!line.starts_with(&" ".repeat(14)));
        assert!(line.ends_with('\n'));
    }
    let words: Vec<String> = lines.iter().flat_map(|l| l.split_whitespace().map(String::from)).collect();
    assert_eq!(words.join(" "), message);
    for line in &lines {
        assert!(line.trim_end_matches('\n').chars().count() <= 80);
    }
}

#[test]
fn no_wrap_without_width() {
    let shell = terminal_shell(false);
    let message = "x ".repeat(100);
    let pieces = shell.status("Compiling", &message, None).unwrap();
    assert_eq!(pieces.len(), 5);
    assert_eq!(pieces[4], Piece::Text(format!(" {}\n", message)));
}

#[test]
fn non_terminal_stream_is_not_wrapped_or_justified() {
    let shell = Shell::with_terminals(&opts(false, false, ColorMode::Always), false, false);
    let message = "word ".repeat(40);
    let pieces = shell.status("Compiling", &message, Some(40)).unwrap();
    assert_eq!(
        pieces,
        vec![
            Piece::Reset,
            bold(Color::Green),
            text("Compiling"),
            Piece::Style { bold: true, fg: None },
            text(":"),
            Piece::Reset,
            Piece::Text(format!(" {}\n", message)),
        ]
    );
}

#[test]
fn narrow_terminal_wraps_one_column() {
    let sink = OutSink::stream(ColorMode::Auto, StreamKind::Stdout, true);
    let pieces = sink.print("(note)", Some("ab"), Color::Cyan, true, Some(5));
    assert_eq!(joined_text(&pieces[4..]), vec![" a\n".to_string(), format!("{}b\n", " ".repeat(13))]);
}

#[test]
fn unjustified_terminal_offset_counts_the_colon() {
    let sink = OutSink::stream(ColorMode::Auto, StreamKind::Stdout, true);
    let pieces = sink.print("ab", Some("one two"), Color::Green, false, Some(8));
    assert_eq!(
        joined_text(&pieces[5..]),
        vec![" one\n".to_string(), "    two\n".to_string()]
    );
}

#[test]
fn plain_sink_layout() {
    let shell = Shell::from_write();
    assert_eq!(shell.verbosity, Verbosity::Verbose);
    let pieces = shell.status("Compiling", "foo v1.0", Some(80)).unwrap();
    assert_eq!(pieces, vec![text("Compiling   "), text(" foo v1.0\n")]);
    let pieces = shell.status_header("Done", None).unwrap();
    assert_eq!(pieces, vec![text("Done        "), text(" ")]);
    let pieces = shell.error("disk full", Some(10));
    assert_eq!(pieces, vec![text("(error)     "), text(" disk full\n")]);
}

#[test]
fn plain_sink_unjustified_has_no_colon() {
    let pieces = OutSink::Plain.print("ok", Some("done"), Color::Green, false, None);
    assert_eq!(pieces, vec![text("ok"), text(" done\n")]);
}

#[test]
fn long_status_overflows() {
    let sink = OutSink::stream(ColorMode::Never, StreamKind::Stderr, true);
    let pieces = sink.print("Decompressing", None, Color::Green, true, None);
    assert_eq!(pieces[2], text("Decompressing"));
    let pieces = OutSink::Plain.print("Decompressing", None, Color::Green, true, None);
    assert_eq!(pieces[0], text("Decompressing"));
}

#[test]
fn plain_shell_has_no_color() {
    let shell = Shell::from_write();
    assert!(!shell.supports_color(true));
    assert!(!shell.supports_color(false));
    assert_eq!(shell.color_mode(), ColorMode::Never);
    let colored = Shell::with_terminals(&opts(false, false, ColorMode::Always), false, false);
    assert!(colored.supports_color(true));
    assert_eq!(colored.color_mode(), ColorMode::Always);
}

#[test]
fn width_is_probed_only_on_terminals() {
    let shell = Shell::with_terminals(&opts(false, false, ColorMode::Auto), true, false);
    assert_eq!(shell.out.width_stream(), Some(StreamKind::Stdout));
    assert_eq!(shell.err.width_stream(), None);
    assert_eq!(OutSink::Plain.width_stream(), None);
    assert_eq!(shell.sink(StreamKind::Stderr), shell.err);
}

#[test]
fn padding_helpers() {
    assert_eq!(shell_out::pad_left("ab", 5), "   ab");
    assert_eq!(shell_out::pad_right("ab", 5), "ab   ");
    assert_eq!(shell_out::pad_left("abcdef", 3), "abcdef");
    assert_eq!(shell_out::spaces_string(0), "");
    assert_eq!(JUSTIFY_STATUS_LEN, 12);
}

#[test]
fn wrapped_lines_layout() {
    let lines = vec!["a".to_string(), "b".to_string(), "c".to_string()];
    let pieces = shell_out::wrapped_message(&lines, "   ");
    assert_eq!(pieces, vec![text(" a\n"), text("   b\n"), text("   c\n")]);
    assert!(shell_out::wrapped_message(&Vec::new(), "   ").is_empty());
}
