use geiger::format::check_args;
use geiger::format::parse;
use geiger::format::render;
use geiger::format::required_args;
use geiger::format::FormatError;
use geiger::format::Piece;
use geiger::nano_fmt::ByteSink;

fn bytes(s: &str) -> Vec<u8> {
    s.as_bytes().to_vec()
}

#[test]
fn pieces() {
    // string interpolation
    assert_eq!(
        parse(&bytes("The answer is {}")).ok(),
        Some(vec![Piece::Str(bytes("The answer is ")), Piece::Display]),
    );

    assert!(parse(&bytes("{:?}")).is_err());

    assert!(parse(&bytes("{:#?}")).is_err());

    assert!(parse(&bytes("{:x}")).is_err());

    assert!(parse(&bytes("{:9x}")).is_err());

    assert!(parse(&bytes("{:9X}")).is_err());

    assert!(parse(&bytes("{:#X}")).is_err());

    // escaped braces
    assert_eq!(
        parse(&bytes("{{}} is not an argument")).ok(),
        Some(vec![Piece::Str(bytes("{} is not an argument"))]),
    );

    // left brace & junk
    assert!(parse(&bytes("{")).is_err());
    assert!(parse(&bytes(" {")).is_err());
    assert!(parse(&bytes("{ ")).is_err());
    assert!(parse(&bytes("{ {")).is_err());
    assert!(parse(&bytes("{:q}")).is_err());
}

#[test]
fn unescape() {
    // no right brace
    assert_eq!(geiger::format::unescape(&bytes("")).ok(), Some(bytes("")));
    assert_eq!(
        geiger::format::unescape(&bytes("Hello")).ok(),
        Some(bytes("Hello"))
    );

    // unmatched right brace
    assert!(geiger::format::unescape(&bytes(" }")).is_err());
    assert!(geiger::format::unescape(&bytes("} ")).is_err());
    assert!(geiger::format::unescape(&bytes("}")).is_err());

    // escaped right brace
    assert_eq!(geiger::format::unescape(&bytes("}}")).ok(), Some(bytes("}")));
    assert_eq!(
        geiger::format::unescape(&bytes("}} ")).ok(),
        Some(bytes("} "))
    );
}

#[test]
fn parse_empty_template() {
    assert_eq!(parse(&bytes("")).ok(), Some(vec![]));
}

#[test]
fn parse_adjacent_placeholders() {
    assert_eq!(
        parse(&bytes("{}{}")).ok(),
        Some(vec![Piece::Display, Piece::Display]),
    );
    assert_eq!(
        parse(&bytes("a{{b{}c")).ok(),
        Some(vec![Piece::Str(bytes("a{b")), Piece::Display, Piece::Str(bytes("c"))]),
    );
}

#[test]
fn parse_error_variants() {
    assert_eq!(parse(&bytes("{")), Err(FormatError::InvalidPlaceholder));
    assert_eq!(parse(&bytes("a}b")), Err(FormatError::UnmatchedBrace));
    assert_eq!(geiger::format::unescape(&bytes("}")), Err(FormatError::UnmatchedBrace));
}

#[test]
fn piece_is_str() {
    assert!(Piece::Str(bytes("x")).is_str());
    assert!(!Piece::Display.is_str());
}

#[test]
fn arity_checking() {
    let pieces = parse(&bytes("The answer is {}")).unwrap();
    assert_eq!(required_args(&pieces), 1);
    assert_eq!(check_args(&pieces, 0), Err(FormatError::MissingArguments));
    assert_eq!(check_args(&pieces, 2), Err(FormatError::UnusedArgument));
    assert_eq!(check_args(&pieces, 1), Ok(()));

    let no_args = parse(&bytes("plain")).unwrap();
    assert_eq!(required_args(&no_args), 0);
    assert_eq!(check_args(&no_args, 0), Ok(()));
}

#[test]
fn render_interpolates() {
    let pieces = parse(&bytes("The answer is {}")).unwrap();
    let mut sink = ByteSink::new();
    render(&mut sink, &pieces, &vec![42]);
    assert_eq!(sink.bytes(), &bytes("The answer is 42"));
}

#[test]
fn render_with_escapes() {
    let pieces = parse(&bytes("x{{y{}z")).unwrap();
    let mut sink = ByteSink::new();
    render(&mut sink, &pieces, &vec![7]);
    assert_eq!(sink.bytes(), &bytes("x{y7z"));
}
