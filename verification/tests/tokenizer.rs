use uka::sakura_script::tokenizer::{
    tokenize, Bracket, Cursor, Escape, Illegal, Lexer, Percent, Separator, Span, Text, Token,
    TokenStream,
};

fn written(input: &str) -> Vec<String> {
    tokenize(input).collect().iter().map(|t| t.to_string()).collect()
}

#[test]
fn spans() {
    let span = Span::new(10, 15);
    assert_eq!((span.start(), span.end(), span.len()), (10, 15, 5));
    assert!(!span.is_empty());
    assert!(Span::new(3, 3).is_empty() && Span::new(4, 3).is_empty());
    assert_eq!(Span::new(4, 3).len(), 0);
    assert_eq!(Span::new(2, 5).merge(Span::new(4, 9)), Span::new(2, 9));
    assert_eq!(Span::new(4, 9).merge(Span::new(2, 5)), Span::new(2, 9));
    assert_eq!(Span::new(1, 8).merge(Span::new(2, 3)), Span::new(1, 8));
}

#[test]
fn tokens_are_written_as_they_stood() {
    let span = Span::new(0, 2);
    assert_eq!(Text::new("Hello", span).to_string(), "Hello");
    assert_eq!(Escape::new("n", span).to_string(), "\\n");
    assert_eq!(Percent::new("month", span).to_string(), "%month");
    assert_eq!(Bracket::new("[", span).to_string(), "[");
    assert_eq!(Separator::new(",", span).to_string(), ",");
    assert_eq!(Illegal::new("%", span).to_string(), "%");
    assert_eq!(Escape::new("_w", span).as_str(), "_w");
    assert_eq!(Escape::new("_w", span).span(), span);
    assert_eq!(Token::Escape(Escape::new("_w", span)).span(), span);
}

#[test]
fn a_script_is_cut_into_its_tokens() {
    assert_eq!(
        written("Hello\\\\n[0]%month"),
        ["Hello", "\\\\", "n", "[", "0", "]", "%month"]
    );
    assert_eq!(
        written("\\_w[500]\\n,%selfname2%selfname,さくら"),
        ["\\_w", "[", "500", "]", "\\n", ",", "%selfname2", "%selfname", ",", "さくら"]
    );
    assert_eq!(written(""), Vec::<String>::new());
    assert_eq!(written("%%"), ["%", "%"]);
    assert_eq!(written("\\_"), ["\\_"]);
    assert_eq!(written("%second%sex"), ["%second", "%sex"]);
    assert_eq!(written("%screenwidth%screenheight%screen"), ["%screenwidth", "%screenheight", "%screen"]);
}

#[test]
fn a_built_in_variable_takes_as_many_characters_as_its_longest_form() {
    assert_eq!(written("%msfoo"), ["%msf", "oo"]);
    assert_eq!(written("%exhale"), ["%exha", "le"]);
    assert_eq!(written("%j[1]"), ["%j[", "1", "]"]);
    assert_eq!(written("%mo"), ["%mo"]);
    assert_eq!(written("%moあい"), ["%moあい"]);
    assert_eq!(written("%username!?"), ["%username!", "?"]);
}

#[test]
fn tokens_stand_where_they_were_read() {
    let tokens = TokenStream::new("ab\\n[%x?,%").collect();
    let spans: Vec<(usize, usize)> = tokens.iter().map(|t| (t.span().start(), t.span().end())).collect();
    assert_eq!(spans, [(0, 2), (2, 4), (4, 5), (5, 8), (8, 9), (9, 10)]);
    assert!(matches!(tokens[0], Token::Text(_)));
    assert!(matches!(tokens[1], Token::Escape(_)));
    assert!(matches!(tokens[2], Token::Bracket(_)));
    assert!(matches!(tokens[3], Token::Percent(_)));
    assert!(matches!(tokens[4], Token::Separator(_)));
    assert!(matches!(tokens[5], Token::Illegal(_)));
    let mut stream = tokenize("あ%moい");
    assert_eq!(stream.next().unwrap().span(), Span::new(0, 1));
    assert_eq!(stream.next().unwrap().span(), Span::new(1, 5));
    assert!(stream.next().is_none());
    assert!(stream.next().is_none());
}

#[test]
fn lexer_and_cursor_agree_on_positions() {
    let mut lexer = Lexer::new("a,b");
    assert_eq!(lexer.next_token().unwrap().span(), Span::new(0, 1));
    assert_eq!(lexer.next_token().unwrap().span(), Span::new(1, 2));
    assert_eq!(lexer.next_token().unwrap().span(), Span::new(2, 3));
    assert!(lexer.next_token().is_none());
    let mut cursor = Cursor::new("a🌟b");
    assert_eq!(cursor.read_while(|c| c != 'b'), "a🌟");
    assert_eq!(cursor.position(), 2);
    assert_eq!(cursor.peek_nth(0), "");
    assert_eq!(cursor.into_inner(), "a🌟b");
}
