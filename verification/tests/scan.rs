use jrny::parser::scanner::{scan, scan_text, ScanError, Scanner, Statement};

fn texts(statements: Vec<Statement>) -> Vec<String> {
    statements.into_iter().map(|s| s.into_string()).collect()
}

fn scanned(text: &str) -> Result<Vec<String>, ScanError> {
    scan_text(text).map(texts)
}

#[test]
fn line_comment_is_left_out() {
    assert_eq!(
        scanned("select 1; -- trailing comment\nselect 2;"),
        Ok(vec!["select 1;".to_string(), "select 2;".to_string()])
    );
}

#[test]
fn delimiter_in_block_comment_does_not_split() {
    assert_eq!(scanned("select /* a; b */ 1;"), Ok(vec!["select  1;".to_string()]));
}

#[test]
fn delimiter_in_string_does_not_split() {
    assert_eq!(scanned("select ';' as x;"), Ok(vec!["select ';' as x;".to_string()]));
}

#[test]
fn delimiter_in_delimited_identifier_does_not_split() {
    assert_eq!(
        scanned("select 1 as \"a;b\"; select 2;"),
        Ok(vec!["select 1 as \"a;b\";".to_string(), "select 2;".to_string()])
    );
}

#[test]
fn open_string_fails_without_statements() {
    assert_eq!(scanned("select 'abc"), Err(ScanError::UnterminatedString));
    assert_eq!(scanned("select 1; select 'abc"), Err(ScanError::UnterminatedString));
}

#[test]
fn open_delimited_identifier_fails() {
    assert_eq!(scanned("select \"abc"), Err(ScanError::UnterminatedQuotedIdentifier));
}

#[test]
fn open_block_comment_fails() {
    assert_eq!(scanned("select 1; /* never closed"), Err(ScanError::UnterminatedBlockComment));
    assert_eq!(scanned("select 1; /* almost *"), Err(ScanError::UnterminatedBlockComment));
    assert_eq!(scanned("/*"), Err(ScanError::UnterminatedBlockComment));
}

#[test]
fn block_comments_do_not_nest() {
    assert_eq!(
        scanned("/* outer /* inner */ still comment */"),
        Ok(vec!["still comment */".to_string()])
    );
}

#[test]
fn held_dash_at_the_end_is_text() {
    assert_eq!(scanned("select 1 -"), Ok(vec!["select 1 -".to_string()]));
}

#[test]
fn held_slash_at_the_end_is_text() {
    assert_eq!(scanned("select 1 /"), Ok(vec!["select 1 /".to_string()]));
}

#[test]
fn held_dash_before_other_text_is_text() {
    assert_eq!(scanned("select 2-1;"), Ok(vec!["select 2-1;".to_string()]));
    assert_eq!(scanned("select 4/2;"), Ok(vec!["select 4/2;".to_string()]));
}

#[test]
fn delimiter_after_a_held_dash_ends_the_statement() {
    assert_eq!(
        scanned("select 1 -; select 2"),
        Ok(vec!["select 1 -;".to_string(), "select 2".to_string()])
    );
}

#[test]
fn line_comment_at_the_end_is_no_error() {
    assert_eq!(scanned("select 1; -- bye"), Ok(vec!["select 1;".to_string()]));
    assert_eq!(scanned("select 1 -- bye"), Ok(vec!["select 1".to_string()]));
}

#[test]
fn line_comment_ends_at_newline_only() {
    assert_eq!(
        scanned("select 1 -- a\r-- b; c\nfrom t;"),
        Ok(vec!["select 1 \nfrom t;".to_string()])
    );
}

#[test]
fn last_statement_needs_no_delimiter() {
    assert_eq!(
        scanned("select 1;\nselect 2"),
        Ok(vec!["select 1;".to_string(), "select 2".to_string()])
    );
}

#[test]
fn white_space_alone_is_no_statement() {
    assert_eq!(scanned(""), Ok(vec![]));
    assert_eq!(scanned("  \n\t "), Ok(vec![]));
    assert_eq!(scanned("select 1;  \n  "), Ok(vec!["select 1;".to_string()]));
    assert_eq!(scanned(" -- nothing here\n"), Ok(vec![]));
}

#[test]
fn a_delimiter_alone_is_a_statement() {
    assert_eq!(scanned(";;"), Ok(vec![";".to_string(), ";".to_string()]));
}

#[test]
fn white_space_around_a_statement_is_cut_off() {
    assert_eq!(
        scanned("\u{a0}\u{2003}select 1 ;\u{3000}\nselect 2\u{85}"),
        Ok(vec!["select 1 ;".to_string(), "select 2".to_string()])
    );
}

#[test]
fn text_is_not_single_bytes() {
    assert_eq!(
        scanned("select 'é;ü' as \"ñ\"; -- ça\nselect '日本語';"),
        Ok(vec!["select 'é;ü' as \"ñ\";".to_string(), "select '日本語';".to_string()])
    );
}

#[test]
fn comment_markers_in_literals_are_text() {
    assert_eq!(
        scanned("select '-- no' as a, \"/* no */\" as b;"),
        Ok(vec!["select '-- no' as a, \"/* no */\" as b;".to_string()])
    );
}

#[test]
fn quotes_in_comments_open_nothing() {
    assert_eq!(
        scanned("select 1 /* it's */; -- don't\nselect 2;"),
        Ok(vec!["select 1 ;".to_string(), "select 2;".to_string()])
    );
}

#[test]
fn empty_block_comment_stays_open() {
    assert_eq!(scanned("select /**/ 1;"), Err(ScanError::UnterminatedBlockComment));
    assert_eq!(scanned("select /***/ 1;"), Ok(vec!["select  1;".to_string()]));
}

#[test]
fn quote_after_a_held_dash_is_text() {
    assert_eq!(scanned("select 1 -'a;"), Ok(vec!["select 1 -'a;".to_string()]));
}

#[test]
fn scanning_twice_gives_the_same() {
    let text = "select 1; -- c\nselect 'a;b' /* x */ from t;\nselect 3";
    assert_eq!(scanned(text), scanned(text));
    assert_eq!(
        scanned(text),
        Ok(vec![
            "select 1;".to_string(),
            "select 'a;b'  from t;".to_string(),
            "select 3".to_string()
        ])
    );
}

#[test]
fn plain_text_comes_back_whole() {
    let text = "select 1;select 2 from t;insert into t values (3)";
    let statements = scanned(text).unwrap();
    assert_eq!(statements.concat(), text);
    assert_eq!(statements.len(), 3);
}

#[test]
fn plain_text_loses_white_space_between_statements() {
    let text = "select 1; select 2;";
    let statements = scanned(text).unwrap();
    assert_eq!(statements.concat(), "select 1;select 2;");
}

#[test]
fn units_may_be_longer_than_a_character() {
    let units = ["select", " ", "1", ";", "\r\n", "-", "-", "x;", "\n", "e\u{301}", ";"];
    assert_eq!(
        scan(&units).map(texts),
        Ok(vec!["select 1;".to_string(), "e\u{301};".to_string()])
    );
    // A unit that holds the delimiter and more is no delimiter.
    assert_eq!(scan(&["a", ";b", "c"]).map(texts), Ok(vec!["a;bc".to_string()]));
    // A line break of two characters in one unit does not end a line comment.
    assert_eq!(scan(&["-", "-", "a", "\r\n", "b", ";"]).map(texts), Ok(vec![]));
}

#[test]
fn scan_and_scan_text_agree_on_characters() {
    let text = "select 'x'; /* y */ select \"z\" -- w";
    let units: Vec<String> = text.chars().map(|c| c.to_string()).collect();
    let units: Vec<&str> = units.iter().map(|u| u.as_str()).collect();
    assert_eq!(scan(&units).map(texts), scanned(text));
}

#[test]
fn scanner_is_fed_unit_by_unit() {
    let mut scanner = Scanner::new();
    for unit in ["a", ";", " ", "b", "-"] {
        scanner.accept(unit);
    }
    let statements = scanner.finish().map(texts);
    assert_eq!(statements, Ok(vec!["a;".to_string(), "b-".to_string()]));
}

#[test]
fn statement_gives_its_text() {
    let statements = scan_text("select 1;").unwrap();
    assert_eq!(statements[0].text(), "select 1;");
    assert_eq!(statements[0].clone(), statements[0]);
}

#[test]
fn no_statement_is_empty_or_padded() {
    let inputs = [
        "  select 1 ;  select 2\n;\n\n",
        " ; ;; ",
        "\t-- only a comment\n\u{a0}select 'x' \u{2003}",
        "/* a */ /* b */ select 1 /* c */ ; /* d */",
        "a -",
        " / ",
    ];
    for input in inputs {
        let statements = scanned(input).unwrap();
        for statement in statements {
            assert!(!statement.is_empty(), "{:?}", input);
            assert_eq!(statement.trim(), statement, "{:?}", input);
        }
    }
}
