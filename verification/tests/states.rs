use jrny::parser::states::{
    Action, InBlockComment, InDelimitedIdentifier, InInlineComment, InString, LexState,
    MightEndBlockComment, MightStartBlockComment, MightStartInlineComment, Start, State,
};

#[test]
fn start_row() {
    assert_eq!(Start.accept("'"), (Action::Append, LexState::InString));
    assert_eq!(Start.accept("\""), (Action::Append, LexState::InDelimitedIdentifier));
    assert_eq!(Start.accept("-"), (Action::Carry, LexState::MightStartInlineComment));
    assert_eq!(Start.accept("/"), (Action::Carry, LexState::MightStartBlockComment));
    assert_eq!(Start.accept("a"), (Action::Append, LexState::Start));
    assert_eq!(Start.accept(";"), (Action::Append, LexState::Start));
    assert_eq!(Start.accept("*"), (Action::Append, LexState::Start));
    assert_eq!(Start.accept("--"), (Action::Append, LexState::Start));
    assert_eq!(Start.accept(""), (Action::Append, LexState::Start));
}

#[test]
fn in_string_row() {
    assert_eq!(InString.accept("'"), (Action::Append, LexState::Start));
    assert_eq!(InString.accept("\""), (Action::Append, LexState::InString));
    assert_eq!(InString.accept(";"), (Action::Append, LexState::InString));
    assert_eq!(InString.accept("-"), (Action::Append, LexState::InString));
    assert_eq!(InString.accept("''"), (Action::Append, LexState::InString));
}

#[test]
fn in_delimited_identifier_row() {
    let s = InDelimitedIdentifier;
    assert_eq!(s.accept("\""), (Action::Append, LexState::Start));
    assert_eq!(s.accept("'"), (Action::Append, LexState::InDelimitedIdentifier));
    assert_eq!(s.accept("/"), (Action::Append, LexState::InDelimitedIdentifier));
}

#[test]
fn might_start_inline_comment_row() {
    let s = MightStartInlineComment;
    assert_eq!(s.accept("'"), (Action::Append, LexState::InString));
    assert_eq!(s.accept("\""), (Action::Append, LexState::InDelimitedIdentifier));
    assert_eq!(s.accept("--"), (Action::Ignore, LexState::InInlineComment));
    assert_eq!(s.accept("/"), (Action::Carry, LexState::MightStartBlockComment));
    assert_eq!(s.accept("-"), (Action::Append, LexState::Start));
    assert_eq!(s.accept("-a"), (Action::Append, LexState::Start));
    assert_eq!(s.accept("-'"), (Action::Append, LexState::Start));
}

#[test]
fn in_inline_comment_row() {
    assert_eq!(InInlineComment.accept("\n"), (Action::Append, LexState::Start));
    assert_eq!(InInlineComment.accept("\r"), (Action::Ignore, LexState::InInlineComment));
    assert_eq!(InInlineComment.accept("\r\n"), (Action::Ignore, LexState::InInlineComment));
    assert_eq!(InInlineComment.accept(";"), (Action::Ignore, LexState::InInlineComment));
    assert_eq!(InInlineComment.accept("'"), (Action::Ignore, LexState::InInlineComment));
}

#[test]
fn might_start_block_comment_row() {
    let s = MightStartBlockComment;
    assert_eq!(s.accept("'"), (Action::Append, LexState::InString));
    assert_eq!(s.accept("\""), (Action::Append, LexState::InDelimitedIdentifier));
    assert_eq!(s.accept("-"), (Action::Ignore, LexState::MightStartInlineComment));
    assert_eq!(s.accept("/*"), (Action::Carry, LexState::InBlockComment));
    assert_eq!(s.accept("/"), (Action::Append, LexState::Start));
    assert_eq!(s.accept("/a"), (Action::Append, LexState::Start));
    assert_eq!(s.accept("*/"), (Action::Append, LexState::Start));
}

#[test]
fn in_block_comment_row() {
    assert_eq!(InBlockComment.accept("*"), (Action::Carry, LexState::MightEndBlockComment));
    assert_eq!(InBlockComment.accept("/"), (Action::Ignore, LexState::InBlockComment));
    assert_eq!(InBlockComment.accept(";"), (Action::Ignore, LexState::InBlockComment));
    assert_eq!(InBlockComment.accept("/*"), (Action::Ignore, LexState::InBlockComment));
    assert_eq!(InBlockComment.accept("/**"), (Action::Ignore, LexState::InBlockComment));
}

#[test]
fn might_end_block_comment_row() {
    let s = MightEndBlockComment;
    assert_eq!(s.accept("*/"), (Action::Ignore, LexState::Start));
    assert_eq!(s.accept("**"), (Action::Ignore, LexState::InBlockComment));
    assert_eq!(s.accept("*a"), (Action::Ignore, LexState::InBlockComment));
    assert_eq!(s.accept("/"), (Action::Ignore, LexState::InBlockComment));
}

#[test]
fn only_three_states_can_terminate() {
    assert!(Start.can_terminate());
    assert!(MightStartInlineComment.can_terminate());
    assert!(MightStartBlockComment.can_terminate());
    assert!(!InString.can_terminate());
    assert!(!InDelimitedIdentifier.can_terminate());
    assert!(!InInlineComment.can_terminate());
    assert!(!InBlockComment.can_terminate());
    assert!(!MightEndBlockComment.can_terminate());
}

#[test]
fn the_closed_set_answers_as_its_member() {
    let all = [
        LexState::Start,
        LexState::InString,
        LexState::InDelimitedIdentifier,
        LexState::MightStartInlineComment,
        LexState::InInlineComment,
        LexState::MightStartBlockComment,
        LexState::InBlockComment,
        LexState::MightEndBlockComment,
    ];
    let keys = ["'", "\"", "-", "/", "*", "\n", "--", "/*", "*/", ";", "a", ""];
    for state in all {
        for key in keys {
            let expected = match state {
                LexState::Start => Start.accept(key),
                LexState::InString => InString.accept(key),
                LexState::InDelimitedIdentifier => InDelimitedIdentifier.accept(key),
                LexState::MightStartInlineComment => MightStartInlineComment.accept(key),
                LexState::InInlineComment => InInlineComment.accept(key),
                LexState::MightStartBlockComment => MightStartBlockComment.accept(key),
                LexState::InBlockComment => InBlockComment.accept(key),
                LexState::MightEndBlockComment => MightEndBlockComment.accept(key),
            };
            assert_eq!(state.accept(key), expected);
        }
    }
    assert!(LexState::Start.can_terminate());
    assert!(!LexState::InInlineComment.can_terminate());
}
