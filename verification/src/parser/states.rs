//! The lexical states of the scanner and the table that moves between them.
//!
//! A state knows nothing of statements or buffers. It is handed a lookahead
//! key, one unit of text or a deferred unit joined with the one after it, and
//! answers with what is to be done with the key and with the state to go on in.

use vstd::prelude::*;
use crate::parser::text::{glyph, is_pair, is_unit, Glyph};

verus! {

/// What the driver does with the lookahead key it has just shown to a state.
#[derive(Clone, Copy, Debug, PartialEq, Eq, Structural)]
pub enum Action {
    /// Throw the key away.
    Ignore,
    /// Add the key to the text of the statement.
    Append,
    /// Keep the key back and decide with the next unit.
    Carry,
}

/// The lexical contexts, as one closed set.
#[derive(Clone, Copy, Debug, PartialEq, Eq, Structural)]
pub enum LexState {
    Start,
    InString,
    InDelimitedIdentifier,
    MightStartInlineComment,
    InInlineComment,
    MightStartBlockComment,
    InBlockComment,
    MightEndBlockComment,
}

/// The transition table: the action and the next state for every state and
/// every key.
pub open spec fn transition(state: LexState, key: Seq<char>) -> (Action, LexState) {
    match state {
        LexState::Start => {
            if is_unit(key, '\'') {
                (Action::Append, LexState::InString)
            } else if is_unit(key, '"') {
                (Action::Append, LexState::InDelimitedIdentifier)
            } else if is_unit(key, '-') {
                (Action::Carry, LexState::MightStartInlineComment)
            } else if is_unit(key, '/') {
                (Action::Carry, LexState::MightStartBlockComment)
            } else {
                (Action::Append, LexState::Start)
            }
        },
        LexState::InString => {
            if is_unit(key, '\'') {
                (Action::Append, LexState::Start)
            } else {
                (Action::Append, LexState::InString)
            }
        },
        LexState::InDelimitedIdentifier => {
            if is_unit(key, '"') {
                (Action::Append, LexState::Start)
            } else {
                (Action::Append, LexState::InDelimitedIdentifier)
            }
        },
        LexState::MightStartInlineComment => {
            if is_unit(key, '\'') {
                (Action::Append, LexState::InString)
            } else if is_unit(key, '"') {
                (Action::Append, LexState::InDelimitedIdentifier)
            } else if is_pair(key, '-', '-') {
                (Action::Ignore, LexState::InInlineComment)
            } else if is_unit(key, '/') {
                (Action::Carry, LexState::MightStartBlockComment)
            } else {
                (Action::Append, LexState::Start)
            }
        },
        LexState::InInlineComment => {
            if is_unit(key, '\n') {
                (Action::Append, LexState::Start)
            } else {
                (Action::Ignore, LexState::InInlineComment)
            }
        },
        LexState::MightStartBlockComment => {
            if is_unit(key, '\'') {
                (Action::Append, LexState::InString)
            } else if is_unit(key, '"') {
                (Action::Append, LexState::InDelimitedIdentifier)
            } else if is_unit(key, '-') {
                (Action::Ignore, LexState::MightStartInlineComment)
            } else if is_pair(key, '/', '*') {
                (Action::Carry, LexState::InBlockComment)
            } else {
                (Action::Append, LexState::Start)
            }
        },
        LexState::InBlockComment => {
            if is_unit(key, '*') {
                (Action::Carry, LexState::MightEndBlockComment)
            } else {
                (Action::Ignore, LexState::InBlockComment)
            }
        },
        LexState::MightEndBlockComment => {
            if is_pair(key, '*', '/') {
                (Action::Ignore, LexState::Start)
            } else {
                (Action::Ignore, LexState::InBlockComment)
            }
        },
    }
}

/// Whether the text may end in `state` without leaving a construct open.
pub open spec fn terminable(state: LexState) -> bool {
    state == LexState::Start || state == LexState::MightStartInlineComment || state
        == LexState::MightStartBlockComment
}

/// A lexical state: one row group of the transition table.
pub trait State {
    /// The member of the closed set that this value stands for.
    spec fn lex(&self) -> LexState;

    /// Whether the text may end in this state.
    fn can_terminate(&self) -> (r: bool)
        ensures
            r == terminable(self.lex()),
    ;

    /// The action for `grapheme`, the lookahead key, and the state to go on in.
    fn accept(&self, grapheme: &str) -> (r: (Action, LexState))
        ensures
            r == transition(self.lex(), grapheme@),
    ;
}

/// Plain SQL text, outside any literal or comment.
pub struct Start;

/// Inside a string literal, after its opening `'`.
pub struct InString;

/// Inside a delimited identifier, after its opening `"`.
pub struct InDelimitedIdentifier;

/// After a `-` that may be the first half of `--`.
pub struct MightStartInlineComment;

/// Inside a `--` comment, which runs to the end of the line.
pub struct InInlineComment;

/// After a `/` that may be the first half of `/*`.
pub struct MightStartBlockComment;

/// Inside a `/* */` comment.
pub struct InBlockComment;

/// Inside a block comment, after a `*` that may be the first half of `*/`.
pub struct MightEndBlockComment;

impl State for Start {
    open spec fn lex(&self) -> LexState {
        LexState::Start
    }

    fn can_terminate(&self) -> (r: bool) {
        true
    }

    fn accept(&self, s: &str) -> (r: (Action, LexState)) {
        match glyph(s) {
            Glyph::One('\'') => (Action::Append, LexState::InString),
            Glyph::One('"') => (Action::Append, LexState::InDelimitedIdentifier),
            Glyph::One('-') => (Action::Carry, LexState::MightStartInlineComment),
            Glyph::One('/') => (Action::Carry, LexState::MightStartBlockComment),
            _ => (Action::Append, LexState::Start),
        }
    }
}

impl State for InString {
    open spec fn lex(&self) -> LexState {
        LexState::InString
    }

    fn can_terminate(&self) -> (r: bool) {
        false
    }

    fn accept(&self, s: &str) -> (r: (Action, LexState)) {
        match glyph(s) {
            Glyph::One('\'') => (Action::Append, LexState::Start),
            _ => (Action::Append, LexState::InString),
        }
    }
}

impl State for InDelimitedIdentifier {
    open spec fn lex(&self) -> LexState {
        LexState::InDelimitedIdentifier
    }

    fn can_terminate(&self) -> (r: bool) {
        false
    }

    fn accept(&self, s: &str) -> (r: (Action, LexState)) {
        match glyph(s) {
            Glyph::One('"') => (Action::Append, LexState::Start),
            _ => (Action::Append, LexState::InDelimitedIdentifier),
        }
    }
}

impl State for MightStartInlineComment {
    open spec fn lex(&self) -> LexState {
        LexState::MightStartInlineComment
    }

    fn can_terminate(&self) -> (r: bool) {
        true
    }

    fn accept(&self, s: &str) -> (r: (Action, LexState)) {
        match glyph(s) {
            Glyph::One('\'') => (Action::Append, LexState::InString),
            Glyph::One('"') => (Action::Append, LexState::InDelimitedIdentifier),
            Glyph::Two('-', '-') => (Action::Ignore, LexState::InInlineComment),
            Glyph::One('/') => (Action::Carry, LexState::MightStartBlockComment),
            _ => (Action::Append, LexState::Start),
        }
    }
}

impl State for InInlineComment {
    open spec fn lex(&self) -> LexState {
        LexState::InInlineComment
    }

    fn can_terminate(&self) -> (r: bool) {
        false
    }

    fn accept(&self, s: &str) -> (r: (Action, LexState)) {
        match glyph(s) {
            Glyph::One('\n') => (Action::Append, LexState::Start),
            _ => (Action::Ignore, LexState::InInlineComment),
        }
    }
}

impl State for MightStartBlockComment {
    open spec fn lex(&self) -> LexState {
        LexState::MightStartBlockComment
    }

    fn can_terminate(&self) -> (r: bool) {
        true
    }

    fn accept(&self, s: &str) -> (r: (Action, LexState)) {
        match glyph(s) {
            Glyph::One('\'') => (Action::Append, LexState::InString),
            Glyph::One('"') => (Action::Append, LexState::InDelimitedIdentifier),
            Glyph::One('-') => (Action::Ignore, LexState::MightStartInlineComment),
            Glyph::Two('/', '*') => (Action::Carry, LexState::InBlockComment),
            _ => (Action::Append, LexState::Start),
        }
    }
}

impl State for InBlockComment {
    open spec fn lex(&self) -> LexState {
        LexState::InBlockComment
    }

    fn can_terminate(&self) -> (r: bool) {
        false
    }

    fn accept(&self, s: &str) -> (r: (Action, LexState)) {
        match glyph(s) {
            Glyph::One('*') => (Action::Carry, LexState::MightEndBlockComment),
            _ => (Action::Ignore, LexState::InBlockComment),
        }
    }
}

impl State for MightEndBlockComment {
    open spec fn lex(&self) -> LexState {
        LexState::MightEndBlockComment
    }

    fn can_terminate(&self) -> (r: bool) {
        false
    }

    fn accept(&self, s: &str) -> (r: (Action, LexState)) {
        match glyph(s) {
            Glyph::Two('*', '/') => (Action::Ignore, LexState::Start),
            _ => (Action::Ignore, LexState::InBlockComment),
        }
    }
}

/// The closed set is itself a state: it answers as the member it holds.
impl State for LexState {
    open spec fn lex(&self) -> LexState {
        *self
    }

    fn can_terminate(&self) -> (r: bool) {
        match self {
            LexState::Start => Start.can_terminate(),
            LexState::InString => InString.can_terminate(),
            LexState::InDelimitedIdentifier => InDelimitedIdentifier.can_terminate(),
            LexState::MightStartInlineComment => MightStartInlineComment.can_terminate(),
            LexState::InInlineComment => InInlineComment.can_terminate(),
            LexState::MightStartBlockComment => MightStartBlockComment.can_terminate(),
            LexState::InBlockComment => InBlockComment.can_terminate(),
            LexState::MightEndBlockComment => MightEndBlockComment.can_terminate(),
        }
    }

    fn accept(&self, s: &str) -> (r: (Action, LexState)) {
        match self {
            LexState::Start => Start.accept(s),
            LexState::InString => InString.accept(s),
            LexState::InDelimitedIdentifier => InDelimitedIdentifier.accept(s),
            LexState::MightStartInlineComment => MightStartInlineComment.accept(s),
            LexState::InInlineComment => InInlineComment.accept(s),
            LexState::MightStartBlockComment => MightStartBlockComment.accept(s),
            LexState::InBlockComment => InBlockComment.accept(s),
            LexState::MightEndBlockComment => MightEndBlockComment.accept(s),
        }
    }
}

} // verus!
