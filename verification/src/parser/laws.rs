//! What holds of every scan.

use vstd::prelude::*;
use crate::parser::scanner::{
    flushed, initial, is_delimiter, lookahead, outcome, pending, run, scanned, step, units,
    Progress, ScanError, ScanResult,
};
use crate::parser::states::{terminable, transition, Action, LexState};
use crate::parser::text::{is_pair, is_unit, is_whitespace, trim_end, trim_start, trimmed};

verus! {

/// Scanning is a function of the text: two scans of texts that agree unit by
/// unit give the same statements, or the same error.
pub proof fn scan_twice_agrees(
    first_text: Seq<&str>,
    second_text: Seq<&str>,
    first: ScanResult,
    second: ScanResult,
)
    requires
        first_text.len() == second_text.len(),
        forall|i: int| 0 <= i < first_text.len() ==> first_text[i]@ == second_text[i]@,
        outcome(first) == scanned(units(first_text)),
        outcome(second) == scanned(units(second_text)),
    ensures
        outcome(first) == outcome(second),
{
    assert(units(first_text) =~= units(second_text));
}

/// A unit that is neither a quote, a dash nor a slash: in plain SQL text such
/// a unit opens nothing.
pub open spec fn plain_unit(g: Seq<char>) -> bool {
    !is_unit(g, '\'') && !is_unit(g, '"') && !is_unit(g, '-') && !is_unit(g, '/')
}

/// A text in which no unit is a quote, a dash or a slash.
pub open spec fn plain(graphemes: Seq<Seq<char>>) -> bool {
    forall|i: int| 0 <= i < graphemes.len() ==> plain_unit(#[trigger] graphemes[i])
}

/// The parts of a text, one after the other, as one text.
pub open spec fn joined(parts: Seq<Seq<char>>) -> Seq<char>
    decreases parts.len(),
{
    if parts.len() == 0 {
        Seq::empty()
    } else {
        joined(parts.drop_last()) + parts.last()
    }
}

/// A text cut after each delimiter. The last piece is what follows the last
/// delimiter, and is empty where the text ends with one.
pub open spec fn pieces(graphemes: Seq<Seq<char>>) -> Seq<Seq<char>>
    decreases graphemes.len(),
{
    if graphemes.len() == 0 {
        seq![Seq::empty()]
    } else {
        let before = pieces(graphemes.drop_last());
        let grown = before.drop_last().push(before.last() + graphemes.last());
        if is_delimiter(graphemes.last()) {
            grown.push(Seq::empty())
        } else {
            grown
        }
    }
}

/// The statements that a sequence of pieces gives: each piece without the
/// white space around it, and none for a piece of white space alone.
pub open spec fn collected(parts: Seq<Seq<char>>) -> Seq<Seq<char>>
    decreases parts.len(),
{
    if parts.len() == 0 {
        Seq::empty()
    } else {
        flushed(collected(parts.drop_last()), parts.last())
    }
}

/// A text with no white space at either end.
pub open spec fn tight(s: Seq<char>) -> bool {
    trimmed(s) == s
}

/// There is always a piece: the one in progress.
proof fn lemma_pieces_nonempty(graphemes: Seq<Seq<char>>)
    ensures
        pieces(graphemes).len() >= 1,
    decreases graphemes.len(),
{
    if graphemes.len() > 0 {
        lemma_pieces_nonempty(graphemes.drop_last());
    }
}

/// In plain text the scanner stays in `Start`, keeps nothing back, holds the
/// piece in progress in its buffer and has made statements of the pieces
/// before it.
proof fn lemma_plain_run(graphemes: Seq<Seq<char>>)
    requires
        plain(graphemes),
    ensures
        pieces(graphemes).len() >= 1,
        run(initial(), graphemes) == (Progress {
            state: LexState::Start,
            held: None,
            buffer: pieces(graphemes).last(),
            statements: collected(pieces(graphemes).drop_last()),
        }),
    decreases graphemes.len(),
{
    lemma_pieces_nonempty(graphemes);
    if graphemes.len() == 0 {
        assert(pieces(graphemes).drop_last() =~= Seq::empty());
    } else {
        let front = graphemes.drop_last();
        let g = graphemes.last();
        assert(plain(front)) by {
            assert forall|i: int| 0 <= i < front.len() implies plain_unit(#[trigger] front[i]) by {
                assert(front[i] == graphemes[i]);
            }
        }
        lemma_plain_run(front);
        let before = pieces(front);
        let p = run(initial(), front);
        assert(plain_unit(graphemes[graphemes.len() - 1]));
        assert(lookahead(p.held, g) == g);
        assert(transition(LexState::Start, g) == (Action::Append, LexState::Start));
        let grown = before.drop_last().push(before.last() + g);
        if is_delimiter(g) {
            assert(grown.push(Seq::<char>::empty()).drop_last() =~= grown);
            assert(grown.drop_last() =~= before.drop_last());
        } else {
            assert(grown.drop_last() =~= before.drop_last());
        }
    }
}

/// In a text without quotes, dashes and slashes nothing is a comment or a
/// literal: the statements are the pieces between the delimiters, each with
/// its delimiter and without the white space around it, and a piece of white
/// space alone is none.
pub proof fn plain_text_statements(graphemes: Seq<Seq<char>>)
    requires
        plain(graphemes),
    ensures
        scanned(graphemes) == Ok::<Seq<Seq<char>>, ScanError>(collected(pieces(graphemes))),
{
    lemma_plain_run(graphemes);
    let p = run(initial(), graphemes);
    let parts = pieces(graphemes);
    assert(p.buffer + Seq::<char>::empty() =~= p.buffer);
}

/// Joining takes the parts in order: the last part comes last.
proof fn lemma_joined_push(parts: Seq<Seq<char>>, part: Seq<char>)
    ensures
        joined(parts.push(part)) == joined(parts) + part,
{
    assert(parts.push(part).drop_last() =~= parts);
}

/// Cutting a text into pieces loses nothing of it.
proof fn lemma_joined_pieces(graphemes: Seq<Seq<char>>)
    ensures
        joined(pieces(graphemes)) == joined(graphemes),
    decreases graphemes.len(),
{
    if graphemes.len() == 0 {
        let only = seq![Seq::<char>::empty()];
        assert(only.drop_last() =~= Seq::<Seq<char>>::empty());
        assert(joined(only.drop_last()) + only.last() =~= Seq::<char>::empty());
    } else {
        let front = graphemes.drop_last();
        let g = graphemes.last();
        lemma_joined_pieces(front);
        lemma_pieces_nonempty(front);
        let before = pieces(front);
        let grown = before.drop_last().push(before.last() + g);
        lemma_joined_push(before.drop_last(), before.last() + g);
        assert(joined(grown) =~= joined(before) + g);
        if is_delimiter(g) {
            lemma_joined_push(grown, Seq::empty());
            assert(joined(grown) + Seq::<char>::empty() =~= joined(grown));
        }
    }
}

/// Cutting the white space off the front leaves the rest of the text: what
/// is left is no longer than the text was, and as long only if nothing went.
proof fn lemma_trim_start_len(s: Seq<char>)
    ensures
        trim_start(s).len() <= s.len(),
        trim_start(s).len() == s.len() ==> trim_start(s) == s,
    decreases s.len(),
{
    if s.len() > 0 && is_whitespace(s.first()) {
        lemma_trim_start_len(s.drop_first());
    }
}

/// Cutting the white space off the end leaves the rest of the text: what is
/// left is no longer than the text was, and as long only if nothing went.
proof fn lemma_trim_end_len(s: Seq<char>)
    ensures
        trim_end(s).len() <= s.len(),
        trim_end(s).len() == s.len() ==> trim_end(s) == s,
    decreases s.len(),
{
    if s.len() > 0 && is_whitespace(s.last()) {
        lemma_trim_end_len(s.drop_last());
    }
}

/// A text without the white space around it is no longer than the text, and
/// as long only if the text had none around it.
proof fn lemma_trimmed_len(s: Seq<char>)
    ensures
        trimmed(s).len() <= s.len(),
        trimmed(s).len() == s.len() ==> tight(s),
{
    lemma_trim_start_len(s);
    lemma_trim_end_len(trim_start(s));
}

/// The statements of some pieces, joined, are as long as the pieces without
/// the white space around each.
proof fn lemma_collected_len(parts: Seq<Seq<char>>)
    ensures
        joined(collected(parts)).len() <= joined(parts).len(),
        joined(collected(parts)).len() == joined(parts).len() ==> forall|i: int|
            0 <= i < parts.len() ==> tight(#[trigger] parts[i]),
    decreases parts.len(),
{
    if parts.len() > 0 {
        let front = parts.drop_last();
        lemma_collected_len(front);
        lemma_trimmed_len(parts.last());
        if trimmed(parts.last()).len() != 0 {
            lemma_joined_push(collected(front), trimmed(parts.last()));
        }
        if joined(collected(parts)).len() == joined(parts).len() {
            assert forall|i: int| 0 <= i < parts.len() implies tight(#[trigger] parts[i]) by {
                if i < parts.len() - 1 {
                    assert(parts[i] == front[i]);
                }
            }
        }
    }
}

/// Pieces that have no white space around them are their own statements.
proof fn lemma_collected_tight(parts: Seq<Seq<char>>)
    requires
        forall|i: int| 0 <= i < parts.len() ==> tight(#[trigger] parts[i]),
    ensures
        joined(collected(parts)) == joined(parts),
    decreases parts.len(),
{
    if parts.len() > 0 {
        let front = parts.drop_last();
        assert forall|i: int| 0 <= i < front.len() implies tight(#[trigger] front[i]) by {
            assert(front[i] == parts[i]);
        }
        lemma_collected_tight(front);
        assert(tight(parts[parts.len() - 1]));
        if trimmed(parts.last()).len() != 0 {
            lemma_joined_push(collected(front), trimmed(parts.last()));
        } else {
            assert(joined(front) + parts.last() =~= joined(front));
        }
    }
}

/// Round trip. A text without quotes, dashes and slashes comes back whole
/// when its statements are put one after the other, as long as no piece of it
/// between two delimiters has white space around it. The statements keep their
/// delimiters, so none has to be put back.
pub proof fn plain_text_round_trip(graphemes: Seq<Seq<char>>)
    requires
        plain(graphemes),
        forall|i: int| 0 <= i < pieces(graphemes).len() ==> tight(#[trigger] pieces(graphemes)[i]),
    ensures
        scanned(graphemes) is Ok,
        joined(scanned(graphemes)->Ok_0) == joined(graphemes),
{
    plain_text_statements(graphemes);
    lemma_collected_tight(pieces(graphemes));
    lemma_joined_pieces(graphemes);
}

/// White space around a piece is the one thing that a text without quotes,
/// dashes and slashes loses: its statements, put one after the other, are
/// shorter than the text as soon as one piece has white space around it.
pub proof fn plain_text_loses_white_space(graphemes: Seq<Seq<char>>, i: int)
    requires
        plain(graphemes),
        0 <= i < pieces(graphemes).len(),
        !tight(pieces(graphemes)[i]),
    ensures
        scanned(graphemes) is Ok,
        joined(scanned(graphemes)->Ok_0).len() < joined(graphemes).len(),
{
    plain_text_statements(graphemes);
    lemma_collected_len(pieces(graphemes));
    lemma_joined_pieces(graphemes);
}

/// What is kept back goes with the state: a dash while a line comment may
/// begin, a slash while a block comment may begin, `/*` right after a block
/// comment has begun, a star while it may end, and nothing anywhere else.
pub open spec fn settled(p: Progress) -> bool {
    match p.state {
        LexState::Start | LexState::InString | LexState::InDelimitedIdentifier
        | LexState::InInlineComment => p.held is None,
        LexState::MightStartInlineComment => p.held is Some && is_unit(p.held->0, '-'),
        LexState::MightStartBlockComment => p.held is Some && is_unit(p.held->0, '/'),
        LexState::InBlockComment => p.held is Some ==> is_pair(p.held->0, '/', '*'),
        LexState::MightEndBlockComment => p.held is Some && is_unit(p.held->0, '*'),
    }
}

/// One more unit leaves what is kept back in keeping with the state.
pub proof fn step_keeps_settled(p: Progress, g: Seq<char>)
    requires
        settled(p),
    ensures
        settled(step(p, g)),
{
}

/// In every scan, after every unit, what is kept back goes with the state:
/// at most one key waits, and only in a state that waits for its other half.
pub proof fn run_is_settled(graphemes: Seq<Seq<char>>)
    ensures
        settled(run(initial(), graphemes)),
    decreases graphemes.len(),
{
    if graphemes.len() > 0 {
        run_is_settled(graphemes.drop_last());
        step_keeps_settled(run(initial(), graphemes.drop_last()), graphemes.last());
    }
}

/// A dash or a slash that was kept back is never lost. Where the next unit
/// makes a comment marker of it, a comment begins and the text so far stays
/// as it is. Where it does not, the dash or slash goes into the text together
/// with that unit, and the scan is back in plain text.
pub proof fn held_text_surfaces(p: Progress, g: Seq<char>)
    requires
        settled(p),
        p.state == LexState::MightStartInlineComment || p.state
            == LexState::MightStartBlockComment,
    ensures
        ({
            let q = step(p, g);
            let text = p.buffer + pending(p.held) + g;
            if p.state == LexState::MightStartInlineComment && is_unit(g, '-') {
                q.state == LexState::InInlineComment && q.buffer == p.buffer && q.statements
                    == p.statements
            } else if p.state == LexState::MightStartBlockComment && is_unit(g, '*') {
                q.state == LexState::InBlockComment && q.buffer == p.buffer && q.statements
                    == p.statements
            } else if is_delimiter(g) {
                q.state == LexState::Start && q.held is None && q.buffer == Seq::<char>::empty()
                    && q.statements == flushed(p.statements, text)
            } else {
                q.state == LexState::Start && q.held is None && q.buffer == text && q.statements
                    == p.statements
            }
        }),
{
    let key = lookahead(p.held, g);
    assert(p.buffer + key =~= p.buffer + pending(p.held) + g);
}

/// Inside a string, a delimited identifier or a comment no statement ends,
/// whatever the unit is.
pub proof fn no_boundary_inside(p: Progress, g: Seq<char>)
    requires
        settled(p),
        !terminable(p.state),
    ensures
        step(p, g).statements == p.statements,
{
}

/// Inside a string or a delimited identifier every unit is text: it goes
/// into the buffer as it is, and only the matching quote leaves the literal.
pub proof fn literal_is_kept(p: Progress, g: Seq<char>)
    requires
        settled(p),
        p.state == LexState::InString || p.state == LexState::InDelimitedIdentifier,
    ensures
        step(p, g).buffer == p.buffer + g,
        step(p, g).held is None,
        step(p, g).state == if (p.state == LexState::InString && is_unit(g, '\''))
            || (p.state == LexState::InDelimitedIdentifier && is_unit(g, '"')) {
            LexState::Start
        } else {
            p.state
        },
{
}

/// Inside a comment nothing is text but the line break that ends a line
/// comment.
pub proof fn comment_is_dropped(p: Progress, g: Seq<char>)
    requires
        settled(p),
        p.state == LexState::InInlineComment || p.state == LexState::InBlockComment || p.state
            == LexState::MightEndBlockComment,
    ensures
        step(p, g).buffer == if p.state == LexState::InInlineComment && is_unit(g, '\n') {
            p.buffer + g
        } else {
            p.buffer
        },
{
}

/// What is left of a text after the white space at its front is gone does
/// not begin with white space.
proof fn lemma_trim_start_first(s: Seq<char>)
    ensures
        trim_start(s).len() > 0 ==> !is_whitespace(trim_start(s).first()),
    decreases s.len(),
{
    if s.len() > 0 && is_whitespace(s.first()) {
        lemma_trim_start_first(s.drop_first());
    }
}

/// What is left of a text after the white space at its end is gone does not
/// end with white space, and begins as the text did.
proof fn lemma_trim_end_last(s: Seq<char>)
    ensures
        trim_end(s).len() > 0 ==> {
            &&& !is_whitespace(trim_end(s).last())
            &&& trim_end(s).first() == s.first()
        },
    decreases s.len(),
{
    if s.len() > 0 && is_whitespace(s.last()) {
        lemma_trim_end_last(s.drop_last());
    }
}

/// A statement: a text that is not empty and has no white space at its
/// front or at its end.
pub open spec fn is_statement(s: Seq<char>) -> bool {
    s.len() > 0 && !is_whitespace(s.first()) && !is_whitespace(s.last())
}

/// Closing the buffer adds a statement or nothing.
proof fn lemma_flushed_statements(statements: Seq<Seq<char>>, buffer: Seq<char>)
    requires
        forall|i: int| 0 <= i < statements.len() ==> is_statement(#[trigger] statements[i]),
    ensures
        forall|i: int|
            0 <= i < flushed(statements, buffer).len() ==> is_statement(
                #[trigger] flushed(statements, buffer)[i],
            ),
{
    lemma_trim_start_first(buffer);
    lemma_trim_end_last(trim_start(buffer));
}

/// Every statement that was made in the course of a scan is one.
proof fn lemma_run_statements(graphemes: Seq<Seq<char>>)
    ensures
        forall|i: int|
            0 <= i < run(initial(), graphemes).statements.len() ==> is_statement(
                #[trigger] run(initial(), graphemes).statements[i],
            ),
    decreases graphemes.len(),
{
    if graphemes.len() > 0 {
        let p = run(initial(), graphemes.drop_last());
        let g = graphemes.last();
        lemma_run_statements(graphemes.drop_last());
        lemma_flushed_statements(p.statements, p.buffer + lookahead(p.held, g));
    }
}

/// No statement of a scan is empty, and none has white space at its front or
/// at its end.
pub proof fn statements_are_trimmed(graphemes: Seq<Seq<char>>)
    ensures
        scanned(graphemes) matches Ok(statements) ==> forall|i: int|
            0 <= i < statements.len() ==> is_statement(#[trigger] statements[i]),
{
    let p = run(initial(), graphemes);
    lemma_run_statements(graphemes);
    lemma_flushed_statements(p.statements, p.buffer);
    lemma_flushed_statements(p.statements, p.buffer + pending(p.held));
}

} // verus!
