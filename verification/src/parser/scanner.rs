//! The driver: it shows the text to the states, unit by unit, keeps what they
//! let through, and cuts it into statements.
//!
//! A text comes as its graphemes in order, the smallest units that the one
//! who feeds it cares to tell apart; a unit may be one byte, one character or
//! several. The driver looks into a unit only to compare it with the few
//! characters that mean something to the states, and with the delimiter `;`.

use vstd::prelude::*;
use vstd::string::StringExecFns;
use crate::parser::states::{terminable, transition, Action, LexState, State};
use crate::parser::text::{glyph, is_unit, split_first, trim, trimmed, Glyph};

verus! {

/// Why a text could not be cut into statements: the construct that was still
/// open where the text ended.
#[derive(Clone, Copy, Debug, PartialEq, Eq, Structural)]
pub enum ScanError {
    /// A string literal has no closing `'`.
    UnterminatedString,
    /// A delimited identifier has no closing `"`.
    UnterminatedQuotedIdentifier,
    /// A block comment has no closing `*/`.
    UnterminatedBlockComment,
}

/// One statement: the text between two boundaries, comments left out, without
/// the white space around it. It ends with its delimiter where it had one.
#[derive(Debug, PartialEq, Eq)]
pub struct Statement {
    text: String,
}

impl Clone for Statement {
    fn clone(&self) -> (copy: Statement)
        ensures
            copy@ == self@,
    {
        Statement { text: self.text.clone() }
    }
}

impl View for Statement {
    type V = Seq<char>;

    closed spec fn view(&self) -> Seq<char> {
        self.text@
    }
}

impl Statement {
    /// The text of the statement.
    pub fn text(&self) -> (t: &str)
        ensures
            t@ == self@,
    {
        self.text.as_str()
    }

    /// The text of the statement, as an owned string.
    pub fn into_string(self) -> (t: String)
        ensures
            t@ == self@,
    {
        self.text
    }
}

/// What scanning gives: the statements in the order of the text, or the
/// reason why there are none.
pub type ScanResult = Result<Vec<Statement>, ScanError>;

/// The texts of a sequence of statements.
pub open spec fn texts(statements: Seq<Statement>) -> Seq<Seq<char>> {
    statements.map_values(|s: Statement| s@)
}

/// A scan result as the texts of its statements.
pub open spec fn outcome(result: ScanResult) -> Result<Seq<Seq<char>>, ScanError> {
    match result {
        Ok(statements) => Ok(texts(statements@)),
        Err(e) => Err(e),
    }
}

/// The units of a text that is handed over as a slice of strings.
pub open spec fn units(graphemes: Seq<&str>) -> Seq<Seq<char>> {
    graphemes.map_values(|g: &str| g@)
}

/// The units of a text that is handed over whole: its characters, each a
/// unit of its own.
pub open spec fn singles(text: Seq<char>) -> Seq<Seq<char>> {
    text.map_values(|c: char| seq![c])
}

/// How far a scan has come.
pub struct Progress {
    /// The lexical state after the last unit.
    pub state: LexState,
    /// The key that was kept back, to be decided with the next unit.
    pub held: Option<Seq<char>>,
    /// The text of the statement that is being collected.
    pub buffer: Seq<char>,
    /// The statements that are complete.
    pub statements: Seq<Seq<char>>,
}

/// The progress before the first unit.
pub open spec fn initial() -> Progress {
    Progress { state: LexState::Start, held: None, buffer: Seq::empty(), statements: Seq::empty() }
}

/// The lookahead key for the unit `g`: the key kept back, if there is one,
/// and `g` after it.
pub open spec fn lookahead(held: Option<Seq<char>>, g: Seq<char>) -> Seq<char> {
    match held {
        Some(h) => h + g,
        None => g,
    }
}

/// The text that is kept back: none where no key is.
pub open spec fn pending(held: Option<Seq<char>>) -> Seq<char> {
    match held {
        Some(h) => h,
        None => Seq::empty(),
    }
}

/// Whether the unit `g` is the statement delimiter.
pub open spec fn is_delimiter(g: Seq<char>) -> bool {
    is_unit(g, ';')
}

/// The statements after the text in `buffer` has been closed: `buffer`
/// without the white space around it becomes the last statement, unless
/// nothing is left of it.
pub open spec fn flushed(statements: Seq<Seq<char>>, buffer: Seq<char>) -> Seq<Seq<char>> {
    if trimmed(buffer).len() == 0 {
        statements
    } else {
        statements.push(trimmed(buffer))
    }
}

/// The progress after the state has decided on `key`, the lookahead key for
/// the unit `g`.
///
/// A key that is kept back waits for the next unit; one that is thrown away
/// is gone; one that is let through goes to the end of the buffer. Where the
/// unit is the delimiter, its key is let through and the state after it is
/// `Start`, the statement is complete.
pub open spec fn decided(p: Progress, key: Seq<char>, g: Seq<char>) -> Progress {
    let (action, next) = transition(p.state, key);
    match action {
        Action::Carry => Progress { state: next, held: Some(key), ..p },
        Action::Ignore => Progress { state: next, held: None, ..p },
        Action::Append => if next == LexState::Start && is_delimiter(g) {
            Progress {
                state: next,
                held: None,
                buffer: Seq::empty(),
                statements: flushed(p.statements, p.buffer + key),
            }
        } else {
            Progress { state: next, held: None, buffer: p.buffer + key, ..p }
        },
    }
}

/// The progress after one more unit, `g`.
pub open spec fn step(p: Progress, g: Seq<char>) -> Progress {
    decided(p, lookahead(p.held, g), g)
}

/// The progress after the units `graphemes`, one after the other.
pub open spec fn run(p: Progress, graphemes: Seq<Seq<char>>) -> Progress
    decreases graphemes.len(),
{
    if graphemes.len() == 0 {
        p
    } else {
        step(run(p, graphemes.drop_last()), graphemes.last())
    }
}

/// The construct that is open in `state`, if the text may not end there.
pub open spec fn unterminated(state: LexState) -> Option<ScanError> {
    match state {
        LexState::InString => Some(ScanError::UnterminatedString),
        LexState::InDelimitedIdentifier => Some(ScanError::UnterminatedQuotedIdentifier),
        LexState::InBlockComment | LexState::MightEndBlockComment => Some(
            ScanError::UnterminatedBlockComment,
        ),
        _ => None,
    }
}

/// What a scan gives when the text ends at `p`.
///
/// In a state that can terminate, a key that is still kept back is text like
/// any other, and what the buffer then holds is the last statement, with or
/// without a delimiter. An open string, delimited identifier or block comment
/// is an error, and no statement is given. A line comment is no error: it
/// ends with the text, as if a line break followed.
pub open spec fn finished(p: Progress) -> Result<Seq<Seq<char>>, ScanError> {
    if terminable(p.state) {
        Ok(flushed(p.statements, p.buffer + pending(p.held)))
    } else {
        match unterminated(p.state) {
            Some(e) => Err(e),
            None => Ok(flushed(p.statements, p.buffer)),
        }
    }
}

/// The statements of the text made of the units `graphemes`.
pub open spec fn scanned(graphemes: Seq<Seq<char>>) -> Result<Seq<Seq<char>>, ScanError> {
    finished(run(initial(), graphemes))
}

/// A scan in progress. It is fed the text unit by unit and asked for the
/// statements at the end.
pub struct Scanner {
    state: LexState,
    held: Option<String>,
    buffer: String,
    statements: Vec<Statement>,
}

impl View for Scanner {
    type V = Progress;

    closed spec fn view(&self) -> Progress {
        Progress {
            state: self.state,
            held: match self.held {
                Some(h) => Some(h@),
                None => None,
            },
            buffer: self.buffer@,
            statements: texts(self.statements@),
        }
    }
}

impl Scanner {
    /// A scanner that has seen nothing yet.
    pub fn new() -> (s: Scanner)
        ensures
            s@ == initial(),
    {
        let s = Scanner {
            state: LexState::Start,
            held: None,
            buffer: String::new(),
            statements: Vec::new(),
        };
        assert(s@.statements =~= Seq::empty());
        s
    }

    /// Closes the statement in the buffer.
    fn flush(&mut self)
        ensures
            final(self)@ == (Progress {
                buffer: Seq::empty(),
                statements: flushed(old(self)@.statements, old(self)@.buffer),
                ..old(self)@
            }),
    {
        let text = trim(self.buffer.as_str());
        if !text.is_empty() {
            let statement = Statement { text: String::from_str(text) };
            self.statements.push(statement);
            assert(texts(self.statements@) =~= texts(old(self).statements@).push(
                trimmed(old(self).buffer@),
            ));
        }
        self.buffer = String::new();
    }

    /// Lets the state decide on `key`, the lookahead key for `grapheme`.
    fn decide(&mut self, key: &str, grapheme: &str)
        ensures
            final(self)@ == decided(old(self)@, key@, grapheme@),
    {
        let (action, next) = self.state.accept(key);
        self.state = next;
        match action {
            Action::Carry => {
                self.held = Some(String::from_str(key));
            },
            Action::Ignore => {
                self.held = None;
            },
            Action::Append => {
                self.held = None;
                self.buffer.append(key);
                if next == LexState::Start && delimiter(grapheme) {
                    self.flush();
                }
            },
        }
    }

    /// Takes the next unit of the text.
    pub fn accept(&mut self, grapheme: &str)
        ensures
            final(self)@ == step(old(self)@, grapheme@),
    {
        match self.held.take() {
            Some(mut key) => {
                key.append(grapheme);
                self.decide(key.as_str(), grapheme)
            },
            None => self.decide(grapheme, grapheme),
        }
    }

    /// Ends the scan: the statements of the text that was fed, or the
    /// construct that the text left open.
    pub fn finish(self) -> (result: ScanResult)
        ensures
            outcome(result) == finished(self@),
    {
        let mut scanner = self;
        if scanner.state.can_terminate() {
            match scanner.held.take() {
                Some(key) => {
                    scanner.buffer.append(key.as_str());
                },
                None => {
                    assert(scanner.buffer@ + Seq::<char>::empty() =~= scanner.buffer@);
                },
            }
            scanner.flush();
            return Ok(scanner.statements);
        }
        match scanner.state {
            LexState::InString => Err(ScanError::UnterminatedString),
            LexState::InDelimitedIdentifier => Err(ScanError::UnterminatedQuotedIdentifier),
            LexState::InBlockComment | LexState::MightEndBlockComment => Err(
                ScanError::UnterminatedBlockComment,
            ),
            _ => {
                scanner.flush();
                Ok(scanner.statements)
            },
        }
    }
}

/// Tells the statement delimiter from other units.
fn delimiter(grapheme: &str) -> (r: bool)
    ensures
        r == is_delimiter(grapheme@),
{
    match glyph(grapheme) {
        Glyph::One(';') => true,
        _ => false,
    }
}

/// Cuts a text, handed over as its units in order, into statements.
///
/// The result is that of the table and the driver run over all the units: the
/// statements in the order of the text, or the construct that was open where
/// the text ended.
pub fn scan(graphemes: &[&str]) -> (result: ScanResult)
    ensures
        outcome(result) == scanned(units(graphemes@)),
{
    let mut scanner = Scanner::new();
    let n: usize = graphemes.len();
    let mut i: usize = 0;
    while i < n
        invariant
            i <= n,
            n == graphemes@.len(),
            scanner@ == run(initial(), units(graphemes@).take(i as int)),
        decreases n - i,
    {
        scanner.accept(graphemes[i]);
        assert(units(graphemes@).take(i as int + 1).drop_last() =~= units(graphemes@).take(
            i as int,
        ));
        i = i + 1;
    }
    assert(units(graphemes@).take(n as int) =~= units(graphemes@));
    scanner.finish()
}

/// Cuts a text into statements, every character of it taken as one unit.
///
/// The result is that of [`scan`] on the characters of `text`, one string
/// each.
pub fn scan_text(text: &str) -> (result: ScanResult)
    ensures
        outcome(result) == scanned(singles(text@)),
{
    let mut scanner = Scanner::new();
    let mut rest: &str = text;
    let ghost mut seen: int = 0;
    assert(text@.skip(0) =~= text@);
    loop
        invariant
            0 <= seen <= text@.len(),
            rest@ == text@.skip(seen),
            scanner@ == run(initial(), singles(text@).take(seen)),
        ensures
            seen == text@.len(),
        decreases rest@.len(),
    {
        match split_first(rest) {
            None => {
                break ;
            },
            Some((unit, tail)) => {
                scanner.accept(unit);
                proof {
                    assert(unit@ == singles(text@)[seen]);
                    assert(singles(text@).take(seen + 1).drop_last() =~= singles(text@).take(seen));
                    assert(tail@ =~= text@.skip(seen + 1));
                    seen = seen + 1;
                }
                rest = tail;
            },
        }
    }
    assert(singles(text@).take(seen) =~= singles(text@));
    scanner.finish()
}

} // verus!
