//! A captured source location and its text form.

use vstd::prelude::*;
use vstd::std_specs::cmp::{PartialEqSpec, PartialEqSpecImpl};
use crate::decimal::{decimal, lemma_decimal_shape, lemma_decimal_tells_apart, push_decimal};
use crate::text::{lemma_last_separator_cuts_once, same_text};

verus! {

/// What a location says, as plain mathematical values.
pub struct Position {
    pub file: Seq<char>,
    pub line: nat,
    pub column: nat,
}

/// The text form of a position: the file, the line and the column, joined by
/// colons. The file is taken as it is, so a colon in it is not told apart
/// from a separator.
pub open spec fn text_of(p: Position) -> Seq<char> {
    p.file + seq![':'] + decimal(p.line) + seq![':'] + decimal(p.column)
}

/// A point in a source file: the path of the file, and the line and column
/// of the point, both counted from one by whoever captures it.
///
/// The type is a plain record. It accepts any path and any numbers, and the
/// text form and the comparison are defined for all of them.
#[derive(Eq, Hash)]
pub struct SourceLoc {
    /// The path of the file, as the compiler knows it.
    pub file: &'static str,
    /// The line in the file.
    pub line: u32,
    /// The column in the line.
    pub column: u32,
}

impl View for SourceLoc {
    type V = Position;

    open spec fn view(&self) -> Position {
        Position { file: self.file@, line: self.line as nat, column: self.column as nat }
    }
}

impl Clone for SourceLoc {
    /// A copy holds the same three fields as the value it was taken from.
    fn clone(&self) -> (copy: Self)
        ensures
            copy == *self,
    {
        SourceLoc { file: self.file, line: self.line, column: self.column }
    }
}

impl Copy for SourceLoc {}

impl PartialEq for SourceLoc {
    /// Two locations are equal exactly when they say the same: when the
    /// file, the line and the column are equal.
    fn eq(&self, other: &Self) -> (equal: bool)
        ensures
            equal == (self@ == other@),
    {
        same_text(self.file, other.file)
            && self.line == other.line
            && self.column == other.column
    }
}

impl PartialEqSpecImpl for SourceLoc {
    open spec fn obeys_eq_spec() -> bool {
        true
    }

    /// Two locations are equal when the file, the line and the column are.
    open spec fn eq_spec(&self, other: &Self) -> bool {
        &&& self.file@ == other.file@
        &&& self.line == other.line
        &&& self.column == other.column
    }
}

impl SourceLoc {
    /// The text that `{:?}` writes.
    pub open spec fn debug_text(&self) -> Seq<char> {
        text_of(self@)
    }

    /// The text that `{}` writes.
    pub open spec fn display_text(&self) -> Seq<char> {
        self.debug_text()
    }

    /// Builds the text that `{:?}` writes: `file:line:column`.
    pub fn debug_string(&self) -> (s: String)
        ensures
            s@ == self.debug_text(),
    {
        let mut s = String::from_str(self.file);
        s.append(":");
        push_decimal(&mut s, self.line);
        s.append(":");
        push_decimal(&mut s, self.column);
        proof {
            reveal_strlit(":");
            assert(":"@ =~= seq![':']);
        }
        s
    }

    /// Builds the text that `{}` writes, which is the one that `{:?}` writes.
    pub fn display_string(&self) -> (s: String)
        ensures
            s@ == self.display_text(),
    {
        self.debug_string()
    }
}

/// Equality of locations is equality of what they say: unequal locations
/// differ in the file, the line or the column, and locations that agree in
/// all three are equal.
pub proof fn lemma_equal_iff_same_position(a: SourceLoc, b: SourceLoc)
    ensures
        PartialEqSpec::eq_spec(&a, &b) <==> a@ == b@,
        a@ == b@ <==> a.file@ == b.file@ && a.line == b.line && a.column == b.column,
{
}

/// The text tells locations apart: two locations have the same text exactly
/// when they say the same. Read from its end, a text has one column, one
/// line and one file, whatever the file holds.
pub proof fn lemma_text_tells_apart(a: SourceLoc, b: SourceLoc)
    ensures
        a.debug_text() == b.debug_text() <==> a@ == b@,
{
    if a.debug_text() == b.debug_text() {
        lemma_same_text_same_position(a@, b@);
    }
}

/// Positions with the same text are the same position. The column is what
/// follows the last colon, and the line is what follows the last colon
/// before it, since neither number holds a colon.
proof fn lemma_same_text_same_position(a: Position, b: Position)
    requires
        text_of(a) == text_of(b),
    ensures
        a == b,
{
    let front_a = a.file + seq![':'] + decimal(a.line);
    let front_b = b.file + seq![':'] + decimal(b.line);
    lemma_decimal_shape(a.line);
    lemma_decimal_shape(b.line);
    lemma_decimal_shape(a.column);
    lemma_decimal_shape(b.column);
    lemma_last_separator_cuts_once(
        ':',
        front_a,
        decimal(a.column),
        front_b,
        decimal(b.column),
    );
    lemma_last_separator_cuts_once(
        ':',
        a.file,
        decimal(a.line),
        b.file,
        decimal(b.line),
    );
    lemma_decimal_tells_apart(a.line, b.line);
    lemma_decimal_tells_apart(a.column, b.column);
}

/// The two renderings of a location are the same text.
pub proof fn lemma_renderings_agree(loc: SourceLoc)
    ensures
        loc.display_text() == loc.debug_text(),
        loc.display_text() == text_of(loc@),
{
}

/// `core::fmt::Formatter`, the sink that the formatting traits write to.
/// Nothing inside it is visible here.
#[verifier::external_type_specification]
#[verifier::external_body]
pub struct ExFormatter<'a>(core::fmt::Formatter<'a>);

/// `core::fmt::Error`, the error of a sink that refused a write.
#[verifier::external_type_specification]
#[verifier::external_body]
pub struct ExError(core::fmt::Error);

/// Hands `text` to `core::fmt::Formatter::write_str`. Whether the sink takes
/// the text is up to the sink, so nothing is claimed of the outcome.
#[verifier::external_body]
fn write_text(f: &mut core::fmt::Formatter<'_>, text: &str) -> (done: core::fmt::Result) {
    f.write_str(text)
}

impl core::fmt::Debug for SourceLoc {
    /// Writes the text that `debug_string` builds, whatever width or flags
    /// the formatter carries.
    #[inline]
    fn fmt(&self, f: &mut core::fmt::Formatter<'_>) -> (done: core::fmt::Result) {
        let s = self.debug_string();
        write_text(f, s.as_str())
    }
}

impl core::fmt::Display for SourceLoc {
    /// Writes the text that `display_string` builds, whatever width or flags
    /// the formatter carries.
    #[inline]
    fn fmt(&self, f: &mut core::fmt::Formatter<'_>) -> (done: core::fmt::Result) {
        let s = self.display_string();
        write_text(f, s.as_str())
    }
}

} // verus!
