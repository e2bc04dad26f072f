//! Deterministic application of server-reported text edits.
//!
//! Edits address a half-open range in (line, character) coordinates plus a
//! replacement string.  Each edit is translated to absolute char offsets by
//! line-to-char translation against the buffer as it stands, then the range
//! is removed and the replacement inserted at its start; edits are applied
//! in the order the list gives them, against the buffer mutated in place, so
//! the coordinates of later edits are read against the already-edited text.
//! Character offsets are applied as char offsets from the line start; for
//! ASCII text, byte, char and UTF-16 offsets coincide.  An edit whose
//! coordinates do not fit the buffer is skipped: an empty list or a
//! degenerate empty range is a no-op, never an error.
//!
//! The buffer is a rope from the `ropey` crate, held behind trusted
//! declarations whose contracts state what each call does to the text the
//! rope holds.

use vstd::prelude::*;

verus! {

/// A position in a document: zero-based line and character offset within
/// that line, as the protocol reports them.
#[derive(Clone, Copy, Debug, PartialEq, Eq)]
pub struct Position {
    pub line: u32,
    pub character: u32,
}

/// A half-open range between two positions.
#[derive(Clone, Copy, Debug, PartialEq, Eq)]
pub struct EditRange {
    pub start: Position,
    pub end: Position,
}

/// One server-reported replacement: the addressed range is removed and the
/// replacement text inserted in its place.  Produced only by the remote
/// process; the client never originates edits.
#[derive(Clone, Debug, PartialEq, Eq)]
pub struct TextEdit {
    pub range: EditRange,
    pub new_text: String,
}

#[verifier::external_type_specification]
#[verifier::external_body]
pub struct ExRope(ropey::Rope);

/// The text a rope holds, as a sequence of chars.
pub uninterp spec fn rope_text(rope: ropey::Rope) -> Seq<char>;

/// What `ropey::Rope::len_lines` returns for text with these chars: the
/// number of lines, which is one more than the number of line breaks.
pub uninterp spec fn line_count(text: Seq<char>) -> nat;

/// What `ropey::Rope::line_to_char` returns for text with these chars: the
/// char index at which the given zero-based line starts (one past the end of
/// the line range gives the text's length).
pub uninterp spec fn line_start_char(text: Seq<char>, line: int) -> int;

/// Relies on ropey::Rope::from_str: builds a rope holding exactly the given
/// text.
#[verifier::external_body]
fn rope_from_str(text: &str) -> (rope: ropey::Rope)
    ensures
        rope_text(rope) == text@,
{
    ropey::Rope::from_str(text)
}

/// Relies on ropey::Rope::len_chars: the total number of chars in the rope.
#[verifier::external_body]
fn rope_len_chars(rope: &ropey::Rope) -> (n: usize)
    ensures
        n as nat == rope_text(*rope).len(),
{
    rope.len_chars()
}

/// Relies on ropey::Rope::try_line_to_char: the char index of the start of
/// the given line, which lies within the text; out of bounds exactly when the
/// line number exceeds the rope's line count.
#[verifier::external_body]
fn rope_line_to_char(rope: &ropey::Rope, line: usize) -> (start: Option<usize>)
    ensures
        start is Some <==> line as nat <= line_count(rope_text(*rope)),
        start matches Some(k) ==> k as int == line_start_char(rope_text(*rope), line as int)
            && k as nat <= rope_text(*rope).len(),
{
    rope.try_line_to_char(line).ok()
}

/// Relies on ropey::Rope::remove: removes the chars in the half-open index
/// range, leaving the text around it.
#[verifier::external_body]
fn rope_remove(rope: &mut ropey::Rope, start: usize, end: usize)
    requires
        start <= end,
        end as nat <= rope_text(*old(rope)).len(),
    ensures
        rope_text(*final(rope)) == rope_text(*old(rope)).subrange(0, start as int) + rope_text(
            *old(rope),
        ).subrange(end as int, rope_text(*old(rope)).len() as int),
{
    rope.remove(start..end)
}

/// Relies on ropey::Rope::insert: inserts the text at the given char index.
#[verifier::external_body]
fn rope_insert(rope: &mut ropey::Rope, at: usize, text: &str)
    requires
        at as nat <= rope_text(*old(rope)).len(),
    ensures
        rope_text(*final(rope)) == rope_text(*old(rope)).subrange(0, at as int) + text@ + rope_text(
            *old(rope),
        ).subrange(at as int, rope_text(*old(rope)).len() as int),
{
    rope.insert(at, text)
}

/// Relies on ropey's Display impl (via ToString): writes out exactly the
/// text the rope holds.
#[verifier::external_body]
fn rope_to_string(rope: &ropey::Rope) -> (text: String)
    ensures
        text@ == rope_text(*rope),
{
    rope.to_string()
}

/// The absolute char offset an edit's start position addresses in this text.
pub open spec fn edit_start(text: Seq<char>, edit: TextEdit) -> int {
    line_start_char(text, edit.range.start.line as int) + edit.range.start.character as int
}

/// The absolute char offset an edit's end position addresses in this text.
pub open spec fn edit_end(text: Seq<char>, edit: TextEdit) -> int {
    line_start_char(text, edit.range.end.line as int) + edit.range.end.character as int
}

/// Whether an edit's coordinates fit this text: both lines exist and the
/// addressed offsets form a range within the text.
pub open spec fn edit_applies(text: Seq<char>, edit: TextEdit) -> bool {
    &&& edit.range.start.line as nat <= line_count(text)
    &&& edit.range.end.line as nat <= line_count(text)
    &&& 0 <= edit_start(text, edit)
    &&& edit_start(text, edit) <= edit_end(text, edit)
    &&& edit_end(text, edit) <= text.len()
}

/// What one edit does to the text: the addressed range is removed and the
/// replacement inserted at its start; an edit whose coordinates do not fit
/// leaves the text unchanged.
pub open spec fn apply_edit(text: Seq<char>, edit: TextEdit) -> Seq<char> {
    if edit_applies(text, edit) {
        text.subrange(0, edit_start(text, edit)) + edit.new_text@ + text.subrange(
            edit_end(text, edit),
            text.len() as int,
        )
    } else {
        text
    }
}

/// What a whole edit list does: each edit is applied in list order to the
/// text the edits before it produced.
pub open spec fn apply_edit_list(text: Seq<char>, edits: Seq<TextEdit>) -> Seq<char>
    decreases edits.len(),
{
    if edits.len() == 0 {
        text
    } else {
        apply_edit_list(apply_edit(text, edits[0]), edits.drop_first())
    }
}

/// Applying an empty edit list returns the input text unchanged.
pub proof fn lemma_empty_edit_list_is_identity(text: Seq<char>)
    ensures
        apply_edit_list(text, Seq::<TextEdit>::empty()) == text,
{
}

/// Edit application is deterministic: applying one edit list to one text
/// yields one output, so two applications of the same list to the same text
/// yield identical results.
pub proof fn lemma_apply_deterministic(
    text: Seq<char>,
    edits: Seq<TextEdit>,
    first: Seq<char>,
    second: Seq<char>,
)
    requires
        first == apply_edit_list(text, edits),
        second == apply_edit_list(text, edits),
    ensures
        first == second,
{
}

/// An edit with a degenerate empty range and an empty replacement is a
/// no-op.
pub proof fn lemma_degenerate_edit_is_noop(text: Seq<char>, edit: TextEdit)
    requires
        edit.range.start == edit.range.end,
        edit.new_text@.len() == 0,
    ensures
        apply_edit(text, edit) == text,
{
    if edit_applies(text, edit) {
        assert(edit_start(text, edit) == edit_end(text, edit));
        assert(apply_edit(text, edit) =~= text);
    }
}

/// Applies a list of server-reported edits to the given text and returns the
/// edited text: each edit, in list order, has its range translated to char
/// offsets against the buffer as it stands, the range removed and the
/// replacement inserted; an edit whose coordinates do not fit the buffer is
/// skipped.  An empty list returns the input unchanged.
pub fn apply_edits(text: &str, edits: &Vec<TextEdit>) -> (result: String)
    ensures
        result@ == apply_edit_list(text@, edits@),
        edits@.len() == 0 ==> result@ == text@,
{
    let mut rope = rope_from_str(text);
    let end = edits.len();
    let mut i: usize = 0;
    proof {
        assert(edits@.skip(0) =~= edits@);
    }
    while i < end
        invariant
            0 <= i <= end,
            end == edits@.len(),
            apply_edit_list(rope_text(rope), edits@.skip(i as int)) == apply_edit_list(
                text@,
                edits@,
            ),
        decreases end - i,
    {
        let edit = &edits[i];
        let ghost before = rope_text(rope);
        let ghost cur = edits@[i as int];
        let total = rope_len_chars(&rope);
        let start_base = rope_line_to_char(&rope, edit.range.start.line as usize);
        let end_base = rope_line_to_char(&rope, edit.range.end.line as usize);
        match (start_base, end_base) {
            (Some(ls), Some(le)) => {
                let sc = edit.range.start.character as usize;
                let ec = edit.range.end.character as usize;
                if sc <= total - ls && ec <= total - le {
                    let s = ls + sc;
                    let t = le + ec;
                    proof {
                        assert(s as int == edit_start(before, cur));
                        assert(t as int == edit_end(before, cur));
                    }
                    if s <= t {
                        proof {
                            assert(edit_applies(before, cur));
                        }
                        rope_remove(&mut rope, s, t);
                        let ghost shrunk = rope_text(rope);
                        proof {
                            assert(s as nat <= shrunk.len());
                        }
                        rope_insert(&mut rope, s, edit.new_text.as_str());
                        proof {
                            assert(shrunk.subrange(0, s as int) =~= before.subrange(0, s as int));
                            assert(shrunk.subrange(s as int, shrunk.len() as int) =~= before
                                .subrange(t as int, before.len() as int));
                            assert(rope_text(rope) == apply_edit(before, cur));
                        }
                    } else {
                        proof {
                            assert(!edit_applies(before, cur));
                        }
                    }
                } else {
                    proof {
                        assert(!edit_applies(before, cur));
                    }
                }
            },
            _ => {
                proof {
                    assert(!edit_applies(before, cur));
                }
            },
        }
        proof {
            assert(rope_text(rope) == apply_edit(before, cur));
            assert(edits@.skip(i as int)[0] == cur);
            assert(edits@.skip(i as int).drop_first() =~= edits@.skip(i as int + 1));
            assert(apply_edit_list(before, edits@.skip(i as int)) == apply_edit_list(
                apply_edit(before, cur),
                edits@.skip(i as int + 1),
            ));
        }
        i += 1;
    }
    proof {
        assert(edits@.skip(end as int) =~= Seq::<TextEdit>::empty());
    }
    rope_to_string(&rope)
}

} // verus!
