//! What the system keyboard asks of a text field: positions and ranges are offsets in
//! UTF-16 units, as the field's input handler counts them.

use crate::input::{KeyDownEvent, Keystroke, KeystrokeView, Modifiers};
use crate::text::same_text;
use vstd::prelude::*;

verus! {

/// Directions in a layout of text.
pub const TEXT_DIRECTION_RIGHT: isize = 0;

pub const TEXT_DIRECTION_LEFT: isize = 1;

pub const TEXT_DIRECTION_UP: isize = 2;

pub const TEXT_DIRECTION_DOWN: isize = 3;

/// How much text past the selection is read to find the end of the document.
pub const DOCUMENT_PROBE: usize = 4096;

/// A range of text, from `start` up to `end`.
#[derive(Clone, Copy, Debug, PartialEq, Eq, Structural)]
pub struct TextRange {
    pub start: usize,
    pub end: usize,
}

pub open spec fn not_negative(value: isize) -> int {
    if value < 0 {
        0
    } else {
        value as int
    }
}

/// The offset that a position object holds; never negative.
pub fn position_offset(stored: isize) -> (offset: usize)
    ensures
        offset == not_negative(stored),
{
    if stored < 0 {
        0
    } else {
        stored as usize
    }
}

/// The range that a range object holds: neither bound is negative, and the end is not
/// before the start.
pub fn range_bounds(stored_start: isize, stored_end: isize) -> (range: TextRange)
    ensures
        range.start == not_negative(stored_start),
        range.end == if not_negative(stored_end) < not_negative(stored_start) {
            not_negative(stored_start)
        } else {
            not_negative(stored_end)
        },
        range.start <= range.end,
{
    let start: usize = position_offset(stored_start);
    let end: usize = position_offset(stored_end);
    TextRange {
        start,
        end: if end < start {
            start
        } else {
            end
        },
    }
}

/// Whether a range object holds no text.
pub fn range_is_empty(stored_start: isize, stored_end: isize) -> (empty: bool)
    ensures
        empty == (stored_start >= stored_end),
{
    stored_start >= stored_end
}

/// Where the text is read to find the end of the document: at the end of the selection or
/// of the marked text, whichever is later.
pub fn document_anchor(selection_end: Option<usize>, marked_end: Option<usize>) -> (anchor: usize)
    ensures
        ({
            let selected: usize = match selection_end {
                Some(end) => end,
                None => 0,
            };
            let marked: usize = match marked_end {
                Some(end) => end,
                None => 0,
            };
            anchor == if selected < marked {
                marked
            } else {
                selected
            }
        }),
{
    let selected: usize = match selection_end {
        Some(end) => end,
        None => 0,
    };
    let marked: usize = match marked_end {
        Some(end) => end,
        None => 0,
    };
    if selected < marked {
        marked
    } else {
        selected
    }
}

/// The range that is read past the anchor.
pub fn document_probe(anchor: usize) -> (range: TextRange)
    requires
        anchor + DOCUMENT_PROBE <= usize::MAX,
    ensures
        range.start == anchor,
        range.end == anchor + DOCUMENT_PROBE,
        range.end - range.start == 4096,
{
    TextRange { start: anchor, end: anchor + DOCUMENT_PROBE }
}

/// The number of UTF-16 units of a character.
pub open spec fn utf16_len(c: char) -> nat {
    if c as u32 >= 0x1_0000 {
        2
    } else {
        1
    }
}

/// The number of UTF-16 units of a text.
pub open spec fn utf16_count(text: Seq<char>) -> nat
    decreases text.len(),
{
    if text.len() == 0 {
        0
    } else {
        utf16_count(text.drop_last()) + utf16_len(text.last())
    }
}

/// The end of the document: the text that came back from the probe ends where the document
/// does.
pub fn document_end(anchor: usize, probed: Option<&str>) -> (end: usize)
    requires
        probed matches Some(text) ==> anchor + utf16_count(text@) <= usize::MAX,
    ensures
        end == (match probed {
            Some(text) => anchor + utf16_count(text@),
            None => anchor as int,
        }),
{
    match probed {
        Some(text) => {
            let length: usize = text.unicode_len();
            let mut index: usize = 0;
            let mut units: usize = 0;
            while index < length
                invariant
                    length == text@.len(),
                    index <= length,
                    units == utf16_count(text@.take(index as int)),
                    anchor + utf16_count(text@) <= usize::MAX,
                decreases length - index,
            {
                proof {
                    assert(text@.take(index + 1).drop_last() =~= text@.take(index as int));
                    lemma_utf16_prefix(text@, index + 1);
                }
                let c = text.get_char(index);
                units += if c as u32 >= 0x1_0000 {
                    2
                } else {
                    1
                };
                index += 1;
            }
            assert(text@.take(index as int) =~= text@);
            anchor + units
        },
        None => anchor,
    }
}

proof fn lemma_utf16_prefix(text: Seq<char>, count: int)
    requires
        0 <= count <= text.len(),
    ensures
        utf16_count(text.take(count)) <= utf16_count(text),
    decreases text.len() - count,
{
    if count < text.len() {
        assert(text.take(count + 1).drop_last() =~= text.take(count));
        lemma_utf16_prefix(text, count + 1);
    } else {
        assert(text.take(count) =~= text);
    }
}

/// The range between two positions, in whichever order they come.
pub fn text_range_from_position(from: usize, to: usize) -> (range: TextRange)
    ensures
        range.start <= range.end,
        range.start == from && range.end == to || range.start == to && range.end == from,
{
    if from <= to {
        TextRange { start: from, end: to }
    } else {
        TextRange { start: to, end: from }
    }
}

/// The position `offset` units from `base`; none before the start of the document, and
/// none beyond its end going forward.
pub fn position_from_position(base: usize, offset: isize, document_end: usize) -> (target: Option<
    usize,
>)
    requires
        isize::MIN <= base + offset <= isize::MAX,
    ensures
        target == if base + offset < 0 || (offset > 0 && base + offset > document_end) {
            None::<usize>
        } else {
            Some((base + offset) as usize)
        },
{
    if offset < 0 {
        // The distance back, which fits even where the negation does not.
        let back: usize = (-(offset + 1)) as usize + 1;
        if back > base {
            return None;
        }
        return Some(base - back);
    }
    let target: usize = base + offset as usize;
    if offset > 0 && target > document_end {
        return None;
    }
    Some(target)
}

/// The signed distance of a move in a direction: right and down go forward.
pub open spec fn directed(direction: isize, offset: isize) -> int {
    if direction == TEXT_DIRECTION_RIGHT || direction == TEXT_DIRECTION_DOWN {
        offset as int
    } else if direction == TEXT_DIRECTION_LEFT || direction == TEXT_DIRECTION_UP {
        -offset
    } else {
        0
    }
}

pub fn offset_in_direction(direction: isize, offset: isize) -> (signed: isize)
    requires
        offset > isize::MIN,
    ensures
        signed == directed(direction, offset),
{
    if direction == TEXT_DIRECTION_RIGHT || direction == TEXT_DIRECTION_DOWN {
        offset
    } else if direction == TEXT_DIRECTION_LEFT || direction == TEXT_DIRECTION_UP {
        -offset
    } else {
        0
    }
}

/// The position that a move in a direction leads to.
pub fn position_from_position_in_direction(
    base: usize,
    direction: isize,
    offset: isize,
    document_end: usize,
) -> (target: Option<usize>)
    requires
        offset > isize::MIN,
        isize::MIN <= base + directed(direction, offset) <= isize::MAX,
    ensures
        ({
            let signed = directed(direction, offset);
            target == if base + signed < 0 || (signed > 0 && base + signed > document_end) {
                None::<usize>
            } else {
                Some((base + signed) as usize)
            }
        }),
{
    position_from_position(base, offset_in_direction(direction, offset), document_end)
}

/// How two positions are ordered: -1, 0 or 1; 0 where one is missing.
pub fn compare_position(a: Option<usize>, b: Option<usize>) -> (order: isize)
    ensures
        order == (match (a, b) {
            (Some(a), Some(b)) => if a < b {
                -1int
            } else if a > b {
                1
            } else {
                0
            },
            _ => 0,
        }),
{
    match (a, b) {
        (Some(a), Some(b)) => if a < b {
            -1
        } else if a > b {
            1
        } else {
            0
        },
        _ => 0,
    }
}

/// The signed distance from one position to another; 0 where one is missing.
pub fn offset_from_position(from: Option<usize>, to: Option<usize>) -> (distance: isize)
    requires
        from matches Some(from) ==> from <= isize::MAX,
        to matches Some(to) ==> to <= isize::MAX,
    ensures
        distance == (match (from, to) {
            (Some(from), Some(to)) => to - from,
            _ => 0,
        }),
{
    match (from, to) {
        (Some(from), Some(to)) => to as isize - from as isize,
        _ => 0,
    }
}

/// The position within a range that is farthest in a direction.
pub fn position_within_range(range: TextRange, direction: isize) -> (position: usize)
    ensures
        position == if direction == TEXT_DIRECTION_RIGHT || direction == TEXT_DIRECTION_DOWN {
            range.end
        } else {
            range.start
        },
        direction == 0 || direction == 3 ==> position == range.end,
        direction != 0 && direction != 3 ==> position == range.start,
{
    if direction == TEXT_DIRECTION_RIGHT || direction == TEXT_DIRECTION_DOWN {
        range.end
    } else {
        range.start
    }
}

/// The range of the one unit that lies next to a position in a direction: empty at either
/// end of the document.
pub fn character_range_by_extending(offset: usize, direction: isize, document_end: usize) -> (range:
    TextRange)
    requires
        offset < usize::MAX,
    ensures
        direction == TEXT_DIRECTION_RIGHT || direction == TEXT_DIRECTION_DOWN ==> range.start
            == offset && range.end == if offset < document_end {
            offset + 1
        } else {
            offset as int
        },
        direction != TEXT_DIRECTION_RIGHT && direction != TEXT_DIRECTION_DOWN ==> range.end == offset
            && range.start == if offset > 0 {
            offset - 1
        } else {
            0
        },
        direction == 0 || direction == 3 ==> range.start == offset,
        direction != 0 && direction != 3 ==> range.end == offset,
{
    if direction == TEXT_DIRECTION_RIGHT || direction == TEXT_DIRECTION_DOWN {
        let end: usize = if offset < document_end {
            offset + 1
        } else {
            offset
        };
        TextRange { start: offset, end }
    } else {
        TextRange { start: offset.saturating_sub(1), end: offset }
    }
}

/// The position closest to a point: the character there, else the start of the selection,
/// else the start of the document.
pub fn position_for_point(character: Option<usize>, selection_start: Option<usize>) -> (position:
    usize)
    ensures
        position == (match (character, selection_start) {
            (Some(character), _) => character,
            (None, Some(start)) => start,
            (None, None) => 0,
        }),
{
    match (character, selection_start) {
        (Some(character), _) => character,
        (None, Some(start)) => start,
        (None, None) => 0,
    }
}

/// A position kept within a range, where there is one.
pub fn closest_position_within(position: usize, range: Option<TextRange>) -> (closest: usize)
    requires
        range matches Some(range) ==> range.start <= range.end,
    ensures
        closest == (match range {
            Some(range) => if position < range.start {
                range.start
            } else if position > range.end {
                range.end
            } else {
                position
            },
            None => position,
        }),
{
    match range {
        Some(range) => if position < range.start {
            range.start
        } else if position > range.end {
            range.end
        } else {
            position
        },
        None => position,
    }
}

/// What a backward deletion removes: the selection, or the unit before the caret.
pub fn backward_deletion(selection: TextRange) -> (range: TextRange)
    ensures
        selection.start >= selection.end ==> range.end == selection.start && range.start
            == if selection.start > 0 {
            selection.start - 1
        } else {
            0
        },
        selection.start < selection.end ==> range == selection,
{
    if selection.start >= selection.end {
        TextRange { start: selection.start.saturating_sub(1), end: selection.start }
    } else {
        selection
    }
}

/// A text that the system keyboard inserts: enter and tab are offered as keystrokes first.
#[derive(Debug, PartialEq, Eq)]
pub enum InsertStep {
    /// The event goes to the window's input callback; where it does not handle it, the
    /// text goes into the field.
    Offer { event: KeyDownEvent, text: String },
    /// The text goes into the field.
    Insert(String),
}

/// Inserts a text.
pub fn insert_text(inserted: String, modifiers: Modifiers) -> (step: InsertStep)
    ensures
        inserted@ == "\n"@ || inserted@ == "\r"@ ==> (step matches InsertStep::Offer {
            event,
            text,
        } && text@ == "\n"@ && !event.is_held && event.keystroke@ == (KeystrokeView {
            modifiers,
            key: "enter"@,
            key_char: Some("\n"@),
        })),
        inserted@ == "\t"@ ==> (step matches InsertStep::Offer { event, text } && text@ == "\t"@
            && !event.is_held && event.keystroke@ == (KeystrokeView {
            modifiers,
            key: "tab"@,
            key_char: Some("\t"@),
        })),
        inserted@ != "\n"@ && inserted@ != "\r"@ && inserted@ != "\t"@ ==> step
            == InsertStep::Insert(inserted),
{
    proof {
        reveal_strlit("\n");
        reveal_strlit("\r");
        reveal_strlit("\t");
        assert("\n"@[0] != "\t"@[0]);
        assert("\r"@[0] != "\t"@[0]);
    }
    if same_text(inserted.as_str(), "\n") || same_text(inserted.as_str(), "\r") {
        InsertStep::Offer {
            event: KeyDownEvent {
                keystroke: Keystroke {
                    modifiers,
                    key: "enter".to_owned(),
                    key_char: Some("\n".to_owned()),
                },
                is_held: false,
            },
            text: "\n".to_owned(),
        }
    } else if same_text(inserted.as_str(), "\t") {
        InsertStep::Offer {
            event: KeyDownEvent {
                keystroke: Keystroke {
                    modifiers,
                    key: "tab".to_owned(),
                    key_char: Some("\t".to_owned()),
                },
                is_held: false,
            },
            text: "\t".to_owned(),
        }
    } else {
        InsertStep::Insert(inserted)
    }
}

/// The keystroke that a backward deletion is offered as first.
pub fn backspace_event(modifiers: Modifiers) -> (event: KeyDownEvent)
    ensures
        event.keystroke@ == (KeystrokeView { modifiers, key: "backspace"@, key_char: None }),
        !event.is_held,
{
    KeyDownEvent {
        keystroke: Keystroke { modifiers, key: "backspace".to_owned(), key_char: None },
        is_held: false,
    }
}

/// What is inserted once the window's input callback has had the keystroke: the text that
/// it stands for, where nothing took the keystroke.
pub fn finish_insert(text: String, handled: bool) -> (inserted: Option<String>)
    ensures
        handled ==> inserted is None,
        !handled ==> inserted == Some(text),
{
    if handled {
        None
    } else {
        Some(text)
    }
}

/// What is removed once the window's input callback has had the backspace: where nothing
/// took it, the selection of the focused text or the unit before the caret.
pub fn finish_backspace(selection: Option<TextRange>, handled: bool) -> (removed: Option<TextRange>)
    ensures
        removed == (match selection {
            Some(selection) if !handled => Some(
                TextRange {
                    start: if selection.start < selection.end || selection.start == 0 {
                        selection.start
                    } else {
                        (selection.start - 1) as usize
                    },
                    end: if selection.start < selection.end {
                        selection.end
                    } else {
                        selection.start
                    },
                },
            ),
            _ => None,
        }),
{
    match selection {
        Some(selection) => if handled {
            None
        } else {
            Some(backward_deletion(selection))
        },
        None => None,
    }
}

} // verus!
