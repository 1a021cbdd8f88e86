//! What is copied and pasted.

use vstd::prelude::*;
use vstd::string::*;

verus! {

#[derive(Clone, Copy, Debug, PartialEq, Eq, Structural)]
pub enum ImageFormat {
    Png,
    Jpeg,
    Webp,
    Gif,
    Svg,
    Bmp,
    Tiff,
}

/// A text, and what the application wants to remember with it.
#[derive(Debug, PartialEq, Eq)]
pub struct ClipboardString {
    pub text: String,
    pub metadata: Option<String>,
}

#[derive(Debug, PartialEq, Eq)]
pub enum ClipboardEntry {
    Text(ClipboardString),
    Image { format: ImageFormat, bytes: Vec<u8> },
}

/// The texts of the entries, one after the other; images have none.
pub open spec fn texts(entries: Seq<ClipboardEntry>) -> Seq<char>
    decreases entries.len(),
{
    if entries.len() == 0 {
        seq![]
    } else {
        texts(entries.drop_last()) + match entries.last() {
            ClipboardEntry::Text(string) => string.text@,
            ClipboardEntry::Image { format, bytes } => seq![],
        }
    }
}

pub fn joined_text(entries: &Vec<ClipboardEntry>) -> (text: String)
    ensures
        text@ == texts(entries@),
{
    let mut text = String::new();
    let mut index: usize = 0;
    while index < entries.len()
        invariant
            index <= entries@.len(),
            text@ == texts(entries@.take(index as int)),
        decreases entries@.len() - index,
    {
        assert(entries@.take(index + 1).drop_last() =~= entries@.take(index as int));
        if let ClipboardEntry::Text(string) = &entries[index] {
            text.append(string.text.as_str());
        }
        index += 1;
    }
    assert(entries@.take(index as int) =~= entries@);
    text
}

} // verus!
