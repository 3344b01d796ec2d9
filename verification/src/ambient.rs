//! What the panels show while no command asks for anything else: the title,
//! then the clock text, then the weather text, and so on in turn. Each text
//! is followed by the pulse on one unit after the other. A text that is not
//! stored, or that was cut within a character when it was stored, is passed
//! over.

use crate::text::{Data, Error};
use vstd::prelude::*;
use vstd::string::StringSliceAdditionalSpecFns;
use vstd::utf8::valid_utf8;

verus! {

/// The text of the title.
pub const TITLE: &'static str = "AKIHABARA";

/// The seconds that pass after the start before the first text is shown.
pub const START_DELAY_SECS: u64 = 3;

/// The items of the programme, in their order.
#[derive(Debug, Clone, Copy, PartialEq, Eq, Structural)]
pub enum Programme {
    /// The title.
    Title,
    /// The stored clock text.
    Clock,
    /// The stored weather text.
    Weather,
}

/// The bytes of the text that is shown for a stored buffer, where one is:
/// a buffer is shown when it is there and is valid UTF-8.
pub open spec fn shown_bytes<const N: usize>(stored: Option<[u8; N]>) -> Option<Seq<u8>> {
    match stored {
        Some(buffer) => if valid_utf8(buffer@) {
            Some(buffer@)
        } else {
            None
        },
        None => None,
    }
}

impl Programme {
    /// The item that follows `self`: after the last one the first comes
    /// again.
    pub open spec fn following(self) -> Programme {
        match self {
            Programme::Title => Programme::Clock,
            Programme::Clock => Programme::Weather,
            Programme::Weather => Programme::Title,
        }
    }

    /// The item that the programme starts with.
    pub fn first() -> (item: Self)
        ensures
            item == Programme::Title,
    {
        Programme::Title
    }

    /// The item that follows `self`.
    pub fn next(self) -> (item: Self)
        ensures
            item == self.following(),
    {
        match self {
            Programme::Title => Programme::Clock,
            Programme::Clock => Programme::Weather,
            Programme::Weather => Programme::Title,
        }
    }

    /// The text to scroll for this item, and `None` where the item is passed
    /// over.
    pub fn text<'a>(self, data: &'a Data) -> (text: Option<&'a str>)
        ensures
            match self {
                Programme::Title => text == Some(TITLE),
                Programme::Clock => match shown_bytes(data.clock) {
                    Some(bytes) => text matches Some(t) && t.spec_bytes() == bytes,
                    None => text is None,
                },
                Programme::Weather => match shown_bytes(data.weather) {
                    Some(bytes) => text matches Some(t) && t.spec_bytes() == bytes,
                    None => text is None,
                },
            },
    {
        let stored: Option<Result<&'a str, Error>> = match self {
            Programme::Title => {
                return Some(TITLE);
            },
            Programme::Clock => data.clock_text(),
            Programme::Weather => data.weather_text(),
        };
        match stored {
            Some(Ok(text)) => Some(text),
            _ => None,
        }
    }
}

/// The programme never ends and leaves nothing out: every item comes again
/// after three steps, and the three steps pass through all the items.
pub proof fn programme_goes_round(item: Programme)
    ensures
        item.following().following().following() == item,
        item.following() != item,
        item.following().following() != item,
{
}

} // verus!
