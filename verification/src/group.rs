//! The group of display units that stand side by side.
//!
//! A text scrolls over the group as one band: each unit shows the same
//! scroll, one character ahead of its left neighbour. The group prepares one
//! animation for each unit; the caller steps the four side by side, each on
//! its own unit, and is done when all four are.

use crate::display::{admits, DotMatrixLedMutex, Flash, Scroll};
use crate::graphics::{Panorama, EMPTY, FULL, MAX_LEN};
use crate::text::{
    blanks, encode_blanks, encode_concat, encode_keeps_nul, first_nul_is_nul_index, fit_prefix, has_nul,
    has_nul_char, leading_bytes, null_term_string, pad, pad_body, padded, spaces, PAD_CONTENT,
};
use vstd::prelude::*;
use vstd::string::StringSliceAdditionalSpecFns;
use vstd::utf8::{
    decode_utf8, encode_utf8, encode_utf8_decode_utf8, encode_utf8_valid_utf8, valid_utf8,
};

verus! {

/// The number of units in the group.
pub const UNITS: usize = 4;

/// The display units, from the left.
pub struct Displays(pub [DotMatrixLedMutex; 4]);

/// The text that the group scrolls for a message: the padded message up to
/// its first NUL byte. Where padding has cut the message within a character,
/// so that what is left is no text, nothing is scrolled.
pub open spec fn working_text(message: Seq<char>) -> Seq<char> {
    let bytes = leading_bytes(padded(encode_utf8(message)));
    if valid_utf8(bytes) {
        decode_utf8(bytes)
    } else {
        Seq::empty()
    }
}

/// A message without the NUL character that needs no more than 59 bytes is
/// scrolled whole, with four spaces before it and one after it.
pub proof fn working_text_of_short_message(message: Seq<char>)
    requires
        encode_utf8(message).len() <= PAD_CONTENT,
        !has_nul_char(message),
    ensures
        working_text(message) == blanks(4) + message + blanks(1),
{
    let bytes = encode_utf8(message);
    let shown = blanks(4) + message + blanks(1);
    encode_keeps_nul(message);
    encode_blanks(4);
    encode_blanks(1);
    encode_concat(blanks(4), message);
    encode_concat(blanks(4) + message, blanks(1));
    let whole = padded(bytes);
    if bytes.len() < PAD_CONTENT {
        first_nul_is_nul_index(whole, 5 + bytes.len() as int);
    }
    assert(leading_bytes(whole) =~= encode_utf8(shown));
    encode_utf8_valid_utf8(shown);
    encode_utf8_decode_utf8(shown);
}

/// `text` from place `i` on, and nothing where `text` is shorter than that.
pub open spec fn from_place(text: Seq<char>, i: int) -> Seq<char> {
    if 0 <= i <= text.len() {
        text.skip(i)
    } else {
        Seq::empty()
    }
}

/// Frame `k` of the alert: dark and lit in turn, the lit ones at the odd
/// places.
pub open spec fn alert_frame(k: int) -> crate::graphics::Graphic {
    if k % 2 == 1 {
        FULL
    } else {
        EMPTY
    }
}

impl Default for Displays {
    /// A group of units without panels.
    fn default() -> (group: Self)
        ensures
            forall|i: int| 0 <= i < UNITS ==> (#[trigger] group.0[i]).0 is None,
    {
        Self::new()
    }
}

impl Displays {
    /// A group of units without panels.
    pub fn new() -> (group: Self)
        ensures
            forall|i: int| 0 <= i < UNITS ==> (#[trigger] group.0[i]).0 is None,
    {
        Displays(
            [
                DotMatrixLedMutex::new(),
                DotMatrixLedMutex::new(),
                DotMatrixLedMutex::new(),
                DotMatrixLedMutex::new(),
            ],
        )
    }

    /// Prepares the scroll of `message` over the group: unit `i` gets the
    /// scroll of the padded message from its character `i` on.
    pub fn panorama(&self, message: &str, prio: bool) -> (scrolls: [Scroll; 4])
        ensures
            forall|i: int|
                0 <= i < UNITS ==> {
                    &&& (#[trigger] scrolls[i]).text() == from_place(
                        working_text(message@),
                        i,
                    )
                    &&& scrolls[i].prio() == prio
                    &&& scrolls[i].pair() == 0
                    &&& scrolls[i].cursor() == 0
                },
    {
        let p = pad(message.as_bytes());
        let whole = match null_term_string(&p) {
            Ok(text) => {
                proof {
                    encode_utf8_decode_utf8(text@);
                }
                Scroll::new(text, prio)
            },
            Err(_) => {
                proof {
                    reveal_strlit("");
                }
                Scroll::new("", prio)
            },
        };
        let first = whole.from_offset(0);
        let second = whole.from_offset(1);
        let third = whole.from_offset(2);
        let fourth = whole.from_offset(3);
        [first, second, third, fourth]
    }

    /// Asks the units from `from` on for their override, from the left, and stops
    /// at the first that turns the request away. The result is the place of
    /// that unit, or the number of units when every unit let the request
    /// through: the request has then taken effect on the whole group. After
    /// [`crate::display::OVERRIDE_CHECK_PERIOD_US`] the caller goes on from
    /// the place that was returned.
    pub fn set_override(&mut self, v: bool, from: usize) -> (next: usize)
        ensures
            from <= next <= UNITS || (from > UNITS && next == UNITS),
            forall|i: int|
                #![trigger old(self).0[i]]
                #![trigger final(self).0[i]]
                from <= i < next ==> admits(old(self).0[i].is_overridden(), v) && final(self).0[i]
                    == old(self).0[i].with_override(v),
            forall|i: int|
                #![trigger old(self).0[i]]
                #![trigger final(self).0[i]]
                0 <= i < UNITS && !(from <= i < next) ==> final(self).0[i] == old(self).0[i],
            next < UNITS ==> !admits(old(self).0[next as int].is_overridden(), v),
    {
        let mut i: usize = from;
        while i < UNITS
            invariant
                from <= i,
                from <= UNITS ==> i <= UNITS,
                forall|k: int|
                    from <= k < i ==> admits((#[trigger] old(self).0[k]).is_overridden(), v)
                        && self.0[k] == old(self).0[k].with_override(v),
                forall|k: int|
                    0 <= k < UNITS && !(from <= k < i) ==> #[trigger] self.0[k] == old(self).0[k],
            decreases UNITS - i,
        {
            let mut unit = self.0[i];
            if !unit.set_override(v) {
                return i;
            }
            self.0[i] = unit;
            i += 1;
        }
        UNITS
    }

    /// Prepares the alert: on each unit a flash of eight frames, dark and lit
    /// in turn, that ignores the override.
    pub fn alert(&self) -> (flashes: [Flash; 4])
        ensures
            forall|i: int|
                0 <= i < UNITS ==> {
                    &&& (#[trigger] flashes[i]).panorama().len == MAX_LEN
                    &&& forall|k: int|
                        0 <= k < MAX_LEN ==> *(#[trigger] flashes[i].panorama().graphics[k])
                            == alert_frame(k)
                    &&& flashes[i].index() == 0
                    &&& flashes[i].ignore_lock()
                },
    {
        let alert = Panorama {
            graphics: [&EMPTY, &FULL, &EMPTY, &FULL, &EMPTY, &FULL, &EMPTY, &FULL],
            len: 8,
        };
        [
            Flash::new(&alert, true),
            Flash::new(&alert, true),
            Flash::new(&alert, true),
            Flash::new(&alert, true),
        ]
    }
}

} // verus!
