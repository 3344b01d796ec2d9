//! One display unit, the override that guards it, and the animations that draw
//! on it.
//!
//! Nothing here waits. An animation is a value that is moved on one step at
//! a time: each step either draws one frame, or finds the unit overridden and
//! draws nothing, or finds the animation at its end. The caller lets one
//! period of the animation pass between two steps, whatever the step did.
//! Rendering reads the frame and never looks at the override flag, so that
//! it keeps its own pace.

use crate::graphics::{
    frame_ext, frame_of, frame_of_cells, from_char, glyph, is_frame, lit, Graphic, Panorama, EMPTY,
    MAX_LEN,
};
use crate::hal::{DotMatrixLed, PinWrite};
use vstd::prelude::*;

verus! {

/// The microseconds between two scans of a panel.
pub const RENDER_PERIOD_US: u64 = 500;

/// The microseconds between two tries to take the override of a unit.
pub const OVERRIDE_CHECK_PERIOD_US: u64 = 100;

/// The microseconds between two frames of a flash.
pub const FLASH_PERIOD_US: u64 = 100_000;

/// The microseconds between two frames of the pulse.
pub const PULSE_PERIOD_US: u64 = 20_000;

/// The microseconds between two frames of a scroll.
pub const PANORAMA_PERIOD_US: u64 = 30_000;

/// The frames of one cycle of the pulse.
pub const PULSE_WRAP: usize = 16;

/// The cycles that a pulse plays before it ends.
pub const PULSE_CYCLES: usize = 1;

/// A display unit: a panel, once one has been installed.
///
/// Until then the unit shows nothing and holds no override: drawing on it
/// does nothing, and its override is never held.
#[derive(Debug, Clone, Copy)]
pub struct DotMatrixLedMutex(pub Option<DotMatrixLed>);

/// What one step of an animation did.
#[derive(Debug, Clone, Copy, PartialEq, Eq, Structural)]
pub enum Step {
    /// The unit is overridden: nothing was drawn and the animation stands
    /// where it stood.
    Wait,
    /// One frame was drawn and the animation moved on by one.
    Drawn,
    /// The animation is at its end: nothing was drawn.
    Done,
}

/// Whether a request for the override is let through: a claim while the
/// override is held is turned away, every other request passes.
pub open spec fn admits(held: bool, claim: bool) -> bool {
    !(held && claim)
}

/// Whether the override is held after a request.
pub open spec fn held_after(held: bool, claim: bool) -> bool {
    if admits(held, claim) {
        claim
    } else {
        held
    }
}

/// Cell (`r`, `c`) of a scroll frame: the window of eight columns that
/// starts `cursor` columns into `a`, with `b` to the right of `a`.
pub open spec fn scroll_cell(a: Graphic, b: Graphic, cursor: int, r: int, c: int) -> u8 {
    if c + cursor < 8 {
        a[r][c + cursor]
    } else {
        b[r][(c + cursor) % 8]
    }
}

/// The scroll frame of the glyphs `a` and `b` at `cursor`.
pub open spec fn scroll_frame(a: Graphic, b: Graphic, cursor: int) -> Graphic {
    frame_of(|r: int, c: int| scroll_cell(a, b, cursor, r, c))
}

/// The character at place `i` of a text, and NUL past its end.
pub open spec fn char_at(text: Seq<char>, i: int) -> char {
    if 0 <= i < text.len() {
        text[i]
    } else {
        '\0'
    }
}

/// Frame `k` of the scroll of a text: eight frames for each character, in
/// which the character gives way to the one after it.
pub open spec fn scroll_frame_at(text: Seq<char>, k: int) -> Graphic {
    scroll_frame(glyph(char_at(text, k / 8)), glyph(char_at(text, k / 8 + 1)), k % 8)
}

/// With no column gone the scroll frame is the left glyph, and with all
/// eight gone it is the right glyph.
pub proof fn scroll_frame_ends(a: Graphic, b: Graphic)
    ensures
        scroll_frame(a, b, 0) == a,
        scroll_frame(a, b, 8) == b,
{
    frame_of_cells(|r: int, c: int| scroll_cell(a, b, 0, r, c));
    frame_of_cells(|r: int, c: int| scroll_cell(a, b, 8, r, c));
    frame_ext(scroll_frame(a, b, 0), a);
    frame_ext(scroll_frame(a, b, 8), b);
}

/// Every eighth frame of a scroll is one glyph of the text, unchanged: frame
/// `8 * i` is the glyph of character `i`.
pub proof fn scroll_shows_each_glyph(text: Seq<char>, i: int)
    requires
        0 <= i < text.len(),
    ensures
        scroll_frame_at(text, 8 * i) == glyph(text[i]),
{
    scroll_frame_ends(glyph(char_at(text, i)), glyph(char_at(text, i + 1)));
}

/// Cell (`r`, `c`) of frame `n` of the pulse: lit on the diagonal.
pub open spec fn pulse_cell(n: int, r: int, c: int) -> u8 {
    if c == n - r {
        1
    } else {
        0
    }
}

/// Frame `n` of the pulse: a stripe that runs down from the left.
pub open spec fn pulse_frame(n: int) -> Graphic {
    frame_of(|r: int, c: int| pulse_cell(n, r, c))
}

/// In frame `n` of the pulse, row `r` has its one lit cell in column
/// `n - r` where that is a column, and no lit cell where it is not.
pub proof fn pulse_lights_one_cell(n: int, r: int)
    requires
        0 <= r < 8,
    ensures
        0 <= n - r < 8 ==> lit(pulse_frame(n), r, n - r),
        forall|c: int| 0 <= c < 8 && c != n - r ==> !lit(pulse_frame(n), r, c),
{
    frame_of_cells(|r: int, c: int| pulse_cell(n, r, c));
}

/// A scroll frame of two well-formed glyphs is well formed.
pub proof fn scroll_frame_is_frame(a: Graphic, b: Graphic, cursor: int)
    requires
        is_frame(a),
        is_frame(b),
        0 <= cursor,
    ensures
        is_frame(scroll_frame(a, b, cursor)),
{
    frame_of_cells(|r: int, c: int| scroll_cell(a, b, cursor, r, c));
}

/// Every frame of the pulse is well formed.
pub proof fn pulse_frame_is_frame(n: int)
    ensures
        is_frame(pulse_frame(n)),
{
    frame_of_cells(|r: int, c: int| pulse_cell(n, r, c));
}

/// Units that stand side by side show one band. The scroll of a text from
/// its character `i` on is, frame by frame, the scroll of the whole text
/// `8 * i` frames further on: a unit shows at every step what its left
/// neighbour will show eight steps later.
pub proof fn scroll_from_offset_runs_ahead(text: Seq<char>, i: int, k: int)
    requires
        0 <= i <= text.len(),
        0 <= k,
    ensures
        scroll_frame_at(text.skip(i), k) == scroll_frame_at(text, k + 8 * i),
{
    assert((k + 8 * i) / 8 == k / 8 + i && (k + 8 * i) % 8 == k % 8) by (nonlinear_arith)
        requires
            0 <= i,
            0 <= k,
    ;
}

/// The scroll frame of `a` and `b` at `cursor`.
fn splice(a: &Graphic, b: &Graphic, cursor: usize) -> (canvas: Graphic)
    requires
        cursor < 8,
    ensures
        canvas == scroll_frame(*a, *b, cursor as int),
{
    let mut canvas = EMPTY;
    let mut r: usize = 0;
    while r < 8
        invariant
            r <= 8,
            cursor < 8,
            forall|i: int, j: int|
                0 <= i < r && 0 <= j < 8 ==> #[trigger] canvas[i][j] == scroll_cell(
                    *a,
                    *b,
                    cursor as int,
                    i,
                    j,
                ),
        decreases 8 - r,
    {
        let mut c: usize = 0;
        while c < 8
            invariant
                r < 8,
                c <= 8,
                cursor < 8,
                forall|i: int, j: int|
                    0 <= i < r && 0 <= j < 8 ==> #[trigger] canvas[i][j] == scroll_cell(
                        *a,
                        *b,
                        cursor as int,
                        i,
                        j,
                    ),
                forall|j: int|
                    0 <= j < c ==> #[trigger] canvas[r as int][j] == scroll_cell(
                        *a,
                        *b,
                        cursor as int,
                        r as int,
                        j,
                    ),
            decreases 8 - c,
        {
            let panorama_c = c + cursor;
            let frame_c = panorama_c % 8;
            let cell = if panorama_c < 8 {
                a[r][frame_c]
            } else {
                b[r][frame_c]
            };
            canvas[r][c] = cell;
            c += 1;
        }
        r += 1;
    }
    proof {
        frame_of_cells(|i: int, j: int| scroll_cell(*a, *b, cursor as int, i, j));
        frame_ext(canvas, scroll_frame(*a, *b, cursor as int));
    }
    canvas
}

/// Frame `counter` of the pulse.
fn stripe(counter: usize) -> (canvas: Graphic)
    requires
        counter < PULSE_WRAP,
    ensures
        canvas == pulse_frame(counter as int),
{
    let mut canvas = EMPTY;
    let mut r: usize = 0;
    while r < 8
        invariant
            r <= 8,
            counter < PULSE_WRAP,
            forall|i: int, j: int|
                0 <= i < r && 0 <= j < 8 ==> #[trigger] canvas[i][j] == pulse_cell(
                    counter as int,
                    i,
                    j,
                ),
            forall|i: int, j: int| r <= i < 8 && 0 <= j < 8 ==> #[trigger] canvas[i][j] == 0,
        decreases 8 - r,
    {
        if counter >= r {
            let n = counter - r;
            if n < 8 {
                canvas[r][n] = 1;
            }
        }
        r += 1;
    }
    proof {
        frame_of_cells(|i: int, j: int| pulse_cell(counter as int, i, j));
        frame_ext(canvas, pulse_frame(counter as int));
    }
    canvas
}

/// A scroll of a text over one unit, and how far it has come.
pub struct Scroll {
    text: Vec<char>,
    pair: usize,
    cursor: usize,
    prio: bool,
}

impl Scroll {
    #[verifier::type_invariant]
    spec fn inv(self) -> bool {
        self.pair <= self.text.len() && self.cursor < 8
    }

    /// The text that is scrolled.
    pub closed spec fn text(self) -> Seq<char> {
        self.text@
    }

    /// The place in the text of the character that is leaving the panel.
    pub closed spec fn pair(self) -> int {
        self.pair as int
    }

    /// How many columns of that character have left.
    pub closed spec fn cursor(self) -> int {
        self.cursor as int
    }

    /// Whether the scroll draws on an overridden unit too.
    pub closed spec fn prio(self) -> bool {
        self.prio
    }

    /// The number of the frame that is drawn next.
    pub open spec fn position(self) -> int {
        8 * self.pair() + self.cursor()
    }

    /// Whether the last frame has been drawn: eight for each character.
    pub open spec fn finished(self) -> bool {
        self.pair() >= self.text().len()
    }

    /// A scroll of `message` at its start.
    pub fn new(message: &str, prio: bool) -> (scroll: Self)
        ensures
            scroll.text() == message@,
            scroll.prio() == prio,
            scroll.pair() == 0,
            scroll.cursor() == 0,
    {
        let mut text: Vec<char> = Vec::new();
        for c in chars: message.chars()
            invariant
                chars.seq() == message@,
                text@ == chars.seq().take(chars.index() as int),
        {
            text.push(c);
        }
        Scroll { text, pair: 0, cursor: 0, prio }
    }

    /// The scroll of `self`'s text from character `skip` on, at its start.
    /// Past the end of the text nothing is left to scroll.
    pub fn from_offset(&self, skip: usize) -> (scroll: Self)
        ensures
            scroll.text() == if skip <= self.text().len() {
                self.text().skip(skip as int)
            } else {
                Seq::empty()
            },
            scroll.prio() == self.prio(),
            scroll.pair() == 0,
            scroll.cursor() == 0,
    {
        let mut text: Vec<char> = Vec::new();
        let mut i: usize = skip;
        while i < self.text.len()
            invariant
                skip <= i,
                skip <= self.text.len() ==> i <= self.text.len(),
                skip > self.text.len() ==> text@.len() == 0,
                i <= self.text.len() ==> text@ == self.text@.subrange(skip as int, i as int),
            decreases self.text.len() - i,
        {
            text.push(self.text[i]);
            i += 1;
        }
        Scroll { text, pair: 0, cursor: 0, prio: self.prio }
    }

    /// The characters of the text.
    pub fn chars(&self) -> (chars: &Vec<char>)
        ensures
            chars@ == self.text(),
    {
        &self.text
    }

    /// Whether the scroll draws on an overridden unit too.
    pub fn has_priority(&self) -> (prio: bool)
        ensures
            prio == self.prio(),
    {
        self.prio
    }

    /// The number of characters of the text.
    pub fn len(&self) -> (n: usize)
        ensures
            n == self.text().len(),
    {
        self.text.len()
    }

    /// Where the scroll stands: the place of the character that is leaving,
    /// and how many of its columns have left.
    pub fn place(&self) -> (place: (usize, usize))
        ensures
            place.0 == self.pair(),
            place.1 == self.cursor(),
            place.0 <= self.text().len(),
            place.1 < 8,
    {
        proof {
            use_type_invariant(self);
        }
        (self.pair, self.cursor)
    }

    /// Whether the last frame has been drawn.
    pub fn is_finished(&self) -> (done: bool)
        ensures
            done == self.finished(),
    {
        self.pair >= self.text.len()
    }
}

/// The pulse on one unit, and how far it has come.
pub struct Pulse {
    counter: usize,
    iters: usize,
}

impl Pulse {
    #[verifier::type_invariant]
    spec fn inv(self) -> bool {
        self.counter < PULSE_WRAP && self.iters <= PULSE_CYCLES
    }

    /// The number, within its cycle, of the frame that is drawn next.
    pub closed spec fn counter(self) -> int {
        self.counter as int
    }

    /// The cycles that have been played in full.
    pub closed spec fn cycles(self) -> int {
        self.iters as int
    }

    /// Whether the pulse has played its cycles.
    pub open spec fn finished(self) -> bool {
        self.cycles() >= PULSE_CYCLES
    }

    /// A pulse at its start.
    pub fn new() -> (pulse: Self)
        ensures
            pulse.counter() == 0,
            pulse.cycles() == 0,
    {
        Pulse { counter: 0, iters: 0 }
    }

    /// The number, within its cycle, of the frame that is drawn next.
    pub fn phase(&self) -> (n: usize)
        ensures
            n == self.counter(),
            n < PULSE_WRAP,
    {
        proof {
            use_type_invariant(self);
        }
        self.counter
    }

    /// Whether the pulse has played its cycles.
    pub fn is_finished(&self) -> (done: bool)
        ensures
            done == self.finished(),
    {
        self.iters >= PULSE_CYCLES
    }
}

/// The play of a list of frames on one unit, and how far it has come.
pub struct Flash {
    panorama: Panorama,
    index: usize,
    ignore_lock: bool,
}

impl Flash {
    #[verifier::type_invariant]
    spec fn inv(self) -> bool {
        self.panorama.len <= MAX_LEN && self.index <= self.panorama.len
    }

    /// The frames that are played.
    pub closed spec fn panorama(self) -> Panorama {
        self.panorama
    }

    /// The number of frames that have been drawn.
    pub closed spec fn index(self) -> int {
        self.index as int
    }

    /// Whether the play draws on an overridden unit too.
    pub closed spec fn ignore_lock(self) -> bool {
        self.ignore_lock
    }

    /// Whether the last frame has been drawn.
    pub open spec fn finished(self) -> bool {
        self.index() >= self.panorama().len
    }

    /// The play of `panorama` at its start.
    pub fn new(panorama: &Panorama, ignore_lock: bool) -> (flash: Self)
        requires
            panorama.wf(),
        ensures
            flash.panorama() == *panorama,
            flash.index() == 0,
            flash.ignore_lock() == ignore_lock,
    {
        Flash { panorama: *panorama, index: 0, ignore_lock }
    }

    /// The frames that are played.
    pub fn frames(&self) -> (panorama: &Panorama)
        ensures
            *panorama == self.panorama(),
            panorama.wf(),
    {
        proof {
            use_type_invariant(self);
        }
        &self.panorama
    }

    /// Whether the play draws on an overridden unit too.
    pub fn ignores_override(&self) -> (ignore: bool)
        ensures
            ignore == self.ignore_lock(),
    {
        self.ignore_lock
    }

    /// The number of frames that have been drawn.
    pub fn drawn(&self) -> (n: usize)
        ensures
            n == self.index(),
    {
        self.index
    }

    /// Whether the last frame has been drawn.
    pub fn is_finished(&self) -> (done: bool)
        ensures
            done == self.finished(),
    {
        self.index >= self.panorama.len
    }
}

/// The override of a unit has one holder at a time and never locks up.
///
/// While the override of `unit` is held, a claim is turned away and leaves
/// the unit as it is, however often it is tried again. A release passes at
/// once, whoever holds the override. After the release the first claim
/// passes and holds the override, and a second one is turned away until the
/// next release.
pub proof fn override_admits_one(unit: DotMatrixLedMutex)
    requires
        unit.0 is Some,
        unit.is_overridden(),
    ensures
        !admits(unit.is_overridden(), true),
        held_after(unit.is_overridden(), true),
        admits(unit.is_overridden(), false),
        !unit.with_override(false).is_overridden(),
        admits(unit.with_override(false).is_overridden(), true),
        unit.with_override(false).with_override(true).is_overridden(),
        !admits(unit.with_override(false).with_override(true).is_overridden(), true),
{
}

impl Default for DotMatrixLedMutex {
    /// A unit without a panel.
    fn default() -> (unit: Self)
        ensures
            unit.0 is None,
    {
        Self::new()
    }
}

impl DotMatrixLedMutex {
    /// Whether the override of the unit is held.
    pub open spec fn is_overridden(self) -> bool {
        match self.0 {
            Some(d) => d.overridden,
            None => false,
        }
    }

    /// The unit with its override flag set to `state`.
    pub open spec fn with_override(self, state: bool) -> Self {
        match self.0 {
            Some(d) => DotMatrixLedMutex(
                Some(DotMatrixLed { sr: d.sr, graphic: d.graphic, overridden: state }),
            ),
            None => self,
        }
    }

    /// The unit with `g` for its frame.
    pub open spec fn with_graphic(self, g: Graphic) -> Self {
        match self.0 {
            Some(d) => DotMatrixLedMutex(
                Some(DotMatrixLed { sr: d.sr, graphic: g, overridden: d.overridden }),
            ),
            None => self,
        }
    }

    /// What a scan of the unit writes: nothing while no panel is installed.
    pub open spec fn scan_writes(self) -> Seq<PinWrite> {
        match self.0 {
            Some(d) => DotMatrixLed::scan_writes(d.sr, d.graphic),
            None => Seq::empty(),
        }
    }

    /// A unit without a panel.
    pub fn new() -> (unit: Self)
        ensures
            unit.0 is None,
    {
        DotMatrixLedMutex(None)
    }

    /// Whether the override of the unit is held.
    pub fn overridden(&self) -> (held: bool)
        ensures
            held == self.is_overridden(),
    {
        match &self.0 {
            Some(d) => d.overridden,
            None => false,
        }
    }

    /// Asks for the override once. With `state` true this is a claim: it is turned
    /// away, and changes nothing, while the override is held; the caller
    /// tries again after [`OVERRIDE_CHECK_PERIOD_US`]. With `state` false it
    /// is a release, which passes at once, whoever holds the override.
    pub fn set_override(&mut self, state: bool) -> (granted: bool)
        ensures
            granted == admits(old(self).is_overridden(), state),
            final(self).is_overridden() == held_after(old(self).is_overridden(), state) || old(
                self,
            ).0 is None,
            *final(self) == if granted {
                old(self).with_override(state)
            } else {
                *old(self)
            },
    {
        if state && self.overridden() {
            return false;
        }
        if let Some(d) = self.0 {
            self.0 = Some(DotMatrixLed { sr: d.sr, graphic: d.graphic, overridden: state });
        }
        true
    }

    /// Whether the override of the unit is held.
    pub fn locked(&self) -> (held: bool)
        ensures
            held == self.is_overridden(),
    {
        self.overridden()
    }

    /// Claims the override once.
    pub fn lock(&mut self) -> (granted: bool)
        ensures
            granted == admits(old(self).is_overridden(), true),
            *final(self) == if granted {
                old(self).with_override(true)
            } else {
                *old(self)
            },
    {
        self.set_override(true)
    }

    /// Releases the override.
    pub fn unlock(&mut self)
        ensures
            *final(self) == old(self).with_override(false),
    {
        self.set_override(false);
    }

    /// Scans the frame of the unit once. Whether the unit is overridden
    /// makes no difference.
    pub fn render(&self, out: &mut Vec<PinWrite>)
        ensures
            final(out)@ == old(out)@ + self.scan_writes(),
    {
        if let Some(d) = &self.0 {
            d.render(out);
        }
    }

    /// Puts `g` in the place of the frame of the unit.
    pub fn draw(&mut self, g: &Graphic)
        ensures
            *final(self) == old(self).with_graphic(*g),
    {
        if let Some(d) = self.0 {
            self.0 = Some(DotMatrixLed { sr: d.sr, graphic: *g, overridden: d.overridden });
        }
    }

    /// One step of a flash: the next frame of the list is drawn, unless the
    /// list is at its end, or the unit is overridden and the flash does not
    /// ignore that.
    pub fn flash(&mut self, flash: &mut Flash) -> (step: Step)
        ensures
            step == if old(flash).finished() {
                Step::Done
            } else if !old(flash).ignore_lock() && old(self).is_overridden() {
                Step::Wait
            } else {
                Step::Drawn
            },
            final(flash).panorama() == old(flash).panorama(),
            final(flash).ignore_lock() == old(flash).ignore_lock(),
            step == Step::Drawn ==> {
                &&& 0 <= old(flash).index() < MAX_LEN
                &&& *final(self) == old(self).with_graphic(
                    *old(flash).panorama().graphics[old(flash).index()],
                )
                &&& final(flash).index() == old(flash).index() + 1
            },
            step != Step::Drawn ==> *final(self) == *old(self) && *final(flash) == *old(flash),
    {
        proof {
            use_type_invariant(&*flash);
        }
        if flash.index >= flash.panorama.len {
            return Step::Done;
        }
        if !flash.ignore_lock && self.overridden() {
            return Step::Wait;
        }
        let graphic = flash.panorama.graphics[flash.index];
        self.draw(graphic);
        flash.index = flash.index + 1;
        Step::Drawn
    }

    /// One step of the pulse: the next frame of the stripe is drawn, unless
    /// the pulse has played its cycles, or the unit is overridden.
    pub fn pulse(&mut self, pulse: &mut Pulse) -> (step: Step)
        ensures
            step == if old(pulse).finished() {
                Step::Done
            } else if old(self).is_overridden() {
                Step::Wait
            } else {
                Step::Drawn
            },
            step == Step::Drawn ==> {
                &&& *final(self) == old(self).with_graphic(pulse_frame(old(pulse).counter()))
                &&& final(pulse).counter() == (old(pulse).counter() + 1) % (PULSE_WRAP as int)
                &&& final(pulse).cycles() == old(pulse).cycles() + if final(pulse).counter() == 0 {
                    1int
                } else {
                    0int
                }
            },
            step != Step::Drawn ==> *final(self) == *old(self) && *final(pulse) == *old(pulse),
    {
        proof {
            use_type_invariant(&*pulse);
        }
        if pulse.iters >= PULSE_CYCLES {
            return Step::Done;
        }
        if self.locked() {
            return Step::Wait;
        }
        let canvas = stripe(pulse.counter);
        self.draw(&canvas);
        if pulse.counter + 1 == PULSE_WRAP {
            pulse.counter = 0;
            pulse.iters = pulse.iters + 1;
        } else {
            pulse.counter = pulse.counter + 1;
        }
        Step::Drawn
    }

    /// One step of a scroll: the next frame is drawn, unless the scroll is
    /// at its end, or the unit is overridden and the scroll has no priority.
    pub fn panorama2(&mut self, scroll: &mut Scroll) -> (step: Step)
        ensures
            step == if old(scroll).finished() {
                Step::Done
            } else if !old(scroll).prio() && old(self).is_overridden() {
                Step::Wait
            } else {
                Step::Drawn
            },
            final(scroll).text() == old(scroll).text(),
            final(scroll).prio() == old(scroll).prio(),
            step == Step::Drawn ==> {
                &&& *final(self) == old(self).with_graphic(
                    scroll_frame_at(old(scroll).text(), old(scroll).position()),
                )
                &&& final(scroll).cursor() == (old(scroll).cursor() + 1) % 8
                &&& final(scroll).pair() == old(scroll).pair() + if old(scroll).cursor() == 7 {
                    1int
                } else {
                    0int
                }
            },
            step != Step::Drawn ==> *final(self) == *old(self) && *final(scroll) == *old(scroll),
    {
        proof {
            use_type_invariant(&*scroll);
        }
        if scroll.pair >= scroll.text.len() {
            return Step::Done;
        }
        if !scroll.prio && self.overridden() {
            return Step::Wait;
        }
        let a = from_char(scroll.text[scroll.pair]);
        let b = if scroll.pair + 1 < scroll.text.len() {
            from_char(scroll.text[scroll.pair + 1])
        } else {
            from_char('\0')
        };
        let canvas = splice(a, b, scroll.cursor);
        self.draw(&canvas);
        if scroll.cursor + 1 == 8 {
            scroll.cursor = 0;
            scroll.pair = scroll.pair + 1;
        } else {
            scroll.cursor = scroll.cursor + 1;
        }
        Step::Drawn
    }
}

} // verus!
