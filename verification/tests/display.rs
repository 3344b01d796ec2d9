use dotmatrix::display::{
    Flash, Pulse, Scroll, Step, FLASH_PERIOD_US, OVERRIDE_CHECK_PERIOD_US, PANORAMA_PERIOD_US,
    PULSE_CYCLES, PULSE_PERIOD_US, PULSE_WRAP, RENDER_PERIOD_US,
};
use dotmatrix::graphics::{
    from_char, Graphic, Panorama, DIGIT_1, EMPTY, FULL, LETTER_A, LETTER_B, LETTER_C, MAX_LEN,
    QUESTION_MARK,
};
use dotmatrix::hal::{DotMatrixLed, Line, ShiftRegister};
use dotmatrix::DotMatrixLedMutex;

fn unit_showing(graphic: Graphic) -> DotMatrixLedMutex {
    DotMatrixLedMutex(Some(DotMatrixLed {
        sr: ShiftRegister {
            ser: Line::new_anode(),
            rclk: Line::new_anode(),
            srclk: Line::new_anode(),
            srclr: Line::new_cathode(),
        },
        graphic,
        overridden: false,
    }))
}

fn shown(unit: &DotMatrixLedMutex) -> Graphic {
    unit.0.as_ref().unwrap().graphic
}

/// The window of eight columns that starts `cursor` columns into `a`, with
/// `b` to its right.
fn window(a: &Graphic, b: &Graphic, cursor: usize) -> Graphic {
    let mut g = [[0u8; 8]; 8];
    for r in 0..8 {
        for c in 0..8 {
            let at = c + cursor;
            g[r][c] = if at < 8 { a[r][at] } else { b[r][at - 8] };
        }
    }
    g
}

/// Steps a scroll to its end on a free unit and collects the frames.
fn frames_of(message: &str) -> Vec<Graphic> {
    let mut unit = unit_showing(FULL);
    let mut scroll = Scroll::new(message, true);
    let mut frames = Vec::new();
    loop {
        match unit.panorama2(&mut scroll) {
            Step::Drawn => frames.push(shown(&unit)),
            Step::Done => break,
            Step::Wait => panic!("a scroll with priority does not wait"),
        }
    }
    frames
}

#[test]
fn the_periods() {
    assert_eq!(RENDER_PERIOD_US, 500);
    assert_eq!(OVERRIDE_CHECK_PERIOD_US, 100);
    assert_eq!(FLASH_PERIOD_US, 100_000);
    assert_eq!(PULSE_PERIOD_US, 20_000);
    assert_eq!(PANORAMA_PERIOD_US, 30_000);
    assert_eq!(PULSE_WRAP, 16);
    assert_eq!(PULSE_CYCLES, 1);
}

#[test]
fn scroll_of_ab_shows_a_first_and_b_at_the_eighth_step() {
    let frames = frames_of("AB");
    assert_eq!(frames.len(), 16);
    assert_eq!(frames[0], LETTER_A);
    assert_eq!(frames[8], LETTER_B);
}

#[test]
fn scroll_moves_one_column_at_a_step() {
    let frames = frames_of("AB");
    for cursor in 0..8 {
        assert_eq!(frames[cursor], window(&LETTER_A, &LETTER_B, cursor));
        assert_eq!(frames[8 + cursor], window(&LETTER_B, &EMPTY, cursor));
    }
    // One column on, the second column of A stands first and the first
    // column of B stands last.
    for r in 0..8 {
        assert_eq!(frames[1][r][0], LETTER_A[r][1]);
        assert_eq!(frames[1][r][7], LETTER_B[r][0]);
    }
}

#[test]
fn scroll_ends_by_moving_the_last_character_out() {
    let frames = frames_of("1");
    assert_eq!(frames.len(), 8);
    assert_eq!(frames[0], DIGIT_1);
    for r in 0..8 {
        assert_eq!(frames[7][r], [DIGIT_1[r][7], 0, 0, 0, 0, 0, 0, 0]);
    }
}

#[test]
fn scroll_shows_every_character_at_every_eighth_frame() {
    let message = "Ab:9 ?é";
    let frames = frames_of(message);
    assert_eq!(frames.len(), 8 * 7);
    for (i, c) in message.chars().enumerate() {
        assert_eq!(&frames[8 * i], from_char(c));
    }
    assert_eq!(frames[8 * 6], QUESTION_MARK);
}

#[test]
fn scroll_of_nothing_is_done_at_once() {
    let mut unit = unit_showing(LETTER_C);
    let mut scroll = Scroll::new("", false);
    assert!(scroll.is_finished());
    assert_eq!(unit.panorama2(&mut scroll), Step::Done);
    assert_eq!(shown(&unit), LETTER_C);
}

#[test]
fn scroll_counts_its_frames() {
    let mut unit = unit_showing(EMPTY);
    let mut scroll = Scroll::new("AB", true);
    assert_eq!(scroll.len(), 2);
    assert_eq!(scroll.chars(), &vec!['A', 'B']);
    assert!(scroll.has_priority());
    for k in 0..16 {
        assert_eq!(scroll.place(), (k / 8, k % 8));
        assert!(!scroll.is_finished());
        assert_eq!(unit.panorama2(&mut scroll), Step::Drawn);
    }
    assert_eq!(scroll.place(), (2, 0));
    assert!(scroll.is_finished());
    assert_eq!(unit.panorama2(&mut scroll), Step::Done);
    assert_eq!(unit.panorama2(&mut scroll), Step::Done);
    assert_eq!(scroll.place(), (2, 0));
}

#[test]
fn scroll_from_an_offset() {
    let whole = Scroll::new("WXYZ", false);
    assert_eq!(whole.from_offset(0).chars(), &vec!['W', 'X', 'Y', 'Z']);
    assert_eq!(whole.from_offset(1).chars(), &vec!['X', 'Y', 'Z']);
    assert_eq!(whole.from_offset(4).chars(), &Vec::<char>::new());
    assert_eq!(whole.from_offset(5).chars(), &Vec::<char>::new());
    assert_eq!(whole.from_offset(usize::MAX).len(), 0);
    assert!(!whole.from_offset(2).has_priority());
    assert_eq!(whole.from_offset(3).place(), (0, 0));
}

#[test]
fn scroll_without_priority_waits_while_overridden() {
    let mut unit = unit_showing(LETTER_C);
    assert!(unit.set_override(true));
    let mut scroll = Scroll::new("AB", false);
    for _ in 0..5 {
        assert_eq!(unit.panorama2(&mut scroll), Step::Wait);
        assert_eq!(shown(&unit), LETTER_C);
        assert_eq!(scroll.place(), (0, 0));
    }
    unit.unlock();
    assert_eq!(unit.panorama2(&mut scroll), Step::Drawn);
    assert_eq!(shown(&unit), LETTER_A);
    assert!(unit.lock());
    assert_eq!(unit.panorama2(&mut scroll), Step::Wait);
    assert_eq!(scroll.place(), (0, 1));
}

#[test]
fn scroll_with_priority_draws_while_overridden() {
    let mut unit = unit_showing(LETTER_C);
    assert!(unit.set_override(true));
    let mut scroll = Scroll::new("AB", true);
    assert_eq!(unit.panorama2(&mut scroll), Step::Drawn);
    assert_eq!(shown(&unit), LETTER_A);
    assert!(unit.overridden());
}

#[test]
fn a_finished_scroll_is_done_on_an_overridden_unit_too() {
    let mut unit = unit_showing(LETTER_C);
    let mut scroll = Scroll::new("A", false);
    for _ in 0..8 {
        assert_eq!(unit.panorama2(&mut scroll), Step::Drawn);
    }
    assert!(unit.lock());
    assert_eq!(unit.panorama2(&mut scroll), Step::Done);
}

#[test]
fn pulse_lights_one_cell_in_each_row_on_the_diagonal() {
    let mut unit = unit_showing(FULL);
    let mut pulse = Pulse::new();
    for n in 0..16i32 {
        assert_eq!(pulse.phase(), n as usize);
        assert_eq!(unit.pulse(&mut pulse), Step::Drawn);
        let frame = shown(&unit);
        for r in 0..8i32 {
            let lit: Vec<usize> = (0..8).filter(|&c| frame[r as usize][c] == 1).collect();
            if 0 <= n - r && n - r < 8 {
                assert_eq!(lit, vec![(n - r) as usize]);
            } else {
                assert_eq!(lit, Vec::<usize>::new());
            }
            assert!(frame[r as usize].iter().all(|&cell| cell <= 1));
        }
    }
    assert_eq!(unit.pulse(&mut pulse), Step::Done);
}

#[test]
fn pulse_frames_at_the_ends() {
    let mut unit = unit_showing(FULL);
    let mut pulse = Pulse::new();
    assert_eq!(unit.pulse(&mut pulse), Step::Drawn);
    let mut first = EMPTY;
    first[0][0] = 1;
    assert_eq!(shown(&unit), first);
    for _ in 1..8 {
        assert_eq!(unit.pulse(&mut pulse), Step::Drawn);
    }
    let mut eighth = EMPTY;
    for r in 0..8 {
        eighth[r][7 - r] = 1;
    }
    assert_eq!(shown(&unit), eighth);
    for _ in 8..15 {
        assert_eq!(unit.pulse(&mut pulse), Step::Drawn);
    }
    let mut last_lit = EMPTY;
    last_lit[7][7] = 1;
    assert_eq!(shown(&unit), last_lit);
    assert_eq!(unit.pulse(&mut pulse), Step::Drawn);
    assert_eq!(shown(&unit), EMPTY);
    assert!(pulse.is_finished());
}

#[test]
fn pulse_plays_one_cycle() {
    let mut unit = unit_showing(FULL);
    let mut pulse = Pulse::new();
    let mut drawn = 0;
    while unit.pulse(&mut pulse) == Step::Drawn {
        drawn += 1;
        assert!(drawn <= 1000);
    }
    assert_eq!(drawn, PULSE_WRAP * PULSE_CYCLES);
    assert_eq!(pulse.phase(), 0);
}

#[test]
fn pulse_waits_while_overridden() {
    let mut unit = unit_showing(LETTER_C);
    let mut pulse = Pulse::new();
    assert!(unit.lock());
    assert!(unit.locked());
    assert_eq!(unit.pulse(&mut pulse), Step::Wait);
    assert_eq!(unit.pulse(&mut pulse), Step::Wait);
    assert_eq!(shown(&unit), LETTER_C);
    assert_eq!(pulse.phase(), 0);
    unit.unlock();
    assert!(!unit.locked());
    assert_eq!(unit.pulse(&mut pulse), Step::Drawn);
    assert_eq!(pulse.phase(), 1);
}

#[test]
fn flash_plays_its_frames_in_order() {
    let list = Panorama {
        graphics: [&LETTER_A, &LETTER_B, &LETTER_C, &EMPTY, &EMPTY, &EMPTY, &EMPTY, &EMPTY],
        len: 3,
    };
    let mut unit = unit_showing(FULL);
    let mut flash = Flash::new(&list, false);
    assert_eq!(flash.frames().len, 3);
    assert!(!flash.ignores_override());
    assert_eq!(flash.drawn(), 0);
    assert_eq!(unit.flash(&mut flash), Step::Drawn);
    assert_eq!(shown(&unit), LETTER_A);
    assert_eq!(unit.flash(&mut flash), Step::Drawn);
    assert_eq!(shown(&unit), LETTER_B);
    assert_eq!(unit.flash(&mut flash), Step::Drawn);
    assert_eq!(shown(&unit), LETTER_C);
    assert_eq!(flash.drawn(), 3);
    assert!(flash.is_finished());
    assert_eq!(unit.flash(&mut flash), Step::Done);
    assert_eq!(shown(&unit), LETTER_C);
}

#[test]
fn flash_of_a_full_and_of_an_empty_list() {
    let full = Panorama { graphics: [&FULL; MAX_LEN], len: MAX_LEN };
    let mut unit = unit_showing(EMPTY);
    let mut flash = Flash::new(&full, true);
    for _ in 0..8 {
        assert_eq!(unit.flash(&mut flash), Step::Drawn);
    }
    assert_eq!(unit.flash(&mut flash), Step::Done);
    let none = Panorama { graphics: [&FULL; MAX_LEN], len: 0 };
    let mut unit = unit_showing(EMPTY);
    let mut flash = Flash::new(&none, true);
    assert_eq!(unit.flash(&mut flash), Step::Done);
    assert_eq!(shown(&unit), EMPTY);
}

#[test]
fn flash_heeds_the_override_unless_told_not_to() {
    let list = Panorama { graphics: [&FULL; MAX_LEN], len: 2 };
    let mut unit = unit_showing(LETTER_C);
    assert!(unit.lock());
    let mut polite = Flash::new(&list, false);
    assert_eq!(unit.flash(&mut polite), Step::Wait);
    assert_eq!(shown(&unit), LETTER_C);
    assert_eq!(polite.drawn(), 0);
    let mut urgent = Flash::new(&list, true);
    assert_eq!(unit.flash(&mut urgent), Step::Drawn);
    assert_eq!(shown(&unit), FULL);
    assert!(unit.overridden());
}

#[test]
fn a_second_claim_waits_for_the_release() {
    let mut unit = unit_showing(EMPTY);
    assert!(!unit.overridden());
    // The first caller claims the override.
    assert!(unit.set_override(true));
    assert!(unit.overridden());
    // The second caller is turned away for as long as the first holds it.
    for _ in 0..10 {
        assert!(!unit.set_override(true));
        assert!(unit.overridden());
    }
    // The first caller lets go.
    assert!(unit.set_override(false));
    assert!(!unit.overridden());
    // Now one claim passes, and only one.
    assert!(unit.set_override(true));
    assert!(!unit.set_override(true));
    assert!(unit.overridden());
}

#[test]
fn a_release_passes_whoever_holds() {
    let mut unit = unit_showing(EMPTY);
    assert!(unit.set_override(false));
    assert!(!unit.overridden());
    assert!(unit.lock());
    unit.unlock();
    unit.unlock();
    assert!(!unit.locked());
}

#[test]
fn the_override_leaves_the_frame_alone() {
    let mut unit = unit_showing(LETTER_B);
    assert!(unit.set_override(true));
    assert_eq!(shown(&unit), LETTER_B);
    assert!(unit.set_override(false));
    assert_eq!(shown(&unit), LETTER_B);
}

#[test]
fn draw_puts_a_frame_in_place() {
    let mut unit = unit_showing(EMPTY);
    unit.draw(&LETTER_B);
    assert_eq!(shown(&unit), LETTER_B);
    assert!(unit.lock());
    unit.draw(&LETTER_A);
    assert_eq!(shown(&unit), LETTER_A);
    assert!(unit.overridden());
}

#[test]
fn a_unit_without_a_panel() {
    let mut unit = DotMatrixLedMutex::new();
    assert!(unit.0.is_none());
    assert!(!unit.overridden());
    assert!(unit.set_override(true));
    assert!(!unit.overridden());
    assert!(unit.set_override(true));
    unit.draw(&FULL);
    assert!(unit.0.is_none());
    let mut out = Vec::new();
    unit.render(&mut out);
    assert!(out.is_empty());
    let mut scroll = Scroll::new("A", false);
    assert_eq!(unit.panorama2(&mut scroll), Step::Drawn);
    assert_eq!(scroll.place(), (0, 1));
}

#[test]
fn render_of_a_unit_scans_its_frame() {
    let unit = unit_showing(LETTER_A);
    let mut out = Vec::new();
    unit.render(&mut out);
    let mut direct = Vec::new();
    unit.0.as_ref().unwrap().render(&mut direct);
    assert_eq!(out.len(), 450);
    assert_eq!(out, direct);
}

#[test]
fn a_scroll_from_an_offset_runs_ahead_of_the_whole() {
    let text = "  AB:9 ";
    let whole = frames_of(text);
    for i in 0..4 {
        let rest = frames_of(&text[i..]);
        assert_eq!(rest.len() + 8 * i, whole.len());
        for (k, frame) in rest.iter().enumerate() {
            assert_eq!(frame, &whole[k + 8 * i]);
        }
    }
}

#[test]
fn the_default_unit_has_no_panel() {
    let unit = DotMatrixLedMutex::default();
    assert!(unit.0.is_none());
    assert!(!unit.overridden());
}
