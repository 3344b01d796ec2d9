use dotmatrix::graphics::{
    from_char, Graphic, Panorama, COLON, DIGIT_0, DIGIT_5, DIGIT_9, EMPTY, FULL, LETTER_A,
    LETTER_B, LETTER_Q, LETTER_Z, MAX_LEN, QUESTION_MARK,
};

fn lit_cells(g: &Graphic) -> usize {
    let mut n = 0;
    for row in g.iter() {
        for &cell in row.iter() {
            if cell == 1 {
                n += 1;
            }
        }
    }
    n
}

#[test]
fn letters_have_their_glyphs() {
    assert_eq!(from_char('A'), &LETTER_A);
    assert_eq!(from_char('B'), &LETTER_B);
    assert_eq!(from_char('Q'), &LETTER_Q);
    assert_eq!(from_char('Z'), &LETTER_Z);
}

#[test]
fn lower_case_letters_share_the_glyphs_of_upper_case() {
    let lower = "abcdefghijklmnopqrstuvwxyz";
    let upper = "ABCDEFGHIJKLMNOPQRSTUVWXYZ";
    for (l, u) in lower.chars().zip(upper.chars()) {
        assert_eq!(from_char(l), from_char(u));
        assert_ne!(from_char(u), &QUESTION_MARK);
    }
}

#[test]
fn digits_have_their_glyphs() {
    assert_eq!(from_char('0'), &DIGIT_0);
    assert_eq!(from_char('5'), &DIGIT_5);
    assert_eq!(from_char('9'), &DIGIT_9);
}

#[test]
fn colon_space_and_nul_have_their_glyphs() {
    assert_eq!(from_char(':'), &COLON);
    assert_eq!(from_char(' '), &EMPTY);
    assert_eq!(from_char('\0'), &EMPTY);
}

#[test]
fn characters_without_a_glyph_show_the_question_mark() {
    for c in ['!', '?', '-', '\n', '@', '[', '`', '{', '/', ';', 'é', 'ü', '日', '\u{7f}'] {
        assert_eq!(from_char(c), &QUESTION_MARK);
    }
}

#[test]
fn characters_next_to_the_letters_are_not_letters() {
    // '@' and '[' stand around 'A'..'Z', '`' and '{' around 'a'..'z'.
    assert_eq!(from_char('@'), &QUESTION_MARK);
    assert_eq!(from_char('['), &QUESTION_MARK);
    assert_eq!(from_char('`'), &QUESTION_MARK);
    assert_eq!(from_char('{'), &QUESTION_MARK);
    // 'P' + 32 is 'p', '0' + 32 is 'P': only letters are folded.
    assert_eq!(from_char('\u{10}'), &QUESTION_MARK);
}

#[test]
fn every_glyph_is_made_of_single_bits() {
    for code in 0u32..0x250 {
        if let Some(c) = char::from_u32(code) {
            for row in from_char(c).iter() {
                for &cell in row.iter() {
                    assert!(cell <= 1);
                }
            }
        }
    }
}

#[test]
fn the_two_plain_frames() {
    assert_eq!(lit_cells(&EMPTY), 0);
    assert_eq!(lit_cells(&FULL), 64);
}

#[test]
fn glyph_of_a_has_the_expected_cells() {
    let a = from_char('a');
    assert_eq!(a[0], [0, 0, 1, 1, 0, 0, 0, 0]);
    assert_eq!(a[5], [1, 1, 1, 1, 1, 1, 0, 0]);
    assert_eq!(lit_cells(a), 32);
}

#[test]
fn a_panorama_holds_up_to_eight_frames() {
    assert_eq!(MAX_LEN, 8);
    let p = Panorama { graphics: [&EMPTY; MAX_LEN], len: 3 };
    let q = p;
    assert_eq!(q.len, 3);
    assert_eq!(p.graphics[7], &EMPTY);
}
