use dotmatrix::tcpserver::{
    command_line, handle_command, CommandStatus, EchoOp, EchoStage, Event, Session, GREETING,
    PORT,
    SESSION_TIMEOUT_SECS, STATUS_CLOCK, STATUS_ECHO, STATUS_ERROR, STATUS_UNKNOWN, STATUS_WEATHER,
};
use dotmatrix::text::{CLOCK_WIDTH, WEATHER_WIDTH};
use dotmatrix::Data;

fn status(text: &str) -> [u8; 64] {
    let mut out = [0u8; 64];
    out[..text.len()].copy_from_slice(text.as_bytes());
    out
}

fn stored(text: &[u8]) -> Option<[u8; 16]> {
    let mut out = [0u8; 16];
    out[..text.len()].copy_from_slice(text);
    Some(out)
}

#[test]
fn the_texts_of_the_protocol() {
    assert_eq!(GREETING, "[*] welcome~\n");
    assert_eq!(STATUS_ECHO, "[*] echoing message\n");
    assert_eq!(STATUS_CLOCK, "[*] clock set! ^-^\n");
    assert_eq!(STATUS_WEATHER, "[*] weather set! ^-^\n");
    assert_eq!(STATUS_UNKNOWN, "[*] unknown command :c\n");
    assert_eq!(STATUS_ERROR, "[*] error :c");
    assert_eq!(PORT, 1234);
    assert_eq!(SESSION_TIMEOUT_SECS, 10);
    assert_eq!(CLOCK_WIDTH, 16);
    assert_eq!(WEATHER_WIDTH, 16);
}

#[test]
fn a_status_is_sixty_four_bytes_filled_with_nul() {
    let s = CommandStatus::new("hi");
    assert_eq!(s.mesg.len(), 64);
    assert_eq!(&s.mesg[..2], b"hi");
    assert!(s.mesg[2..].iter().all(|&b| b == 0));
    assert_eq!(CommandStatus::new("").mesg, [0u8; 64]);
}

#[test]
fn a_status_keeps_sixty_four_bytes_of_a_long_text() {
    let long = "abcdefgh".repeat(10);
    let s = CommandStatus::new(&long);
    assert_eq!(&s.mesg[..], &long.as_bytes()[..64]);
    let exact = "z".repeat(64);
    assert_eq!(&CommandStatus::new(&exact).mesg[..], exact.as_bytes());
}

#[test]
fn command_1_stores_a_short_clock_text_with_padding() {
    let mut data = Data::new();
    let reply = handle_command("1AB", &mut data);
    assert_eq!(reply.status.mesg, status("[*] clock set! ^-^\n"));
    assert_eq!(reply.echo, None);
    assert_eq!(data.clock, Some([b'A', b'B', 0, 0, 0, 0, 0, 0, 0, 0, 0, 0, 0, 0, 0, 0]));
    assert_eq!(data.weather, None);
}

#[test]
fn command_1_cuts_a_long_clock_text_without_an_error() {
    let mut data = Data::new();
    let reply = handle_command("10123456789abcdefXYZ", &mut data);
    assert_eq!(reply.status.mesg, status(STATUS_CLOCK));
    assert_eq!(data.clock, Some(*b"0123456789abcdef"));
    let reply = handle_command("10123456789abcdef", &mut data);
    assert_eq!(reply.status.mesg, status(STATUS_CLOCK));
    assert_eq!(data.clock, Some(*b"0123456789abcdef"));
}

#[test]
fn command_1_may_cut_within_a_character() {
    let mut data = Data::new();
    let reply = handle_command("10123456789abcdeé", &mut data);
    assert_eq!(reply.status.mesg, status(STATUS_CLOCK));
    let mut expect = *b"0123456789abcde\0";
    expect[15] = 0xc3;
    assert_eq!(data.clock, Some(expect));
}

#[test]
fn command_1_without_an_argument_stores_the_empty_text() {
    let mut data = Data::new();
    data.clock = stored(b"old");
    let reply = handle_command("1", &mut data);
    assert_eq!(reply.status.mesg, status(STATUS_CLOCK));
    assert_eq!(data.clock, Some([0u8; 16]));
}

#[test]
fn command_2_stores_the_weather_text() {
    let mut data = Data::new();
    data.clock = stored(b"12:00");
    let reply = handle_command("2sunny 21", &mut data);
    assert_eq!(reply.status.mesg, status("[*] weather set! ^-^\n"));
    assert_eq!(reply.echo, None);
    assert_eq!(data.weather, stored(b"sunny 21"));
    assert_eq!(data.clock, stored(b"12:00"));
    let reply = handle_command("2a very long weather report", &mut data);
    assert_eq!(reply.status.mesg, status(STATUS_WEATHER));
    assert_eq!(data.weather, Some(*b"a very long weat"));
}

#[test]
fn command_0_hands_back_the_text_to_show() {
    let mut data = Data::new();
    data.clock = stored(b"12:00");
    let reply = handle_command("0hello world", &mut data);
    assert_eq!(reply.status.mesg, status("[*] echoing message\n"));
    assert_eq!(reply.echo, Some("hello world"));
    assert_eq!(data.clock, stored(b"12:00"));
    assert_eq!(data.weather, None);
    assert_eq!(handle_command("0", &mut data).echo, Some(""));
    assert_eq!(handle_command("0 0", &mut data).echo, Some(" 0"));
    assert_eq!(handle_command("0grüße", &mut data).echo, Some("grüße"));
}

#[test]
fn the_argument_starts_right_after_the_command() {
    let mut data = Data::new();
    handle_command("1 AB", &mut data);
    assert_eq!(data.clock, stored(b" AB"));
    handle_command("11", &mut data);
    assert_eq!(data.clock, stored(b"1"));
}

#[test]
fn every_other_line_is_unknown() {
    for line in ["", "3", "x", "hello", " 1AB", "\n", "é1", "日本", "\u{0}", "/", "\u{7f}0"] {
        let mut data = Data::new();
        data.weather = stored(b"rain");
        let reply = handle_command(line, &mut data);
        assert_eq!(reply.status.mesg, status("[*] unknown command :c\n"));
        assert_eq!(reply.echo, None);
        assert_eq!(data.clock, None);
        assert_eq!(data.weather, stored(b"rain"));
    }
}

#[test]
fn a_line_comes_without_the_white_space_around_it() {
    assert_eq!(command_line(b"0hi\n"), Some("0hi"));
    assert_eq!(command_line(b"  1AB \r\n"), Some("1AB"));
    assert_eq!(command_line(b"\t2 sunny day\t"), Some("2 sunny day"));
    assert_eq!(command_line(b"x"), Some("x"));
    assert_eq!(command_line("\u{a0}0ä\u{2003}".as_bytes()), Some("0ä"));
}

#[test]
fn a_line_ends_at_the_first_nul_byte() {
    assert_eq!(command_line(b"0hi\0junk"), Some("0hi"));
    assert_eq!(command_line(b"0hi\n\0\xff\xff"), Some("0hi"));
    assert_eq!(command_line(b"1AB\0\0\0\0"), Some("1AB"));
}

#[test]
fn a_read_without_text_gives_no_line() {
    assert_eq!(command_line(b""), None);
    assert_eq!(command_line(b"\0"), None);
    assert_eq!(command_line(b"\0abc"), None);
}

#[test]
fn bytes_that_are_no_text_give_no_line() {
    assert_eq!(command_line(&[0xff, 0xfe]), None);
    assert_eq!(command_line(&[b'0', 0xc3]), None);
    assert_eq!(command_line(&[b'0', 0xc3, 0x00]), None);
}

#[test]
fn a_line_of_white_space_is_an_unknown_command() {
    let line = command_line(b" \r\n").unwrap();
    assert_eq!(line, "");
    let mut data = Data::new();
    let reply = handle_command(line, &mut data);
    assert_eq!(reply.status.mesg, status(STATUS_UNKNOWN));
}

#[test]
fn a_received_line_is_carried_out() {
    let mut data = Data::new();
    let line = command_line(b"1 9:41 \r\n\0").unwrap();
    let reply = handle_command(line, &mut data);
    assert_eq!(reply.status.mesg, status(STATUS_CLOCK));
    assert_eq!(data.clock, stored(b" 9:41"));
    assert_eq!(data.clock_text(), Some(Ok(" 9:41\0\0\0\0\0\0\0\0\0\0\0")));
}

#[test]
fn a_session_runs_its_course() {
    let mut s = Session::new();
    assert_eq!(s, Session::Accepting);
    assert!(!s.connected());
    s = s.next(Event::Accepted);
    assert_eq!(s, Session::Greeting);
    assert!(s.connected());
    s = s.next(Event::Sent);
    assert_eq!(s, Session::Reading);
    s = s.next(Event::Skipped);
    assert_eq!(s, Session::Reading);
    s = s.next(Event::Line);
    assert_eq!(s, Session::Replying);
    s = s.next(Event::Sent);
    assert_eq!(s, Session::Reading);
    s = s.next(Event::Closed);
    assert_eq!(s, Session::Accepting);
}

#[test]
fn a_failure_ends_the_session_and_no_more() {
    for state in [Session::Accepting, Session::Greeting, Session::Reading, Session::Replying] {
        assert_eq!(state.next(Event::Failed), Session::Accepting);
        assert_eq!(state.next(Event::Closed), Session::Accepting);
        let again = state.next(Event::Failed).next(Event::Accepted).next(Event::Sent);
        assert_eq!(again, Session::Reading);
    }
}

#[test]
fn an_event_out_of_turn_ends_the_session() {
    assert_eq!(Session::Accepting.next(Event::Sent), Session::Accepting);
    assert_eq!(Session::Accepting.next(Event::Line), Session::Accepting);
    assert_eq!(Session::Greeting.next(Event::Accepted), Session::Accepting);
    assert_eq!(Session::Greeting.next(Event::Line), Session::Accepting);
    assert_eq!(Session::Reading.next(Event::Sent), Session::Accepting);
    assert_eq!(Session::Reading.next(Event::Accepted), Session::Accepting);
    assert_eq!(Session::Replying.next(Event::Line), Session::Accepting);
    assert_eq!(Session::Replying.next(Event::Skipped), Session::Accepting);
}

#[test]
fn command_0_claims_first_and_releases_last() {
    let mut stages = vec![EchoStage::first()];
    while let Some(next) = stages[stages.len() - 1].next() {
        stages.push(next);
        assert!(stages.len() <= 4);
    }
    assert_eq!(
        stages,
        vec![EchoStage::Claim, EchoStage::Alert, EchoStage::Scroll, EchoStage::Release]
    );
}

#[test]
fn command_0_says_what_each_step_asks_for() {
    assert_eq!(EchoStage::Claim.operation("hi"), EchoOp::SetOverride(true));
    assert_eq!(EchoStage::Alert.operation("hi"), EchoOp::Alert);
    assert_eq!(EchoStage::Scroll.operation("hi"), EchoOp::Scroll { text: "hi", prio: true });
    assert_eq!(EchoStage::Release.operation("hi"), EchoOp::SetOverride(false));
}

#[test]
fn command_0_holds_the_override_while_it_shows_its_text() {
    let mut held = false;
    let mut shown = Vec::new();
    let mut stage = Some(EchoStage::first());
    while let Some(now) = stage {
        match now.operation("hello") {
            EchoOp::SetOverride(v) => held = v,
            EchoOp::Alert => {
                assert!(held);
                shown.push("alert");
            }
            EchoOp::Scroll { text, prio } => {
                assert!(held);
                assert!(prio);
                shown.push(text);
            }
        }
        stage = now.next();
    }
    assert!(!held);
    assert_eq!(shown, vec!["alert", "hello"]);
}

#[test]
fn a_line_is_a_piece_of_what_was_received() {
    for received in ["0hi\n", "  1AB \r\n", "x", "\t2 sunny day\t", "\u{a0}0ä\u{2003}"] {
        let line = command_line(received.as_bytes()).unwrap();
        assert!(received.contains(line));
        assert!(line.len() <= received.len());
    }
}
