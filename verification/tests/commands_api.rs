//! Command surfaces: the TCP line protocol, the broker topics, telegram
//! classification, and the address model.

use knx_blinds::cemi::cEMIMsg;
use knx_blinds::commands::{
    blind_from_str, first_token_end, get_addr, mqtt_set, mqtt_tilt_angle, parse_command,
    parse_cover_topic, query_reply, report_state, CmdErr, Command, CoverState, TargetIter,
    TopicKind,
};
use knx_blinds::telegram::{is_cover_addr, on_telegram, TelegramAction};
use knx_blinds::tracking::BlindEntry;
use knx_blinds::types::{Angle, Blind, Direction, Pos};

#[test]
fn parse_command_tokens() {
    assert_eq!(
        parse_command(b"1"),
        Command::Move { single_step: false, direction: Direction::Down }
    );
    assert_eq!(
        parse_command(b"Z"),
        Command::Move { single_step: false, direction: Direction::Down }
    );
    assert_eq!(
        parse_command(b"0"),
        Command::Move { single_step: false, direction: Direction::Up }
    );
    assert_eq!(
        parse_command(b"A"),
        Command::Move { single_step: false, direction: Direction::Up }
    );
    assert_eq!(
        parse_command(b"S"),
        Command::Move { single_step: true, direction: Direction::Down }
    );
    assert_eq!(
        parse_command(b"D"),
        Command::Move { single_step: true, direction: Direction::Down }
    );
    assert_eq!(
        parse_command(b"U"),
        Command::Move { single_step: true, direction: Direction::Up }
    );
    assert_eq!(parse_command(b"?"), Command::Query);
    assert_eq!(
        parse_command(&[0x80 | 50, 3]),
        Command::MoveTo { pos: 50, ang: 3 }
    );
    // out-of-range position or angle is refused
    assert_eq!(parse_command(&[0x80 | 101, 3]), Command::Invalid);
    assert_eq!(parse_command(&[0x80 | 50, 8]), Command::Invalid);
    // no high bit: not an absolute move
    assert_eq!(parse_command(&[50, 3]), Command::Invalid);
    assert_eq!(parse_command(b"X"), Command::Invalid);
    assert_eq!(parse_command(b""), Command::Invalid);
}

#[test]
fn first_token_end_splits_on_space() {
    assert_eq!(first_token_end(b"K 1"), 1);
    assert_eq!(first_token_end(b"W2 ?"), 2);
    assert_eq!(first_token_end(b"A"), 1);
    assert_eq!(first_token_end(b""), 0);
}

#[test]
fn get_addr_resolves_room_names() {
    let cases: [(&[u8], u8); 8] = [
        (b"K", b'a'),
        (b"S", b'b'),
        (b"W3", b'c'),
        (b"BL", b'd'),
        (b"W4", b'e'),
        (b"W1", b'f'),
        (b"BR", b'g'),
        (b"W2", b'h'),
    ];
    for (name, letter) in cases {
        assert_eq!(get_addr(name).unwrap(), Blind::from_port(letter));
    }
    assert_eq!(get_addr(b"XX").unwrap_err(), CmdErr::InvalidData);
    assert_eq!(get_addr(b"").unwrap_err(), CmdErr::InvalidData);
}

#[test]
fn target_iter_groups() {
    let mut all = TargetIter::new(b"A").unwrap();
    let mut letters = Vec::new();
    while let Some(b) = all.next() {
        letters.push(b.letter());
    }
    assert_eq!(letters, vec!['a', 'b', 'c', 'd', 'e', 'f', 'g', 'h']);

    let mut balcony = TargetIter::new(b"B").unwrap();
    assert_eq!(balcony.next().unwrap().letter(), 'g');
    assert_eq!(balcony.next().unwrap().letter(), 'd');
    assert!(balcony.next().is_none());

    let mut wall = TargetIter::new(b"W").unwrap();
    let mut ws = Vec::new();
    while let Some(b) = wall.next() {
        ws.push(b.letter());
    }
    assert_eq!(ws, vec!['h', 'f', 'e', 'c']);

    let mut single = TargetIter::new(b"K").unwrap();
    assert_eq!(single.next().unwrap().letter(), 'a');
    assert!(single.next().is_none());

    assert!(TargetIter::new(b"Q").is_err());
}

#[test]
fn blind_from_str_takes_the_first_letter() {
    assert_eq!(blind_from_str(b"a").unwrap().letter(), 'a');
    assert_eq!(blind_from_str(b"h").unwrap().letter(), 'h');
    assert!(blind_from_str(b"i").is_none());
    assert!(blind_from_str(b"Z").is_none());
    assert!(blind_from_str(b"").is_none());
}

#[test]
fn mqtt_set_payloads() {
    assert_eq!(mqtt_set(b"OPEN"), Some((false, Direction::Up)));
    assert_eq!(mqtt_set(b"CLOSE"), Some((false, Direction::Down)));
    assert_eq!(mqtt_set(b"STOP"), Some((true, Direction::Up)));
    assert_eq!(mqtt_set(b"HALT"), None);
    assert_eq!(mqtt_set(b""), None);
}

#[test]
fn mqtt_tilt_payloads() {
    assert_eq!(mqtt_tilt_angle(b"0").unwrap().as_num(), 0);
    assert_eq!(mqtt_tilt_angle(b"5").unwrap().as_num(), 5);
    assert_eq!(mqtt_tilt_angle(b"7").unwrap().as_num(), 7);
    assert!(mqtt_tilt_angle(b"8").is_none());
    assert!(mqtt_tilt_angle(b"STOP").is_none());
    assert!(mqtt_tilt_angle(b"").is_none());
}

#[test]
fn cover_topics() {
    let (b, kind) = parse_cover_topic(b"cover/a/set").unwrap();
    assert_eq!(b.letter(), 'a');
    assert_eq!(kind, TopicKind::Drive);
    let (b, kind) = parse_cover_topic(b"cover/h/tilt").unwrap();
    assert_eq!(b.letter(), 'h');
    assert_eq!(kind, TopicKind::Tilt);
    assert!(parse_cover_topic(b"covers/a/set").is_none());
    assert!(parse_cover_topic(b"cover/z/set").is_none());
    assert!(parse_cover_topic(b"cover/a/state").is_none());
    assert!(parse_cover_topic(b"").is_none());
}

#[test]
fn query_reply_encoding() {
    let moving_up = BlindEntry { move_start: Some(5), dir: Direction::Up, pos: 40, ang: 3 };
    assert_eq!(query_reply(Some(moving_up)), (40, 3 + 48));
    let moving_down = BlindEntry { move_start: Some(5), dir: Direction::Down, pos: 41, ang: 2 };
    assert_eq!(query_reply(Some(moving_down)), (41, 2 + 32));
    let resting = BlindEntry { move_start: None, dir: Direction::Down, pos: 42, ang: 1 };
    assert_eq!(query_reply(Some(resting)), (42, 1));
    assert_eq!(query_reply(None), (255, 255));
}

#[test]
fn report_states_and_labels() {
    let moving_up = BlindEntry { move_start: Some(1), dir: Direction::Up, pos: 50, ang: 0 };
    assert_eq!(report_state(&moving_up), CoverState::Opening);
    let moving_down = BlindEntry { move_start: Some(1), dir: Direction::Down, pos: 50, ang: 0 };
    assert_eq!(report_state(&moving_down), CoverState::Closing);
    let top = BlindEntry { move_start: None, dir: Direction::Up, pos: 100, ang: 7 };
    assert_eq!(report_state(&top), CoverState::Open);
    let bottom = BlindEntry { move_start: None, dir: Direction::Down, pos: 0, ang: 0 };
    assert_eq!(report_state(&bottom), CoverState::Closed);
    let mid = BlindEntry { move_start: None, dir: Direction::Down, pos: 55, ang: 3 };
    assert_eq!(report_state(&mid), CoverState::Stopped);
    assert_eq!(CoverState::Opening.label(), "opening");
    assert_eq!(CoverState::Stopped.label(), "stopped");
}

#[test]
fn cover_address_range() {
    assert!(!is_cover_addr(0x0fff));
    assert!(is_cover_addr(0x1000));
    assert!(is_cover_addr(0x10aa));
    assert!(is_cover_addr(0x11ff));
    assert!(!is_cover_addr(0x1200));
}

#[test]
fn telegram_wind_alarm() {
    // unsolicited group write to address 1 with payload [1]
    let bytes = [0x29, 0x00, 0xbc, 0xe0, 0x00, 0x00, 0x00, 0x01, 0x01, 0x00, 0x81];
    assert_eq!(on_telegram(&cEMIMsg::from_bytes(&bytes)), TelegramAction::WindAlarm);
    // payload [0] means all clear: nothing to do
    let bytes = [0x29, 0x00, 0xbc, 0xe0, 0x00, 0x00, 0x00, 0x01, 0x01, 0x00, 0x80];
    assert_eq!(on_telegram(&cEMIMsg::from_bytes(&bytes)), TelegramAction::Ignore);
}

#[test]
fn telegram_wind_speed() {
    let bytes = [
        0x29, 0x00, 0xbc, 0xe0, 0x00, 0x00, 0x00, 0x02, 0x03, 0x00, 0x80, 0x12, 0x34,
    ];
    assert_eq!(
        on_telegram(&cEMIMsg::from_bytes(&bytes)),
        TelegramAction::WindSpeed(0x1234)
    );
}

#[test]
fn telegram_cover_indication_and_confirmation() {
    // bus indication: full move down on blind a
    let ind = [0x29, 0x00, 0xbc, 0xe0, 0x00, 0x00, 0x10, 0xaa, 0x01, 0x00, 0x81];
    assert_eq!(
        on_telegram(&cEMIMsg::from_bytes(&ind)),
        TelegramAction::Cover {
            blind: Blind::from_port(b'a'),
            direction: Direction::Down,
            single_step: false,
        }
    );
    // confirmation of our own single-step up on blind b
    let con = [0x2e, 0x00, 0xbc, 0xe0, 0x00, 0x00, 0x11, 0xab, 0x01, 0x00, 0x80];
    assert_eq!(
        on_telegram(&cEMIMsg::from_bytes(&con)),
        TelegramAction::Cover {
            blind: Blind::from_port(b'b'),
            direction: Direction::Up,
            single_step: true,
        }
    );
}

#[test]
fn telegram_ignores_foreign_traffic() {
    // a cover-family address whose low byte is no blind of ours
    let foreign = [0x29, 0x00, 0xbc, 0xe0, 0x00, 0x00, 0x10, 0x55, 0x01, 0x00, 0x81];
    assert_eq!(on_telegram(&cEMIMsg::from_bytes(&foreign)), TelegramAction::Ignore);
    // not a group write at all
    let other = [0x29, 0x00, 0xbc, 0xe0, 0x00, 0x00, 0x10, 0xaa, 0x01, 0x00, 0x01];
    assert_eq!(on_telegram(&cEMIMsg::from_bytes(&other)), TelegramAction::Ignore);
    // a request code is neither an indication nor a confirmation
    let req = [0x11, 0x00, 0xbc, 0xe0, 0x00, 0x00, 0x10, 0xaa, 0x01, 0x00, 0x81];
    assert_eq!(on_telegram(&cEMIMsg::from_bytes(&req)), TelegramAction::Ignore);
}

#[test]
fn blind_addressing_round_trip() {
    let a = Blind::from_port(b'a');
    assert_eq!(a.to_bus_addr(false), 0x10aa);
    assert_eq!(a.to_bus_addr(true), 0x11aa);
    assert_eq!(Blind::from_bus_addr(0x10aa).unwrap(), (a, false));
    assert_eq!(Blind::from_bus_addr(0x11aa).unwrap(), (a, true));
    let h = Blind::from_port(b'h');
    assert_eq!(Blind::from_bus_addr(0x11b1).unwrap(), (h, true));
    assert_eq!(h.letter(), 'h');
    // low byte outside the blind range
    assert_eq!(Blind::from_bus_addr(0x10a9).unwrap_err(), (0xa9, 0x1000));
    // high byte outside the two command families
    assert_eq!(Blind::from_bus_addr(0x12aa).unwrap_err(), (0xaa, 0x1200));
}

#[test]
fn position_and_angle_arithmetic() {
    let mut p = Pos::from_num(50);
    p.up(knx_blinds::FULL_TRAVEL_TIME_NS / 2);
    assert_eq!(p.as_num(), 100);
    let mut p = Pos::from_num(10);
    p.down(knx_blinds::FULL_TRAVEL_TIME_NS);
    assert_eq!(p.as_num(), 0);
    assert_eq!(Pos::step_time(50), knx_blinds::FULL_TRAVEL_TIME_NS / 2);
    assert_eq!(Pos::from_num(20).delta(Pos::from_num(70)), (Direction::Up, 50));
    assert_eq!(Pos::from_num(70).delta(Pos::from_num(20)), (Direction::Down, 50));

    let mut a = Angle::from_num(3);
    a.up(knx_blinds::FULL_TURN_TIME_NS);
    assert_eq!(a.as_num(), 7);
    let mut a = Angle::from_num(3);
    // 0.3 s of the 2 s turn covers one angle unit
    a.down(300_000_000);
    assert_eq!(a.as_num(), 2);
    assert!(Angle::from_num(7).step_up(1));
    assert!(!Angle::from_num(3).step_up(1));
    // the whole overflow-safe step range is accepted and saturates
    let mut a = Angle::from_num(7);
    assert!(a.step_up(248));
    assert_eq!(a.as_num(), 7);
    assert_eq!(Angle::step_time(7), knx_blinds::FULL_TURN_TIME_NS);
    assert_eq!(Angle::from_num(2).delta(Angle::from_num(6)), (Direction::Up, 4));
}
