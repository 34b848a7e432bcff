use chatsr::clock::{format_hms, timestamp};
use chatsr::commands::{parse_command, Command};
use chatsr::envelope::{render_message, show_msg, Envelope};

#[test]
fn format_hms_pads_to_two_digits() {
    assert_eq!(format_hms(10, 0, 0), "10:00:00");
    assert_eq!(format_hms(0, 5, 9), "00:05:09");
    assert_eq!(format_hms(23, 59, 59), "23:59:59");
}

#[test]
fn timestamp_is_a_clock_display() {
    let t = timestamp();
    let bytes = t.as_bytes();
    assert_eq!(bytes.len(), 8);
    assert_eq!(bytes[2], b':');
    assert_eq!(bytes[5], b':');
    for i in [0usize, 1, 3, 4, 6, 7] {
        assert!(bytes[i].is_ascii_digit());
    }
}

#[test]
fn envelope_round_trip_keeps_the_fields() {
    let env = Envelope {
        time: String::from("12:34:56"),
        nick: String::from("someone"),
        text: String::from("a line of text\n"),
    };
    let wire = env.to_wire();
    let back = Envelope::from_wire(&wire).unwrap();
    assert_eq!(back.time, "12:34:56");
    assert_eq!(back.nick, "someone");
    assert_eq!(back.text, "a line of text\n");
}

#[test]
fn render_message_formats_the_display_line() {
    let env = Envelope {
        time: String::from("10:00:00"),
        nick: String::from("A"),
        text: String::from("hi\n"),
    };
    assert_eq!(render_message(&env), "[10:00:00]<A>: hi\n");
}

#[test]
fn show_msg_renders_a_received_payload() {
    let wire = "{\"time\":\"10:00:00\",\"nick\":\"A\",\"text\":\"hi\\n\"}";
    let bytes = wire.as_bytes();
    assert_eq!(show_msg(bytes, bytes.len()), "[10:00:00]<A>: hi\n");
}

#[test]
fn show_msg_uses_only_the_given_prefix() {
    let wire = "{\"time\":\"10:00:00\",\"nick\":\"A\",\"text\":\"hi\\n\"}";
    let mut buff = wire.as_bytes().to_vec();
    buff.extend_from_slice(&[0, 0, 0, 0]);
    assert_eq!(show_msg(&buff, wire.len()), "[10:00:00]<A>: hi\n");
}

#[test]
fn show_msg_reports_bad_encoding() {
    let bytes: Vec<u8> = vec![0xff, 0xfe, 0xfd, 0xfc];
    assert_eq!(show_msg(&bytes, bytes.len()), "[invalid message encoding]");
}

#[test]
fn show_msg_reports_unparsable_payload() {
    let bytes = "this is not an envelope".as_bytes();
    assert_eq!(show_msg(bytes, bytes.len()), "[unreadable message]");
}

#[test]
fn from_wire_rejects_malformed_payloads() {
    assert!(Envelope::from_wire("{\"time\":").is_none());
    assert!(Envelope::from_wire("").is_none());
}

#[test]
fn keys_map_to_their_commands() {
    assert_eq!(parse_command('t'), Command::SendStream);
    assert_eq!(parse_command('u'), Command::SendDatagram);
    assert_eq!(parse_command('h'), Command::ShowHelp);
    assert_eq!(parse_command('q'), Command::Quit);
    assert_eq!(parse_command('x'), Command::Ignore);
    assert_eq!(parse_command(' '), Command::Ignore);
}
