use fanctl::cli::{command_from_name, Cli, Command};
use fanctl::wire::{decode_command, encode_command};

#[test]
fn commands_encode_as_json_strings() {
    assert_eq!(encode_command(Command::Status), b"\"Status\"".to_vec());
    assert_eq!(encode_command(Command::Daemon), b"\"Daemon\"".to_vec());
}

#[test]
fn encoded_commands_decode_to_themselves() {
    for c in [Command::Status, Command::Daemon] {
        assert_eq!(decode_command(&encode_command(c)), Some(c));
    }
}

#[test]
fn decoding_accepts_surrounding_whitespace() {
    assert_eq!(decode_command(b" \"Daemon\"\n"), Some(Command::Daemon));
}

#[test]
fn malformed_requests_decode_to_nothing() {
    assert_eq!(decode_command(b""), None);
    assert_eq!(decode_command(b"\xff\x00garbage"), None);
    assert_eq!(decode_command(b"Status"), None);
    assert_eq!(decode_command(b"\"status\""), None);
    assert_eq!(decode_command(b"\"Status"), None);
    assert_eq!(decode_command(b"\"Reboot\""), None);
    assert_eq!(decode_command(b"\"Status\" \"Status\""), None);
}

#[test]
fn tags_read_back_exactly() {
    assert_eq!(command_from_name(&"Status".to_string()), Some(Command::Status));
    assert_eq!(command_from_name(&"Daemon".to_string()), Some(Command::Daemon));
    assert_eq!(command_from_name(&"".to_string()), None);
    assert_eq!(command_from_name(&"Status ".to_string()), None);
    assert_eq!(Command::Status.wire_name(), "Status");
    assert_eq!(Command::Daemon.wire_name(), "Daemon");
}

#[test]
fn command_line_holds_its_command() {
    let cli = Cli { cmd: Command::Daemon };
    assert_eq!(cli.cmd, Command::Daemon);
}
