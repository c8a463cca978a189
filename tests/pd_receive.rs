use led_matrix::pd_receive::{parse_packet, PdCommand};

fn voice_level(packet: &str) -> Option<f32> {
    match parse_packet(packet)? {
        PdCommand::VoiceLevel(text) => std::str::from_utf8(&text).ok()?.parse::<f32>().ok(),
    }
}

#[test]
fn voicelevel() {
    assert_eq!(voice_level("/voicelevel/ 0.31;"), Some(0.31));
    assert_eq!(voice_level("/voicelevel/ 0.0;"), Some(0.0));
    assert_eq!(voice_level("/voicelevel 10.0;"), Some(10.0));
}

#[test]
fn none() {
    assert_eq!(voice_level("/voicelevel/;"), None);
    assert_eq!(voice_level("/voicel"), None);
}

#[test]
fn number_text_is_second_word_without_semicolon() {
    assert_eq!(
        parse_packet("/voicelevel/ 0.31;"),
        Some(PdCommand::VoiceLevel(b"0.31".to_vec()))
    );
    assert_eq!(
        parse_packet("  \t/voicelevel\n  -2.5;  extra words"),
        Some(PdCommand::VoiceLevel(b"-2.5".to_vec()))
    );
}

#[test]
fn unrecognized_path_is_ignored() {
    assert_eq!(parse_packet("/volume 0.5;"), None);
    assert_eq!(parse_packet("/voicelev 0.5;"), None);
}

#[test]
fn missing_terminator_or_number_gives_none() {
    assert_eq!(parse_packet("/voicelevel 0.5"), None);
    assert_eq!(parse_packet(""), None);
    assert_eq!(parse_packet("   "), None);
    assert_eq!(parse_packet("/voicelevel ;"), Some(PdCommand::VoiceLevel(Vec::new())));
    assert_eq!(voice_level("/voicelevel ;"), None);
    assert_eq!(voice_level("/voicelevel abc;"), None);
}
