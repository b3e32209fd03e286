//! The playback server's line protocol.

use mmlx::server::{bare_name, parse_command, Audition, Command};

#[test]
fn bare_name_detects_builtin_calls() {
    assert_eq!(bare_name("all_features()"), Some("all_features".to_string()));
    assert_eq!(bare_name("  loop_alisia_stage1()  "), Some("loop_alisia_stage1".to_string()));
    // Anything else (arguments, operators, macros, empty) goes JIT.
    for expr in ["", "foo(1)", "ser!([c4q])", "a + b", "foo ()", "play x"] {
        assert_eq!(bare_name(expr), None, "{expr:?}");
    }
    assert_eq!(bare_name("songs::intro()"), Some("songs::intro".to_string()));
    // Unknown names miss the registry.
    assert!(mmlx::conformance::song_by_name("no_such_song").is_none());
}

#[test]
fn audition_rejects_bad_args() {
    assert_eq!(parse_command("audition 999 ym"), Command::Audition(Audition::Usage));
    assert_eq!(parse_command("audition 60 kazoo"), Command::Audition(Audition::Usage));
    assert_eq!(parse_command("audition"), Command::Audition(Audition::Usage));
    assert_eq!(
        parse_command("audition 60 ym"),
        Command::Audition(Audition::Play { midi: 60, instrument: "ym".to_string() })
    );
    assert_eq!(
        parse_command("audition  +7\tpsg extra"),
        Command::Audition(Audition::Play { midi: 7, instrument: "psg".to_string() })
    );
    assert_eq!(parse_command("audition -1 ym"), Command::Audition(Audition::Usage));
    assert_eq!(parse_command("audition 99999999999 ym"), Command::Audition(Audition::Usage));
}

#[test]
fn commands_parse() {
    assert_eq!(parse_command("play  all_features()  "), Command::Play("all_features()".to_string()));
    assert_eq!(parse_command("load songs/a.rs"), Command::Load("songs/a.rs".to_string()));
    assert_eq!(parse_command("reload"), Command::Reload(String::new()));
    assert_eq!(parse_command("stop"), Command::Stop);
    assert_eq!(parse_command("reset"), Command::Reset);
    assert_eq!(parse_command("resume"), Command::Resume);
    assert_eq!(parse_command("loop off"), Command::Loop(false));
    assert_eq!(parse_command("loop on"), Command::Loop(true));
    assert_eq!(parse_command("loop"), Command::Loop(true));
    assert_eq!(parse_command(""), Command::Empty);
    assert_eq!(parse_command(" play x"), Command::Empty);
    assert_eq!(parse_command("dance now"), Command::Unknown("dance".to_string()));
    assert_eq!(parse_command("roll ser!(c4q)"), Command::Roll("ser!(c4q)".to_string()));
    assert_eq!(parse_command("preview c4q"), Command::Preview("c4q".to_string()));
}

#[test]
fn bare_name_trims_unicode_whitespace() {
    assert_eq!(bare_name("\u{3000}all_features()\u{00A0}\u{2029}").as_deref(), Some("all_features"));
    assert_eq!(bare_name("\t\u{85}loop_alisia_stage1()\u{205F}").as_deref(), Some("loop_alisia_stage1"));
    // A zero-width space is not whitespace.
    assert_eq!(bare_name("\u{200B}all_features()"), None);
}
