//! The player's transport decisions, replies, lanes and position lines.

use mmlx::server::{parse_command, Audition, Command};
use mmlx::transport::{lane_ordinals, lane_param, pos_line, reply_text, Effect, Lane, Reply, Transport};

fn loaded_playing() -> Transport {
    let mut t = Transport::new();
    t.started(3, false);
    t
}

#[test]
fn replies_read_as_the_protocol_says() {
    assert_eq!(reply_text(&Reply::Stopped), "ok stopped");
    assert_eq!(reply_text(&Reply::Home), "pos 0 -1 - - -");
    assert_eq!(reply_text(&Reply::Looping(false)), "ok loop off");
    assert_eq!(reply_text(&Reply::Looping(true)), "ok loop on");
    assert_eq!(reply_text(&Reply::UnknownCommand("dance".to_string())), "err unknown command dance");
    assert_eq!(reply_text(&Reply::Playing(42)), "ok playing 42");
    assert_eq!(reply_text(&Reply::Reloaded(0)), "ok reloaded 0");
    assert_eq!(reply_text(&Reply::AuditionUsage), "err usage: audition <midi 0-127> <ym|psg>");
    assert_eq!(reply_text(&Reply::Ended), "ended");
}

#[test]
fn stop_then_resume_continues() {
    let mut t = loaded_playing();
    assert!(t.playing);
    let stop = t.command(&Command::Stop).unwrap();
    assert_eq!(
        stop,
        vec![Effect::HoldPosition, Effect::HaltClock, Effect::Silence, Effect::Mute(true), Effect::Say(Reply::Stopped)]
    );
    assert!(!t.playing);
    // A second stop holds nothing: the clock is already halted.
    assert_eq!(t.command(&Command::Stop).unwrap()[0], Effect::HaltClock);
    let resume = t.command(&Command::Resume).unwrap();
    assert_eq!(
        resume,
        vec![Effect::Silence, Effect::Requeue, Effect::StartClock, Effect::Mute(false), Effect::Say(Reply::Resumed)]
    );
    assert!(t.playing);
    assert_eq!(t.command(&Command::Resume).unwrap(), vec![Effect::Say(Reply::AlreadyPlaying)]);
}

#[test]
fn resume_needs_something_collected() {
    let mut t = Transport::new();
    assert_eq!(t.command(&Command::Resume).unwrap(), vec![Effect::Say(Reply::NothingToResume)]);
    assert_eq!(t.command(&Command::Reload(String::new())).unwrap(), vec![Effect::Say(Reply::NothingToReload)]);
    assert_eq!(t.command(&Command::Reload("c4q".to_string())), None);
    assert_eq!(t.command(&Command::Play("c4q".to_string())), None);
    assert_eq!(t, Transport::new());
}

#[test]
fn loop_reset_and_unknown_commands() {
    let mut t = loaded_playing();
    assert_eq!(t.command(&parse_command("loop off")).unwrap(), vec![Effect::Say(Reply::Looping(false))]);
    assert!(!t.looping);
    assert_eq!(t.command(&parse_command("loop")).unwrap(), vec![Effect::Say(Reply::Looping(true))]);
    assert!(t.looping);
    let reset = t.command(&Command::Reset).unwrap();
    assert_eq!(
        reset,
        vec![
            Effect::HaltClock,
            Effect::Rewind,
            Effect::Silence,
            Effect::Mute(true),
            Effect::Say(Reply::Reset),
            Effect::Say(Reply::Home),
        ]
    );
    assert!(!t.playing);
    assert_eq!(t.last_ordinal, -1);
    assert_eq!(t.command(&parse_command("dance")).unwrap(), vec![Effect::Say(Reply::UnknownCommand("dance".to_string()))]);
    assert_eq!(t.command(&Command::Empty).unwrap(), vec![]);
    assert_eq!(t.command(&Command::Audition(Audition::Usage)).unwrap(), vec![Effect::Say(Reply::AuditionUsage)]);
}

#[test]
fn ticks_highlight_wrap_and_end_once() {
    let mut t = loaded_playing();
    assert_eq!(t.poll(false, 0), vec![Effect::Highlight(0)]);
    assert_eq!(t.poll(false, 0), vec![]);
    assert_eq!(t.poll(false, 2), vec![Effect::Highlight(2)]);
    assert_eq!(t.tick, 3);
    // Looping wraps at the end.
    assert_eq!(t.poll(true, 3), vec![Effect::WrapClock]);
    assert_eq!(t.last_ordinal, -1);
    t.command(&Command::Loop(false));
    assert_eq!(t.poll(true, 3), vec![Effect::HaltClock, Effect::Rewind, Effect::Say(Reply::Ended)]);
    assert!(!t.playing);
    assert_eq!(t.poll(true, 3), vec![]);
    assert_eq!(t.poll(false, 1), vec![]);
}

#[test]
fn generator_songs_page_per_cycle() {
    let mut t = Transport::new();
    t.started(5, true);
    assert_eq!(t.cycle, 0);
    assert_eq!(t.poll(true, 5), vec![Effect::PullBody]);
    assert_eq!(t.pulled(Some(true)), vec![]);
    assert_eq!(t.cycle, 1);
    assert_eq!(t.pulled(None), vec![Effect::HaltClock, Effect::Rewind, Effect::Say(Reply::Ended)]);
    assert!(!t.streaming && !t.playing);
    let mut s = Transport::new();
    s.started(5, true);
    let reset = s.command(&Command::Reset).unwrap();
    assert_eq!(reset[2], Effect::RewindStream);
    s.stream_rewound(Some(Some(true)));
    assert_eq!(s.cycle, 0);
    assert!(s.streaming);
    assert_eq!(s.no_bodies(), vec![Effect::Say(Reply::NoBodies)]);
    assert!(!s.streaming);
}

#[test]
fn lanes_count_per_pinned_channel() {
    assert_eq!(lane_param("ym"), Some("ym_channel"));
    assert_eq!(lane_param("psg"), Some("sn_channel"));
    assert_eq!(lane_param("lead"), None);
    let keys = vec![
        ("ym".to_string(), Some(0)),
        ("psg".to_string(), Some(0)),
        ("ym".to_string(), Some(0)),
        ("lead".to_string(), None),
        ("ym".to_string(), Some(1)),
        ("ym".to_string(), Some(0)),
    ];
    let lanes = lane_ordinals(&keys);
    let rows: Vec<(String, i64, i64)> = lanes.iter().map(|l| (l.instrument.clone(), l.channel, l.ordinal)).collect();
    assert_eq!(
        rows,
        vec![
            ("ym".to_string(), 0, 1),
            ("psg".to_string(), 0, 1),
            ("ym".to_string(), 0, 2),
            ("lead".to_string(), -1, -1),
            ("ym".to_string(), 1, 1),
            ("ym".to_string(), 0, 3),
        ]
    );
}

#[test]
fn position_lines_carry_the_lane() {
    let lanes = vec![
        Lane { instrument: "ym".to_string(), channel: 2, ordinal: 1 },
        Lane { instrument: "lead".to_string(), channel: -1, ordinal: -1 },
    ];
    assert_eq!(pos_line(7, 1, &lanes, 0), "pos 7 1 ym 2 1 0");
    assert_eq!(pos_line(8, 2, &lanes, 3), "pos 8 2 lead -1 -1 3");
    assert_eq!(pos_line(9, 0, &lanes, 0), "pos 9 0 - - - 0");
    assert_eq!(pos_line(10, 3, &lanes, 0), "pos 10 3 - - - 0");
    assert_eq!(pos_line(0, -1, &lanes, 0), "pos 0 -1 - - - 0");
}
