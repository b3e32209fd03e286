//! The player's transport: what a protocol command or a tick of the
//! playback clock does to the playing state, and the effects the host
//! carries out in turn (moving the clock, silencing voices, muting the
//! device, queueing audio, paging a generator song, replying).

use vstd::prelude::*;
use crate::server::{Audition, AuditionV, Command, CommandV};
use crate::text::{push_str, to_owned_string};
use crate::text::str_eq;
use crate::words::{dec_text, int_text, push_decimal, push_int};
use crate::note::copy_string;

verus! {

/// A reply line of the protocol.
#[derive(Debug, PartialEq)]
pub enum Reply {
    Stopped,
    Reset,
    /// The idle position line sent after a reset.
    Home,
    Resumed,
    AlreadyPlaying,
    NothingToResume,
    NothingToReload,
    AuditionUsage,
    Looping(bool),
    UnknownCommand(String),
    Playing(u64),
    Reloaded(u64),
    NoBodies,
    Ended,
}

pub ghost enum ReplyV {
    Stopped,
    Reset,
    Home,
    Resumed,
    AlreadyPlaying,
    NothingToResume,
    NothingToReload,
    AuditionUsage,
    Looping(bool),
    UnknownCommand(Seq<char>),
    Playing(u64),
    Reloaded(u64),
    NoBodies,
    Ended,
}

impl Reply {
    pub open spec fn view(&self) -> ReplyV {
        match self {
            Reply::Stopped => ReplyV::Stopped,
            Reply::Reset => ReplyV::Reset,
            Reply::Home => ReplyV::Home,
            Reply::Resumed => ReplyV::Resumed,
            Reply::AlreadyPlaying => ReplyV::AlreadyPlaying,
            Reply::NothingToResume => ReplyV::NothingToResume,
            Reply::NothingToReload => ReplyV::NothingToReload,
            Reply::AuditionUsage => ReplyV::AuditionUsage,
            Reply::Looping(on) => ReplyV::Looping(*on),
            Reply::UnknownCommand(w) => ReplyV::UnknownCommand(w@),
            Reply::Playing(n) => ReplyV::Playing(*n),
            Reply::Reloaded(n) => ReplyV::Reloaded(*n),
            Reply::NoBodies => ReplyV::NoBodies,
            Reply::Ended => ReplyV::Ended,
        }
    }
}

/// The text of a reply line.
pub open spec fn reply_line(r: ReplyV) -> Seq<char> {
    match r {
        ReplyV::Stopped => "ok stopped"@,
        ReplyV::Reset => "ok reset"@,
        ReplyV::Home => "pos 0 -1 - - -"@,
        ReplyV::Resumed => "ok resumed"@,
        ReplyV::AlreadyPlaying => "err already playing"@,
        ReplyV::NothingToResume => "err nothing to resume"@,
        ReplyV::NothingToReload => "err nothing to reload"@,
        ReplyV::AuditionUsage => "err usage: audition <midi 0-127> <ym|psg>"@,
        ReplyV::Looping(on) => if on { "ok loop on"@ } else { "ok loop off"@ },
        ReplyV::UnknownCommand(w) => "err unknown command "@ + w,
        ReplyV::Playing(n) => "ok playing "@ + dec_text(n as nat),
        ReplyV::Reloaded(n) => "ok reloaded "@ + dec_text(n as nat),
        ReplyV::NoBodies => "err stream yielded no bodies"@,
        ReplyV::Ended => "ended"@,
    }
}

/// The text of a reply.
pub fn reply_text(r: &Reply) -> (s: String)
    ensures
        s@ == reply_line(r.view()),
{
    match r {
        Reply::Stopped => to_owned_string("ok stopped"),
        Reply::Reset => to_owned_string("ok reset"),
        Reply::Home => to_owned_string("pos 0 -1 - - -"),
        Reply::Resumed => to_owned_string("ok resumed"),
        Reply::AlreadyPlaying => to_owned_string("err already playing"),
        Reply::NothingToResume => to_owned_string("err nothing to resume"),
        Reply::NothingToReload => to_owned_string("err nothing to reload"),
        Reply::AuditionUsage => to_owned_string("err usage: audition <midi 0-127> <ym|psg>"),
        Reply::Looping(on) => if *on { to_owned_string("ok loop on") } else { to_owned_string("ok loop off") },
        Reply::UnknownCommand(w) => {
            let mut s = to_owned_string("err unknown command ");
            push_str(&mut s, w.as_str());
            s
        },
        Reply::Playing(n) => {
            let mut s = to_owned_string("ok playing ");
            push_decimal(&mut s, *n);
            s
        },
        Reply::Reloaded(n) => {
            let mut s = to_owned_string("ok reloaded ");
            push_decimal(&mut s, *n);
            s
        },
        Reply::NoBodies => to_owned_string("err stream yielded no bodies"),
        Reply::Ended => to_owned_string("ended"),
    }
}

/// What the host does for the transport, in order.
#[derive(Debug, PartialEq)]
pub enum Effect {
    /// Keep the current playback position as the clock's offset.
    HoldPosition,
    /// Stop the clock.
    HaltClock,
    /// Set the clock's offset back to the start.
    Rewind,
    /// Rebuild the generator song and collect its first body, then report
    /// with `stream_rewound`.
    RewindStream,
    /// Drop queued audio and release sounding voices.
    Silence,
    /// Set the device's master mute.
    Mute(bool),
    /// Queue the collected events from the clock's offset.
    Requeue,
    /// Start the clock.
    StartClock,
    /// Move the clock back by the stream's length and restart it.
    WrapClock,
    /// Pull the next body of the generator song, then report with `pulled`.
    PullBody,
    /// Send the position line for this tick.
    Highlight(u64),
    /// Send a reply.
    Say(Reply),
}

pub ghost enum EffectV {
    HoldPosition,
    HaltClock,
    Rewind,
    RewindStream,
    Silence,
    Mute(bool),
    Requeue,
    StartClock,
    WrapClock,
    PullBody,
    Highlight(u64),
    Say(ReplyV),
}

impl Effect {
    pub open spec fn view(&self) -> EffectV {
        match self {
            Effect::HoldPosition => EffectV::HoldPosition,
            Effect::HaltClock => EffectV::HaltClock,
            Effect::Rewind => EffectV::Rewind,
            Effect::RewindStream => EffectV::RewindStream,
            Effect::Silence => EffectV::Silence,
            Effect::Mute(m) => EffectV::Mute(*m),
            Effect::Requeue => EffectV::Requeue,
            Effect::StartClock => EffectV::StartClock,
            Effect::WrapClock => EffectV::WrapClock,
            Effect::PullBody => EffectV::PullBody,
            Effect::Highlight(t) => EffectV::Highlight(*t),
            Effect::Say(r) => EffectV::Say(r.view()),
        }
    }
}

/// The views of a list of effects.
pub open spec fn effects_view(v: Seq<Effect>) -> Seq<EffectV> {
    v.map_values(|e: Effect| e.view())
}

/// The playing state: whether the clock runs, whether playback loops,
/// whether a generator song is paging, whether events are collected,
/// whether there is an expression to reload, the last highlighted
/// ordinal, the tick count and the generator cycle.
#[derive(Clone, Copy, Debug, PartialEq, Eq, Structural)]
pub struct Transport {
    pub playing: bool,
    pub looping: bool,
    pub streaming: bool,
    pub loaded: bool,
    pub has_expr: bool,
    pub last_ordinal: i64,
    pub tick: u64,
    pub cycle: u64,
}

/// The effects that end playback: the clock stops at the start, and
/// `ended` is sent.
pub open spec fn ending() -> Seq<EffectV> {
    seq![EffectV::HaltClock, EffectV::Rewind, EffectV::Say(ReplyV::Ended)]
}

/// What a command does without the host's evaluator: the next state and
/// the effects, or `None` when the command needs an expression evaluated
/// or a song looked up (`load`, `play`, `preview`, `roll`, a playable
/// `audition`, and a `reload` with something to reload).
pub open spec fn command_step(t: Transport, c: CommandV) -> Option<(Transport, Seq<EffectV>)> {
    match c {
        CommandV::Stop => Some((
            Transport { playing: false, ..t },
            (if t.playing { seq![EffectV::HoldPosition] } else { Seq::empty() }) + seq![
                EffectV::HaltClock,
                EffectV::Silence,
                EffectV::Mute(true),
                EffectV::Say(ReplyV::Stopped),
            ],
        )),
        CommandV::Reset => Some((
            Transport { playing: false, last_ordinal: -1i64, ..t },
            seq![EffectV::HaltClock, EffectV::Rewind] + (if t.streaming {
                seq![EffectV::RewindStream]
            } else {
                Seq::empty()
            }) + seq![
                EffectV::Silence,
                EffectV::Mute(true),
                EffectV::Say(ReplyV::Reset),
                EffectV::Say(ReplyV::Home),
            ],
        )),
        CommandV::Resume => Some(
            if t.playing {
                (t, seq![EffectV::Say(ReplyV::AlreadyPlaying)])
            } else if !t.loaded {
                (t, seq![EffectV::Say(ReplyV::NothingToResume)])
            } else {
                (
                    Transport { playing: true, last_ordinal: -1i64, ..t },
                    seq![
                        EffectV::Silence,
                        EffectV::Requeue,
                        EffectV::StartClock,
                        EffectV::Mute(false),
                        EffectV::Say(ReplyV::Resumed),
                    ],
                )
            },
        ),
        CommandV::Loop(on) => Some((Transport { looping: on, ..t }, seq![EffectV::Say(ReplyV::Looping(on))])),
        CommandV::Empty => Some((t, Seq::empty())),
        CommandV::Unknown(w) => Some((t, seq![EffectV::Say(ReplyV::UnknownCommand(w))])),
        CommandV::Audition(AuditionV::Usage) => Some((t, seq![EffectV::Say(ReplyV::AuditionUsage)])),
        CommandV::Reload(e) => if e.len() == 0 && !t.has_expr && !t.streaming {
            Some((t, seq![EffectV::Say(ReplyV::NothingToReload)]))
        } else {
            None
        },
        _ => None,
    }
}

/// What a tick of the playback clock does, given whether the clock has
/// reached the end of the collected events and the ordinal of the last
/// note-on sounded by now.
pub open spec fn poll_step(t: Transport, at_end: bool, ordinal: i64) -> (Transport, Seq<EffectV>) {
    if !t.playing {
        (t, Seq::empty())
    } else if t.loaded && at_end {
        if t.streaming && t.looping {
            (t, seq![EffectV::PullBody])
        } else if t.streaming {
            (Transport { streaming: false, playing: false, ..t }, ending())
        } else if t.looping {
            (Transport { last_ordinal: -1i64, ..t }, seq![EffectV::WrapClock])
        } else {
            (Transport { playing: false, ..t }, ending())
        }
    } else if ordinal != t.last_ordinal {
        (Transport { last_ordinal: ordinal, tick: (t.tick + 1) as u64, ..t }, seq![EffectV::Highlight(t.tick)])
    } else {
        (Transport { tick: (t.tick + 1) as u64, ..t }, Seq::empty())
    }
}

/// After a pull: a next body (collected events or none) starts playing
/// from the top in the next cycle; an exhausted song ends playback.
pub open spec fn pull_step(t: Transport, body: Option<bool>) -> (Transport, Seq<EffectV>) {
    match body {
        Some(loaded) => (
            Transport { cycle: (t.cycle + 1) as u64, playing: true, loaded, last_ordinal: -1i64, ..t },
            Seq::empty(),
        ),
        None => (Transport { streaming: false, playing: false, ..t }, ending()),
    }
}

impl Transport {
    /// Stopped, looping, with nothing collected.
    pub fn new() -> (t: Transport)
        ensures
            t == (Transport {
                playing: false,
                looping: true,
                streaming: false,
                loaded: false,
                has_expr: false,
                last_ordinal: -1i64,
                tick: 0,
                cycle: 0,
            }),
    {
        Transport {
            playing: false,
            looping: true,
            streaming: false,
            loaded: false,
            has_expr: false,
            last_ordinal: -1,
            tick: 0,
            cycle: 0,
        }
    }

    /// Apply a command; `None` (and no change) when it needs the host's
    /// evaluator.
    pub fn command(&mut self, c: &Command) -> (r: Option<Vec<Effect>>)
        ensures
            match command_step(*old(self), c.view()) {
                Some((next, effects)) => *final(self) == next && r is Some && effects_view(r->Some_0@) == effects,
                None => *final(self) == *old(self) && r is None,
            },
    {
        let t = *self;
        match c {
            Command::Stop => {
                let mut v: Vec<Effect> = Vec::new();
                if t.playing {
                    v.push(Effect::HoldPosition);
                }
                v.push(Effect::HaltClock);
                v.push(Effect::Silence);
                v.push(Effect::Mute(true));
                v.push(Effect::Say(Reply::Stopped));
                self.playing = false;
                proof {
                    let s = command_step(t, c.view())->Some_0.1;
                    assert(effects_view(v@) =~= s);
                }
                Some(v)
            },
            Command::Reset => {
                let mut v: Vec<Effect> = Vec::new();
                v.push(Effect::HaltClock);
                v.push(Effect::Rewind);
                if t.streaming {
                    v.push(Effect::RewindStream);
                }
                v.push(Effect::Silence);
                v.push(Effect::Mute(true));
                v.push(Effect::Say(Reply::Reset));
                v.push(Effect::Say(Reply::Home));
                self.playing = false;
                self.last_ordinal = -1;
                proof {
                    let s = command_step(t, c.view())->Some_0.1;
                    assert(effects_view(v@) =~= s);
                }
                Some(v)
            },
            Command::Resume => {
                let mut v: Vec<Effect> = Vec::new();
                if t.playing {
                    v.push(Effect::Say(Reply::AlreadyPlaying));
                } else if !t.loaded {
                    v.push(Effect::Say(Reply::NothingToResume));
                } else {
                    v.push(Effect::Silence);
                    v.push(Effect::Requeue);
                    v.push(Effect::StartClock);
                    v.push(Effect::Mute(false));
                    v.push(Effect::Say(Reply::Resumed));
                    self.playing = true;
                    self.last_ordinal = -1;
                }
                proof {
                    let s = command_step(t, c.view())->Some_0.1;
                    assert(effects_view(v@) =~= s);
                }
                Some(v)
            },
            Command::Loop(on) => {
                let mut v: Vec<Effect> = Vec::new();
                v.push(Effect::Say(Reply::Looping(*on)));
                self.looping = *on;
                proof {
                    let s = command_step(t, c.view())->Some_0.1;
                    assert(effects_view(v@) =~= s);
                }
                Some(v)
            },
            Command::Empty => {
                let v: Vec<Effect> = Vec::new();
                assert(effects_view(v@) =~= Seq::<EffectV>::empty());
                Some(v)
            },
            Command::Unknown(w) => {
                let mut v: Vec<Effect> = Vec::new();
                v.push(Effect::Say(Reply::UnknownCommand(crate::note::copy_string(w))));
                proof {
                    let s = command_step(t, c.view())->Some_0.1;
                    assert(effects_view(v@) =~= s);
                }
                Some(v)
            },
            Command::Audition(Audition::Usage) => {
                let mut v: Vec<Effect> = Vec::new();
                v.push(Effect::Say(Reply::AuditionUsage));
                proof {
                    let s = command_step(t, c.view())->Some_0.1;
                    assert(effects_view(v@) =~= s);
                }
                Some(v)
            },
            Command::Reload(e) => {
                if e.as_str().is_empty() && !t.has_expr && !t.streaming {
                    let mut v: Vec<Effect> = Vec::new();
                    v.push(Effect::Say(Reply::NothingToReload));
                    proof {
                        let s = command_step(t, c.view())->Some_0.1;
                        assert(effects_view(v@) =~= s);
                    }
                    Some(v)
                } else {
                    None
                }
            },
            _ => None,
        }
    }

    /// A tick of the playback clock: `at_end` when the clock has passed
    /// the end of the collected events, `ordinal` the number of note-ons
    /// sounded by now.
    pub fn poll(&mut self, at_end: bool, ordinal: i64) -> (r: Vec<Effect>)
        requires
            old(self).tick < u64::MAX,
        ensures
            (*final(self), effects_view(r@)) == poll_step(*old(self), at_end, ordinal),
    {
        let t = *self;
        let mut v: Vec<Effect> = Vec::new();
        if !t.playing {
        } else if t.loaded && at_end {
            if t.streaming && t.looping {
                v.push(Effect::PullBody);
            } else if t.streaming {
                self.streaming = false;
                self.playing = false;
                v.push(Effect::HaltClock);
                v.push(Effect::Rewind);
                v.push(Effect::Say(Reply::Ended));
            } else if t.looping {
                self.last_ordinal = -1;
                v.push(Effect::WrapClock);
            } else {
                self.playing = false;
                v.push(Effect::HaltClock);
                v.push(Effect::Rewind);
                v.push(Effect::Say(Reply::Ended));
            }
        } else if ordinal != t.last_ordinal {
            self.last_ordinal = ordinal;
            self.tick = t.tick + 1;
            v.push(Effect::Highlight(t.tick));
        } else {
            self.tick = t.tick + 1;
        }
        proof {
            assert(effects_view(v@) =~= poll_step(t, at_end, ordinal).1);
        }
        v
    }

    /// The outcome of `PullBody`: `Some` with whether the next body has
    /// events, or `None` when the song is exhausted.
    pub fn pulled(&mut self, body: Option<bool>) -> (r: Vec<Effect>)
        requires
            old(self).cycle < u64::MAX,
        ensures
            (*final(self), effects_view(r@)) == pull_step(*old(self), body),
    {
        let t = *self;
        let mut v: Vec<Effect> = Vec::new();
        match body {
            Some(loaded) => {
                self.cycle = t.cycle + 1;
                self.playing = true;
                self.loaded = loaded;
                self.last_ordinal = -1;
            },
            None => {
                self.streaming = false;
                self.playing = false;
                v.push(Effect::HaltClock);
                v.push(Effect::Rewind);
                v.push(Effect::Say(Reply::Ended));
            },
        }
        proof {
            assert(effects_view(v@) =~= pull_step(t, body).1);
        }
        v
    }

    /// Playback of an evaluated note (or of a generator song's first
    /// body) has started with `events` collected events: the clock runs
    /// from the top, the device is unmuted and `ok playing` is sent.
    pub fn started(&mut self, events: u64, streaming: bool) -> (r: Vec<Effect>)
        ensures
            *final(self) == (Transport {
                playing: true,
                loaded: events > 0,
                streaming,
                has_expr: true,
                last_ordinal: -1i64,
                cycle: if streaming { 0 } else { old(self).cycle },
                ..*old(self)
            }),
            effects_view(r@) == seq![EffectV::Mute(false), EffectV::Say(ReplyV::Playing(events))],
    {
        self.playing = true;
        self.loaded = events > 0;
        self.streaming = streaming;
        self.has_expr = true;
        self.last_ordinal = -1;
        if streaming {
            self.cycle = 0;
        }
        let mut v: Vec<Effect> = Vec::new();
        v.push(Effect::Mute(false));
        v.push(Effect::Say(Reply::Playing(events)));
        assert(effects_view(v@) =~= seq![EffectV::Mute(false), EffectV::Say(ReplyV::Playing(events))]);
        v
    }

    /// A generator song yielded no first body: nothing plays.
    pub fn no_bodies(&mut self) -> (r: Vec<Effect>)
        ensures
            *final(self) == (Transport { streaming: false, cycle: 0, ..*old(self) }),
            effects_view(r@) == seq![EffectV::Say(ReplyV::NoBodies)],
    {
        self.streaming = false;
        self.cycle = 0;
        let mut v: Vec<Effect> = Vec::new();
        v.push(Effect::Say(Reply::NoBodies));
        assert(effects_view(v@) =~= seq![EffectV::Say(ReplyV::NoBodies)]);
        v
    }

    /// The current expression was evaluated again with `events` collected
    /// events, keeping the playhead: highlighting restarts and
    /// `ok reloaded` is sent.
    pub fn reloaded(&mut self, events: u64) -> (r: Vec<Effect>)
        ensures
            *final(self) == (Transport {
                loaded: events > 0,
                streaming: false,
                has_expr: true,
                last_ordinal: -1i64,
                ..*old(self)
            }),
            effects_view(r@) == seq![EffectV::Say(ReplyV::Reloaded(events))],
    {
        self.loaded = events > 0;
        self.streaming = false;
        self.has_expr = true;
        self.last_ordinal = -1;
        let mut v: Vec<Effect> = Vec::new();
        v.push(Effect::Say(Reply::Reloaded(events)));
        assert(effects_view(v@) =~= seq![EffectV::Say(ReplyV::Reloaded(events))]);
        v
    }

    /// The outcome of `RewindStream`: `None` when the song is no longer
    /// known, `Some(None)` when it yields no body, `Some(Some(loaded))`
    /// when its first body was collected. A known song counts cycles from
    /// 0 again.
    pub fn stream_rewound(&mut self, outcome: Option<Option<bool>>)
        ensures
            *final(self) == match outcome {
                None => Transport { streaming: false, ..*old(self) },
                Some(None) => Transport { streaming: false, cycle: 0, ..*old(self) },
                Some(Some(loaded)) => Transport { loaded, cycle: 0, ..*old(self) },
            },
    {
        match outcome {
            None => {
                self.streaming = false;
            },
            Some(None) => {
                self.streaming = false;
                self.cycle = 0;
            },
            Some(Some(loaded)) => {
                self.loaded = loaded;
                self.cycle = 0;
            },
        }
    }
}

/// The parameter that pins a chip lane's channel on its notes:
/// `ym_channel` on `ym`, `sn_channel` on `psg`; other instruments have no
/// lanes.
pub open spec fn lane_param_of(instrument: Seq<char>) -> Option<Seq<char>> {
    if instrument == "ym"@ {
        Some("ym_channel"@)
    } else if instrument == "psg"@ {
        Some("sn_channel"@)
    } else {
        None
    }
}

/// The parameter that pins `instrument`'s lane channel, if it has lanes.
pub fn lane_param(instrument: &str) -> (r: Option<&'static str>)
    ensures
        match r {
            Some(p) => lane_param_of(instrument@) == Some(p@),
            None => lane_param_of(instrument@) is None,
        },
{
    if str_eq(instrument, "ym") {
        Some("ym_channel")
    } else if str_eq(instrument, "psg") {
        Some("sn_channel")
    } else {
        None
    }
}

/// A sounding note-on's lane key: its instrument, with its pinned channel
/// when it has one.
pub open spec fn key_view(k: (String, Option<i64>)) -> (Seq<char>, Option<i64>) {
    (k.0@, k.1)
}

pub open spec fn keys_view(v: Seq<(String, Option<i64>)>) -> Seq<(Seq<char>, Option<i64>)> {
    v.map_values(|k: (String, Option<i64>)| key_view(k))
}

/// How often `k` occurs in `s`.
pub open spec fn count_key(s: Seq<(Seq<char>, Option<i64>)>, k: (Seq<char>, Option<i64>)) -> nat
    decreases s.len(),
{
    if s.len() == 0 {
        0
    } else {
        count_key(s.drop_last(), k) + if s.last() == k { 1nat } else { 0nat }
    }
}

/// A note-on's lane identity: instrument, channel and its ordinal within
/// the lane (`-1` for both when the note has no pinned channel).
pub struct Lane {
    pub instrument: String,
    pub channel: i64,
    pub ordinal: i64,
}

impl Lane {
    pub open spec fn view(&self) -> (Seq<char>, i64, i64) {
        (self.instrument@, self.channel, self.ordinal)
    }
}

pub open spec fn lanes_view(v: Seq<Lane>) -> Seq<(Seq<char>, i64, i64)> {
    v.map_values(|l: Lane| l.view())
}

/// The lane identity of each note-on, in sounding order: a pinned note's
/// ordinal counts the note-ons of its lane so far, itself included.
pub fn lane_ordinals(keys: &Vec<(String, Option<i64>)>) -> (r: Vec<Lane>)
    requires
        keys@.len() < i64::MAX,
    ensures
        r@.len() == keys@.len(),
        forall|i: int| 0 <= i < keys@.len() ==> {
            let k = #[trigger] keys@[i];
            &&& r@[i].instrument@ == k.0@
            &&& match k.1 {
                Some(c) => r@[i].channel == c
                    && r@[i].ordinal as int == count_key(keys_view(keys@).take(i + 1), key_view(k)),
                None => r@[i].channel == -1 && r@[i].ordinal == -1,
            }
        },
{
    let ghost kv = keys_view(keys@);
    let mut r: Vec<Lane> = Vec::new();
    let mut i: usize = 0;
    while i < keys.len()
        invariant
            i <= keys@.len(),
            keys@.len() < i64::MAX,
            kv == keys_view(keys@),
            r@.len() == i,
            forall|m: int| 0 <= m < i ==> {
                let k = #[trigger] keys@[m];
                &&& r@[m].instrument@ == k.0@
                &&& match k.1 {
                    Some(c) => r@[m].channel == c
                        && r@[m].ordinal as int == count_key(kv.take(m + 1), key_view(k)),
                    None => r@[m].channel == -1 && r@[m].ordinal == -1,
                }
            },
        decreases keys@.len() - i,
    {
        let name = &keys[i].0;
        match keys[i].1 {
            None => {
                r.push(Lane { instrument: copy_string(name), channel: -1, ordinal: -1 });
            },
            Some(c) => {
                let mut count: usize = 0;
                let mut j: usize = 0;
                while j <= i
                    invariant
                        i < keys@.len(),
                        keys@.len() < i64::MAX,
                        keys@.len() <= usize::MAX,
                        kv == keys_view(keys@),
                        j <= i + 1,
                        count <= j,
                        name@ == keys@[i as int].0@,
                        keys@[i as int].1 == Some(c),
                        count as int == count_key(kv.take(j as int), key_view(keys@[i as int])),
                    decreases i + 1 - j,
                {
                    assert(kv.take(j + 1).drop_last() =~= kv.take(j as int));
                    let same = match keys[j].1 {
                        Some(d) => d == c && str_eq(keys[j].0.as_str(), name.as_str()),
                        None => false,
                    };
                    assert(same == (kv[j as int] == key_view(keys@[i as int])));
                    if same {
                        count = count + 1;
                    }
                    j = j + 1;
                }
                r.push(Lane { instrument: copy_string(name), channel: c, ordinal: count as i64 });
            },
        }
        i = i + 1;
    }
    r
}

/// The position line for a tick: `pos <tick> <ordinal> <inst> <ch>
/// <lane-ordinal> <cycle>`, with the lane of the `ordinal`-th note-on, or
/// `- - -` when there is none.
pub open spec fn pos_text(tick: u64, ordinal: i64, lanes: Seq<(Seq<char>, i64, i64)>, cycle: u64) -> Seq<char> {
    let (a, b, c) = if ordinal >= 1 && ordinal - 1 < lanes.len() {
        let l = lanes[ordinal - 1];
        (l.0, int_text(l.1 as int), int_text(l.2 as int))
    } else {
        ("-"@, "-"@, "-"@)
    };
    "pos "@ + dec_text(tick as nat) + " "@ + int_text(ordinal as int) + " "@ + a + " "@ + b + " "@ + c + " "@
        + dec_text(cycle as nat)
}

/// The position line for a tick.
pub fn pos_line(tick: u64, ordinal: i64, lanes: &Vec<Lane>, cycle: u64) -> (s: String)
    ensures
        s@ == pos_text(tick, ordinal, lanes_view(lanes@), cycle),
{
    let mut s = to_owned_string("pos ");
    push_decimal(&mut s, tick);
    push_str(&mut s, " ");
    push_int(&mut s, ordinal);
    push_str(&mut s, " ");
    let ghost head = s@;
    let ghost lv = lanes_view(lanes@);
    let found = ordinal >= 1 && ((ordinal - 1) as u64) < (lanes.len() as u64);
    if found {
        let l = &lanes[((ordinal - 1) as u64) as usize];
        assert(lv[ordinal - 1] == l.view());
        push_str(&mut s, l.instrument.as_str());
        push_str(&mut s, " ");
        push_int(&mut s, l.channel);
        push_str(&mut s, " ");
        push_int(&mut s, l.ordinal);
        assert(s@ =~= head + l.instrument@ + " "@ + int_text(l.channel as int) + " "@ + int_text(l.ordinal as int));
    } else {
        push_str(&mut s, "-");
        push_str(&mut s, " ");
        push_str(&mut s, "-");
        push_str(&mut s, " ");
        push_str(&mut s, "-");
        assert(s@ =~= head + "-"@ + " "@ + "-"@ + " "@ + "-"@);
    }
    push_str(&mut s, " ");
    push_decimal(&mut s, cycle);
    s
}

} // verus!
