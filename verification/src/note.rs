//! The score tree: notes, rests, markers and compositions, with their views.

use vstd::prelude::*;

verus! {

/// Ticks in one whole note. Every duration is a whole number of ticks; the
/// value is divisible by 1024 (dotted 128ths) and by 3, 5, 7 and 9, so the
/// usual note values, dots and tuplets are exact.
pub const TICKS_PER_WHOLE: u64 = 1_290_240u64;

/// Time unit of an envelope point.
#[derive(Clone, Copy, Debug, PartialEq, Eq)]
pub enum TimeUnit {
    Seconds,
    Milliseconds,
    Percent,
}

/// Duration of an envelope point: a note-value code (`"q"`, `"hd"`, …) or
/// an amount (single-precision bit pattern) in a time unit.
#[derive(Debug, PartialEq)]
pub enum Duration {
    Note(String),
    Time(u32, TimeUnit),
}

/// A point of an envelope: its value (single-precision bit pattern) and
/// the duration that leads up to it.
#[derive(Debug, PartialEq)]
pub struct EnvelopePoint {
    pub value: u32,
    pub duration: Duration,
}

/// Interpolation between envelope points.
#[derive(Clone, Copy, Debug, PartialEq, Eq)]
pub enum InterpolationType {
    Linear,
    Cosine,
    Exponential,
    Cubic,
}

/// A series of values over time, modulating the parameter `target`.
#[derive(Debug, PartialEq)]
pub struct Envelope {
    pub target: String,
    pub points: Vec<EnvelopePoint>,
    pub interpolation: InterpolationType,
}

/// A parameter value. `Number` holds a single-precision bit pattern.
#[derive(Debug, PartialEq)]
pub enum ParamValue {
    String(String),
    Number(u32),
    Note(Box<Note>),
    Envelope(Envelope),
    Unset,
}

/// A musical note or a composition of notes. Durations are in ticks.
#[derive(Debug, PartialEq)]
pub enum Note {
    Atom { midi: u8, duration: u64, parameters: Vec<(String, ParamValue)> },
    AtomImplicitDuration { midi: u8, parameters: Vec<(String, ParamValue)> },
    Rest { duration: u64, parameters: Vec<(String, ParamValue)> },
    DurationTie { duration: u64 },
    PreviousPitch { optional_duration: Option<u64>, parameters: Vec<(String, ParamValue)> },
    Serial(Vec<Note>),
    Parallel(Vec<Note>),
    ParamSetter { key: String, value: ParamValue },
    Envelope(Envelope),
    RepeatMarker(usize),
    ParallelMin(Vec<Note>),
    ForkSequence(Vec<Note>),
    ForkParallel(Vec<Note>),
    Comment(String),
}

// ---------------------------------------------------------------------------
// Mathematical model
// ---------------------------------------------------------------------------

pub ghost enum DurationV {
    Note(Seq<char>),
    Time(u32, TimeUnit),
}

pub ghost struct EnvelopeV {
    pub target: Seq<char>,
    pub points: Seq<(u32, DurationV)>,
    pub interpolation: InterpolationType,
}

pub ghost enum ParamValueV {
    String(Seq<char>),
    Number(u32),
    Note(Box<NoteV>),
    Envelope(EnvelopeV),
    Unset,
}

/// Parameter lists in the model: keys by their characters.
pub type ParamsV = Seq<(Seq<char>, ParamValueV)>;

pub ghost enum NoteV {
    Atom { midi: u8, duration: u64, parameters: ParamsV },
    AtomImplicitDuration { midi: u8, parameters: ParamsV },
    Rest { duration: u64, parameters: ParamsV },
    DurationTie { duration: u64 },
    PreviousPitch { optional_duration: Option<u64>, parameters: ParamsV },
    Serial(Seq<NoteV>),
    Parallel(Seq<NoteV>),
    ParamSetter { key: Seq<char>, value: ParamValueV },
    Envelope(EnvelopeV),
    RepeatMarker(usize),
    ParallelMin(Seq<NoteV>),
    ForkSequence(Seq<NoteV>),
    ForkParallel(Seq<NoteV>),
    Comment(Seq<char>),
}

impl Duration {
    pub open spec fn view(&self) -> DurationV {
        match self {
            Duration::Note(s) => DurationV::Note(s@),
            Duration::Time(v, u) => DurationV::Time(*v, *u),
        }
    }
}

impl Envelope {
    pub open spec fn view(&self) -> EnvelopeV {
        EnvelopeV {
            target: self.target@,
            points: Seq::new(self.points@.len(), |i: int| (self.points@[i].value, self.points@[i].duration.view())),
            interpolation: self.interpolation,
        }
    }
}

impl ParamValue {
    pub open spec fn view(&self) -> ParamValueV
        decreases self,
    {
        match self {
            ParamValue::String(s) => ParamValueV::String(s@),
            ParamValue::Number(n) => ParamValueV::Number(*n),
            ParamValue::Note(b) => ParamValueV::Note(Box::new(b.view())),
            ParamValue::Envelope(e) => ParamValueV::Envelope(e.view()),
            ParamValue::Unset => ParamValueV::Unset,
        }
    }
}

/// The model of a parameter list.
pub open spec fn params_view(p: Seq<(String, ParamValue)>) -> ParamsV
    decreases p,
{
    Seq::new(p.len(), |i: int| if 0 <= i < p.len() { (p[i].0@, p[i].1.view()) } else { arbitrary() })
}

/// The model of a list of notes.
pub open spec fn notes_view(s: Seq<Note>) -> Seq<NoteV>
    decreases s,
{
    Seq::new(s.len(), |i: int| if 0 <= i < s.len() { s[i].view() } else { arbitrary() })
}

impl Note {
    pub open spec fn view(&self) -> NoteV
        decreases self,
    {
        match self {
            Note::Atom { midi, duration, parameters } =>
                NoteV::Atom { midi: *midi, duration: *duration, parameters: params_view(parameters@) },
            Note::AtomImplicitDuration { midi, parameters } =>
                NoteV::AtomImplicitDuration { midi: *midi, parameters: params_view(parameters@) },
            Note::Rest { duration, parameters } =>
                NoteV::Rest { duration: *duration, parameters: params_view(parameters@) },
            Note::DurationTie { duration } => NoteV::DurationTie { duration: *duration },
            Note::PreviousPitch { optional_duration, parameters } =>
                NoteV::PreviousPitch { optional_duration: *optional_duration, parameters: params_view(parameters@) },
            Note::Serial(v) => NoteV::Serial(notes_view(v@)),
            Note::Parallel(v) => NoteV::Parallel(notes_view(v@)),
            Note::ParamSetter { key, value } => NoteV::ParamSetter { key: key@, value: value.view() },
            Note::Envelope(e) => NoteV::Envelope(e.view()),
            Note::RepeatMarker(n) => NoteV::RepeatMarker(*n),
            Note::ParallelMin(v) => NoteV::ParallelMin(notes_view(v@)),
            Note::ForkSequence(v) => NoteV::ForkSequence(notes_view(v@)),
            Note::ForkParallel(v) => NoteV::ForkParallel(notes_view(v@)),
            Note::Comment(c) => NoteV::Comment(c@),
        }
    }
}

// ---------------------------------------------------------------------------
// Copies with a stated result
// ---------------------------------------------------------------------------

/// An empty parameter list.
pub fn no_params() -> (r: Vec<(String, ParamValue)>)
    ensures
        params_view(r@) == Seq::<(Seq<char>, ParamValueV)>::empty(),
{
    let r: Vec<(String, ParamValue)> = Vec::new();
    assert(params_view(r@) =~= Seq::<(Seq<char>, ParamValueV)>::empty());
    r
}

/// A copy of a string.
pub fn copy_string(s: &String) -> (r: String)
    ensures
        r@ == s@,
{
    s.clone()
}

impl Duration {
    /// A copy with the same model.
    pub fn duplicate(&self) -> (r: Duration)
        ensures
            r.view() == self.view(),
    {
        match self {
            Duration::Note(s) => Duration::Note(copy_string(s)),
            Duration::Time(v, u) => Duration::Time(*v, *u),
        }
    }
}

impl Envelope {
    /// A copy with the same model.
    pub fn duplicate(&self) -> (r: Envelope)
        ensures
            r.view() == self.view(),
    {
        let mut points: Vec<EnvelopePoint> = Vec::new();
        let n = self.points.len();
        for i in 0..n
            invariant
                n == self.points@.len(),
                points@.len() == i,
                forall|j: int| 0 <= j < i ==> (#[trigger] points@[j]).value == self.points@[j].value
                    && points@[j].duration.view() == self.points@[j].duration.view(),
        {
            let p = &self.points[i];
            points.push(EnvelopePoint { value: p.value, duration: p.duration.duplicate() });
        }
        let r = Envelope { target: copy_string(&self.target), points, interpolation: self.interpolation };
        assert(r.view().points =~= self.view().points);
        r
    }
}

impl ParamValue {
    /// A copy with the same model.
    pub fn duplicate(&self) -> (r: ParamValue)
        ensures
            r.view() == self.view(),
        decreases self,
    {
        match self {
            ParamValue::String(s) => ParamValue::String(copy_string(s)),
            ParamValue::Number(n) => ParamValue::Number(*n),
            ParamValue::Note(b) => ParamValue::Note(Box::new(b.duplicate())),
            ParamValue::Envelope(e) => ParamValue::Envelope(e.duplicate()),
            ParamValue::Unset => ParamValue::Unset,
        }
    }
}

/// A copy of a parameter list with the same model.
pub fn copy_params(p: &Vec<(String, ParamValue)>) -> (r: Vec<(String, ParamValue)>)
    ensures
        params_view(r@) == params_view(p@),
    decreases p,
{
    let mut r: Vec<(String, ParamValue)> = Vec::new();
    let n = p.len();
    for i in 0..n
        invariant
            n == p@.len(),
            r@.len() == i,
            forall|j: int| 0 <= j < i ==> (#[trigger] r@[j]).0@ == p@[j].0@ && r@[j].1.view() == p@[j].1.view(),
    {
        proof {
            assert(decreases_to!(p => p@));
            assert(decreases_to!(p@ => p@[i as int]));
        }
        let e = &p[i];
        r.push((copy_string(&e.0), e.1.duplicate()));
    }
    assert(params_view(r@) =~= params_view(p@));
    r
}

/// A copy of a note list with the same model.
pub fn copy_notes(v: &Vec<Note>) -> (r: Vec<Note>)
    ensures
        notes_view(r@) == notes_view(v@),
    decreases v,
{
    let mut r: Vec<Note> = Vec::new();
    let n = v.len();
    for i in 0..n
        invariant
            n == v@.len(),
            r@.len() == i,
            forall|j: int| 0 <= j < i ==> (#[trigger] r@[j]).view() == v@[j].view(),
    {
        proof {
            assert(decreases_to!(v => v@));
        }
        r.push(v[i].duplicate());
    }
    assert(notes_view(r@) =~= notes_view(v@));
    r
}

impl Note {
    /// A copy with the same model.
    pub fn duplicate(&self) -> (r: Note)
        ensures
            r@ == self@,
        decreases self,
    {
        match self {
            Note::Atom { midi, duration, parameters } =>
                Note::Atom { midi: *midi, duration: *duration, parameters: copy_params(parameters) },
            Note::AtomImplicitDuration { midi, parameters } =>
                Note::AtomImplicitDuration { midi: *midi, parameters: copy_params(parameters) },
            Note::Rest { duration, parameters } =>
                Note::Rest { duration: *duration, parameters: copy_params(parameters) },
            Note::DurationTie { duration } => Note::DurationTie { duration: *duration },
            Note::PreviousPitch { optional_duration, parameters } =>
                Note::PreviousPitch { optional_duration: *optional_duration, parameters: copy_params(parameters) },
            Note::Serial(v) => Note::Serial(copy_notes(v)),
            Note::Parallel(v) => Note::Parallel(copy_notes(v)),
            Note::ParamSetter { key, value } => Note::ParamSetter { key: copy_string(key), value: value.duplicate() },
            Note::Envelope(e) => Note::Envelope(e.duplicate()),
            Note::RepeatMarker(n) => Note::RepeatMarker(*n),
            Note::ParallelMin(v) => Note::ParallelMin(copy_notes(v)),
            Note::ForkSequence(v) => Note::ForkSequence(copy_notes(v)),
            Note::ForkParallel(v) => Note::ForkParallel(copy_notes(v)),
            Note::Comment(c) => Note::Comment(copy_string(c)),
        }
    }
}

impl ParamValue {
    /// The string of a string value.
    pub fn as_string(&self) -> (r: Option<&String>)
        ensures
            match self {
                ParamValue::String(s) => r == Some(s),
                _ => r is None,
            },
    {
        match self {
            ParamValue::String(s) => Some(s),
            _ => None,
        }
    }

    /// The number (single-precision bit pattern) of a number value.
    pub fn as_number(&self) -> (r: Option<u32>)
        ensures
            match self {
                ParamValue::Number(n) => r == Some(*n),
                _ => r is None,
            },
    {
        match self {
            ParamValue::Number(n) => Some(*n),
            _ => None,
        }
    }

    /// The note of a note value.
    pub fn as_note(&self) -> (r: Option<&Note>)
        ensures
            match self {
                ParamValue::Note(b) => r == Some(&**b),
                _ => r is None,
            },
    {
        match self {
            ParamValue::Note(b) => Some(&**b),
            _ => None,
        }
    }

    /// The envelope of an envelope value.
    pub fn as_envelope(&self) -> (r: Option<&Envelope>)
        ensures
            match self {
                ParamValue::Envelope(e) => r == Some(e),
                _ => r is None,
            },
    {
        match self {
            ParamValue::Envelope(e) => Some(e),
            _ => None,
        }
    }
}

impl Note {
    /// The duration of an atom or rest; `None` for any other note.
    pub fn get_base_duration(&self) -> (r: Option<u64>)
        ensures
            r == match self@ {
                NoteV::Atom { duration, .. } => Some(duration),
                NoteV::Rest { duration, .. } => Some(duration),
                _ => None::<u64>,
            },
    {
        match self {
            Note::Atom { duration, .. } => Some(*duration),
            Note::Rest { duration, .. } => Some(*duration),
            _ => None,
        }
    }
}

impl EnvelopePoint {
    /// A point reached after a note value (`"q"`, `"hd"`, …).
    pub fn new_note(value: u32, note_duration: &str) -> (r: EnvelopePoint)
        ensures
            r.value == value,
            r.duration.view() == DurationV::Note(note_duration@),
    {
        EnvelopePoint { value, duration: Duration::Note(note_duration.to_string()) }
    }

    /// A point reached after `seconds`.
    pub fn new_seconds(value: u32, seconds: u32) -> (r: EnvelopePoint)
        ensures
            r.value == value,
            r.duration.view() == DurationV::Time(seconds, TimeUnit::Seconds),
    {
        EnvelopePoint { value, duration: Duration::Time(seconds, TimeUnit::Seconds) }
    }

    /// A point reached after `ms` milliseconds.
    pub fn new_ms(value: u32, ms: u32) -> (r: EnvelopePoint)
        ensures
            r.value == value,
            r.duration.view() == DurationV::Time(ms, TimeUnit::Milliseconds),
    {
        EnvelopePoint { value, duration: Duration::Time(ms, TimeUnit::Milliseconds) }
    }

    /// A point at `percent` of the note's length.
    pub fn new_percent(value: u32, percent: u32) -> (r: EnvelopePoint)
        ensures
            r.value == value,
            r.duration.view() == DurationV::Time(percent, TimeUnit::Percent),
    {
        EnvelopePoint { value, duration: Duration::Time(percent, TimeUnit::Percent) }
    }
}

impl Envelope {
    /// A linear envelope on `target`.
    pub fn with_points(target: &str, points: Vec<EnvelopePoint>) -> (r: Envelope)
        ensures
            r.target@ == target@,
            r.points@ == points@,
            r.interpolation == InterpolationType::Linear,
    {
        Envelope { target: target.to_string(), points, interpolation: InterpolationType::Linear }
    }

    /// An envelope on `target` with the given interpolation.
    pub fn with_interpolation(target: &str, points: Vec<EnvelopePoint>, interpolation: InterpolationType) -> (r: Envelope)
        ensures
            r.target@ == target@,
            r.points@ == points@,
            r.interpolation == interpolation,
    {
        Envelope { target: target.to_string(), points, interpolation }
    }
}

impl From<String> for ParamValue {
    /// A string value.
    fn from(v: String) -> (r: ParamValue) {
        ParamValue::String(v)
    }
}

impl vstd::std_specs::convert::FromSpecImpl<String> for ParamValue {
    open spec fn obeys_from_spec() -> bool {
        true
    }

    open spec fn from_spec(v: String) -> ParamValue {
        ParamValue::String(v)
    }
}

impl From<Note> for ParamValue {
    /// A note value.
    fn from(v: Note) -> (r: ParamValue) {
        ParamValue::Note(Box::new(v))
    }
}

impl vstd::std_specs::convert::FromSpecImpl<Note> for ParamValue {
    open spec fn obeys_from_spec() -> bool {
        true
    }

    open spec fn from_spec(v: Note) -> ParamValue {
        ParamValue::Note(Box::new(v))
    }
}

impl From<Envelope> for ParamValue {
    /// An envelope value.
    fn from(v: Envelope) -> (r: ParamValue) {
        ParamValue::Envelope(v)
    }
}

impl vstd::std_specs::convert::FromSpecImpl<Envelope> for ParamValue {
    open spec fn obeys_from_spec() -> bool {
        true
    }

    open spec fn from_spec(v: Envelope) -> ParamValue {
        ParamValue::Envelope(v)
    }
}

} // verus!
