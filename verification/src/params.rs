//! Parameter names and values: prefix matching of keys and string values
//! against the known vocabularies, and the parameter-setter notes built
//! from them.

use vstd::prelude::*;
use crate::note::{Note, NoteV, ParamValue, ParamValueV, EnvelopeV};
use crate::text::{
    starts_with, lowercase, debug_str, str_eq, str_starts_with, to_lowercase, debug_string,
    push_str, to_owned_string,
};

verus! {

/// The characters of each option.
pub open spec fn strs_view(o: Seq<&str>) -> Seq<Seq<char>> {
    Seq::new(o.len(), |i: int| o[i]@)
}

/// The distinct options that start with `pre`, in order of first
/// appearance (the options are a set: one written twice counts once).
pub open spec fn with_prefix(o: Seq<Seq<char>>, pre: Seq<char>) -> Seq<Seq<char>>
    decreases o.len(),
{
    if o.len() == 0 {
        o
    } else {
        let rest = with_prefix(o.drop_last(), pre);
        if starts_with(o.last(), pre) && !rest.contains(o.last()) {
            rest.push(o.last())
        } else {
            rest
        }
    }
}

/// `k` is the first option whose lower-cased text is `low`.
pub open spec fn first_lower_match(o: Seq<Seq<char>>, low: Seq<char>, k: int) -> bool {
    &&& 0 <= k < o.len()
    &&& lowercase(o[k]) == low
    &&& forall|j: int| 0 <= j < k ==> lowercase(#[trigger] o[j]) != low
}

/// The items of a `{:?}`-printed list, separated by `", "`.
pub open spec fn debug_items(m: Seq<Seq<char>>) -> Seq<char>
    decreases m.len(),
{
    if m.len() == 0 {
        Seq::empty()
    } else if m.len() == 1 {
        debug_str(m[0])
    } else {
        debug_items(m.drop_last()) + ", "@ + debug_str(m.last())
    }
}

/// What `{:?}` prints for a list of strings: `["a", "b"]`.
pub open spec fn debug_list(m: Seq<Seq<char>>) -> Seq<char> {
    "["@ + debug_items(m) + "]"@
}

/// The message for an empty input.
pub open spec fn empty_input_message() -> Seq<char> {
    "Input cannot be empty."@
}

/// The message for an input that no option starts with.
pub open spec fn unknown_input_message(input: Seq<char>) -> Seq<char> {
    "Unknown input \""@ + input + "\". Valid options starting with \""@ + lowercase(input)
        + "\": []"@
}

/// The message for an input that several options start with.
pub open spec fn ambiguous_input_message(input: Seq<char>, matches: Seq<Seq<char>>) -> Seq<char> {
    "Ambiguous input \""@ + input + "\". Possible matches: "@ + debug_list(matches)
}

/// Resolving `input` against `o`: an exact match first; else the first
/// option equal to the input when both are lower-cased; else the one option
/// that starts with the lower-cased input. Errors: empty input, no option,
/// or several.
pub open spec fn prefix_match(input: Seq<char>, o: Seq<Seq<char>>) -> Result<Seq<char>, Seq<char>> {
    let low = lowercase(input);
    let m = with_prefix(o, low);
    if input.len() == 0 {
        Err(empty_input_message())
    } else if o.contains(input) {
        Ok(input)
    } else if exists|k: int| first_lower_match(o, low, k) {
        Ok(o[choose|k: int| first_lower_match(o, low, k)])
    } else if m.len() == 1 {
        Ok(m[0])
    } else if m.len() == 0 {
        Err(unknown_input_message(input))
    } else {
        Err(ambiguous_input_message(input, m))
    }
}

/// A result by the characters of its value.
pub open spec fn result_view(r: Result<&str, String>) -> Result<Seq<char>, Seq<char>> {
    match r {
        Ok(s) => Ok(s@),
        Err(e) => Err(e@),
    }
}

proof fn lemma_with_prefix_step(o: Seq<Seq<char>>, pre: Seq<char>, i: int)
    requires
        0 <= i < o.len(),
    ensures
        with_prefix(o.take(i + 1), pre) == (if starts_with(o[i], pre) && !with_prefix(o.take(i), pre).contains(o[i]) {
            with_prefix(o.take(i), pre).push(o[i])
        } else {
            with_prefix(o.take(i), pre)
        }),
{
    assert(o.take(i + 1).drop_last() =~= o.take(i));
}

proof fn lemma_first_lower_unique(o: Seq<Seq<char>>, low: Seq<char>, k: int)
    requires
        first_lower_match(o, low, k),
    ensures
        (choose|j: int| first_lower_match(o, low, j)) == k,
{
    let c = choose|j: int| first_lower_match(o, low, j);
    assert(first_lower_match(o, low, c));
    if c < k {
        assert(lowercase(o[c]) != low);
    } else if c > k {
        assert(lowercase(o[k]) != low);
    }
}

/// `format!("{:?}", list)` for a list of strings.
fn format_debug_list(m: &Vec<&'static str>) -> (r: String)
    ensures
        r@ == debug_list(strs_view(m@)),
{
    let mut s = to_owned_string("[");
    let mut i: usize = 0;
    while i < m.len()
        invariant
            i <= m@.len(),
            s@ == "["@ + debug_items(strs_view(m@.take(i as int))),
        decreases m@.len() - i,
    {
        let ghost before = strs_view(m@.take(i as int));
        if i > 0 {
            push_str(&mut s, ", ");
        }
        let d = debug_string(m[i]);
        push_str(&mut s, d.as_str());
        proof {
            let after = strs_view(m@.take(i + 1));
            assert(after.drop_last() =~= before);
            assert(after.last() == m@[i as int]@);
            if i == 0 {
                assert(before =~= Seq::<Seq<char>>::empty());
                assert(s@ =~= "["@ + debug_items(after));
            } else {
                assert(s@ =~= "["@ + debug_items(after));
            }
        }
        i = i + 1;
    }
    assert(m@.take(m@.len() as int) =~= m@);
    push_str(&mut s, "]");
    s
}

/// Finds a unique option that starts with the input prefix
/// (case-insensitive); an exact match wins over other prefix matches.
pub fn match_prefix(input: &str, options: &[&'static str]) -> (r: Result<&'static str, String>)
    ensures
        result_view(r) == prefix_match(input@, strs_view(options@)),
{
    let ghost o = strs_view(options@);
    if input.is_empty() {
        return Err(to_owned_string("Input cannot be empty."));
    }
    // An exact match.
    let mut i: usize = 0;
    while i < options.len()
        invariant
            i <= options@.len(),
            o == strs_view(options@),
            input@.len() != 0,
            forall|j: int| 0 <= j < i ==> o[j] != input@,
        decreases options@.len() - i,
    {
        if str_eq(options[i], input) {
            proof {
                assert(o[i as int] == input@);
                assert(o.contains(input@));
            }
            return Ok(options[i]);
        }
        i = i + 1;
    }
    assert(!o.contains(input@));
    // A case-insensitive match.
    let input_lower = to_lowercase(input);
    let ghost low = lowercase(input@);
    let mut i: usize = 0;
    while i < options.len()
        invariant
            i <= options@.len(),
            o == strs_view(options@),
            low == input_lower@,
            low == lowercase(input@),
            input@.len() != 0,
            !o.contains(input@),
            forall|j: int| 0 <= j < i ==> lowercase(#[trigger] o[j]) != low,
        decreases options@.len() - i,
    {
        let opt_lower = to_lowercase(options[i]);
        if str_eq(opt_lower.as_str(), input_lower.as_str()) {
            proof {
                assert(first_lower_match(o, low, i as int));
                lemma_first_lower_unique(o, low, i as int);
            }
            return Ok(options[i]);
        }
        i = i + 1;
    }
    assert(!exists|k: int| first_lower_match(o, low, k)) by {
        if exists|k: int| first_lower_match(o, low, k) {
            let k = choose|k: int| first_lower_match(o, low, k);
            assert(lowercase(o[k]) != low);
        }
    }
    // Options that start with the lower-cased input.
    let mut matches: Vec<&'static str> = Vec::new();
    let mut i: usize = 0;
    while i < options.len()
        invariant
            i <= options@.len(),
            o == strs_view(options@),
            low == input_lower@,
            strs_view(matches@) == with_prefix(o.take(i as int), low),
        decreases options@.len() - i,
    {
        proof {
            lemma_with_prefix_step(o, low, i as int);
        }
        if str_starts_with(options[i], input_lower.as_str()) && !contains_str(matches.as_slice(), options[i]) {
            matches.push(options[i]);
            proof {
                assert(strs_view(matches@) =~= with_prefix(o.take(i as int), low).push(o[i as int]));
            }
        }
        i = i + 1;
    }
    assert(o.take(o.len() as int) =~= o);
    let ghost m = with_prefix(o, low);
    if matches.len() == 1 {
        assert(strs_view(matches@)[0] == m[0]);
        Ok(matches[0])
    } else if matches.len() == 0 {
        let mut e = to_owned_string("Unknown input \"");
        push_str(&mut e, input);
        push_str(&mut e, "\". Valid options starting with \"");
        push_str(&mut e, input_lower.as_str());
        push_str(&mut e, "\": []");
        Err(e)
    } else {
        let mut e = to_owned_string("Ambiguous input \"");
        push_str(&mut e, input);
        push_str(&mut e, "\". Possible matches: ");
        let list = format_debug_list(&matches);
        push_str(&mut e, list.as_str());
        Err(e)
    }
}

} // verus!

verus! {

/// The parameter keys a setter may name.
pub open spec fn param_keys() -> Seq<Seq<char>> {
    seq![
        "tempo"@,
        "time_beat"@,
        "time_note"@,
        "patch"@,
        "duty"@,
        "key"@,
        "macro"@,
        "velocity"@,
        "volume"@,
        "note_volume"@,
        "attack_envelope"@,
        "sustain_envelope"@,
        "release_envelope"@,
        "release_duration"@,
        "noise_type"@,
        "envelope_preset"@,
        "accidental_suffix"@,
        "transpose"@,
        "instrument"@,
        "pitch"@,
        "note"@,
        "gate"@,
        "tied"@,
        "pan"@,
        "bus"@,
        "send"@,
        "send_bus"@,
        "cutoff"@,
        "resonance"@,
        "fm_routing"@,
        "fm_feedback"@,
        "op1_ratio"@,
        "op1_level"@,
        "op1_attack"@,
        "op1_decay"@,
        "op1_sustain"@,
        "op1_release"@,
        "op2_ratio"@,
        "op2_level"@,
        "op2_attack"@,
        "op2_decay"@,
        "op2_sustain"@,
        "op2_release"@,
        "op3_ratio"@,
        "op3_level"@,
        "op3_attack"@,
        "op3_decay"@,
        "op3_sustain"@,
        "op3_release"@,
        "op4_ratio"@,
        "op4_level"@,
        "op4_attack"@,
        "op4_decay"@,
        "op4_sustain"@,
        "op4_release"@,
        "op1_mult"@,
        "op1_wave"@,
        "op1_egt"@,
        "op2_mult"@,
        "op2_wave"@,
        "op2_egt"@,
        "op3_mult"@,
        "op3_wave"@,
        "op3_egt"@,
        "op4_mult"@,
        "op4_wave"@,
        "op4_egt"@,
        "op1_dt"@,
        "op1_tl"@,
        "op1_ar"@,
        "op1_dr"@,
        "op1_sr"@,
        "op1_sl"@,
        "op1_rr"@,
        "op1_ssg"@,
        "op2_dt"@,
        "op2_tl"@,
        "op2_ar"@,
        "op2_dr"@,
        "op2_sr"@,
        "op2_sl"@,
        "op2_rr"@,
        "op2_ssg"@,
        "op3_dt"@,
        "op3_tl"@,
        "op3_ar"@,
        "op3_dr"@,
        "op3_sr"@,
        "op3_sl"@,
        "op3_rr"@,
        "op3_ssg"@,
        "op4_dt"@,
        "op4_tl"@,
        "op4_ar"@,
        "op4_dr"@,
        "op4_sr"@,
        "op4_sl"@,
        "op4_rr"@,
        "op4_ssg"@,
        "ym_algo"@,
        "ym_feedback"@,
        "ym_fnum"@,
        "ym_block"@,
        "ym_channel"@,
        "opl_alg"@,
        "opl_feedback"@,
        "ay_channel"@,
        "ay_volume"@,
        "ay_noise"@,
        "ay_noise_period"@,
        "ay_env_shape"@,
        "ay_env_period"@,
        "sn_channel"@,
        "sn_volume"@,
        "sn_noise_mode"@,
    ]
}

/// The parameter keys a setter may name.
pub fn valid_param_keys() -> (r: &'static [&'static str])
    ensures
        strs_view(r@) == param_keys(),
{
    let r: &'static [&'static str] = &[
        "tempo",
        "time_beat",
        "time_note",
        "patch",
        "duty",
        "key",
        "macro",
        "velocity",
        "volume",
        "note_volume",
        "attack_envelope",
        "sustain_envelope",
        "release_envelope",
        "release_duration",
        "noise_type",
        "envelope_preset",
        "accidental_suffix",
        "transpose",
        "instrument",
        "pitch",
        "note",
        "gate",
        "tied",
        "pan",
        "bus",
        "send",
        "send_bus",
        "cutoff",
        "resonance",
        "fm_routing",
        "fm_feedback",
        "op1_ratio",
        "op1_level",
        "op1_attack",
        "op1_decay",
        "op1_sustain",
        "op1_release",
        "op2_ratio",
        "op2_level",
        "op2_attack",
        "op2_decay",
        "op2_sustain",
        "op2_release",
        "op3_ratio",
        "op3_level",
        "op3_attack",
        "op3_decay",
        "op3_sustain",
        "op3_release",
        "op4_ratio",
        "op4_level",
        "op4_attack",
        "op4_decay",
        "op4_sustain",
        "op4_release",
        "op1_mult",
        "op1_wave",
        "op1_egt",
        "op2_mult",
        "op2_wave",
        "op2_egt",
        "op3_mult",
        "op3_wave",
        "op3_egt",
        "op4_mult",
        "op4_wave",
        "op4_egt",
        "op1_dt",
        "op1_tl",
        "op1_ar",
        "op1_dr",
        "op1_sr",
        "op1_sl",
        "op1_rr",
        "op1_ssg",
        "op2_dt",
        "op2_tl",
        "op2_ar",
        "op2_dr",
        "op2_sr",
        "op2_sl",
        "op2_rr",
        "op2_ssg",
        "op3_dt",
        "op3_tl",
        "op3_ar",
        "op3_dr",
        "op3_sr",
        "op3_sl",
        "op3_rr",
        "op3_ssg",
        "op4_dt",
        "op4_tl",
        "op4_ar",
        "op4_dr",
        "op4_sr",
        "op4_sl",
        "op4_rr",
        "op4_ssg",
        "ym_algo",
        "ym_feedback",
        "ym_fnum",
        "ym_block",
        "ym_channel",
        "opl_alg",
        "opl_feedback",
        "ay_channel",
        "ay_volume",
        "ay_noise",
        "ay_noise_period",
        "ay_env_shape",
        "ay_env_period",
        "sn_channel",
        "sn_volume",
        "sn_noise_mode",
    ];
    assert(strs_view(r@) =~= param_keys());
    r
}

/// The parameter keys that accept an envelope value.
pub open spec fn env_targets() -> Seq<Seq<char>> {
    seq![
        "volume"@,
        "pitch"@,
        "duty"@,
        "note"@,
        "note_volume"@,
        "tempo"@,
        "velocity"@,
        "transpose"@,
        "gate"@,
        "pan"@,
        "cutoff"@,
        "resonance"@,
        "attack_envelope"@,
        "sustain_envelope"@,
        "release_envelope"@,
    ]
}

/// The parameter keys that accept an envelope value.
pub fn valid_env_targets() -> (r: &'static [&'static str])
    ensures
        strs_view(r@) == env_targets(),
{
    let r: &'static [&'static str] = &[
        "volume",
        "pitch",
        "duty",
        "note",
        "note_volume",
        "tempo",
        "velocity",
        "transpose",
        "gate",
        "pan",
        "cutoff",
        "resonance",
        "attack_envelope",
        "sustain_envelope",
        "release_envelope",
    ];
    assert(strs_view(r@) =~= env_targets());
    r
}

/// The values of `patch`.
pub open spec fn patches() -> Seq<Seq<char>> {
    seq![
        "sine"@,
        "square"@,
        "triangle"@,
        "sawtooth"@,
        "noise"@,
    ]
}

/// The values of `patch`.
pub fn valid_patches() -> (r: &'static [&'static str])
    ensures
        strs_view(r@) == patches(),
{
    let r: &'static [&'static str] = &[
        "sine",
        "square",
        "triangle",
        "sawtooth",
        "noise",
    ];
    assert(strs_view(r@) =~= patches());
    r
}

/// The values of `noise_type`.
pub open spec fn noise_types() -> Seq<Seq<char>> {
    seq![
        "white"@,
        "periodic"@,
        "brown"@,
        "pink"@,
    ]
}

/// The values of `noise_type`.
pub fn valid_noise_types() -> (r: &'static [&'static str])
    ensures
        strs_view(r@) == noise_types(),
{
    let r: &'static [&'static str] = &[
        "white",
        "periodic",
        "brown",
        "pink",
    ];
    assert(strs_view(r@) =~= noise_types());
    r
}

/// The values of `envelope_preset`.
pub open spec fn envelope_presets() -> Seq<Seq<char>> {
    seq![
        "percussion"@,
    ]
}

/// The values of `envelope_preset`.
pub fn valid_envelope_presets() -> (r: &'static [&'static str])
    ensures
        strs_view(r@) == envelope_presets(),
{
    let r: &'static [&'static str] = &[
        "percussion",
    ];
    assert(strs_view(r@) =~= envelope_presets());
    r
}

} // verus!

verus! {

/// Keys whose string values are themselves prefix-matched.
pub open spec fn is_string_value_key(key: Seq<char>) -> bool {
    key == "patch"@ || key == "noise_type"@ || key == "envelope_preset"@
}

/// The vocabulary of a string-valued key.
pub open spec fn value_vocabulary(key: Seq<char>) -> Seq<Seq<char>> {
    if key == "patch"@ {
        patches()
    } else if key == "noise_type"@ {
        noise_types()
    } else {
        envelope_presets()
    }
}

/// Why a parameter setter cannot be built.
#[derive(Debug, PartialEq)]
pub enum ParamError {
    /// No parameter key matches the given name.
    InvalidKey,
    /// The key does not accept an envelope.
    EnvelopeNotAccepted,
    /// The string value matches none (or several) of the key's values; the
    /// message says which.
    InvalidValue(String),
}

pub ghost enum ParamErrorV {
    InvalidKey,
    EnvelopeNotAccepted,
    InvalidValue(Seq<char>),
}

impl ParamError {
    pub open spec fn view(&self) -> ParamErrorV {
        match self {
            ParamError::InvalidKey => ParamErrorV::InvalidKey,
            ParamError::EnvelopeNotAccepted => ParamErrorV::EnvelopeNotAccepted,
            ParamError::InvalidValue(m) => ParamErrorV::InvalidValue(m@),
        }
    }
}

/// The value a setter stores once its key is resolved to `key`: an envelope
/// (given as an envelope note) is retargeted at the key; a string of a
/// string-valued key is resolved against its vocabulary; another string
/// becomes the number it parses to, `number`, when it parses.
pub open spec fn setter_value(key: Seq<char>, value: ParamValueV, number: Option<u32>) -> Result<ParamValueV, ParamErrorV> {
    match value {
        ParamValueV::Note(b) => match *b {
            NoteV::Envelope(env) => if env_targets().contains(key) {
                Ok(ParamValueV::Envelope(EnvelopeV { target: key, ..env }))
            } else {
                Err(ParamErrorV::EnvelopeNotAccepted)
            },
            _ => Ok(value),
        },
        ParamValueV::String(s) => if is_string_value_key(key) {
            match prefix_match(s, value_vocabulary(key)) {
                Ok(r) => Ok(ParamValueV::String(r)),
                Err(m) => Err(ParamErrorV::InvalidValue(m)),
            }
        } else {
            match number {
                Some(n) => Ok(ParamValueV::Number(n)),
                None => Ok(value),
            }
        },
        _ => Ok(value),
    }
}

/// The setter note for `key_input` and `value`, or why there is none.
pub open spec fn setter_spec(key_input: Seq<char>, value: ParamValueV, number: Option<u32>) -> Result<NoteV, ParamErrorV> {
    match prefix_match(key_input, param_keys()) {
        Err(_) => Err(ParamErrorV::InvalidKey),
        Ok(key) => match setter_value(key, value, number) {
            Ok(v) => Ok(NoteV::ParamSetter { key, value: v }),
            Err(e) => Err(e),
        },
    }
}

/// Whether `list` holds `s`.
fn contains_str(list: &[&'static str], s: &str) -> (r: bool)
    ensures
        r == strs_view(list@).contains(s@),
{
    let mut i: usize = 0;
    while i < list.len()
        invariant
            i <= list@.len(),
            forall|j: int| 0 <= j < i ==> strs_view(list@)[j] != s@,
        decreases list@.len() - i,
    {
        if str_eq(list[i], s) {
            assert(strs_view(list@)[i as int] == s@);
            return true;
        }
        i = i + 1;
    }
    false
}

/// The vocabulary of a string-valued key, executable.
fn vocabulary_of(key: &str) -> (r: &'static [&'static str])
    ensures
        strs_view(r@) == value_vocabulary(key@),
{
    if str_eq(key, "patch") {
        valid_patches()
    } else if str_eq(key, "noise_type") {
        valid_noise_types()
    } else {
        valid_envelope_presets()
    }
}

/// The error `create_param_setter` would meet, if any.
fn setter_error(key_input: &str, value: &ParamValue) -> (r: Option<ParamError>)
    ensures
        match r {
            Some(e) => setter_spec(key_input@, value.view(), None) == Err::<NoteV, ParamErrorV>(e.view()),
            None => setter_spec(key_input@, value.view(), None) is Ok,
        },
{
    let key = match match_prefix(key_input, valid_param_keys()) {
        Ok(k) => k,
        Err(_) => return Some(ParamError::InvalidKey),
    };
    match value {
        ParamValue::Note(b) => {
            match &**b {
                Note::Envelope(_) => {
                    if contains_str(valid_env_targets(), key) {
                        None
                    } else {
                        Some(ParamError::EnvelopeNotAccepted)
                    }
                },
                _ => None,
            }
        },
        ParamValue::String(s) => {
            if str_eq(key, "patch") || str_eq(key, "noise_type") || str_eq(key, "envelope_preset") {
                match match_prefix(s.as_str(), vocabulary_of(key)) {
                    Ok(_) => None,
                    Err(m) => Some(ParamError::InvalidValue(m)),
                }
            } else {
                None
            }
        },
        _ => None,
    }
}

/// Creates a parameter-setter note, resolving the key (and a string value
/// of `patch`, `noise_type` or `envelope_preset`) by prefix; an envelope
/// note value is retargeted at the key, and `number` (the bit pattern a
/// string value parses to as a number, if it does) replaces another string.
pub fn create_param_setter(key_input: &str, value: ParamValue, number: Option<u32>) -> (r: Note)
    requires
        setter_spec(key_input@, value.view(), number) is Ok,
    ensures
        Ok::<NoteV, ParamErrorV>(r@) == setter_spec(key_input@, value.view(), number),
{
    let key = match match_prefix(key_input, valid_param_keys()) {
        Ok(k) => k,
        Err(_) => {
            proof { assert(false); }
            return Note::Comment(String::new());
        },
    };
    let ghost v0 = value.view();
    let resolved: ParamValue = match value {
        ParamValue::Note(b) => {
            let inner: Note = *b;
            match inner {
                Note::Envelope(env) => {
                    let target = to_owned_string(key);
                    let e = crate::note::Envelope { target, points: env.points, interpolation: env.interpolation };
                    proof {
                        assert(e.view().points == env.view().points);
                    }
                    ParamValue::Envelope(e)
                },
                other => ParamValue::Note(Box::new(other)),
            }
        },
        ParamValue::String(s) => {
            if str_eq(key, "patch") || str_eq(key, "noise_type") || str_eq(key, "envelope_preset") {
                match match_prefix(s.as_str(), vocabulary_of(key)) {
                    Ok(m) => ParamValue::String(to_owned_string(m)),
                    Err(_) => {
                        proof { assert(false); }
                        ParamValue::String(s)
                    },
                }
            } else {
                match number {
                    Some(n) => ParamValue::Number(n),
                    None => ParamValue::String(s),
                }
            }
        },
        other => other,
    };
    proof {
        assert(setter_value(key@, v0, number) == Ok::<ParamValueV, ParamErrorV>(resolved.view()));
    }
    Note::ParamSetter { key: to_owned_string(key), value: resolved }
}

/// `create_param_setter` without a precondition: the reason when no setter
/// can be built.
pub fn try_create_param_setter(key_input: &str, value: ParamValue, number: Option<u32>) -> (r: Result<Note, ParamError>)
    ensures
        match r {
            Ok(n) => setter_spec(key_input@, value.view(), number) == Ok::<NoteV, ParamErrorV>(n@),
            Err(e) => setter_spec(key_input@, value.view(), number) == Err::<NoteV, ParamErrorV>(e.view()),
        },
{
    match setter_error(key_input, &value) {
        Some(e) => Err(e),
        None => Ok(create_param_setter(key_input, value, number)),
    }
}

} // verus!

verus! {

/// Resolves a key and a raw string value into the pair a setter holds.
pub fn resolve_key_value(key: &str, value_str: &str, number: Option<u32>) -> (r: (String, ParamValue))
    requires
        setter_spec(key@, ParamValueV::String(value_str@), number) is Ok,
    ensures
        setter_spec(key@, ParamValueV::String(value_str@), number)
            == Ok::<NoteV, ParamErrorV>(NoteV::ParamSetter { key: r.0@, value: r.1.view() }),
{
    let note = create_param_setter(key, ParamValue::String(to_owned_string(value_str)), number);
    match note {
        Note::ParamSetter { key, value } => (key, value),
        _ => {
            proof { assert(false); }
            (String::new(), ParamValue::Unset)
        },
    }
}

/// `resolve_key_value` without a precondition: the reason when the pair
/// cannot be resolved.
pub fn try_resolve_key_value(key: &str, value_str: &str, number: Option<u32>) -> (r: Result<(String, ParamValue), ParamError>)
    ensures
        match r {
            Ok(p) => setter_spec(key@, ParamValueV::String(value_str@), number)
                == Ok::<NoteV, ParamErrorV>(NoteV::ParamSetter { key: p.0@, value: p.1.view() }),
            Err(e) => setter_spec(key@, ParamValueV::String(value_str@), number)
                == Err::<NoteV, ParamErrorV>(e.view()),
        },
{
    let value = ParamValue::String(to_owned_string(value_str));
    match setter_error(key, &value) {
        Some(e) => Err(e),
        None => Ok(resolve_key_value(key, value_str, number)),
    }
}

} // verus!
