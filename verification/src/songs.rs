//! The compiled-in songs: the stage theme of Alisia Dragoon (an intro
//! played once and a body that loops), and a four-note arpeggio that
//! repeats forever. Each lane of the theme is a line of the score text
//! (see `score_text`); the voice programs and repeated phrases are named
//! blocks.

use vstd::prelude::*;
use crate::note::{Note, NoteV, ParamValue, TICKS_PER_WHOLE, notes_view, params_view};
use crate::score_text::{
    block_note_of, cvs, lane_note, lane_notes, lane_word_note, lanes_notes, param_note,
    plain_word_note_of, song_of, strs, chunk_words, words_of_chunks,
};
use crate::compose::try_par;
use crate::server::string_of;
use crate::text::{chars_of, str_eq};

verus! {

/// The theme's tempo.
pub const ALISIA_HEAD: &'static str = "tempo=#42E9E930";

// The intro, lane by lane (melody on top, drums at the bottom).
pub const ALISIA_INTRO_0_0: &'static str = "ridd o @voice_melody velocity=#42986666 e3i rx a3i rx e4i rx b4e x ro e3i rx b4i rx f3i rx c4i rx a4e x rx c3t t rx a4i rx g3i rx d4i rx g4e x rx d3i rxd g4i rx a3i rx e4i rx b4e xd ro e3i rxd a4i ro a3i o ro e4i o ro b4e xd ro e3i o ro b4i o ro f3i o ro c4i o ro a4e xd ro c3i rx a4i o ro g3i rx d4i rx g4e x rx d3i rx g4i rx a3i rx e4i rx b4e xd rx e3i o ro velocity=#428775C3 a4i rx a4td x o ro f5i o rx b5e xd ro e4i rx b5i o ro f4i o ro b4i rx as5e x rxd c4i rx a5i rx g4i rx d5x td rx g5e xd ro d4i o ro g5i o ro a4i o ro f5i o ro b5e xd ro ds4i o ro a5i o ro a4i o rx f5i o ro b5e x rx e4i rx b5i rx f4i rx b4i rx as5e x rx c4i rx a5i rx g4i o ro d5i o ro g5tdd i o xd ro d4i o rx g5i o ro a4i rx f5i o ro b5e x rxd ds4i rx a5i rx a4i rx f5i rxd b5id t xd ro e4i rx b5i o ro f4i o ro b4i o ro as5e xd ro c4i o rx a5i o ro g4i o ro d5i o ro g5e xd ro d4i o ro g5i rxd a4i rx f5i rx b5e x rx ds4i rx a5i rx a4i o ro f5i o rx b5e xd ro e4t o xd o ro b5i o rx f4i o ro b4i o ro as5e xd rx c4i o ro a5i o ro g4i rx d5i rxd g5e xd ro g4i rx gs5i rxd cs5i ro f5i o rx b5i o ro b5i o ro d6i o ro a5i o ro gs4i o rx e4i o ro gs4i o ro e4i o ro gs4i o ro e4td x o ro g4i o ro d4i rxd g4i rx d4i rx g4i rx d4i rx as4i rx ds4i rx as4i o ro ds4i o rx as4i o ro e4i o ro gs4x td o ro e4i o rx gs4i o ro e4i o ro gs4i o ro ds4i o rx as4i o ro e4i o ro as4i rxd e4i rx as4i rx e4i rx g4tdd o rxd d4i rx g4i rx d4i rx g4i o ro d4i o ro gs4i o ro e4i o ro gs4i o ro e4i o ro gs4i o ro e4i o rx g4i o ro d4xd t o o ro g4i o ro d4i o ro g4i rx d4i rx gs4i rxd e4i rx gs4i rx e4i rx gs4i rx e4i o ro g4i o ro d4i o ro ro g4i o ro d4i o ro g4i o ro d4i o rx as4i o ro ds4i o ro as4i o ro ds4i o rx as4i o ro e4i rx gs4i rx e4i rxd gs4t t rx e4i rx gs4i rx e4i rx c4i o ro e4i o rx as4i o ro f4i o ro b4i o ro a4i o ro as3i o ro ds4i o rx e4i o ro d4i o ro b4i o ro f4i o ro ds5i rx b5i rx a5i rx f6i rxd a5i rx as5i rx ds5i ro b5i rxd as5i rx b5xd rt rxd e6i o rx ds6i o ro a3i o ro e4i o rx b4e xd ro e3i o ro b4i o rx f3i o ro c4i rx a4e xd rx c3o tdd rx a4i rx g3i rx d4i rxd g4e x ro d3i o rx g4i o ro a3i o ro e4i o ro b4e xd ro e3i o rx a4i o ro a3i o ro e4i o ro b4e x rx e3i rx b4i rxd f3i rx c4i rx a4e xd ro c3i o ro a4t t o ro g3i o rx d4i o ro g4e xd ro d3i o rx g4i o ro a3i o ro e4i o rx cs5e xd rx e3i rx a4i rx d4i rx a3i rx ds4i rxd e4i rx as4i ro e4i o ro g4i o rx d4i o ro gs4i o ro as4i o ro g4i o ro ds4i o ro e4t o xd o ro c4i o rx e4i o ro as4i o ro e4i o ro c4i rx g4i rx d4i rx gs4i rx as4i rx g4i rx ds4i rx e4i o ro ds4x td o rx e4i o ro as4i o ro e4i o ro d4i o ro e4i o rx c4i o ro e4i o ro gs4i o ro e4i o rx c4i o ro fs4i rx d4tdd o rx fs4i rxd a4i rx fs4i rx d4i rx fs4i rx d4i rx fs4i o ro a4i o ro fs4i o ro ds4i o ro e4i o ro ds4i o rx e4xd t o o ro as4i o ro e4i o ro d4i o ro gs4i o ro e4i o ro gs4i rx b4i rx gs4i rx e4i rxd g4i rx d4i rx gs4i rx as4i o ro g4i rx d4i o ro g4i o rx d4i o ro gs4i rx as4i o ro g4i o ro d4i o rx g4i o ro d4i o ro gs4i o rx as4t o xd rx g4i rx";
pub const ALISIA_INTRO_0_1: &'static str = "d4i rx g4i rx d4i rx gs4i rxd as4i ro g4i o ro d4i o ro a3i o ro e4i o ro b4e xd ro e3xd t o o ro b4i o ro f3i o ro c4i o ro a4e xd ro c3i rx a4i rx g3i rx d4i rx g4e x rx d3i rx g4o tdd o ro a3i rx e4i rx b4e xd rx e3i rx a4i rx a3i rx e4i rx b4e x rx e3i rx b4i rx f3i rx c4i rx a4e x rx c3i rx a4i rx g3i rx d4i o ro g4e xd ro d3i o ro g4i o ro a3td x o ro e4i o ro b4e xd rx e3i o ro a4i rx a4i o ro f5i rx b5e x rx e4i rx b5i rx f4i rx b4xd t o rx as5e xd ro c4i o rx a5i rx g4i o ro d5i o ro g5e xd ro d4i rx g5i o rx a4i o ro f5i ro ro b5e x rx ds4i rx a5i rx a4i rxd f5i rx b5e x ro e4i o ro b5i o rx f4i o ro b4i o ro as5td i x xd ro c4i o ro a5i o ro g4i o ro d5i o ro g5e x rx d4i rx g5i rx a4i rx f5i rx b5idd x x rx ds4i o rx a5i o ro a4i o ro f5i o ro b5e xd rx e4i o ro b5i o rx f4i o ro b4i rx as5e xd ro c4i rx a5i rxd g4i rx d5i rx g5e xd rx d4i rx g5i rx a4i o ro f5i o ro b5e xd ro ds4t o xd o ro a5i o ro a4i o rx f5i o ro b5e xd ro e4i o ro b5i o ro f4i rx b4i rx as5e x rxd c4i rx a5o tdd rx g4i rx d5i o ro g5e xd rx g4i o ro gs5i o ro cs5i o ro f5i o rx b5i o ro b5i o rx d6i o ro a5td x o ro gs4i o ro e4i rxd gs4i rx e4i rx gs4i rx e4i rxd g4i rx d4i rx g4i o ro d4i o ro g4i o ro d4i o ro as4x td o ro ds4i o ro as4i o rx ds4i o ro as4i o ro e4i o ro gs4i o ro e4i o ro gs4i rxd e4i rx gs4i rx ds4i rx as4i rx e4i rx as4i rx e4i o ro as4i o rx e4i o ro g4i o ro d4i o ro g4i rxd d4i o ro g4i o ro d4i o ro gs4i o rx e4xd t o o ro gs4i o ro e4i rx gs4i rx e4i rxd g4i rx d4i rx g4i rx d4i rxd g4i ro d4i o @melodyi_seg_0 gs4i o ro e4i o ro g4i o ro d4i o rx g4i o ro d4i o ro g4i o ro d4i rx as4i rx ds4i rxd as4t o xd rx ds4i rx as4i rx e4i rx gs4i o ro e4i o @melodyi_seg_0 c4i o rx e4i o ro as4i o ro f4o tdd o rx b4i o ro a4i o ro as3i rx ds4i rxd e4i rx d4i rx b4i rx f4i rx ds5i rx b5i o ro a5i o ro f6tdd o o rx a5i o ro as5i o ro ds5i o ro b5i o ro as5i o ro b5t rh td rhd";
pub const ALISIA_INTRO_1_0: &'static str = "rw rhd idd @voice_lead c3t o e3x g3o c4x e4i qdd idd rxd e4edd rx f4x ro g4x ro f4o rxd e4idd o hd o tdd ro @voice_lead_2 e3i o ro f3i o rx g3x td rx a3i rx b3i rx c4i rx b3x ro c4x rx b3q ro a3e xd rx g3e xd ro d3i o tdd xd ro f3e x rx e3q td rxd e3e x rx e3i rx f3i rx g3i rx a3td x rx b3i rx c4i o ro d4edd o ro e4i rx c4e xd ro b3e xd ro d3e xd rx g3xd id o x rx a3q tdd rx a3e x rx op4_tl=#41B80000 e4i o ro f4i o ro g4i o ro a4i o rx b4i o ro c5i o ro b4x rx c5x ro b4q rx a4e xd ro g4e x rx d4e x rxd f4idd o o x rx e4q td rx e4e xd ro e4i o ro f4i o ro g4i o rx a4i o ro b4i o ro c5i o rx e5o eddd o tdd ro d5id rx c5x ro d5o rxd c5q tdd rx b4e xd ro a4tdd ed o i ro @voice_lead_3 c5i o ro d5i o rx e5edd rx f5i rx g5e x rxd d5id e t td rx c5i o ro b4i o ro c5edd o ro d5i o rx e5e xd ro e5e xd rx b4e xd ro a4x ro b4x rx a4o rx g4i rxd a4edd o ro b4i rxd c5e xd ro d5e xd ro c5t id xd rx d5e xd ro e5h ed xd t o xd rx c5i rx d5i rx e5edd o rx f5i o ro g5e xd ro d5q t o x rx c5i o ro b4i o rx c5edd o ro d5i rxd e5e xd ro e5e x rx b4e xd rx a4o o ro b4x rx a4o rx g4i o ro a4edd o rx b4i o ro c5e xd ro e5e x rxd d5i rx e5xd rx d5xd rx c5tdd i o x rx e5qdd xd rx e5qd td td ro @voice_lead_4 e4i o ro f4i o ro g4i o rx a4i rx b4i rx c5i rxd b4q tdd ro a4e xd rx g4e xd ro d4e xd rx f4e xd ro e4q tdd ro e4e x rxd e4t t rx f4i rx g4i rx a4i rxd b4i ro c5i o ro d5edd o rx e5i o ro c5e xd ro b4i xd t o xd rx d4e xd ro g4e x rxd a4q tdd rx @voice_lead_2 a2e xd ro d3i o rx e3t o xd o ro f3i o ro g3i o ro a3i o rx c4i o ro b3x ro c4x ro b3q rx a3i rx g3i o rx a3e t o tdd rx g3i rx f3e x rx g3q td rx d3i o ro e3i o ro f3edd o rx g3i o ro f3e xd rx e3t o ro f3t o rx e3t o rx d3e x rx c3e x rxd d3q x ed x ro d3q tdd ro d3i rx e3i o rx f3edd o ro g3i rx f3e x rx e3t o rx f3t o ro e3t o rx d3e x rx c3e xd ro d3qd w e eddd rx c3i o ro d3i o rx e3qdd xd qd t o td rh t o rq i xd @voice_lead c3td e3x g3x c4o e4h i x t ro e4edd o ro f4x rx g4x ro f4o rx e4h e xd edd o tdd rx @voice_lead_2 e3i rx f3i rx g3i rx a3i o ro b3i rx c4i o ro b3x rx c4o rx b3e tdd i o rx a3e xd ro g3e xd ro d3e x rx f3e x rxd e3q t xd ro e3e xd ro e3i o ro f3i o ro g3i o rx a3i o ro b3i o ro c4i rx d4edd o ro e4i rx c4xd id o x rx b3e x rx d3e x rxd g3e x ro a3q tdd ro a3i xd t o xd rx op4_tl=#41B80000 e4i o ro f4i o ro g4i o rx a4i o ro b4i o ro c5i o ro b4x rx c5x ro b4q rx a4e x rxd g4e x rx d4e xd ro f4e xd rx e4q tdd ro e4e xd rx e4o tdd o ro f4i rx g4i rx a4i rx b4i rx c5i rxd e5q td ro d5id rx c5o rxd d5x ro c5i ed tdd rx b4e xd ro a4q tdd rxd @voice_lead_3 c5i rx d5i rx e5id o idd o o ro f5i o rx g5e xd ro d5q tdd rx c5i rx b4i o ro c5e xd i o o rx d5i rx e5e x rx e5e x rxd b4e x rx a4x ro b4o rx a4x rx g4i o ro a4ed o xd o ro b4i o ro c5e xd rx d5e xd ro c5e xd rx d5e x rx e5eddd o h o t rx c5i o ro d5i o rx e5edd o ro f5td x o ro g5e xd rx d5q td rx c5i rx b4i rx c5edd rx d5i o rx e5x idd xd ro e5e xd ro b4e xd rx a4x ro b4o rxd a4x ro g4i o ro a4edd o rx b4i rx c5i i xd rx e5e x rx d5i o ro";
pub const ALISIA_INTRO_1_1: &'static str = "e5t rx d5xd rx c5e xd ro e5qd td td ro e5qdd xd rxd @voice_lead_5 e4i rqd xd rhd";
pub const ALISIA_INTRO_2_0: &'static str = "rw rhd td @voice_lead2 c3t o e3x g3x c4x e4idd o qd o idd o e4edd o ro f4o rxd g4o rx f4x ro e4ed h ed td rx @voice_lead2_2 e3i o rx f3i o ro g3i o ro a3o tdd o ro b3i o ro c4i o rx b3x ro c4o rx b3q rx a3e x rx g3e x rxd d3e o o rx f3e x rx e3q tdd ro e3e xd ro e3i o ro f3i o ro g3i rx a3i o ro b3t o xd o rx c4i rx d4edd rx e4i rx c4e x ro b3e xd rx d3e xd ro g3id t xd ro a3q tdd rx a3e xd ro e4i rxd f4i rx g4i rx a4i rx b4i rxd c5tdd o rx b4x ro c5x rx b4q ro a4e xd ro g4e xd ro d4e xd rx f4e xd ro e4t edd tdd rx e4e x rx e4i rx f4i rx g4i o ro a4i o ro b4i o ro c5i o rx e5i x e td i ro d5id rx c5o rx d5x ro c5q tdd rx b4e x rxd a4idd o e o tdd ro @voice_lead2_3 c5i o rx d5i o ro e5edd o ro f5i o rx g5e xd ro d5e t o i xd tdd ro c5i rxd b4i rx c5edd rx d5i rx e5e x rx e5e xd rx b4tdd i o xd ro a4x rx b4o rxd a4o rx g4i o ro a4edd o rx b4i o ro c5e xd ro d5e xd rx c5id t xd rx d5e x ro e5hd t rx c5i o ro d5i rx e5edd rx f5i rxd g5e x rx d5q tdd ro c5t o xd o ro b4i o rx c5edd o ro d5i o rx e5e xd ro e5e x rxd b4e xd ro a4x rx b4x ro a4o rx ro g4i rx a4edd o ro b4i o ro c5e xd rx e5e xd ro d5i o ro e5t ro d5xd rx c5e xd rx e5qdd xd ro e5qdd xd rx @voice_lead2_4 e4x td o ro f4i o rx g4i o ro a4i o ro b4i o ro c5i o rx b4q tdd rx a4e xd ro g4tdd i o xd rx d4e x rx f4e x rx e4q tdd rx e4e xd ro e4i o ro f4xd t o o rx g4i rx a4i o ro b4i o ro c5i rx d5edd rxd e5i rx c5e x rx b4e xd ro d4e xd rx g4e xd ro a4q tdd rx @voice_lead2_2 a2e xd rx d3i rx e3i rxd f3xd t o rx g3i rx a3i rx c4i rxd b3x ro c4x ro b3q rx a3i o ro g3i rx a3edd o ro g3i o ro f3e xd rx g3q td rx d3i rx e3i rx f3edd rx g3tdd o o ro f3e xd rx e3t o rx f3t o rx e3t o ro d3e xd rx c3e xd ro d3q i xd e o rx d3q tdd ro d3i o ro e3i rx f3edd o ro g3i o ro f3i o tdd xd rx e3t o ro f3t o rx e3t o rx d3e xd ro c3e x rx d3qdd w i eddd rx c3i rx d3i rx e3h t q id td rh idd rq x @voice_lead2 c3t o e3x g3x c4o e4h idd o rx e4xd ed o rx f4x ro g4x rx f4o rx e4h ed xd e t o td rx @voice_lead2_2 e3i o rx f3i o ro g3i rx a3i rx b3i rx c4i rx b3x ro c4x rx b3eddd o o ro a3e xd ro g3e xd ro d3e xd rx f3e xd ro e3q tdd rx e3t id x rx e3i rx f3i rx g3i rx a3i rxd b3i rx c4i ro d4edd o rx e4i o ro c4i xd t o x rx b3e xd ro d3e xd ro g3e xd ro a3q td rx a3e x ro ro e4i rx f4i o ro g4i o rx a4i o ro b4i o ro c5i o rx b4x ro c5o rxd b4q rx a4e xd ro g4t id x rx d4e xd rx f4e x rx e4q tdd rx e4e xd ro e4i o ro f4i o ro g4i o ro a4i o ro b4i o rx c5i o ro e5q tdd ro d5id rx c5x ro d5o rxd c5e e tdd ro b4e xd ro a4q i rx @voice_lead2_3 c5i o ro d5i o ro e5e td td o rx f5i rx g5e x rxd d5q tdd rx c5i rx b4i o ro c5ed xd o o ro d5i o ro e5e xd rx e5e xd ro b4e xd ro a4x rx b4o rx a4x ro g4i rx a4edd rxd b4xd t o rx c5e x rx d5e xd ro c5e xd rx d5e xd ro e5q i qdd t rxd c5i rx d5i rx e5edd o ro f5i o rx g5t id xd ro d5q tdd ro c5i o rx b4i o ro c5edd rx d5i rx e5i xd t o x rxd e5e x ro b4e xd rx a4x rx b4o rx a4o rx g4i o ro a4edd o rx b4i o rx c5e xd ro e5e xd rx d5i rx e5xd rx d5xd rx c5e x rxd e5qdd xd ro e5x";
pub const ALISIA_INTRO_2_1: &'static str = "qd td xd rx @voice_lead2_5 e4i o rqddd rhd";
pub const ALISIA_INTRO_3_0: &'static str = "@voice_arp velocity=#42BA428F e3tdd rxd a3i rx e4i rx b4e x rx e3i rx b4i ro f3i rx c4i rx a4e x rx c3i rx a4i ro ro g3i rx d4i rx g4e x rx d3i rx g4i rx a3i rxd e4i rx b4e x rx e3i rx a4i rx a3td x rx e4i o ro b4e xd ro e3i o ro b4i o ro f3i o ro c4i o ro a4e xd ro c3i rx a4i rx g3i o ro d4t t rx g4e x rx d3i rx g4i rx a3i rx e4i rx b4e x rx e3i rxd velocity=#42A9570A a4i o ro a4i o ro f5i rx b5o idd o xd rx e4i rx b5i rx f4i rx b4i rx as5e x rx c4i rxd a5i rx g4i rx d5i rx g5tdd i o x rx d4i rx g5i rx a4i rx f5i rx b5e x rx ds4i rx a5i rx a4i rx f5i rxd b5idd x xd ro e4i rx b5i rx f4i rx b4i rx as5e x rx c4i rx a5i rx g4i rx d5i rx g5e xd ro d4x td rx g5i rxd a4i rx f5i rx b5e xd ro ds4i rxd a5i rx a4i rx f5i rx b5e x rxd e4tdd o rx b5i rx f4i rx b4i rx as5e x rx c4i rxd a5i rx g4i rx d5i rx g5e xd ro d4i rx g5t t rxd a4i rx f5i rx b5e x rx ds4i rx a5i rx a4i rx f5i rx b5e xd rx e4i rx b5i rx f4i rxd b4i rx as5e xd ro c4i rxd a5i rx g4i rx d5i rx g5e x rxd g4i rx gs5i rx cs5t o xd rxd f5i rx b5i rx b5i o ro d6i rx a5i rx g4i rxd g4i rx g4i rx g4i rx g4i rx g4i rx g4i rx g4o tdd rxd g4i rx g4i rx g4i rx g4i rx a4i rx a4i rx a4i rxd a4i ro a4i rxd a4i rx g4i rx g4tdd o rx g4i rxd g4i rx g4i rx g4i rx a4i rxd a4i rx a4i rx a4i rxd a4i rx a4i rx g4i rx g4i rxd g4o tdd rx g4i rx g4i rx g4i rx g4i rx g4i rx g4i rx g4i rx g4i rx g4i rxd g4i rx g4i rx g4i rx g4i rx g4i rx g4i rx g4i rx g4i rxd g4i rx g4i rx g4i rx g4i rx g4i rx g4i rx g4i rxd g4t t rx g4i rx g4i rx a4i rxd a4i rx a4i rx a4i rx a4i rxd a4i rx g4i rx g4i rx g4i rxd g4i ro ro g4i rx g4i rx c4i rxd e4i ro as4i rxd f4i rx b4i rx as4i rx as3i rx ds4i rx e4i rxd ds4i rx as4t o xd o ro f4i rx ds5i rx b5i rx a5i rx f6i rx a5i rxd as5i rx ds5i rx b5i rx as5i ro b5i rxd e6i rx d6x td o rx a3i rx e4i rx b4e xd rx e3i rx b4i rx f3i rxd c4i rx a4e x rx c3i rxd a4td x rx g3i rx d4i rxd g4e x ro d3i rxd g4i rx a3i rx e4i rx b4e xd ro e3i rxd a4i rx a3x td rx e4i rx b4e xd ro e3i rx b4i rxd f3i rx c4i rx a4e x rx c3i rx a4i rx g3i ro ro d4i rxd g4e xd ro d3i rx g4i rxd a3i rx e4i rx cs5e xd rx e3i rxd a4i rx d4i rx a3xd t o rx ds4i rx e4i rxd as4i rx e4i rx g4i rx d4i rx gs4i rx as4i rx g4i rx ds4i rx e4i rx c4i rx e4i rxd as4i rx e4i rx c4i rx g4i rx d4i rx gs4i rx as4i rx g4i rx ds4i rx e4i rxd ds4i ro e4tdd o rxd as4i rx e4i rx d4i rx e4i rx c4i rxd e4i rx gs4i rx e4i rx c4i rxd fs4i rx d4i rx fs4i rx a4x td rxd fs4i rx d4i rx fs4i rx d4i rx fs4i rx a4i rx fs4i rx ds4i rx e4i rx ds4i rxd e4i rx as4i rx e4i rx d4i rx gs4i rx e4i rx gs4i rx b4i rx gs4i rxd e4i rx g4i rx d4i rx gs4i rx as4i rx g4t o xd rx d4i rx g4i rx d4i rxd gs4i rx as4i rx g4i rx d4i rx g4i rxd d4i rx gs4i rx as4i rxd g4i rx d4i rx g4i rx d4i rx gs4i rx as4i rxd g4i rx d4i ro a3i o ro e4i o ro b4e xd ro e3i o ro b4i o ro f3i o ro c4i o ro a4e xd ro c3i o ro a4i o ro g3i rx d4i rx g4e x rx d3i rx g4i rx a3td x rx e4i o ro b4e x rx e3i rxd a4i rx a3i o ro e4i rx b4e x rx e3i rx b4i rx f3i rx c4xd t o rx a4e x rx c3i rx a4i rx g3i rx";
pub const ALISIA_INTRO_3_1: &'static str = "d4i rx g4e x rx d3i rx g4i rx a3i rx e4i o ro b4o idd o xd ro e3i o rx a4i o ro a4i o ro f5i rx b5e x rx e4i rx b5i rx f4i rx b4i rxd as5tdd i o x ro c4i rx a5i rxd g4i rx d5i rx g5e xd ro d4i rx g5i rx a4i rxd f5i rx b5idd x x rx ds4i rx a5i rx a4i rx f5i rxd b5e x rx e4i rx b5i rx f4i rx b4i rx as5e x rx c4o tdd rx a5i rx g4i rx d5i rx g5e xd ro d4i rx g5i rx a4i rx f5i rx b5e x rxd ds4i rx a5i rx a4i rx f5i rx b5e xd rx e4i rx b5i rx f4i rxd b4i rx as5e xd ro c4i rx a5t t rx g4i rxd d5i rx g5e x rxd d4i rx g5i rx a4i rx f5i rx b5e x rx ds4i rx a5i rx a4i rx f5i rxd b5e xd ro e4i rx b5i rx f4i rx b4i rxd as5e x rx c4i rx a5i rx g4td x rx d5i rx g5e xd ro g4i rxd gs5i rx cs5i rx f5i rx b5i rxd b5i o ro d6i rxd a5i rx g4i rx g4o tdd rx g4i rxd g4i rx g4i rx g4i rx g4i rxd g4i rx g4i rx g4i rx g4i rx g4i rx a4i rx a4tdd o rx a4i rxd a4i rx a4i rx a4i rx g4i rx g4i rx g4i rxd g4i rx g4i rx g4i rx a4i rx a4i rx a4xd t o rxd a4i rx a4i ro a4i rxd g4i rx g4i rx g4i rx g4i rxd g4i rx g4i rx g4i rx g4i rxd g4i rx g4i rx g4i rx g4i rx g4i rxd g4i rx g4i rx g4i rx g4i rxd g4i ro g4i rxd g4i rx g4i rx g4t t rx g4i rx g4i rx g4i rx g4i rxd g4i rx g4i rx g4i rx g4i rx a4i rx a4i rx a4i rxd a4i rx a4i rx a4i rx g4i rx g4i rx g4i rx g4i rxd g4i rx g4i rx c4i rx e4i rxd as4i rx f4i rx b4td x rxd as4i rx as3i rx ds4i rx e4i rxd ds4i rx as4i rx f4i rx ds5i rx b5i rxd a5i ro f6i rx a5i rxd as5o tdd rx ds5i rx b5i rx as5i rx b5i rx e6i o rx d6i x rqdd x rhd";
pub const ALISIA_INTRO_4_0: &'static str = "@voice_arp2 velocity=#42BA428F a3tdd rxd c4i rx e4i rid g4i rx a3i rx g4i ro a3i rx c4i rid f4i rx f3i rx fs4i ro ro b3i rx d4i rid d4i rx g3i rx d4i rx c4i rxd e4i rid g4i rx a3i rx e4i rx c4td x rx e4i rid g4i o ro a3i rx g4i rx a3i rx c4i rid f4i o ro f3i rx fs4i rx b3i rx d4t t rid d4i rx g3i rx d4i rx c4i rx e4i rid g4i rx a3i rxd velocity=#42A9570A e4i o ro c5i o ro e5i rxd ri x g5i rx a4i rx g5i rx as4i rx b4i rid f5i rxd f4i rx g5i rx as4i rx d5i ri o rxd d5i rx g4i rx ds5i rx c5i rx e5i rid g5i rx a4i rx e5i rx c5i rx e5i rid o g5t t rx a4i rx g5i rx as4i rx b4i rid f5i rx f4i rx g5i rx as4i rx d5i rid d5i rx g4x td rx ds5i rxd c5i rx e5i rid g5i rx a4i rxd e5i rx c5i rx e5i rid o g5i rx a4tdd o rx g5i rx as4i rx b4i rid f5i rx f4i rxd g5i rx as4i rx d5i rid d5i rx g4i rxd ds5xd t o @arp2i_seg_0 g5i rx a4i rx g5i rx as4i rxd b4i rid f5i rx f4i rxd g5i rx as4i rx d5i rid o d5i rx g4i rx ds5i rx cs5t o xd rxd f5i rx c6i rx e5i o ro as5i rx f5i rx e4i rxd e4i rx e4i rx e4i rx e4i rx e4i rx d4i rx d4o tdd rxd d4i rx d4i rx d4i rx d4i rx c4i rx c4i rxd c4i rx c4i ro c4i rxd c4i rx e4i rx e4tdd o rxd e4i rx e4i rx e4i rx e4i rxd c4i rx c4i rx c4i rx c4i rxd c4i rx c4i rx d4i rx d4i rxd d4o tdd rx d4i rx d4i rx ds4i rx e4i rx e4i rx e4i rx e4i rx e4i rx e4i rxd d4i rx d4i rx d4i rx d4i rx d4i rx ds4i rx e4i rx e4i rxd e4i rx e4i rx e4i rx e4i rx d4i rx d4i rx d4i rxd d4t t rx d4i rx d4i rx c4i rxd c4i rx c4i rx c4i rx c4i rxd c4i rx e4i rx e4i rx e4i rxd e4i ro ro e4i rx e4i rx a3i rxd c4i ro f4i rxd c4i rx a4i rx f4i rx d3i rx as3i rx d4i rxd as3i rx f4t o xd o ro ds4i rx b4i rx e5i rx a5i rx as5i rxd gs5i rx f5i rx b4i rx b4i rx ds5i rx e5i rx fs5i rx g5x td o rx c4i rx e4i rid o g4i rx a3i rx g4i rx a3i rxd c4i rid f4i rxd f3i rx fs4td x rx b3i rx d4i rid o d4i rx g3i rx d4i rx c4i rx e4i rid g4i rx a3i rxd e4i rx c4x td rx e4i rid g4i rx a3i rx g4i rxd a3i rx c4i rid f4i rx f3i rx fs4i rx b3i ro ro d4i rid o d4i rx g3i rx d4i rxd cs4i rx e4i rid o g4i o ro a3i rxd e4i rx a3i rx f3xd t o rx a3i rxd d4i rx f4i rx d4i rx d4i rx b3i rx d4i rx g4i rx d4i rx a3i rx d4i rx a3i rx ro d4i rx f4i rx d4i rx a3i rx d4i rx b3i rx d4i rx g4i rx d4i rx b3i rxd d4i rx as3i ro d4tdd o rxd f4i rx d4i rx as3i rx c4i rxd g3i rx c4i rx e4i rx c4i rx g3i rxd d4i rx a3i rx d4i rx fs4x td rxd d4i rx a3i rx d4i rx a3i rx d4i rx fs4i rx d4i rx a3i rx d4i rx as3i rxd d4i rx f4i rx d4i rx b3i rx e4i rx c4i rx e4i rx gs4i rx e4i rxd c4i rx d4i rx b3i rx d4i rx g4i rx d4t o xd rx b3i rx d4i rx b3i rxd d4i rx g4i rx d4i rx b3i rx d4i rxd b3i rx d4i rx g4i rxd d4i rx b3i rx d4i rx b3i rx d4i rx g4i rxd d4i rx b3i ro c4i o ro e4i o ri xd g4i o ro a3i o ro g4i o ro a3i o ro c4i o ri xd f4i o ro f3i o ro fs4i o ro b3i rx d4i rid d4i rx g3i rx d4i rx c4td x rx e4i o ri xd g4i rx a3i rxd e4i rx c4i o ro e4i rid g4i rx a3i rx g4i rx a3i rx c4xd t o rid f4i rx f3i rx fs4i rx b3i rx d4i rid d4i rx g3i rx d4i rx c4i rx e4i rxd ri o g4i o ro a3i rxd e4i o ro c5i o ro e5i rid g5i rx";
pub const ALISIA_INTRO_4_1: &'static str = "a4i rx g5i rx as4i rxd b4i ri o rx f5i rx f4i rxd g5i rx as4i rx d5i rid d5i rx g4i rx ds5i rx c5i rxd e5i rid g5t t rx a4i rx e5i rx c5i rxd e5i rid g5i rx a4i rx g5i rx as4i rx b4i rid f5i rx f4o tdd rx g5i rx as4i rx d5i rid d5i rx g4i rx ds5i rx c5i rx e5i rid o g5i rx a4i rx e5i rx c5i rx e5i rid g5i rxd a4i rx g5i rx as4i rxd b4i rid f5i rx f4i rx g5t t rxd as4i rx d5i rid d5i rxd g4i rx ds5i @arp2i_seg_0 g5i rx a4i rx g5i rx as4i rx b4i rid o f5i rx f4i rx g5i rx as4td x rx d5i rid d5i rx g4i rxd ds5i rx cs5i rx f5i rx c6i rxd e5i o ro as5i rxd f5i rx e4i rx e4o tdd rx e4i rxd e4i rx e4i rx e4i rx d4i rxd d4i rx d4i rx d4i rx d4i rx d4i rx c4i rx c4tdd o rx c4i rxd c4i rx c4i rx c4i rx e4i rx e4i rx e4i rxd e4i rx e4i rx e4i rx c4i rx c4i rx c4xd t o rxd c4i rx c4i ro c4i rxd d4i rx d4i rx d4i rxd d4i rx d4i rx ds4i rx e4i rx e4i rxd e4i rx e4i rx e4i rx e4i rxd d4i rx d4i rx d4i rx d4i rx d4i rxd ds4i ro e4i rxd e4i rx e4i rx e4t t rx e4i rx e4i rx d4i rx d4i rxd d4i rx d4i rx d4i rx d4i rx c4i rx c4i rxd c4i rx c4i rx c4i rx c4i rx e4i rx e4i rx e4i rx e4i rxd e4i rx e4i rx a3i rx c4i rxd f4i rx c4i rx a4td x rxd f4i rx d3i rx as3i rx d4i rxd as3i rx f4i rx ds4i rx b4i rx e5i rxd a5i ro as5i rxd gs5i rx f5o tdd rx b4i rx b4i rx ds5i rx e5i rx fs5i rxd a5i x rqdd x rhd";
pub const ALISIA_INTRO_5_0: &'static str = "rw rw @voice_harmony3 e5i ro a4i rx b4i o ro c5i o ro a4i rx e4i o ro e5i o ro a4i rx b4i o ro c5i o ro a4i rx e4i rx e5i ro ro a4i rx b4i rx c5i rx a4i rx e4i rx e5i rx a4i rx b4i rx c5i rx a4i o rx e4i o ro @voice_harmony3_2 e3i o ro f3td x o ro g3i o ro a3i o rx b3i o ro c4i o ro b3o rx c4x rx b3q ro a3e x rxd g3e x rx d3x idd x rx f3e xd ro e3q tdd ro e3e xd ro e3i o ro f3i o ro g3i o ro ro a3i rx b3i rx c4i rx d4edd rx e4i ro c4e xd rx b3e xd ro d3e o x ro g3e xd ro a3q tdd rx a3xd rxd c3i rx d3i rx e3i rx f3i rxd g3i rx a3tdd o rx g3o rx a3x rx g3q ro f3e x rx d3e xd rx b2e xd ro d3e xd ro c3t edd td rxd c3e x rx c3i rx d3i rx e3i rx f3i rxd g3i rx a3i rx c4i x e td tdd rx b3id rx a3o rx b3x ro a3q tdd rx e3e x rxd e3idd o e o tdd rx @voice_harmony3_3 c4i rx d4i rx e4edd o rx f4i rx g4e xd ro d4e t o i xd tdd rx c4i rx b3i rx c4edd rx d4i rxd e4e x rx e4e xd ro b3tdd i o xd rx a3i rx g3i rx a3edd o rx b3i rx c4e x rxd d4e x rx c4id t x rxd d4e x rx e4hd xd rx c4i rx d4i rx e4edd rxd f4i rx g4e x rx d4q tdd rx c4t t rx b3i rx c4edd o rx d4i rx e4e xd rx e4e x rx b3e x rxd a3i ro ro g3i rx a3edd rx b3i rxd c4e xd ro e4e xd ro d4e xd rx c4idd o o x rx e4qdd x rxd e4qdd x rx @voice_harmony3_4 a2x td o rx c3i rx e3i rx b3i rxd g3i rx e3i rx f2i rx a2i rxd e3i rx a3i rx e3i rx c3i rxd g2td x rx d3i rx g3i rx a3i rxd g3i ro d3i rx a2i rxd e3i rx b3i rx a3i rx b3i rx e3i rx a2i rxd c3x td rx e3i rx b3i rx g3i rx e3i rx f2i rx a2i rxd e3i rx a3i rx e3i rx c3i rx g2i rx d3i ro ro g3i rxd a3i rx g3i rx d3i rx a2i rxd e3i rx a3i rx cs4i rxd e4i rx cs4i rx @voice_harmony3_5 d4i rxd d4i rt o rtdd a3i rx d4i rxd a3i rx e4i rx e4i rid c4i rx e4i rx c4i rx f4i rx f4i rid d4i rxd f4i rx d4i rx e4i rx e4i rid c4i rx e4i rx c4i rx d4i rx d4i rid as3tdd o o rx d4i rx as3i rx e4i rx e4i rid o c4i rx e4i rx c4i rx fs4i rx fs4i rid o a3i rx fs4x td rxd a3i rx fs4i rx fs4i rid a3i rx d4i rx a3i rx d4i rx d4i rid o as3i rx d4i rx as3i rx e4i rx e4i rid c4i rx e4i rx c4i rxd d4i rx d4i rid b3i rx d4i rx b3t o xd rx d4i o ro d4i rid o b3i rx d4i rx b3i rx b2e xd rx a2e xd ro b2e x rxd g2e x rx f2e x rx g2e x rxd c3h xd w edd o idd re o @voice_harmony3 e5i rx a4i rx b4i rx c5i rx a4i rx e4i rx e5i rx a4i rx b4i rx c5i rx a4i rx e4i rx e5i rx a4i rx b4i rx c5i rx a4i rx e4i o ro e5i rx a4td x rx b4i o ro c5i o ro a4i o ro e4i o rx @voice_harmony3_2 e3i rx f3i o ro g3i rx a3i rx b3i rx c4i rx b3o rx c4x rx b3e e ro a3e xd ro g3e xd rx d3e xd ro f3e xd ro e3eddd x tdd rx e3e x rx e3i rx f3i rxd g3i rx a3i ro b3i o ro c4i rx d4edd o rx e4td x o ro c4e xd ro b3e xd ro d3e xd ro g3e x rx a3q td rx a3xd ro rx c3i ro d3i rxd e3i rx f3i rx g3i rxd a3i rx g3x ro a3o rxd g3q rx f3e xd ro d3t id x rxd b2e x rx d3e x rxd c3q td rx c3e x rx c3i rx d3i rx e3i rxd f3i rx g3i rx a3i rx c4q td rxd b3i xd rx a3x ro b3o rxd a3e e td rx e3e xd rx e3q tdd rx @voice_harmony3_3 c4i o ro d4i rxd e4e t o tdd o ro f4i rxd g4e x rx d4q tdd rx c4i rx b3i rx c4ed xd o o ro d4i rxd e4e xd ro e4e xd";
pub const ALISIA_INTRO_5_1: &'static str = "ro b3e xd rx a3i rx g3i rx a3edd rx b3xd t o rx c4e x rx d4e xd rx c4e xd ro d4e xd rx e4q tdd qdd o t rx c4i rx d4i rxd e4edd rx f4i rx g4t id xd ro d4q tdd rx c4i rx b3i rx c4edd rx d4i rxd e4i x td x rx e4e x rx b3e xd ro a3i rx g3i rxd a3edd o rx b3i rx c4e xd ro e4e xd rx d4e x rxd c4e x rx e4qdd xd rx e4o qd tdd xd rh td rhd";
pub const ALISIA_INTRO_6_0: &'static str = "rw rhdd @voice_harmony2 e5i rx a4td x rx b4i rx c5i rx a4i rx e4i o ro e5i rx a4i rx b4i rx c5i rx a4i rx e4i rx e5i rx a4i rx b4t t rx c5i rx a4i rx e4i rx e5i rx a4i rx b4i rx c5i rx a4i rx e4i rx @voice_harmony2_2 a3i o rx c4i o ro e4i rx b4o tdd rxd g4i rx e4i rx f3i rx a3i rx e4i rx a4i rx e4i rx c4i rxd g3i rx d4i rx g4i rx a4tdd o rx g4i rx d4i rx a3i rx e4i rx b4i rx a4i rx b4i rx e4i rx a3i rx c4i rx e4i rxd b4i rx g4t t rx e4i rx f3i rx a3i rx e4i rx a4i rx e4i rx c4i rx g3i rx d4i rx g4i rx a4i rx g4i rx d4x td rx a3i rx e4i rxd b4i rx a4i rx b4i o ro e4i o ro e3q tdd rxd c3e o o rx a3e x rx f3e xd ro a3e xd ro g3e xd rx d3e xd ro f3e xd ro e3t edd td rxd e3e x rx e3q tdd ro c3e xd rx a3i x e x o rx b3i o ro c4e xd ro b3e xd rx d3e x rx g3e x rxd a3idd o q i o xd rx c4edd o rx d4i rx e4e xd ro b3e t o i xd tdd rx a3i rx g3i rx a3edd rx b3i rxd c4e x rx b3e xd ro g3tdd i o xd rx f3x ro g3o rxd f3o rx e3i o ro f3edd o rx g3i o ro a3e x rxd b3e x rx a3id t x rxd b3e x rx c4qdd xd ro g3q tdd rx g3e x rx c4edd rxd d4i rx e4e x rx b3q tdd ro a3t o xd rxd g3i o ro a3edd o rx b3i o ro c4e xd rx b3e x rx g3e x rxd f3o rx g3x ro f3o rx ro e3i rx f3edd rx g3i rxd a3e xd ro as3e xd ro f3i rx a3xd rx f3xd rxd d3idd o o x rx e2e xd ro a2t o ro b2t o rx a2t o rx fs2e x rxd gs2i xd gs2o gs2td rx fs2e x ro gs2i x gs2o gs2tdd rxd e3x td o rx f3i o ro g3i rx a3i o rx b3i rx c4i o ro b3x rx c4x ro b3q o ro a3e x rxd g3td i x x rx d3e x rxd f3e x ro e3q tdd rx e3e xd ro e3i rxd f3x td rx g3i rx a3i rx b3i rx c4i rx d4edd rxd e4i rx c4e x rx b3e xd ro d3e xd rx g3e xd ro a3qddd rx f4i re rtdd f4i rid o f4i rx g4i re td g4i rid g4i rx a4i rx a4i o ri xd a4i rxd a4e xd ro g4i rx g4i o ri xd g4i rx g4e x rx f4i rx f4i rid f4tdd o o rx f4e xd ro g4i o ro g4i o rid g4i o ro g4e xd ro a4i o ro a4i o rid a4i rx a4x idd x rxd a4i rx a4i rid a4i rx a4e x rx f4i rx f4i o ri xd f4i rxd f4i i xd ro g4i rx g4i rid g4i rx g4e x rx g4i rx g4i rid o g4i rx g4idd o o x rx g4i o ro g4i o ri xd g4i rxd g4e xd ro g4e xd rx f4e xd ro g4e x rxd d4e x rx c4e x rx d4e x rxd e4h xd w edd o idd rx @voice_harmony2 e5i o ro a4i o ro b4i rx c5i rx a4i rx e4i rx e5i rx a4i rx b4xd t o rx c5i rx a4i rx e4i rx e5i rx a4i rx b4i rx c5i rx a4i rx e4i rx e5i rx a4i rx b4i rx c5o tdd rx a4i rx e4i o ro @voice_harmony2_2 a3i o rx c4i o ro e4i rx b4i rx g4i rx e4i rx f3i rx a3i rx e4i rxd a4tdd o ro e4i rx c4i o ro g3i rx d4i rxd g4i rx a4i rx g4i rx d4i rx a3i rx e4i rx b4i rxd a4i rx b4t t rx e4i rx a3i rx c4i rx e4i rxd b4i rx g4i rx e4i ro f3i rx a3i rxd e4i rx a4i rx e4i rx c4o tdd rx g3i rx d4i rx g4i rx a4i rx g4i rx d4i rx a3i rx e4i rx b4i rx a4i rx b4i rx e4i ro rx e3q tdd ro c3e xd rx a3e xd ro f3e xd rx a3e xd ro g3t id x rxd d3e x rx f3e x rxd e3q td rx e3e xd ro e3i x e td tdd rx c3e xd ro a3edd rxd b3i rx c4e x rx b3e x rx d3e x rx g3e xd rx a3qddd ro c4e td td o rx d4i rxd e4e x rx b3q tdd rx a3i rx g3i rx a3ed xd o o ro b3i rxd c4e xd ro b3e xd ro g3e xd ro f3o rxd g3o rx f3x";
pub const ALISIA_INTRO_6_1: &'static str = "rx e3i rx f3edd rx g3xd t o rx a3e x rx b3e xd rx a3e xd ro b3e xd rx c4q tdd e t o ro g3q tdd rx g3e x rxd c4edd rx d4i rx e4t id xd ro b3q tdd rx a3i rx g3i rx a3edd rx b3i rxd c4i x td x rx b3e x rx g3e xd ro f3x rx g3o rx f3o rx e3i o rx f3edd o rx g3i o ro a3e xd ro as3e xd rx f3i rx a3xd rx f3xd rxd d3e x rx e2e x rx a2t o rx b2t o rx a2t o ro fs2e xd rx gs2o tdd xd gs2o gs2tdd ro fs2e xd ro gs2i xd gs2o gs2tdd ro @voice_harmony2_3 a3i o rqddd rhd";
pub const ALISIA_INTRO_7_0: &'static str = "@voice_harmony a2w h eddd o as2xd b2t c3i rx a3e hdd e idd rx b3i rx c4i rx a3qdd x rxd c3i o ro e3i o ro a3i rxd re t a3i rx c3i rx f3i rx a3i re td a3i rxd c3i rx d3i rx g3i ri o rid o g3i rx d3i rx e3i rx a3i re td a3i rx c3i rx e3i rx a3i re o rtd a3i rx c3i rx f3i rx a3i re td a3i rx c3i rx d3i rx g3i re td g3x td rx d3i rx e3i rxd a3i rid @voice_harmony_2 a3o gs3x g3x fs3o f3x e3x ds3o d3x cs3x c3o b2x rxd a2e x rx b2i rx a2i rxd e3e o o rx f2e x rx a2i rx f2i rx c3e x rxd g2e xd ro b2i rx g2i rx d3e x rx a2t id x rxd b2i rx a2i rx e3e x rx a2e x rx b2i rx a2i rxd e3e xd ro f2i x td xd rx a2i rx f2i rx c3e xd rx g2e xd ro b2i rx g2i rxd d3e x rx a2idd o o x rxd cs3i rx a2i rx e2i o ro f2i rx c3e xd rid c3e xd ro c3i rx b2e xd rx ri x b2e x rx b2i rx a2e x rid a2e x rx a2i rxd g2e xd ri rxd g2e xd rx g2i rx f2edd o rx g2i rx a2e x rxd b2e x rx a2id t x rxd b2e x rx c3edd o ro d3i rx c3e xd ro b2e xd rx a2e x o ro b2e x rx c3e x rid o c3e x rx c3i rx b2e x rid b2idd o o xd rx b2i rx a2e xd rid a2e xd ro a2i rxd g2e x rid g2e x rx ro g2i rx f2edd rx g2i rxd a2e xd ro as2e x rx c3e xd rx d3idd o o x rx e3edd o ro a2i rx b2e x rxd gs2e x rx fs2e x ro gs2e x rxd a2x td o rx a2i rid a2e xd rx a2i rx f2i rx f2i rid o f2e x rx f2i rxd g2td x rx g2i rid g2e x rx g2i rx a2i rxd a2i rid a2e xd ro a2i rx a2i o rx a2x td rid a2e xd ro a2i rx f2i rx f2i rid o f2e x rx f2i rx g2i rx g2i ro rid g2e xd ro g2i rx a2i rxd a2i rid a2i rxd b2i o ro cs3i rx d3i rxd d3i rt o rtdd d3i rx d3e x rxd e3i rx e3i rid e3i rx e3e x rx f3i rx f3i rid f3i rxd f3e xd ro g3i rx g3i rid g3i rx g3e x rx as3i rx c4i rxd d4i ro c4tdd o rxd as3i rx d4i rx c4i rx g3i rx e3i rxd f3i rx g3i rx e3i rx d3i rx e3i rxd fs3i rx e3i rx fs3x td rxd a3i rx d4q td rx a3e x rx as3e x rx f3e xd rx d3i i xd ro g3e x rx e3e xd ro c3e x rxd g3e x rx d3e x rx b2idd o o x rx d3e xd ro g3e xd rx d3e xd ro g3e xd rx a3e xd ro d4e x rxd b3e x rx a3e x rx g3e x rxd a3h xd w edd o idd rx @voice_harmony a3h e xd q id o eddd rx b3i rx c4i rx a3eddd o ed o xd rx c3i o ro e3i o ro a3i re td a3i rx c3i rx f3i rx a3i ri x rid a3i rx c3i rxd d3i rx g3i re td g3i rx d3i rx e3i rx a3i re o rtd a3i rx c3i rx e3i rx a3i re tdd a3i ro c3i rx f3i rxd a3i re td a3o tdd rx c3i rx d3i rx g3i re td g3i rx d3i rx e3i rx a3i rid o @voice_harmony_2 a3o gs3o g3x fs3x f3o e3x ds3o d3o cs3x c3x b2o rx rx a2e x rx b2i rx a2i rx e3e xd rx f2e xd ro a2i rxd f2i rx c3e xd ro g2t id x rxd b2i rx g2i rx d3e x rxd a2e x rx b2i rx a2i rx e3e x rx a2i x td xd ro b2i rxd a2i rx e3e xd ro f2e xd ro a2i rxd f2i rx c3e x rx g2e x rx b2i rx g2i rx d3e xd rx a2e xd ro cs3i rx a2i rxd e2i o ro f2i rxd c3e xd rx ri o c3e x rxd c3i rx b2e x rid o b2e x rx b2i rx a2e xd ri rxd a2e xd rx a2i rx g2e x rid g2e xd rx g2i rx f2edd rx g2xd t o rx a2e x rx b2e xd rx a2e xd ro b2e x rxd c3edd o ro d3i ro rx c3e xd ro b2e x rxd a2e x rx b2e x rxd c3e x rid c3idd x xd ro c3i rx b2e xd rid b2e xd ro b2i rx a2e x rid a2e x rxd a2i rx g2e x rid g2e xd rx g2i";
pub const ALISIA_INTRO_7_1: &'static str = "rx f2edd o rx g2i rx a2e xd rx as2e xd ro c3e x rxd d3e x rx e3edd rxd a2i ro b2e xd rx gs2o idd o x rx fs2e xd ro gs2e x rxd @voice_harmony_3 a2i o rqdd xd rhd";
pub const ALISIA_INTRO_8_0: &'static str = "@voice_bass ~approx+timbre e0o f0xd fs0xd g0xd gs0x %1 a0t as0t b0t c1x %1 cs1t o d1t o ds1xd ds1x e1td f1td fs1o fs1t o g1tdd gs1t c_1i o cs_1o d_1o e_1o f_1o fs_1o gs_1o a_1o as_1o b_1o c0o cs0t d0o ds0o e0x f0o fs0x g0o gs0o %1 a0x as0x b0x c1x cs1xd d1x ds1x ds1o e1xd f1x o fs1xd g1xd gs1x %1 a1xd as1t b1t c2x c2xd cs2t o d2t o ds2xd ds2x e2td f2td fs2o fs2t o g2td gs2t c_1t o d_1o f_1o g_1o a_1o b_1o cs0o ds0o e0o fs0o g0o gs0o a0o as0o b0o c1o cs1o d1o ds1x e1o f1x fs1o g1x gs1o %1 a1x as1x b1x c2o re xd rw rhd @voice_bass_2 c3i o rx op2_tl=#41300000,op4_tl=#41300000 c3i o ro c3i o ro @voice_bass_3 d3o tdd rx @voice_bass_4 c3i rxd c3i o ro op2_tl=#40E00000,op4_tl=#40E00000 c3i o ro op2_tl=#41300000,op4_tl=#41300000 c3i o ro @voice_bass_5 b2o as2o a2o gs2o fs2o f2o ds2o d2o c2o ro @voice_bass_4 c3i rx op2_tl=#40E00000,op4_tl=#40E00000 c3i rx op2_tl=#41300000,op4_tl=#41300000 c3i rxd op2_tl=#40E00000,op4_tl=#40E00000 c3i rx op2_tl=#41300000,op4_tl=#41300000 c3i rx c3i rx @voice_bass_3 d3tdd o rx @voice_bass_4 c3i rx c3i rx op2_tl=#40E00000,op4_tl=#40E00000 c3i rx op2_tl=#41300000,op4_tl=#41300000 c3i rx @voice_bass_5 c3o b2o as2o a2o gs2o fs2o f2o ds2o d2o ro @voice_bass_4 c3i rx op2_tl=#40E00000,op4_tl=#40E00000 c3i rx op2_tl=#41300000,op4_tl=#41300000 c3i rx op2_tl=#40E00000,op4_tl=#40E00000 c3i o ro op2_tl=#41300000,op4_tl=#41300000 c3i rx c3i rxd @voice_bass_3 d3i rx @voice_bass_4 c3t t rx c3i rx op2_tl=#40E00000,op4_tl=#40E00000 c3i rx op2_tl=#41300000,op4_tl=#41300000 c3i rx @voice_bass_5 c3o b2o as2o a2o gs2o fs2o f2o ds2o d2o ro @voice_bass_4 c3i rx op2_tl=#40E00000,op4_tl=#40E00000 c3i rx op2_tl=#41300000,op4_tl=#41300000 c3i rx op2_tl=#40E00000,op4_tl=#40E00000 c3i o ro op2_tl=#41300000,op4_tl=#41300000 c3i o ro c3i o ro @voice_bass_6 c3i rx @voice_bass_4 c3i rx c3x td o ro op2_tl=#40E00000,op4_tl=#40E00000 c3i o ro op2_tl=#41300000,op4_tl=#41300000 c3i o rx @voice_bass_7 b2o as2o a2o gs2o fs2o f2o ds2o d2o c2o ro b2o as2o a2o gs2o fs2o f2o ds2o d2o c2o ro e2o ds2o d2o cs2o b1o as1o gs1o g1o f1o ro b1o as1o a1o gs1o fs1o f1o ds1o d1o c1o ro @voice_bass_8 b1o as1o a1o gs1o fs1o f1o ds1o d1o rxd @voice_bass_4 c3i rx @voice_bass_8 b1o as1o a1o gs1o fs1o f1o ds1o d1o rx @voice_bass_7 b2o as2o a2o gs2o fs2o f2o ds2o d2o rxd @voice_bass_6 c3i rx @voice_bass_7 b2o as2o a2o gs2o fs2o f2o ds2o d2o rx @voice_bass_8 b1o as1o a1o gs1o fs1o f1o ds1o d1o rx @voice_bass_4 c3i rx @voice_bass_7 c3o b2o as2o a2o gs2o fs2o f2o ds2o d2o ro @voice_bass_4 c3i rx c3i rx @voice_bass_6 c3i rx @voice_bass_8 c2o b1o as1o a1o gs1o fs1o f1o ds1o d1o rx @voice_bass_4 c3i rx @voice_bass_8 c2o b1o as1o a1o gs1o fs1o f1o ds1o d1o ro @voice_bass_7 c3o b2o as2o a2o gs2o fs2o f2o ds2o d2o ro @voice_bass_6 c3i rx @voice_bass_7 c3o b2o as2o a2o gs2o fs2o f2o ds2o d2o ro @voice_bass_8 c2o b1o as1o a1o gs1o fs1o f1o ds1o d1o rx @voice_bass_4 c3i rx @voice_bass_7 c3o b2o as2o a2o gs2o fs2o f2o ds2o d2o ro @voice_bass_4 c3i rx c3i rx @voice_bass_6 c3i rx @voice_bass_8 c2o";
pub const ALISIA_INTRO_8_1: &'static str = "b1o as1o a1o gs1o fs1o f1o ds1o d1o ro @voice_bass_4 c3i rx @voice_bass_8 b1o as1o a1o gs1o fs1o f1o ds1o d1o c1o ro @voice_bass_7 b2o as2o a2o gs2o fs2o f2o ds2o d2o c2o ro @voice_bass_6 c3i o rx @voice_bass_7 b2o as2o a2o gs2o fs2o f2o ds2o d2o c2o ro @voice_bass_8 b1o as1o a1o gs1o fs1o f1o ds1o d1o c1o ro @voice_bass_4 c3i rxd @voice_bass_7 b2o as2o a2o gs2o fs2o f2o ds2o d2o c2o ro @voice_bass_4 c3i o ro c3i o ro @voice_bass_6 c3i rx @voice_bass_8 b1o as1o a1o gs1o fs1o f1o ds1o d1o c1o rx @voice_bass_4 c3i rx @voice_bass_8 b1o as1o a1o gs1o fs1o f1o ds1o d1o rx @voice_bass_7 b2o as2o a2o gs2o fs2o f2o ds2o d2o rx @voice_bass_6 c3i rxd @voice_bass_7 b2o as2o a2o gs2o fs2o f2o ds2o d2o rx @voice_bass_8 b1o as1o a1o gs1o fs1o f1o ds1o d1o rx @voice_bass_4 c3t o xd rx @voice_bass_7 b2o as2o a2o gs2o fs2o f2o ds2o d2o rxd @voice_bass_4 c3i ro c3i o rx @voice_bass_6 c3i rx @voice_bass_8 c2o b1o as1o a1o gs1o fs1o f1o ds1o d1o ro @voice_bass_6 c3i rx @voice_bass_8 c2o b1o as1o a1o gs1o fs1o f1o ds1o d1o rx @voice_bass_7 c3o b2o as2o a2o gs2o fs2o f2o ds2o d2o ro @voice_bass_6 c3i rx @voice_bass_7 c3o b2o as2o a2o gs2o fs2o f2o ds2o d2o ro @voice_bass_8 c2o b1o as1o a1o gs1o fs1o f1o ds1o d1o ro @voice_bass_6 c3i rx @voice_bass_7 c3o b2o as2o a2o gs2o fs2o f2o ds2o d2o rx @voice_bass_8 c2o b1o as1o a1o gs1o fs1o f1o ds1o d1o ro @voice_bass_7 c3o b2o as2o a2o gs2o fs2o f2o ds2o d2o ro c3o b2o as2o a2o gs2o fs2o f2o ds2o d2o ro @voice_bass_8 c2o b1o as1o a1o gs1o fs1o f1o ds1o d1o ro @voice_bass_6 c3i rx @voice_bass_8 c2o b1o as1o a1o gs1o fs1o f1o ds1o d1o ro @voice_bass_7 c3o b2o as2o a2o gs2o fs2o f2o ds2o d2o rx @voice_bass_6 c3i ro @voice_bass_7 b2o as2o a2o gs2o fs2o f2o ds2o d2o c2o ro @voice_bass_8 b1o as1o a1o gs1o fs1o f1o ds1o d1o c1o rx @voice_bass_6 c3i rx @voice_bass_7 b2o as2o a2o gs2o fs2o f2o ds2o d2o c2o ro @voice_bass_8 b1o as1o a1o gs1o fs1o f1o ds1o d1o c1o rx @voice_bass_7 b2o as2o a2o gs2o fs2o f2o ds2o d2o c2o ro b2o as2o a2o gs2o fs2o f2o ds2o d2o c2o ro @voice_bass_8 b1o as1o a1o gs1o fs1o f1o ds1o d1o c1o ro @voice_bass_6 c3i rxd @voice_bass_8 b1o as1o a1o gs1o fs1o f1o ds1o d1o c1o ro @voice_bass_7 b2o as2o a2o gs2o fs2o f2o ds2o d2o c2o ro @voice_bass_6 c3i o ro @voice_bass_7 b2o as2o a2o gs2o fs2o f2o ds2o d2o rxd @voice_bass_8 b1o as1o a1o gs1o fs1o f1o ds1o d1o rx @voice_bass_6 c3i rx @voice_bass_7 b2o as2o a2o gs2o fs2o f2o ds2o d2o rxd @voice_bass_8 b1o as1o a1o gs1o fs1o f1o ds1o d1o rx @voice_bass_7 b2o as2o a2o gs2o fs2o f2o ds2o d2o rx b2o as2o a2o gs2o fs2o f2o ds2o d2o rx @voice_bass_8 c2o b1o as1o a1o gs1o fs1o f1o ds1o d1o ro @voice_bass_6 c3i rx @voice_bass_8 c2o b1o as1o a1o gs1o fs1o f1o ds1o d1o ro @voice_bass_7 c3o b2o as2o a2o gs2o fs2o f2o ds2o d2o ro @voice_bass_6 c3i rx @voice_bass_7 c3o b2o as2o a2o gs2o fs2o f2o ds2o d2o ro @voice_bass_8 c2o b1o as1o a1o gs1o fs1o f1o ds1o d1o ro @voice_bass_6 c3i rxd @voice_bass_7 c3o b2o as2o a2o gs2o fs2o f2o ds2o d2o ro @voice_bass_8 c2o b1o as1o a1o gs1o fs1o";
pub const ALISIA_INTRO_8_2: &'static str = "f1o ds1o d1o ro @voice_bass_7 c3o b2o as2o a2o gs2o fs2o f2o ds2o d2o ro c3o b2o as2o a2o gs2o fs2o f2o ds2o d2o ro @voice_bass_8 c2o b1o as1o a1o gs1o fs1o f1o ds1o d1o ro @voice_bass_6 c3i rx @voice_bass_8 c2o b1o as1o a1o gs1o fs1o f1o ds1o d1o rx @voice_bass_7 c3o b2o as2o a2o gs2o fs2o f2o ds2o d2o ro @voice_bass_6 c3i rx @voice_bass_7 c3o b2o as2o a2o gs2o fs2o f2o ds2o d2o ro @voice_bass_8 c2o b1o as1o a1o gs1o fs1o f1o ds1o d1o ro @voice_bass_6 c3i rx @voice_bass_7 b2o as2o a2o gs2o fs2o f2o ds2o d2o c2o ro @voice_bass_8 b1o as1o a1o gs1o fs1o f1o ds1o d1o c1o ro @voice_bass_7 b2o as2o a2o gs2o fs2o f2o ds2o d2o c2o rx b2o as2o a2o gs2o fs2o f2o ds2o d2o c2o ro @voice_bass_8 b1o as1o a1o gs1o fs1o f1o ds1o d1o c1o ro @voice_bass_6 c3i rx @voice_bass_8 b1o as1o a1o gs1o fs1o f1o ds1o d1o c1o rx @voice_bass_7 b2o as2o a2o gs2o fs2o f2o ds2o d2o c2o ro @voice_bass_6 c3i o ro @voice_bass_7 b2o as2o a2o gs2o fs2o f2o ds2o d2o c2o ro @voice_bass_8 b1o as1o a1o gs1o fs1o f1o ds1o d1o c1o rx @voice_bass_6 c3i rx @voice_bass_7 b2o as2o a2o gs2o fs2o f2o ds2o d2o rx @voice_bass_8 b1o as1o a1o gs1o fs1o f1o ds1o d1o rxd @voice_bass_7 b2o as2o a2o gs2o fs2o f2o ds2o d2o ro ro b2o as2o a2o gs2o fs2o f2o ds2o d2o rx @voice_bass_8 b1o as1o a1o gs1o fs1o f1o ds1o d1o rx @voice_bass_6 c3i rxd @voice_bass_8 b1o as1o a1o gs1o fs1o f1o ds1o d1o ro @voice_bass_7 c3o b2o as2o a2o gs2o fs2o f2o ds2o d2o ro @voice_bass_6 c3i o rx @voice_bass_7 c3o b2o as2o a2o gs2o fs2o f2o ds2o d2o ro @voice_bass_8 c2o b1o as1o a1o gs1o fs1o f1o ds1o d1o ro @voice_bass_6 c3i rx @voice_bass_7 c3o b2o as2o a2o gs2o fs2o f2o ds2o d2o ro @voice_bass_8 c2o b1o as1o a1o gs1o fs1o f1o ds1o d1o rx @voice_bass_7 c3o b2o as2o a2o gs2o fs2o f2o ds2o d2o ro c3o b2o as2o a2o gs2o fs2o f2o ds2o d2o ro @voice_bass_8 c2o b1o as1o a1o gs1o fs1o f1o ds1o d1o ro @voice_bass_6 c3i rx @voice_bass_8 c2o b1o as1o a1o gs1o fs1o f1o ds1o d1o ro @voice_bass_7 c3o b2o as2o a2o gs2o fs2o f2o ds2o d2o ro @voice_bass_6 c3i rx @voice_bass_7 b2o as2o a2o gs2o g2o f2o e2o d2o cs2o rx @voice_bass_8 c2o b1o as1o a1o gs1o fs1o f1o ds1o d1o ro @voice_bass_6 c3i rx c3i rx @voice_bass_7 b2o as2o a2o gs2o g2o f2o e2o d2o cs2o as2o a2o gs2o g2o f2o e2o d2o cs2o b1o ro gs2o g2o fs2o f2o ds2o d2o cs2o b1o a1o rx @voice_bass_8 b1o as1o a1o gs1o fs1o f1o ds1o d1o c1o rx @voice_bass_4 c3i o ro c3i o ro @voice_bass_7 b2o as2o a2o gs2o fs2o f2o ds2o d2o c2o ro @voice_bass_4 c3i rxd @voice_bass_8 b1o as1o a1o gs1o fs1o f1o ds1o d1o c1o ro b1o as1o a1o gs1o fs1o f1o ds1o d1o c1o ro @voice_bass_4 c3i o ro @voice_bass_7 b2o as2o a2o gs2o fs2o f2o ds2o d2o c2o rx @voice_bass_4 c3i o ro @voice_bass_7 b2o as2o a2o gs2o fs2o f2o ds2o d2o rx @voice_bass_8 b1o as1o a1o gs1o fs1o f1o ds1o d1o rxd b1o as1o a1o gs1o fs1o f1o ds1o d1o rx @voice_bass_4 c3i rx c3i rx @voice_bass_7 b2o as2o a2o gs2o fs2o f2o ds2o d2o rxd @voice_bass_4 c3i ro @voice_bass_8 c2o b1o as1o a1o gs1o fs1o f1o ds1o d1o ro c2o b1o as1o a1o gs1o fs1o f1o ds1o d1o rx";
pub const ALISIA_INTRO_8_3: &'static str = "@voice_bass_4 c3i rx @voice_bass_7 c3o b2o as2o a2o gs2o fs2o f2o ds2o d2o ro @voice_bass_4 c3i rx @voice_bass_7 c3o b2o as2o a2o gs2o fs2o f2o ds2o d2o ro @voice_bass_8 c2o b1o as1o a1o gs1o fs1o f1o ds1o d1o ro c2o b1o as1o a1o gs1o fs1o f1o ds1o d1o rx @voice_bass_4 c3x td rx c3i rx @voice_bass_7 c3o b2o as2o a2o gs2o fs2o f2o ds2o d2o ro @voice_bass_4 c3i rx @voice_bass_8 c2o b1o as1o a1o gs1o fs1o f1o ds1o d1o ro c2o b1o as1o a1o gs1o fs1o f1o ds1o d1o ro @voice_bass_4 c3i rxd @voice_bass_7 c3o b2o as2o a2o gs2o fs2o f2o ds2o d2o ro @voice_bass_4 c3i rx @voice_bass_7 c3o b2o as2o a2o gs2o fs2o f2o ds2o d2o ro @voice_bass_8 c2o b1o as1o a1o gs1o fs1o f1o ds1o d1o ro b1o as1o a1o gs1o fs1o f1o ds1o d1o c1o ro @voice_bass_4 c3i o ro c3i o rx @voice_bass_7 b2o as2o a2o gs2o fs2o f2o ds2o d2o c2o ro @voice_bass_4 c3i rx @voice_bass_8 b1o as1o a1o gs1o fs1o f1o ds1o d1o c1o ro b1o as1o a1o gs1o fs1o f1o ds1o d1o c1o ro @voice_bass_4 c3i o rx @voice_bass_7 b2o as2o a2o gs2o fs2o f2o ds2o d2o c2o ro @voice_bass_4 c3i o ro @voice_bass_7 b2o as2o a2o gs2o fs2o f2o ds2o d2o c2o rx @voice_bass_8 b1o as1o a1o gs1o fs1o f1o ds1o d1o c1o ro b1o as1o a1o gs1o fs1o f1o ds1o d1o rx b1o as1o a1o gs1o fs1o f1o ds1o d1o rxd @voice_bass_6 c1xd t o rx @voice_bass_7 b2o as2o a2o gs2o fs2o f2o ds2o d2o rx @voice_bass_6 g1i rxd @voice_bass_8 b1o as1o a1o gs1o fs1o f1o ds1o d1o rx b1o as1o a1o gs1o fs1o f1o ds1o d1o rx b1o as1o a1o gs1o fs1o f1o ds1o d1o rx @voice_bass_6 f1i rx @voice_bass_7 c3o b2o as2o a2o gs2o fs2o f2o ds2o d2o ro op2_tl=#41300000,op4_tl=#41700000 f2o e2o ds2o d2o cs2o b1o as1o gs1o g1o ro d2o cs2o c2o b1o as1o gs1o g1o fs1o e1o ro @voice_bass_8 c2o b1o as1o a1o gs1o fs1o f1o ds1o d1o ro c2o b1o as1o a1o gs1o fs1o f1o ds1o d1o ro @voice_bass_6 c1i rx @voice_bass_7 c3o b2o as2o a2o gs2o fs2o f2o ds2o d2o rx @voice_bass_6 g1i rx @voice_bass_8 c2o b1o as1o a1o gs1o fs1o f1o ds1o d1o ro c2o b1o as1o a1o gs1o fs1o f1o ds1o d1o ro c2o b1o as1o a1o gs1o fs1o f1o ds1o d1o ro @voice_bass_6 f1i rx @voice_bass_7 c3o b2o as2o a2o gs2o fs2o f2o ds2o d2o ro op2_tl=#41300000,op4_tl=#41700000 f2o e2o ds2o d2o cs2o b1o as1o gs1o g1o ro d2o cs2o c2o b1o as1o gs1o g1o fs1o e1o ro @voice_bass_8 c2o b1o as1o a1o gs1o fs1o f1o ds1o d1o ro c2o b1o as1o a1o gs1o fs1o f1o ds1o d1o ro @voice_bass_6 c1i rx @voice_bass_7 b2o as2o a2o gs2o fs2o f2o ds2o d2o c2o rx @voice_bass_6 g1i o ro @voice_bass_8 b1o as1o a1o gs1o fs1o f1o ds1o d1o c1o ro b1o as1o a1o gs1o fs1o f1o ds1o d1o c1o ro b1o as1o a1o gs1o fs1o f1o ds1o d1o c1o ro @voice_bass_6 f1i o rx @voice_bass_7 b2o as2o a2o gs2o fs2o f2o ds2o d2o c2o ro op2_tl=#41300000,op4_tl=#41700000 e2o ds2o d2o cs2o b1o as1o gs1o g1o f1o ro cs2o c2o b1o as1o gs1o g1o fs1o e1o d1o ro @voice_bass_8 b1o as1o a1o gs1o fs1o f1o ds1o d1o c1o ro b1o as1o a1o gs1o fs1o f1o ds1o d1o c1o rx @voice_bass_6 c1i o ro @voice_bass_7 b2o as2o a2o gs2o fs2o f2o ds2o d2o rx @voice_bass_6 g1x td rx @voice_bass_8 b1o as1o a1o gs1o fs1o f1o ds1o d1o rxd";
pub const ALISIA_INTRO_8_4: &'static str = "@voice_bass_4 c1i rx c1i rx @voice_bass_7 b2o as2o a2o gs2o fs2o f2o ds2o d2o rx b2o as2o a2o gs2o fs2o f2o ds2o d2o rx op2_tl=#41300000,op4_tl=#41700000 f2o e2o ds2o d2o cs2o b1o as1o gs1o g1o ro d2o cs2o c2o b1o as1o gs1o g1o fs1o e1o ro @voice_bass_8 c2o b1o as1o a1o gs1o fs1o f1o ds1o d1o ro c2o b1o as1o a1o gs1o fs1o f1o ds1o d1o ro @voice_bass_6 c1i rx @voice_bass_7 c3o b2o as2o a2o gs2o fs2o f2o ds2o d2o rx @voice_bass_6 g1i rx @voice_bass_8 c2o b1o as1o a1o gs1o fs1o f1o ds1o d1o ro c2o b1o as1o a1o gs1o fs1o f1o ds1o d1o ro c2o b1o as1o a1o gs1o fs1o f1o ds1o d1o ro @voice_bass_6 f1i rx @voice_bass_7 c3o b2o as2o a2o gs2o fs2o f2o ds2o d2o ro op2_tl=#41300000,op4_tl=#41700000 f2o e2o ds2o d2o cs2o b1o as1o gs1o g1o ro d2o cs2o c2o b1o as1o gs1o g1o fs1o e1o ro @voice_bass_8 c2o b1o as1o a1o gs1o fs1o f1o ds1o d1o ro c2o b1o as1o a1o gs1o fs1o f1o ds1o d1o rx @voice_bass_6 c1i rx @voice_bass_7 c3o b2o as2o a2o gs2o fs2o f2o ds2o d2o ro @voice_bass_6 g1i rx @voice_bass_8 b1o as1o a1o gs1o fs1o f1o ds1o d1o c1o ro b1o as1o a1o gs1o fs1o f1o ds1o d1o c1o ro b1o as1o a1o gs1o fs1o f1o ds1o d1o c1o ro @voice_bass_6 f1i o ro @voice_bass_7 b2o as2o a2o gs2o fs2o f2o ds2o d2o c2o rx op2_tl=#41300000,op4_tl=#41700000 e2o ds2o d2o cs2o b1o as1o gs1o g1o f1o ro cs2o c2o b1o as1o gs1o g1o fs1o e1o d1o ro @voice_bass_8 b1o as1o a1o gs1o fs1o f1o ds1o d1o c1o ro @voice_bass_6 c3i rx @voice_bass_8 b1o as1o a1o gs1o fs1o f1o ds1o d1o c1o rx @voice_bass_7 b2o as2o a2o gs2o fs2o f2o ds2o d2o c2o ro @voice_bass_6 c3i o ro @voice_bass_7 b2o as2o a2o gs2o fs2o f2o ds2o d2o rxd @voice_bass_8 b1o as1o a1o gs1o fs1o f1o ds1o d1o rx @voice_bass_7 b2o as2o a2o gs2o fs2o f2o ds2o d2o rx b2o as2o a2o gs2o fs2o f2o ds2o d2o rx cs2o c2o b1o as1o gs1o g1o fs1o e1o rid b1o as1o a1o gs1o fs1o f1o ds1o d1o rx op2_tl=#41300000,op4_tl=#41700000 b2o as2o a2o gs2o fs2o f2o ds2o d2o c2o as1o gs1o f1o d1o as0o f0o a_1o c_1o gs3o rx op2_tl=#41700000,op4_tl=#41980000 c3o b2o as2o a2o gs2o fs2o f2o ds2o d2o c2o as1o gs1o f1o d1o as0o f0o a_1o c_1o gs3o ro op2_tl=#41980000,op4_tl=#41B80000 c3o b2o as2o a2o gs2o fs2o f2o ds2o d2o c2o as1o gs1o f1o d1o as0o f0o a_1o c_1o gs3o ro op2_tl=#41B80000,op4_tl=#41D80000 c3o b2o as2o a2o gs2o fs2o f2o ds2o d2o c2o as1o gs1o f1o d1o as0o f0o a_1o c_1o gs3o ro op2_tl=#41D80000,op4_tl=#41F80000 c3o b2o as2o a2o gs2o fs2o f2o ds2o d2o c2o as1o gs1o f1o d1o as0o f0o a_1o c_1o gs3o ro op2_tl=#41F80000,op4_tl=#420C0000 c3o b2o as2o a2o gs2o fs2o f2o ds2o d2o c2o as1o gs1o f1o d1o as0o f0o a_1o c_1o gs3o rh id o rw rw redd o @voice_bass_2 c3i o rx op2_tl=#41300000,op4_tl=#41300000 c3i o ro c3i rx @voice_bass_3 d3i rx @voice_bass_4 c3i rx c3i rx op2_tl=#40E00000,op4_tl=#40E00000 c3i rx op2_tl=#41300000,op4_tl=#41300000 c3i rx @voice_bass_5 c3o b2o as2o a2o gs2o fs2o f2o ds2o d2o ro @voice_bass_4 c3i rx op2_tl=#40E00000,op4_tl=#40E00000 c3i o ro op2_tl=#41300000,op4_tl=#41300000 c3i o ro op2_tl=#40E00000,op4_tl=#40E00000 c3i o ro";
pub const ALISIA_INTRO_8_5: &'static str = "op2_tl=#41300000,op4_tl=#41300000 c3i o rx c3i o ro @voice_bass_3 d3i rx @voice_bass_4 c3i rx c3i o ro op2_tl=#40E00000,op4_tl=#40E00000 c3i o ro op2_tl=#41300000,op4_tl=#41300000 c3i o ro @voice_bass_5 b2o as2o a2o gs2o fs2o f2o ds2o d2o c2o rx @voice_bass_4 c3i rx op2_tl=#40E00000,op4_tl=#40E00000 c3t t rx op2_tl=#41300000,op4_tl=#41300000 c3i rx op2_tl=#40E00000,op4_tl=#40E00000 c3i rx op2_tl=#41300000,op4_tl=#41300000 c3i rx c3i rxd @voice_bass_3 d3i rx @voice_bass_4 c3i rx c3i ro op2_tl=#40E00000,op4_tl=#40E00000 c3i rx op2_tl=#41300000,op4_tl=#41300000 c3i rxd @voice_bass_5 c3o b2o as2o a2o gs2o fs2o f2o ds2o d2o ro @voice_bass_4 c3i rx op2_tl=#40E00000,op4_tl=#40E00000 c3i rx op2_tl=#41300000,op4_tl=#41300000 c3o tdd rx op2_tl=#40E00000,op4_tl=#40E00000 c3i rx op2_tl=#41300000,op4_tl=#41300000 c3i rx c3i rx @voice_bass_6 c3i rx @voice_bass_4 c3i rx c3i rx op2_tl=#40E00000,op4_tl=#40E00000 c3i rx op2_tl=#41300000,op4_tl=#41300000 c3i rx @voice_bass_7 c3o b2o as2o a2o gs2o fs2o f2o ds2o d2o ro c3o b2o as2o a2o gs2o fs2o f2o ds2o d2o ro f2o e2o ds2o d2o cs2o b1o as1o gs1o g1o ro c2o b1o as1o a1o gs1o fs1o f1o ds1o d1o rx @voice_bass_8 c2o b1o as1o a1o gs1o fs1o f1o ds1o d1o @voice_bass_4 c3i o rx @voice_bass_8 b1o as1o a1o gs1o fs1o f1o ds1o d1o c1o ro @voice_bass_7 b2o as2o a2o gs2o fs2o f2o ds2o d2o c2o ro @voice_bass_6 c3i o rx @voice_bass_7 b2o as2o a2o gs2o fs2o f2o ds2o d2o c2o ro @voice_bass_8 b1o as1o a1o gs1o fs1o f1o ds1o d1o c1o ro @voice_bass_4 c3i rx @voice_bass_7 b2o as2o a2o gs2o fs2o f2o ds2o d2o c2o rx @voice_bass_4 c3i rx c3i o ro @voice_bass_6 c3i rx @voice_bass_8 b1o as1o a1o gs1o fs1o f1o ds1o d1o c1o ro @voice_bass_4 c3i rxd @voice_bass_8 b1o as1o a1o gs1o fs1o f1o ds1o d1o rx @voice_bass_7 b2o as2o a2o gs2o fs2o f2o ds2o d2o rx @voice_bass_6 c3i rx @voice_bass_7 b2o as2o a2o gs2o fs2o f2o ds2o d2o rxd @voice_bass_8 b1o as1o a1o gs1o fs1o f1o ds1o d1o rx @voice_bass_4 c3i rx @voice_bass_7 c3o b2o as2o a2o gs2o fs2o f2o ds2o d2o ro @voice_bass_4 c3i rx c3i rx @voice_bass_6 c3i rx @voice_bass_8 c2o b1o as1o a1o gs1o fs1o f1o ds1o d1o ro @voice_bass_4 c3i rx @voice_bass_8 c2o b1o as1o a1o gs1o fs1o f1o ds1o d1o rx @voice_bass_7 c3o b2o as2o a2o gs2o fs2o f2o ds2o d2o ro @voice_bass_6 c3i rx @voice_bass_7 c3o b2o as2o a2o gs2o fs2o f2o ds2o d2o ro @voice_bass_8 c2o b1o as1o a1o gs1o fs1o f1o ds1o d1o ro @voice_bass_4 c3i rx @voice_bass_7 c3o b2o as2o a2o gs2o fs2o f2o ds2o d2o ro @voice_bass_4 c3i rx c3i rxd @voice_bass_6 c3i rx @voice_bass_8 c2o b1o as1o a1o gs1o fs1o f1o ds1o d1o ro @voice_bass_4 c3td x rx @voice_bass_8 c2o b1o as1o a1o gs1o fs1o f1o ds1o d1o ro @voice_bass_7 b2o as2o a2o gs2o fs2o f2o ds2o d2o c2o ro @voice_bass_6 c3i o ro @voice_bass_7 b2o as2o a2o gs2o fs2o f2o ds2o d2o c2o rx @voice_bass_8 b1o as1o a1o gs1o fs1o f1o ds1o d1o c1o ro @voice_bass_4 c3i rx @voice_bass_7 b2o as2o a2o gs2o fs2o f2o ds2o d2o c2o ro @voice_bass_4 c3i o rx c3i o ro @voice_bass_6 c3i o ro @voice_bass_8 b1o as1o a1o gs1o fs1o f1o";
pub const ALISIA_INTRO_8_6: &'static str = "ds1o d1o c1o rx @voice_bass_6 c3i rx @voice_bass_8 b1o as1o a1o gs1o fs1o f1o ds1o d1o c1o ro @voice_bass_7 b2o as2o a2o gs2o fs2o f2o ds2o d2o rx @voice_bass_6 c3i rxd @voice_bass_7 b2o as2o a2o gs2o fs2o f2o ds2o d2o rx @voice_bass_8 b1o as1o a1o gs1o fs1o f1o ds1o d1o rx @voice_bass_6 c3i rx @voice_bass_7 b2o as2o a2o gs2o fs2o f2o ds2o d2o rxd @voice_bass_8 b1o as1o a1o gs1o fs1o f1o ds1o d1o rx @voice_bass_7 b2o as2o a2o gs2o fs2o f2o ds2o d2o rx c3o b2o as2o a2o gs2o fs2o f2o ds2o d2o ro @voice_bass_8 c2o b1o as1o a1o gs1o fs1o f1o ds1o d1o ro @voice_bass_6 c3i rx @voice_bass_8 c2o b1o as1o a1o gs1o fs1o f1o ds1o d1o ro @voice_bass_7 c3o b2o as2o a2o gs2o fs2o f2o ds2o d2o ro @voice_bass_6 c3i rxd @voice_bass_7 c3o b2o as2o a2o gs2o fs2o f2o ds2o d2o ro @voice_bass_8 c2o b1o as1o a1o gs1o fs1o f1o ds1o d1o ro @voice_bass_6 c3i rx @voice_bass_7 c3o b2o as2o a2o gs2o fs2o f2o ds2o d2o ro @voice_bass_8 c2o b1o as1o a1o gs1o fs1o f1o ds1o d1o ro @voice_bass_7 c3o b2o as2o a2o gs2o fs2o f2o ds2o d2o ro c3o b2o as2o a2o gs2o fs2o f2o ds2o d2o rx @voice_bass_8 c2o b1o as1o a1o gs1o fs1o f1o ds1o d1o ro @voice_bass_6 c3i rx @voice_bass_8 c2o b1o as1o a1o gs1o fs1o f1o ds1o d1o ro @voice_bass_7 c3o b2o as2o a2o gs2o fs2o f2o ds2o d2o ro @voice_bass_6 c3i rxd @voice_bass_7 c3o b2o as2o a2o gs2o fs2o f2o ds2o d2o @voice_bass_8 b1o as1o a1o gs1o fs1o f1o ds1o d1o c1o ro @voice_bass_6 c3i rxd @voice_bass_7 b2o as2o a2o gs2o fs2o f2o ds2o d2o c2o ro @voice_bass_8 b1o as1o a1o gs1o fs1o f1o ds1o d1o c1o ro @voice_bass_7 b2o as2o a2o gs2o fs2o f2o ds2o d2o c2o ro b2o as2o a2o gs2o fs2o f2o ds2o d2o c2o rx @voice_bass_8 b1o as1o a1o gs1o fs1o f1o ds1o d1o c1o ro @voice_bass_6 c3i rx @voice_bass_8 b1o as1o a1o gs1o fs1o f1o ds1o d1o c1o ro @voice_bass_7 b2o as2o a2o gs2o fs2o f2o ds2o d2o c2o rx @voice_bass_6 c3i o ro @voice_bass_7 b2o as2o a2o gs2o fs2o f2o ds2o d2o c2o ro @voice_bass_8 b1o as1o a1o gs1o fs1o f1o ds1o d1o rx @voice_bass_6 c3i rxd @voice_bass_7 b2o as2o a2o gs2o fs2o f2o ds2o d2o rx @voice_bass_8 b1o as1o a1o gs1o fs1o f1o ds1o d1o rx @voice_bass_7 b2o as2o a2o gs2o fs2o f2o ds2o d2o rx b2o as2o a2o gs2o fs2o f2o ds2o d2o rxd @voice_bass_8 b1o as1o a1o gs1o fs1o f1o ds1o d1o ro @voice_bass_6 c3i rx @voice_bass_8 c2o b1o as1o a1o gs1o fs1o f1o ds1o d1o rx @voice_bass_7 c3o b2o as2o a2o gs2o fs2o f2o ds2o d2o ro @voice_bass_6 c3t t rx @voice_bass_7 c3o b2o as2o a2o gs2o fs2o f2o ds2o d2o ro @voice_bass_8 c2o b1o as1o a1o gs1o fs1o f1o ds1o d1o ro @voice_bass_6 c3i rx @voice_bass_7 c3o b2o as2o a2o gs2o fs2o f2o ds2o d2o rx @voice_bass_8 c2o b1o as1o a1o gs1o fs1o f1o ds1o d1o ro @voice_bass_7 c3o b2o as2o a2o gs2o fs2o f2o ds2o d2o ro c3o b2o as2o a2o gs2o fs2o f2o ds2o d2o ro @voice_bass_8 c2o b1o as1o a1o gs1o fs1o f1o ds1o d1o ro @voice_bass_6 c3i rx @voice_bass_8 c2o b1o as1o a1o gs1o fs1o f1o ds1o d1o ro @voice_bass_7 c3o b2o as2o a2o gs2o fs2o f2o ds2o d2o rx @voice_bass_6 c3i rx @voice_bass_7 c3o b2o as2o a2o gs2o fs2o f2o ds2o d2o ro";
pub const ALISIA_INTRO_8_7: &'static str = "@voice_bass_8 c2o b1o as1o a1o gs1o fs1o f1o ds1o d1o ro @voice_bass_6 c3i rx @voice_bass_7 b2o as2o a2o gs2o fs2o f2o ds2o d2o c2o ro @voice_bass_8 b1o as1o a1o gs1o fs1o f1o ds1o d1o c1o ro @voice_bass_7 b2o as2o a2o gs2o fs2o f2o ds2o d2o c2o ro b2o as2o a2o gs2o fs2o f2o ds2o d2o c2o rx @voice_bass_8 b1o as1o a1o gs1o fs1o f1o ds1o d1o c1o ro @voice_bass_6 c3i rx @voice_bass_8 b1o as1o a1o gs1o fs1o f1o ds1o d1o c1o ro @voice_bass_7 b2o as2o a2o gs2o fs2o f2o ds2o d2o c2o rx @voice_bass_6 c3i o ro @voice_bass_7 b2o as2o a2o gs2o fs2o f2o ds2o d2o c2o ro @voice_bass_8 b1o as1o a1o gs1o fs1o f1o ds1o d1o c1o rx @voice_bass_6 c3i rx @voice_bass_7 b2o as2o a2o gs2o fs2o f2o ds2o d2o rx @voice_bass_8 b1o as1o a1o gs1o fs1o f1o ds1o d1o rx @voice_bass_7 b2o as2o a2o gs2o fs2o f2o ds2o d2o rxd b2o as2o a2o gs2o fs2o f2o ds2o d2o rx @voice_bass_8 b1o as1o a1o gs1o fs1o f1o ds1o d1o rx @voice_bass_6 c3i rx @voice_bass_8 b1o as1o a1o gs1o fs1o f1o ds1o d1o rxd @voice_bass_7 b2o as2o a2o gs2o fs2o f2o ds2o d2o ro @voice_bass_6 c3i rx @voice_bass_7 b2o as2o a2o gs2o g2o f2o e2o d2o cs2o rx @voice_bass_8 c2o b1o as1o a1o gs1o fs1o f1o ds1o d1o ro @voice_bass_6 c3i rx c3i o ro @voice_bass_7 b2o as2o a2o gs2o g2o f2o e2o d2o cs2o ro b2o as2o a2o gs2o g2o f2o e2o d2o cs2o ro a2o gs2o g2o fs2o f2o ds2o d2o cs2o b1o ro op2_tl=#41000000,op4_tl=#41400000 c3o b2o as2o a2o gs2o fs2o f2o ds2o d2o rqddd rhd";
pub const ALISIA_INTRO_9_0: &'static str = "rw rw rw rw rw rw rw rw rw rw rw rw rw rw rw rw rw rw rw rw rw rw rw rw rw rw rw rw rw rw rw rw rw rw rw rw rw rw rw rw rw rw rw rw rw rw rw rw rqddd @voice_drums velocity=#42CB3333 c4h t qddd q t";

// The looping body, lane by lane.
pub const ALISIA_LOOP_0_0: &'static str = "rw rw rw rw rw rqd t @voice_melody velocity=#4107851F d6o velocity=#424B3333 e6i o ds4i o ro a5i o ro a4i o ro f5i o ro f4i o ro b4i o rx b5t o i xd xd ro f4i o ro e5i o ro as4i rx b4i rx g4i rx d5i rxd b5e x rx as4i ro g5i o rx g4i rx ds5x td o ro e4i o ro as4i o rx a5e xd ro b4i o ro e5xd rqdd xd velocity=#4107851F g4o velocity=#424B3333 gs4td x ro ds4i rxd a5i rx a4i rx f5i rxd f4i ro b4i o ro b5e xd rx f4i o ro e5i o ro as4i o ro b4i o ro g4xd t o o ro d5i o ro b5e xd ro as4i o ro g5i rxd g4i rx d5i rx a4i rx f5i rx b5e x rx ds4i o ro ro a5xd rhddd t rw rw rw rw rw rw rw rw rw reddd";
pub const ALISIA_LOOP_1_0: &'static str = "ri o @voice_lead_5 f4i rx op4_tl=#41A80000 f4i rx op4_tl=#41880000 g4i ro op4_tl=#41A80000 g4i o rx op4_tl=#41880000 a4i o ro op4_tl=#41A80000 a4i o ro op4_tl=#41880000 b4t ro c5t ro b4qd o tdd xd ro g4t o gs4t o a4i o ro g4q i fs4t o f4t o e4t o ds4xd rxd c4t o cs4t o d4i o ro f4e id o ro e4edd o ro c4t o cs4t o d4i o rx e4i o ro f4i rx op4_tl=#41A80000 f4i rx op4_tl=#41880000 g4i rx op4_tl=#41A80000 g4i rx op4_tl=#41880000 a4i rx op4_tl=#41A80000 a4xd t o rx op4_tl=#41880000 b4xd rxd c5xd ro d5t o ds5t o e5q i ds5t o d5t ro c5t o cs5t o d5i o ro c5edd o rx cs5t o d5ed ro b4e xd rx b4edd rx a4edd o ro gs4xd rx g4xd rx fs4t rx f4o x rid @voice_lead_6 e3i o rx f3i o ro g3i o ro a3i o ro b3i rx c4i o ro b3qd t o i xd t o rx a3e x rid g3i o ro a3i o ro b3i o rx b3i o ro c4i o ro d4i o ro c4e xd q id o td rx e3e xd ri xd e3i rxd f3i rx g3i rx a3i o ro b3t id xd rx c4i o ro d4t ro ds4xd rx e4qd o rx d4e xd ro c4e t i rxd d4edd rx b3e x rx a3q i g3t o f3t o e3t o d3t rx @voice_lead_7 c4td x o ro d4i o ro e4i o rx f4e xd ro g4h e xd t o o rx d4e xd ro c4i rx b3i o ro c4i o rx d4e x rx e4edd o ro f4e x ro ro e4edd rx b3edd rx a3t b3o rx a3o rx g3i o ro a3edd o ro b3e o i xd o rx c4e xd ro d4edd rx e4edd o rx f4e x rx g4id o qd xd idd o rx d4qdd x rx ro c4i rx d4i rx e4i rx f4e x rx g4h id o i xd o ro d4e xd rx c4i o ro b3i o ro c4i rx d4e x rx e4edd rxd f4id o xd x rx e4edd o ro b3edd o rx a3xd b3x ro a3x rx g3i o ro a3edd rx b3i x e x rx c4e x rx d4edd rx e4edd o ro f4e xd rx e4tdd qd t o ro e4idd d4t c4xd b3qd t o i xd e ro @voice_lead_5 e4x";
pub const ALISIA_LOOP_2_0: &'static str = "@voice_lead2_5 f4i o ro op4_tl=#41500000 f4i rx op4_tl=#41100000 g4i rx op4_tl=#41500000 g4i rx op4_tl=#41100000 a4i rxd op4_tl=#41500000 a4i rx op4_tl=#41100000 b4xd rx c5xd rx b4qdd o o ro g4t o gs4t o a4i rxd g4q i fs4t o f4t o e4t o ds4xd rx c4t o cs4t o d4i rx f4ed o xd rxd e4edd rx c4t o cs4t o d4i o ro e4i o ro f4i o ro op4_tl=#41500000 f4i rx op4_tl=#41100000 g4i rx op4_tl=#41500000 g4i o rx op4_tl=#41100000 a4i o ro op4_tl=#41500000 a4i rx op4_tl=#41100000 b4o x rx c5xd rx d5t o ds5t o e5q i ds5t o d5xd rx c5t o cs5t o d5i rx c5edd rx cs5t o d5t e t ro b4e xd rx b4edd o ro a4edd rxd gs4xd rx g4xd rx fs4xd rx f4xd rtdd rtd @voice_lead2_6 e3i rx f3i rxd g3i rx a3i ro b3i o rx c4i rx b3qddd o xd td ro a3e xd ri xd g3i rx a3i rx b3i rx b3i rxd c4i rx d4i rx c4ed xd q t o t o rx e3e xd rid e3i o ro f3i o ro g3i o ro a3i rxd b3id t x rx c4i rx d4xd rxd ds4xd rx e4qd o ro d4e xd rx c4edd o ro d4edd o ro b3e x rx a3q i o g3t o f3t o e3t o d3xd rx @voice_lead2_7 c4i o ro d4t o xd o ro e4i o rx f4e xd ro g4h ed o rx d4o idd o x rxd c4i rx b3i rx c4i rx d4e x rx e4edd o ro f4e xd ro e4i e t o ro b3edd o rx a3xd b3x ro a3o rxd g3i rx a3edd rx b3ed o xd rx c4e xd ro d4edd o rx e4edd o ro f4e xd ro g4e td q i x idd o rx d4qdd xd rx c4i o ro d4i rx e4i o ro f4e xd ro g4h e td x o rx d4e xd ro c4i o ro b3i o ro c4i o ro d4e xd rx e4edd o ro f4e x rx e4x ed x rxd b3edd o ro a3xd b3o rxd a3o rx g3i rx a3edd o ro b3e xd i o o ro c4e xd ro d4edd o rx e4edd rx f4e x rx e4e q i xd rx e4idd d4t c4o rx b3qddd x x idd o rx @voice_lead2_5 e4i o rx";
pub const ALISIA_LOOP_3_0: &'static str = "@voice_arp velocity=#428775C3 a3e td rq tdd velocity=#42A9570A a3q i x red o rxd f3e t c3h t o rx d3e t g3idd x t o re xd a3i x e3i x g3i x e3q re xd a3e t o ri o a3eddd o redd o f3e t d3q tdd i o rx g3eddd o velocity=#428775C3 e3qddd o velocity=#42A9570A a3xd a4xd velocity=#42986666 gs4t f4xd e4xd velocity=#428775C3 d4t ro velocity=#42A9570A c4t t rx a3i rxd e4i rx b4e x rx e3i rx a4i rx a3i rx e4i rx f3i rx c4i rxd as4e xd ro f3i rx e4i rx a3i rx c4i rx g3i rx d4i rxd as4e x rx b3i rx g4i rx g3i rx d4i rx e3tdd o rx b3i rx gs4e xd rx b3i rx e4i rx g3i rxd b3i rx a3i rx e4i rx b4e x rxd e3i rx a4x td rxd a3i rx e4i rx f3i rx c4i rx as4e xd ro f3i rxd e4i rx a3i rx c4i rx g3i rx d4i rx as4e xd ro b3i rx g4i o ro g3i rxd d4i rx a3i rx e4i rx b4e x rx e3i rx a4i o ro a3t o xd rxd e4i o ro c4e xd ro c4e xd rx c4i rx c4i rx c4xd rx c4xd rx c4i rx b3e x rxd b3i x td x rx b3i rx b3i rx b3xd rx b3xd rxd b3i rx a3e x ro a3e x rx a3i rx a3i rx a3xd rx a3xd rxd a3tdd o rx g3e x rx g3e x rx g3i rx g3i rx g3xd rx g3xd rx g3i rx f3e x rx f3e x rx f3t o xd rx f3i rx f3xd rx f3xd rx f3i rxd g3e xd ro g3e x rx g3i rxd g3i rx g3xd rx g3xd rx g3i rx g3i xd t o x rx g3e x rxd g3i rx g3i rx g3xd rx g3xd rx g3i rx g3e x rx g3e x rx g3i rx g3i rx g3xd rx g3t rx g3i rx c4e x rx c4e x rx c4i rx c4i rx c4xd rx c4xd rx c4i rx b3e x rx b3t o i xd xd ro b3i rx b3i rx b3xd rx b3xd rxd b3i rx a3e xd ro a3e x rx a3i rx a3i rx a3xd rx a3xd rxd a3o tdd rx g3e x rx g3e x rx g3i rxd g3i ro g3xd rx g3xd rx g3i rx f3e x rx f3e x ro ro f3i rxd f3i rx f3xd ro f3t rx f3i rx f3e x rx f3e x rx f3i rx f3i rx f3xd rx f3xd rxd f3i rx gs3t o i xd x rx gs3e xd ro gs3i rx gs3i rxd gs3xd rx gs3xd rx gs3i rx e3e xd ro e3e x rx e3i rxd e3o tdd rx e3xd rx e3xd rxd e3i x";
pub const ALISIA_LOOP_4_0: &'static str = "@voice_arp2 velocity=#428775C3 e4e td rq tdd velocity=#42A9570A e4q i x red o rxd c4e t g3h t o rx a3e t ds4idd x t o re xd e4i x b3i x d4i x b3q re xd e4e t o ri o e4eddd o redd o c4e t a3q tdd i o rxd d4eddd o velocity=#428775C3 b3qddd o velocity=#42A9570A e4xd f5xd velocity=#42986666 d5t ds5xd cs5xd velocity=#428775C3 c5t velocity=#42A9570A b4t t rx b4i rxd gs5i rx d6e x rx a4i rx c6i rx e5i rx g5i rx a4i rx fs5i rxd c6e xd ro a4i rx as5i rx b4i rx g5i rx as4i rxd g5i rx d6e x rx ds5i rx b5i rx as4i rx g5i rx g4tdd o rx f5i rx as5e xd rx e5i rx a5i rx b4i rxd e5i rx b4i rx gs5i rxd d6e x rx a4i rx c6x td rxd e5i rx g5i rx a4i rxd fs5i ro c6e xd ro a4i rxd as5i rx b4i rx g5i rx as4i rx g5i rx d6e xd ro ds5i rx b5i rx as4i rxd gs5i rx b4i rx gs5i rx d6e x rx a4i rx c6i o ro e5t o xd rxd gs5i rx e5e xd rx e5e x rx e5i rx e5i rx e5xd rx e5xd rx e5i rx d5e x rxd d5i x td x rx d5i rx d5i rx d5xd rx d5xd rxd ds5i rx c5e x ro c5e x rx c5i rx c5i rx c5xd rx c5xd rxd c5tdd o rx b4e x rx b4e x rx b4i rx b4i rx b4xd rx b4xd rx as4i rx a4e x rx a4e x rx a4t o xd rx a4i rx a4xd rx a4xd rxd as4i rx b4e xd ro b4e x rx b4i rxd b4i rx b4xd rx b4xd rx b4i rx c5i xd t o x rx c5e x rxd c5i rx c5i rx c5xd rx c5xd rx c5i rx b4e x rx b4e x rx b4i rx b4i rx b4xd rx b4t rx b4i rx e5e x rx e5e x rx e5i rx e5i rx e5xd rx e5xd rx e5i rx d5e x rx d5t o i xd xd ro d5i rx d5i rx d5xd rx d5xd rxd ds5i rx c5e x rx c5e x rx c5i rx c5i rx c5xd rx c5xd rxd c5o tdd rx b4e x rx b4e x rx b4i rxd b4i ro b4xd rx b4xd rx as4i rx a4e x rx a4e x ro ro a4i rxd a4i rx a4xd rx a4t ro a4i rx as4e x rx as4e x rx as4i rx as4i rx as4xd rx as4xd rxd b4i rx b4t o i xd x rx b4e xd ro b4i rx b4i rxd b4xd rx b4xd rx as4i rx gs4e xd ro gs4e x rx gs4i rxd gs4o tdd rx gs4xd rx gs4xd rxd a4i x";
pub const ALISIA_LOOP_5_0: &'static str = "rt o @voice_harmony3_6 e4i o ro f4i rx op4_tl=#41C00000 f4i rx op4_tl=#41A00000 g4i rxd op4_tl=#41C00000 g4i rx op4_tl=#41A00000 a4i rx op4_tl=#41C00000 a4i rx op4_tl=#41A00000 b4xd rx c5xd rx b4q i x idd x rx g4t o gs4t o a4i o ro g4q i fs4t o f4t o e4t o ds4xd rx c4t o cs4t o d4i rxd f4i o e xd rx e4edd o ro c4t o cs4t o d4i o ro e4i rx f4i rx op4_tl=#41C00000 f4i o rx op4_tl=#41A00000 g4i o ro op4_tl=#41C00000 g4i rx op4_tl=#41A00000 a4td x rx op4_tl=#41C00000 a4i o ro op4_tl=#41A00000 b4xd rx c5xd rx d5t o ds5t o e5q i ds5t o d5xd rx c5t o cs5t o d5i rx c5ed t o ro cs5t o d5ed rx b4e xd ro b4edd o rx a4edd rx gs4xd rxd @voice_harmony3_7 e5t t rx a4i rxd op2_tl=#42180000,op4_tl=#41B80000 a4i rx op2_tl=#42080000,op4_tl=#41980000 b4i rx op2_tl=#42180000,op4_tl=#41B80000 b4i rx op2_tl=#42080000,op4_tl=#41980000 c5i rx a4i rx op2_tl=#42180000,op4_tl=#41B80000 a4xd rx a4t ro op2_tl=#42080000,op4_tl=#41980000 e5i rx a4i o ro op2_tl=#42180000,op4_tl=#41B80000 a4i rx op2_tl=#42080000,op4_tl=#41980000 b4i rxd op2_tl=#42180000,op4_tl=#41B80000 b4i rx op2_tl=#42080000,op4_tl=#41980000 c5i rx a4i rx op2_tl=#42180000,op4_tl=#41B80000 a4xd rx a4t ro op2_tl=#42080000,op4_tl=#41980000 e5i rx a4i rx op2_tl=#42180000,op4_tl=#41B80000 a4i rx op2_tl=#42080000,op4_tl=#41980000 b4i rxd op2_tl=#42180000,op4_tl=#41B80000 b4i rx op2_tl=#42080000,op4_tl=#41980000 c5i rx a4i rx op2_tl=#42180000,op4_tl=#41B80000 a4xd ro a4xd rxd op2_tl=#42080000,op4_tl=#41980000 e5i rx a4tdd o rx op2_tl=#42180000,op4_tl=#41B80000 a4i rx op2_tl=#42080000,op4_tl=#41980000 b4i rxd op2_tl=#42180000,op4_tl=#41B80000 b4i rx op2_tl=#42080000,op4_tl=#41980000 c5i rx a4i rx op2_tl=#42180000,op4_tl=#41B80000 a4xd rx a4xd rxd op2_tl=#42080000,op4_tl=#41980000 e5i o ro a4i rx op2_tl=#42180000,op4_tl=#41B80000 a4i rx op2_tl=#42080000,op4_tl=#41980000 b4i rxd op2_tl=#42180000,op4_tl=#41B80000 b4i rx op2_tl=#42080000,op4_tl=#41980000 c5i rx a4x td rx op2_tl=#42180000,op4_tl=#41B80000 a4xd rxd a4xd rx op2_tl=#42080000,op4_tl=#41980000 e5i rx a4i rx op2_tl=#42180000,op4_tl=#41B80000 a4i rx op2_tl=#42080000,op4_tl=#41980000 b4i rx op2_tl=#42180000,op4_tl=#41B80000 b4i rx op2_tl=#42080000,op4_tl=#41980000 c5i rxd a4i rx op2_tl=#42180000,op4_tl=#41B80000 a4xd rx a4t ro op2_tl=#42080000,op4_tl=#41980000 e5i rx a4i rx op2_tl=#42180000,op4_tl=#41B80000 a4i rx op2_tl=#42080000,op4_tl=#41980000 b4i rx op2_tl=#42180000,op4_tl=#41B80000 b4i rx op2_tl=#42080000,op4_tl=#41980000 c5i rx a4i rx op2_tl=#42180000,op4_tl=#41B80000 a4t ro a4xd rxd op2_tl=#42080000,op4_tl=#41980000 e5i rx a4i rx op2_tl=#42180000,op4_tl=#41B80000 a4i rx op2_tl=#42080000,op4_tl=#41980000 b4i rx op2_tl=#42180000,op4_tl=#41B80000 b4i rx op2_tl=#42080000,op4_tl=#41980000 c5i rx a4i rx op2_tl=#42180000,op4_tl=#41B80000 a4xd rx a4xd redd @voice_harmony3_8 e4i o ro g4i o rx c5e xd ro g4e xd ro e4i o ro g3i o ro d4i rxd g4t o xd rx b4e x rx d5i rx g4i rx d4i rx a3i o ro e4i o ro a4i o ro c5e xd ro e5i o ro a4i o ro e4xd t o o ro g3i o ro d4i o rx";
pub const ALISIA_LOOP_5_1: &'static str = "g4i o ro d5e x rx b4i rx g4i rx e4i rx f3i rx c4i rx f4i rx a4i x td xd ro e5i rx c5i o ro a4i o ro g4i o rx g3i o ro b3i o ro d4e xd ro b4i rx g4i o rx d4i rx @voice_harmony3_6 d4t o ds4o xd o e4q i ds4t o d4t o cs4xd rxd d4h t i x o red x @voice_harmony3_8 e4i o ro g4i o rx c5e x rx g4e x rx e4i rx g3i rx d4i rx g4i o ro b4e xd ro d5i rx g4i o rx d4i o ro a3i o ro e4i rx a4i o ro c5e xd ro e5i rx a4tdd o rxd e4i rx g3i rx d4i rx g4i rx d5e x rx b4i o ro g4i o ro e4i o ro f3i o ro c4i o ro f4i o ro a4t id xd ro c5e xd rx e5i o ro f5i o ro d5e x rx as4e x rx f4i rx d4xd rxd @voice_harmony3_9 e2idd o q i o xd re o g5xd rx gs5xd rx a5xd rx as5xd rx b5q idd o i o xd rx a5xd rid o";
pub const ALISIA_LOOP_6_0: &'static str = "@voice_harmony2_3 a3i rxd op4_tl=#41880000 a3i rx op4_tl=#41A80000 a3i rq op4_tl=#41100000 a3i rx f3i rx f3i rx op4_tl=#41880000 f3i rx op4_tl=#41A80000 f3i re xd rxd op4_tl=#41100000 c3e x rx d3i o ro d3i rx op4_tl=#41880000 d3i rx op4_tl=#41A80000 d3i rq op4_tl=#41100000 d3i rxd g3i rx a3i rx op4_tl=#41880000 a3t t rx op4_tl=#41A80000 a3i rid op4_tl=#41100000 e3i rx g3i rx e3i rx a3i rx a3i rxd op4_tl=#41880000 a3i rx op4_tl=#41A80000 a3i rid op4_tl=#41100000 a3i rx op4_tl=#41880000 a3i rxd ri o op4_tl=#41100000 f3i rx f3i rx op4_tl=#41880000 f3i rx op4_tl=#41A80000 f3i re td op4_tl=#41100000 d3e x rx g3i rx g3i rx op4_tl=#41880000 g3i rx op4_tl=#41A80000 g3i ro ri xd op4_tl=#41100000 e3i rx op4_tl=#41880000 e3i rxd op4_tl=#41100000 e3i rx e4edd o ro e4eddd o ds4t o d4t o cs4t o c4xd rxd @voice_harmony2_4 e4t qdd ro c4e xd ro a4qd o rx f4i o ro a4e x rx g4edd rx a4edd rxd b4e x rx c5e o q i xd ro e4e xd rx c5edd o ro a4edd o rx e4x idd x rxd g4qdd xd rx f4e x rx e4edd o ro d4edd o ro b3e x rxd a3q td rq t o re @voice_harmony2_5 e4i o ro g4i rx c5e xd rx g4e xd ro e4i rx g3i rx d4i rx g4i rx b4i xd t o x rxd d5i rx g4i rx d4i rx a3i rxd e4i ro a4i rx c5e x rx e5i rx a4i rx e4i o ro g3i rx d4i rxd g4i rx d5e x rx b4i rx g4i rx e4i rx f3i rx c4i rx f4i rx a4e x rx e5t o xd rx c5i rx a4i rx g4i rx g3i rxd b3i rx d4e xd ro b4i rx g4i rx d4i rxd @voice_harmony2_6 d4t o ds4t o e4i xd e t o i ds4t o d4t o cs4t o c4t o b3t o as3xd rxd g3h t i x o rid @voice_harmony2_5 e4i rx g4i rx c5e x rx g4e x rx e4i rx g3i rx d4i rx g4i rx b4t o i xd xd ro d5i rx g4i rx d4i rx a3i rxd e4i rx a4i rx c5e xd ro e5i rx a4i rx e4i rxd g3o tdd rx d4i rx g4i rx d5e x rx b4i rxd g4i ro e4i rx f3i rx c4i rx f4i rx a4e x ro ro c5e xd ro e5i o rx f5i rx d5e x rx as4e x rx f4i rx d4i rx as3i rxd @voice_harmony2_6 gs2idd o q i o xd ro g5xd rx gs5xd rxd a5xd rx as5t ro b5qdd xd ro a5x o rxd g5xd rx f5xd rx e5xd rx op4_tl=#41100000 a3i o rx";
pub const ALISIA_LOOP_7_0: &'static str = "@voice_harmony_3 a2i rqd t o a2i rx f2i rx f2i rq tdd rxd c2e x rx d2i rx d2i rqd t o d2i rx g2i rx a2i rtd red x e2i rx g2i rx e2i rx a2i rxd a2i rq a2i rid o ri o f2i rx f2i rq i x d2e x rxd g2i ro g2i re t o ri xd e2i rid o e2i rx op4_tl=#42080000 a2i o ro op4_tl=#41F00000 a2i rx op4_tl=#41D00000 a2i rx op4_tl=#41B00000 a2i rxd op4_tl=#41900000 a2i rx a2i rx a3xd g3t f3t e3xd d3xd c3x rx a2t t rx a2i rxd a2i rx a2i rx a2i rx a2i o ro a2i o ro a2xd rx a2t ro f2i rx f2i o ro f2i rxd f2i rx f2i rx f2i rx g2i o ro a2i rx g2i rx g2i rx g2i rx g2i rxd g2i rx g2i rx d2i rx d2i rx e2i rx e2tdd o rx e2i rx e2i rxd g2i rx e2i rx b2i rx g2i rxd a2i o ro a2i rx a2i rx a2i rxd a2i rx a2i rx a2x td rxd a2xd rx a2xd rx f2i rx f2i rx f2i rx f2i rx f2i rx f2i rxd f2i o ro f2i rx g2i o ro g2i rx g2i rx g2i o ro g2i rx g2i rx g2i o ro g2i rxd a2i rx a2i rx c3i rx a2i rx e3i rx a2i rx b2i o ro d3t o xd rxd c3i o ro c3e xd ro c3e xd rx c3i rx c3i rx c3xd rx c3xd rx b2i rx b2e x rxd b2i x td x rx b2i rx b2i rx b2xd rx b2xd rx a2i rxd a2e x ro a2e x rx a2i rx a2i rx a2t ro a2xd rxd g2tdd o rx g2e x rx g2xd rx g2t ro b2i rx g2i rx d3i rx b2i rx f2i rx f2e x rx f2e x rx g2t o xd rx a2i rx f2i rx g2i rxd g2e xd ro g2i rx b2i rx g2i rx d3i rxd g2i rx c3i rx c3i xd t o x rx c3e x rx d3i rxd c3i rx f2i rx g2i rx gs2e x rx a2e x rx as2i rx b2i rx d3i rx c3i o rx c3e x rx c3e x rx c3i rx c3i rx c3xd rx c3xd rx b2i rx b2e x rx b2t o i xd xd ro b2i rx b2i rx b2xd rx b2xd rxd a2i rx a2e xd ro a2e xd ro a2i rx a2i rx a2xd rx a2xd rxd g2o tdd rx g2e x rx g2xd rx g2xd rx b2i rx g2i rxd d3i ro b2i rx f2i rx f2e x rx f2e x ro ro f2i rxd g2i ro a2i rxd as2i rx as2e x rx as2e x rx as2i rx f2i rx d2i rxd e2i rx e2t o i xd x rx e2e xd ro e2i rx e2i rxd e2xd rx e2xd rx gs2i rx gs2i rx gs2i rx gs2i rx b2i rx gs2i rxd d3o tdd rx e2i rxd a2i rx";
pub const ALISIA_LOOP_8_0: &'static str = "@voice_bass_9 ~approx+timbre c3o b2o as2o a2o gs2o fs2o f2o ds2o d2o c2o as1o gs1o f1o d1o as0o f0o a_1o c_1o gs3o re td @voice_bass_10 e3i rx @voice_bass_11 e3i rx @voice_bass_9 c3o b2o as2o a2o gs2o fs2o f2o ds2o d2o ro @voice_bass_12 c2o b1o as1o a1o gs1o fs1o f1o ds1o d1o ro c2o b1o as1o a1o gs1o fs1o f1o ds1o d1o rq td rxd b1o as1o a1o gs1o fs1o f1o ds1o d1o c1o as0o gs0o f0o d0o as_1o f_1o c_1x gs2o rx @voice_bass_9 b2o as2o a2o gs2o fs2o f2o ds2o d2o c2o ro b2o as2o a2o gs2o fs2o f2o ds2o d2o c2o as1o gs1o f1o d1o as0o f0o a_1o c_1o gs3o re td @voice_bass_10 e3i rx @voice_bass_11 e3i rx @voice_bass_12 b1o as1o a1o gs1o fs1o f1o ds1o d1o rx b1o as1o a1o gs1o fs1o f1o ds1o d1o rxd @voice_bass_13 fs2o f2o e2o ds2o cs2o ro op2_tl=#41400000,op4_tl=#41C80000 g2o fs2o f2o e2o ds2o cs2o ro op2_tl=#41800000,op4_tl=#41E80000 fs2o f2o e2o ds2o cs2o rx op2_tl=#41A00000,op4_tl=#42040000 fs2o f2o e2o ds2o cs2o ro op2_tl=#41C00000,op4_tl=#42140000 g2o fs2o f2o e2o ds2o cs2o ro op2_tl=#41E00000,op4_tl=#42240000 fs2o f2o e2o ds2o cs2o rx @voice_bass_12 b1o as1o a1o gs1o fs1o f1o ds1o d1o rx @voice_bass_9 c3o b2o as2o a2o gs2o fs2o f2o ds2o d2o ro @voice_bass_12 c2o b1o as1o a1o gs1o fs1o f1o ds1o d1o ro @voice_bass_9 c3o b2o as2o a2o gs2o fs2o f2o ds2o d2o ro @voice_bass_12 c2o b1o as1o a1o gs1o fs1o f1o ds1o d1o re td @voice_bass_10 e3i rx @voice_bass_13 c3o b2o as2o a2o gs2o fs2o f2o ds2o d2o c2o as1o gs1o f1o d1o as0o f0o a_1o c_1o gs3xd t o xd ro @voice_bass_12 c2o b1o as1o a1o gs1o fs1o f1o ds1o d1o ro c2o b1o as1o a1o gs1o fs1o f1o ds1o d1o rq i o @voice_bass_9 c3o b2o as2o a2o gs2o fs2o f2o ds2o d2o c2o as1o gs1o f1o d1o as0o f0o a_1o c_1o gs3o ro @voice_bass_13 c3o b2o as2o a2o gs2o fs2o f2o ds2o d2o ro b2o as2o a2o gs2o fs2o f2o ds2o d2o c2o as1o gs1o f1o d1o as0o f0o a_1o c_1o gs3o rx b2o as2o a2o gs2o fs2o rx op2_tl=#41400000,op4_tl=#41C80000 b2o as2o a2o gs2o fs2o rx op2_tl=#41800000,op4_tl=#41E80000 c3o b2o as2o a2o gs2o fs2o @voice_bass_9 b2o as2o a2o gs2o fs2o f2o ds2o d2o c2o as1o gs1o f1o d1o as0o f0o a_1o c_1o gs3o rxd @voice_bass_12 b1o as1o a1o gs1o fs1o f1o ds1o d1o c1o ro @voice_bass_14 b2x as2o a2o gs2o ro c3o b2x as2o a2o gs2o rx c3o b2x as2o a2o gs2o fs2x f2o e2o ds2o rx g2o fs2x f2o e2o ds2o ro g2o fs2x f2o e2o ds2o @voice_bass_9 b2o as2o a2o gs2o fs2o rx c3o b2o as2o a2o gs2o fs2o ro c3o b2o as2o a2o gs2o rx @voice_bass_13 b2o as2o a2o gs2o fs2o ro c3o b2o as2o a2o gs2o fs2o ro b2o as2o a2o gs2o fs2o rx @voice_bass_12 b1x as1o a1o gs1o fs1o f1o ds1o d1o rx b1o as1o a1o gs1o fs1o f1o ds1o d1o rx @voice_bass_9 b2o as2o a2o gs2o fs2o f2o ds2o d2o c2o as1o gs1o f1o d1o as0o f0o a_1o c_1o gs3o rxd @voice_bass_11 e3i rx @voice_bass_12 c2o b1o as1o a1o gs1o fs1o f1o ds1o d1o c1o as0o gs0o f0o d0o as_1o f_1o c_1x gs2o ro @voice_bass_9 c3o b2o as2o a2o gs2o fs2o f2o ds2o d2o ro @voice_bass_12 c2o b1o as1o a1o gs1o fs1o f1o ds1o d1o ro c2o b1o as1o a1o gs1o fs1o f1o ds1o d1o ro @voice_bass_9 c3o b2o as2o a2o gs2o fs2o f2o ds2o d2o ro";
pub const ALISIA_LOOP_8_1: &'static str = "@voice_bass_12 c2o b1o as1o a1o gs1o fs1o f1o ds1o d1o rx @voice_bass_11 e3i rx @voice_bass_12 c2o b1o as1o a1o gs1o fs1o f1o ds1o d1o ro @voice_bass_9 c3o b2o as2o a2o gs2o fs2o f2o ds2o d2o c2o as1o gs1o f1o d1o as0o f0o a_1o c_1o gs3o ro @voice_bass_12 c2o b1o as1o a1o gs1o fs1o f1o ds1o d1o ro c2o b1o as1o a1o gs1o fs1o f1o ds1o d1o ro @voice_bass_9 c3o b2o as2o a2o gs2o fs2o f2o ds2o d2o c2o as1o gs1o f1o d1o as0o f0o a_1o c_1o gs3o rx @voice_bass_12 c2o b1o as1o a1o gs1o fs1o f1o ds1o d1o ro c2o b1o as1o a1o gs1o fs1o f1o ds1o d1o ro @voice_bass_9 c3o b2o as2o a2o gs2o fs2o f2o ds2o d2o c2o as1o gs1o f1o d1o as0o f0o a_1o c_1o gs3o @voice_bass_12 b1o as1o a1o gs1o fs1o f1o ds1o d1o c1o rx b1o as1o a1o gs1o fs1o f1o ds1o d1o c1o ro @voice_bass_9 b2o as2o a2o gs2o fs2o f2o ds2o d2o c2o ro @voice_bass_12 b1o as1o a1o gs1o fs1o f1o ds1o d1o c1o ro @voice_bass_9 b2o as2o a2o gs2o fs2o f2o ds2o d2o c2o rx @voice_bass_12 b1o as1o a1o gs1o fs1o f1o ds1o d1o c1o ro @voice_bass_9 b2o as2o a2o gs2o fs2o f2o ds2o d2o c2o ro b2o as2o a2o gs2o ro b2o as2o a2o gs2o ro @voice_bass_12 b1o as1o a1o gs1o fs1o f1o ds1o d1o c1o rx b1o as1o a1o gs1o fs1o f1o ds1o d1o c1o ro @voice_bass_9 b2o as2o a2o gs2o fs2o f2o ds2o d2o c2o as1o gs1o f1o d1o as0o f0o a_1o c_1o gs3o rxd @voice_bass_11 e3i rx @voice_bass_12 b1o as1o a1o gs1o fs1o f1o ds1o d1o c1o as0o gs0o f0o d0o as_1o f_1o c_1x gs2o rx @voice_bass_9 b2o as2o a2o gs2o fs2o f2o ds2o d2o rxd @voice_bass_12 b1o as1o a1o gs1o fs1o f1o ds1o d1o rx b1o as1o a1o gs1o fs1o f1o ds1o d1o rx @voice_bass_9 b2o as2o a2o gs2o fs2o f2o ds2o d2o rx @voice_bass_12 c2o b1o as1o a1o gs1o fs1o f1o ds1o d1o ro @voice_bass_11 e3i rx @voice_bass_12 c2o b1o as1o a1o gs1o fs1o f1o ds1o d1o ro @voice_bass_9 c3o b2o as2o a2o gs2o fs2o f2o ds2o d2o c2o as1o gs1o f1o d1o as0o f0o a_1o c_1o gs3o rx @voice_bass_12 c2o b1o as1o a1o gs1o fs1o f1o ds1o d1o ro c2o b1o as1o a1o gs1o fs1o f1o ds1o d1o ro @voice_bass_9 c3o b2o as2o a2o gs2o fs2o f2o ds2o d2o c2o as1o gs1o f1o d1o as0o f0o a_1o c_1o gs3o ro @voice_bass_12 c2o b1o as1o a1o gs1o fs1o f1o ds1o d1o ro c2o b1o as1o a1o gs1o fs1o f1o ds1o d1o ro @voice_bass_9 c3o b2o as2o a2o gs2o fs2o f2o ds2o d2o c2o as1o gs1o f1o d1o as0o f0o a_1o c_1o gs3o ro @voice_bass_12 c2o b1o as1o a1o gs1o fs1o f1o ds1o d1o rx c2o b1o as1o a1o gs1o fs1o f1o ds1o d1o ro @voice_bass_9 c3o b2o as2o a2o gs2o fs2o f2o ds2o d2o ro @voice_bass_12 c2o b1o as1o a1o gs1o fs1o f1o ds1o d1o ro @voice_bass_9 c3o b2o as2o a2o ro c3o b2o as2o a2o ro c3o b2o as2o a2o ro c3o b2o as2o a2o ro @voice_bass_14 gs2o %1 g2o fs2o ro gs2o %1 g2o fs2o ro e2x ds2o d2o ro e2x ds2o d2o rx @voice_bass_12 b1o as1o a1o gs1o fs1o f1o ds1o d1o c1o ro b1o as1o a1o gs1o fs1o f1o ds1o d1o c1o ro @voice_bass_9 b2o as2o a2o gs2o fs2o f2o ds2o d2o c2o as1o gs1o f1o d1o as0o f0o a_1o c_1o gs3o rxd @voice_bass_12 b1o as1o a1o gs1o fs1o f1o ds1o d1o c1o b1o as1o a1o gs1o fs1o f1o ds1o d1o c1o rx @voice_bass_9 b2o as2o a2o gs2o fs2o f2o ds2o d2o c2o as1o";
pub const ALISIA_LOOP_8_2: &'static str = "gs1o f1o d1o as0o f0o a_1o c_1o gs3o rx @voice_bass_12 b1o as1o a1o gs1o fs1o f1o ds1o d1o c1o ro b1o as1o a1o gs1o fs1o f1o ds1o d1o c1o ro @voice_bass_9 b2o as2o a2o gs2o fs2o f2o ds2o d2o rx @voice_bass_12 b1o as1o a1o gs1o fs1o f1o ds1o d1o rxd @voice_bass_11 e3i rx @voice_bass_12 b1o as1o a1o gs1o fs1o f1o ds1o d1o rx @voice_bass_9 b2o as2o a2o gs2o fs2o f2o ds2o d2o c2o as1o gs1o f1o d1o as0o f0o a_1o c_1o gs3o rx @voice_bass_12 b1o as1o a1o gs1o fs1o f1o ds1o d1o rx b1o as1o a1o gs1o fs1o f1o ds1o d1o rx @voice_bass_9 c3o b2o as2o a2o gs2o fs2o f2o ds2o d2o c2o as1o gs1o f1o d1o as0o f0o a_1o c_1o gs3o ro @voice_bass_12 c2o b1o as1o a1o gs1o fs1o f1o ds1o d1o ro c2o b1o as1o a1o gs1o fs1o f1o ds1o d1o ro @voice_bass_9 c3o b2o as2o a2o gs2o fs2o f2o ds2o d2o c2o as1o gs1o f1o d1o as0o f0o a_1o c_1o gs3o ro @voice_bass_12 c2o b1o as1o a1o gs1o fs1o f1o ds1o d1o ro c2o b1o as1o a1o gs1o fs1o f1o ds1o d1o rx @voice_bass_9 c3o b2o as2o a2o gs2o fs2o f2o ds2o d2o ro @voice_bass_12 c2o b1o as1o a1o gs1o fs1o f1o ds1o d1o ro @voice_bass_11 e3i rx @voice_bass_12 c2o b1o as1o a1o gs1o fs1o f1o ds1o d1o ro @voice_bass_9 c3o b2o as2o a2o gs2o fs2o f2o ds2o d2o c2o as1o gs1o f1o d1o as0o f0o a_1o c_1o gs3o ro @voice_bass_12 c2o b1o as1o a1o gs1o fs1o f1o ds1o d1o ro c2o b1o as1o a1o gs1o fs1o f1o ds1o d1o ro @voice_bass_9 c3o b2o as2o a2o gs2o fs2o f2o ds2o d2o c2o as1o gs1o f1o d1o as0o f0o a_1o c_1o gs3o ro @voice_bass_12 c2o b1o as1o a1o gs1o fs1o f1o ds1o d1o ro b1o as1o a1o gs1o fs1o f1o ds1o d1o c1o ro @voice_bass_9 b2o as2o a2o gs2o fs2o f2o ds2o d2o c2o as1o gs1o f1o d1o as0o f0o a_1o c_1o gs3o rx @voice_bass_12 b1o as1o a1o gs1o fs1o f1o ds1o d1o c1o ro b1o as1o a1o gs1o fs1o f1o ds1o d1o c1o rx @voice_bass_9 b2o as2o a2o gs2o fs2o f2o ds2o d2o c2o ro @voice_bass_12 b1o as1o a1o gs1o fs1o f1o ds1o d1o c1o ro @voice_bass_11 e3i rx @voice_bass_12 b1o as1o a1o gs1o fs1o f1o ds1o d1o c1o ro @voice_bass_9 b2o as2o a2o gs2o fs2o f2o ds2o d2o c2o as1o gs1o f1o d1o as0o f0o a_1o c_1o gs3o rxd @voice_bass_12 b1o as1o a1o gs1o fs1o f1o ds1o d1o c1o ro b1o as1o a1o gs1o fs1o f1o ds1o d1o rx @voice_bass_9 b2o as2o a2o gs2o fs2o f2o ds2o d2o c2o as1o gs1o f1o d1o as0o f0o a_1o c_1o gs3o rx @voice_bass_12 b1o as1o a1o gs1o fs1o f1o ds1o d1o rx b1o as1o a1o gs1o fs1o f1o ds1o d1o rxd @voice_bass_9 b2o as2o a2o gs2o fs2o f2o ds2o d2o rx @voice_bass_12 b1o as1o a1o gs1o fs1o f1o ds1o d1o rx @voice_bass_9 c3o b2o as2o a2o gs2o fs2o f2o ds2o d2o ro @voice_bass_12 c2o b1o as1o a1o gs1o fs1o f1o ds1o d1o ro @voice_bass_9 c3o b2o as2o a2o gs2o fs2o f2o ds2o d2o ro @voice_bass_12 c2o b1o as1o a1o gs1o fs1o f1o ds1o d1o ro @voice_bass_9 c3o b2o as2o a2o ro c3o b2o as2o a2o ro c3o b2o as2o a2o ro c3o b2o as2o a2o ro @voice_bass_14 a2o gs2o %1 g2o ro a2o gs2o %1 g2o ro a2o gs2o %1 g2o ro a2o gs2o %1 g2o ro @voice_bass_12 c2o b1o as1o a1o gs1o fs1o f1o ds1o d1o ro c2o b1o as1o a1o gs1o fs1o f1o ds1o d1o rx @voice_bass_9 c3o b2o as2o a2o gs2o fs2o f2o ds2o d2o c2o as1o";
pub const ALISIA_LOOP_8_3: &'static str = "gs1o f1o d1o as0o f0o a_1o c_1o gs3o ro @voice_bass_12 c2o b1o as1o a1o gs1o fs1o f1o ds1o d1o ro c2o b1o as1o a1o gs1o fs1o f1o ds1o d1o ro @voice_bass_9 c3o b2o as2o a2o gs2o fs2o f2o ds2o d2o c2o as1o gs1o f1o d1o as0o f0o a_1o c_1o gs3o ro @voice_bass_12 c2o b1o as1o a1o gs1o fs1o f1o ds1o d1o ro c2o b1o as1o a1o gs1o fs1o f1o ds1o d1o ro @voice_bass_9 c3o b2o as2o a2o gs2o fs2o f2o ds2o d2o @voice_bass_12 b1o as1o a1o gs1o fs1o f1o ds1o d1o c1o rx @voice_bass_11 e3i rx @voice_bass_12 b1o as1o a1o gs1o fs1o f1o ds1o d1o c1o ro @voice_bass_9 b2o as2o a2o gs2o fs2o f2o ds2o d2o c2o as1o gs1o f1o d1o as0o f0o a_1o c_1o gs3o rx @voice_bass_12 b1o as1o a1o gs1o fs1o f1o ds1o d1o c1o rx b1o as1o a1o gs1o fs1o f1o ds1o d1o c1o ro @voice_bass_9 b2o as2o a2o gs2o fs2o f2o ds2o d2o c2o as1o gs1o f1o d1o as0o f0o a_1o c_1o gs3o rx @voice_bass_12 b1o as1o a1o gs1o fs1o f1o ds1o d1o c1o ro b1o as1o a1o gs1o fs1o f1o ds1o d1o c1o ro @voice_bass_9 b2o as2o a2o gs2o fs2o f2o ds2o d2o c2o as1o gs1o f1o d1o as0o f0o a_1o c_1o gs3o rx @voice_bass_12 b1o as1o a1o gs1o fs1o f1o ds1o d1o rxd b1o as1o a1o gs1o fs1o f1o ds1o d1o rx @voice_bass_9 b2o as2o a2o gs2o fs2o f2o ds2o d2o rx @voice_bass_12 b1o as1o a1o gs1o fs1o f1o ds1o d1o rx @voice_bass_11 e3i rx @voice_bass_12 b1o as1o a1o gs1o fs1o f1o ds1o d1o rx @voice_bass_9 b2o as2o a2o gs2o fs2o f2o ds2o d2o c2o as1o gs1o f1o d1o as0o f0o a_1o c_1o gs3o rx @voice_bass_12 c2o b1o as1o a1o gs1o fs1o f1o ds1o d1o ro c2o b1o as1o a1o gs1o fs1o f1o ds1o d1o ro @voice_bass_9 c3o b2o as2o a2o gs2o fs2o f2o ds2o d2o c2o as1o gs1o f1o d1o as0o f0o a_1o c_1o gs3o ro @voice_bass_12 c2o b1o as1o a1o gs1o fs1o f1o ds1o d1o ro c2o b1o as1o a1o gs1o fs1o f1o ds1o d1o rx @voice_bass_9 c3o b2o as2o a2o gs2o fs2o f2o ds2o d2o c2o as1o gs1o f1o d1o as0o f0o a_1o c_1o gs3o ro @voice_bass_12 c2o b1o as1o a1o gs1o fs1o f1o ds1o d1o ro c2o b1o as1o a1o gs1o fs1o f1o ds1o d1o ro @voice_bass_9 c3o b2o as2o a2o gs2o fs2o f2o ds2o d2o ro @voice_bass_12 c2o b1o as1o a1o gs1o fs1o f1o ds1o d1o ro @voice_bass_11 e3i rx @voice_bass_12 c2o b1o as1o a1o gs1o fs1o f1o ds1o d1o ro @voice_bass_9 c3o b2o as2o a2o gs2o fs2o f2o ds2o d2o c2o as1o gs1o f1o d1o as0o f0o a_1o c_1o gs3o ro c3o b2o as2o a2o gs2o fs2o f2o ds2o d2o rx @voice_bass_12 c2o b1o as1o a1o gs1o fs1o f1o ds1o d1o @voice_bass_9 b2o as2o a2o gs2o fs2o f2o ds2o d2o c2o rx @voice_bass_12 b1o as1o a1o gs1o fs1o f1o ds1o d1o c1o ro @voice_bass_9 b2o as2o a2o gs2o fs2o f2o ds2o d2o c2o ro @voice_bass_12 b1o as1o a1o gs1o fs1o f1o ds1o d1o c1o ro @voice_bass_9 b2o as2o a2o gs2o fs2o f2o ds2o d2o c2o ro @voice_bass_12 b1o as1o a1o gs1o fs1o f1o ds1o d1o c1o rx @voice_bass_9 b2o as2o a2o gs2o ro b2o as2o a2o gs2o ro b2o as2o a2o gs2o ro b2o as2o a2o gs2o ro @voice_bass_14 gs2o %1 g2o fs2o ro gs2o %1 g2o fs2o ro gs2o %1 g2o fs2o ro gs2o %1 g2o fs2o ro e2x ds2o d2o ro e2x ds2o d2o ro e2x ds2o d2o ro e2x ds2o d2o ro @voice_bass_9 b2o as2o a2o rxd b2o as2o a2o rx b2o as2o a2o rx b2o as2o a2o rx";
pub const ALISIA_LOOP_8_4: &'static str = "b2x as2o a2o gs2o fs2o f2o ds2o d2o rx";
pub const ALISIA_LOOP_9_0: &'static str = "rw rhd i @voice_drums velocity=#42CB3333 c4ed w h i e t rq t rq i x velocity=#42A9570A c4h e td q i x i o rh id o rw rh o velocity=#42CB3333 c4qdd rtdd rw rw rtd c4qdd xd rqddd xd rw rw rw rhddd c4i qdd e rqdd rw rw rhdd o c4idd o q id o o rh e o c4o edd o o";

// Voice programs and phrases.
pub const ALISIA_VOICE_MELODY: &'static str = "instrument=psg,sn_channel=#40000000";
pub const ALISIA_VOICE_LEAD: &'static str = "instrument=ym,op1_ar=#41700000,op1_dr=#41900000,op1_mult=#40400000,op1_rr=#41000000,op1_sl=#41700000,op1_sr=#00000000,op1_tl=#41000000,op2_ar=#41700000,op2_dr=#41700000,op2_mult=#3F800000,op2_rr=#41000000,op2_sl=#00000000,op2_sr=#00000000,op2_tl=#42100000,op3_ar=#41500000,op3_dr=#41900000,op3_mult=#40000000,op3_rr=#41000000,op3_sl=#40000000,op3_sr=#40000000,op3_tl=#41E00000,op4_ar=#41700000,op4_dr=#41700000,op4_mult=#3F800000,op4_rr=#41000000,op4_sl=#3F800000,op4_sr=#00000000,op4_tl=#41C00000,ym_algo=#40800000,ym_channel=#40800000,ym_feedback=#40E00000";
pub const ALISIA_VOICE_LEAD_2: &'static str = "instrument=ym,op1_ar=#41900000,op1_dr=#41600000,op1_mult=#40800000,op1_rr=#40A00000,op1_sl=#40C00000,op1_sr=#40400000,op1_tl=#41D00000,op2_ar=#41980000,op2_dr=#41800000,op2_mult=#41000000,op2_rr=#40A00000,op2_sl=#40A00000,op2_sr=#40000000,op2_tl=#42800000,op3_ar=#41900000,op3_dr=#40800000,op3_mult=#40800000,op3_rr=#40A00000,op3_sl=#40000000,op3_sr=#00000000,op3_tl=#42200000,op4_ar=#41700000,op4_dr=#40800000,op4_mult=#40800000,op4_rr=#41000000,op4_sl=#00000000,op4_sr=#00000000,op4_tl=#41980000,ym_algo=#40400000,ym_channel=#40800000,ym_feedback=#40E00000";
pub const ALISIA_VOICE_LEAD_3: &'static str = "instrument=ym,op1_ar=#41C80000,op1_dr=#41200000,op1_mult=#3F800000,op1_rr=#40A00000,op1_sl=#3F800000,op1_sr=#00000000,op1_tl=#41F80000,op2_ar=#41C80000,op2_dr=#41300000,op2_mult=#40A00000,op2_rr=#41000000,op2_sl=#40A00000,op2_sr=#00000000,op2_tl=#41700000,op3_ar=#41E00000,op3_dr=#41500000,op3_mult=#3F800000,op3_rr=#40C00000,op3_sl=#40000000,op3_sr=#00000000,op3_tl=#423C0000,op4_ar=#41600000,op4_dr=#40800000,op4_mult=#3F800000,op4_rr=#40C00000,op4_sl=#40000000,op4_sr=#00000000,op4_tl=#41A00000,ym_algo=#40000000,ym_channel=#40800000,ym_feedback=#40E00000";
pub const ALISIA_VOICE_LEAD_4: &'static str = "instrument=ym,op1_ar=#41400000,op1_dr=#40C00000,op1_mult=#40800000,op1_rr=#40000000,op1_sl=#40000000,op1_sr=#40000000,op1_tl=#42000000,op2_ar=#41200000,op2_dr=#41100000,op2_mult=#40000000,op2_rr=#40C00000,op2_sl=#40E00000,op2_sr=#00000000,op2_tl=#41F80000,op3_ar=#41400000,op3_dr=#40C00000,op3_mult=#40800000,op3_rr=#40000000,op3_sl=#40000000,op3_sr=#40000000,op3_tl=#420C0000,op4_ar=#41200000,op4_dr=#41100000,op4_mult=#40000000,op4_rr=#40C00000,op4_sl=#40E00000,op4_sr=#00000000,op4_tl=#41F80000,ym_algo=#40800000,ym_channel=#40800000,ym_feedback=#40A00000";
pub const ALISIA_VOICE_LEAD_5: &'static str = "instrument=ym,op1_ar=#41C80000,op1_dr=#41E00000,op1_mult=#40C00000,op1_rr=#3F800000,op1_sl=#40400000,op1_sr=#40A00000,op1_tl=#41A00000,op2_ar=#41C00000,op2_dr=#3F800000,op2_mult=#40800000,op2_rr=#40800000,op2_sl=#41700000,op2_sr=#3F800000,op2_tl=#41A00000,op3_ar=#41C80000,op3_dr=#41D80000,op3_mult=#3F800000,op3_rr=#40800000,op3_sl=#40000000,op3_sr=#3F800000,op3_tl=#41600000,op4_ar=#41A00000,op4_dr=#41E00000,op4_mult=#40000000,op4_rr=#40C00000,op4_sl=#40400000,op4_sr=#40A00000,op4_tl=#41880000,ym_algo=#40400000,ym_channel=#40800000,ym_feedback=#40400000";
pub const ALISIA_VOICE_LEAD_6: &'static str = "instrument=ym,op1_ar=#41F80000,op1_dr=#00000000,op1_mult=#41000000,op1_rr=#41200000,op1_sl=#00000000,op1_sr=#00000000,op1_tl=#42380000,op2_ar=#41F80000,op2_dr=#00000000,op2_mult=#40800000,op2_rr=#41200000,op2_sl=#00000000,op2_sr=#00000000,op2_tl=#41F00000,op3_ar=#41F80000,op3_dr=#00000000,op3_mult=#40000000,op3_rr=#41200000,op3_sl=#00000000,op3_sr=#00000000,op3_tl=#41F00000,op4_ar=#41F80000,op4_dr=#00000000,op4_mult=#40000000,op4_rr=#41200000,op4_sl=#00000000,op4_sr=#00000000,op4_tl=#41F00000,ym_algo=#40C00000,ym_channel=#40800000,ym_feedback=#40E00000";
pub const ALISIA_VOICE_LEAD_7: &'static str = "instrument=ym,op1_ar=#41800000,op1_dr=#41000000,op1_mult=#40000000,op1_rr=#40E00000,op1_sl=#40400000,op1_sr=#00000000,op1_tl=#41F80000,op2_ar=#41900000,op2_dr=#41000000,op2_mult=#40000000,op2_rr=#40E00000,op2_sl=#40000000,op2_sr=#00000000,op2_tl=#41D00000,op3_ar=#41700000,op3_dr=#40000000,op3_mult=#3F800000,op3_rr=#40E00000,op3_sl=#40400000,op3_sr=#00000000,op3_tl=#41D80000,op4_ar=#41900000,op4_dr=#40400000,op4_mult=#3F800000,op4_rr=#40E00000,op4_sl=#40400000,op4_sr=#40C00000,op4_tl=#41B00000,ym_algo=#40800000,ym_channel=#40800000,ym_feedback=#40E00000";
pub const ALISIA_VOICE_LEAD2: &'static str = "instrument=ym,op1_ar=#41700000,op1_dr=#41900000,op1_mult=#40400000,op1_rr=#41000000,op1_sl=#41700000,op1_sr=#00000000,op1_tl=#41000000,op2_ar=#41700000,op2_dr=#41700000,op2_mult=#3F800000,op2_rr=#41000000,op2_sl=#00000000,op2_sr=#00000000,op2_tl=#41E00000,op3_ar=#41500000,op3_dr=#41900000,op3_mult=#40000000,op3_rr=#41000000,op3_sl=#40000000,op3_sr=#40000000,op3_tl=#41E00000,op4_ar=#41700000,op4_dr=#41700000,op4_mult=#3F800000,op4_rr=#41000000,op4_sl=#3F800000,op4_sr=#00000000,op4_tl=#41800000,ym_algo=#40800000,ym_channel=#00000000,ym_feedback=#40E00000";
pub const ALISIA_VOICE_LEAD2_2: &'static str = "instrument=ym,op1_ar=#41900000,op1_dr=#41600000,op1_mult=#40800000,op1_rr=#40A00000,op1_sl=#40C00000,op1_sr=#40400000,op1_tl=#41D00000,op2_ar=#41980000,op2_dr=#41800000,op2_mult=#41000000,op2_rr=#40A00000,op2_sl=#40A00000,op2_sr=#40000000,op2_tl=#42800000,op3_ar=#41900000,op3_dr=#40800000,op3_mult=#40800000,op3_rr=#40A00000,op3_sl=#40000000,op3_sr=#00000000,op3_tl=#42200000,op4_ar=#41700000,op4_dr=#40800000,op4_mult=#40800000,op4_rr=#41000000,op4_sl=#00000000,op4_sr=#00000000,op4_tl=#41300000,ym_algo=#40400000,ym_channel=#00000000,ym_feedback=#40E00000";
pub const ALISIA_VOICE_LEAD2_3: &'static str = "instrument=ym,op1_ar=#41C80000,op1_dr=#41200000,op1_mult=#3F800000,op1_rr=#40A00000,op1_sl=#3F800000,op1_sr=#00000000,op1_tl=#41F80000,op2_ar=#41C80000,op2_dr=#41300000,op2_mult=#40A00000,op2_rr=#41000000,op2_sl=#40A00000,op2_sr=#00000000,op2_tl=#41700000,op3_ar=#41E00000,op3_dr=#41500000,op3_mult=#3F800000,op3_rr=#40C00000,op3_sl=#40000000,op3_sr=#00000000,op3_tl=#423C0000,op4_ar=#41600000,op4_dr=#40800000,op4_mult=#3F800000,op4_rr=#40C00000,op4_sl=#40000000,op4_sr=#00000000,op4_tl=#41400000,ym_algo=#40000000,ym_channel=#00000000,ym_feedback=#40E00000";
pub const ALISIA_VOICE_LEAD2_4: &'static str = "instrument=ym,op1_ar=#41400000,op1_dr=#40C00000,op1_mult=#40800000,op1_rr=#40000000,op1_sl=#40000000,op1_sr=#40000000,op1_tl=#42000000,op2_ar=#41200000,op2_dr=#41100000,op2_mult=#40000000,op2_rr=#40C00000,op2_sl=#40E00000,op2_sr=#00000000,op2_tl=#41B80000,op3_ar=#41400000,op3_dr=#40C00000,op3_mult=#40800000,op3_rr=#40000000,op3_sl=#40000000,op3_sr=#40000000,op3_tl=#420C0000,op4_ar=#41200000,op4_dr=#41100000,op4_mult=#40000000,op4_rr=#40C00000,op4_sl=#40E00000,op4_sr=#00000000,op4_tl=#41B80000,ym_algo=#40800000,ym_channel=#00000000,ym_feedback=#40A00000";
pub const ALISIA_VOICE_LEAD2_5: &'static str = "instrument=ym,op1_ar=#41C80000,op1_dr=#41E00000,op1_mult=#40C00000,op1_rr=#3F800000,op1_sl=#40400000,op1_sr=#40A00000,op1_tl=#41A00000,op2_ar=#41C00000,op2_dr=#3F800000,op2_mult=#40800000,op2_rr=#40800000,op2_sl=#41700000,op2_sr=#3F800000,op2_tl=#41A00000,op3_ar=#41C80000,op3_dr=#41D80000,op3_mult=#3F800000,op3_rr=#40800000,op3_sl=#40000000,op3_sr=#3F800000,op3_tl=#41600000,op4_ar=#41A00000,op4_dr=#41E00000,op4_mult=#40000000,op4_rr=#40C00000,op4_sl=#40400000,op4_sr=#40A00000,op4_tl=#41100000,ym_algo=#40400000,ym_channel=#00000000,ym_feedback=#40400000";
pub const ALISIA_VOICE_LEAD2_6: &'static str = "instrument=ym,op1_ar=#41F80000,op1_dr=#00000000,op1_mult=#41000000,op1_rr=#41200000,op1_sl=#00000000,op1_sr=#00000000,op1_tl=#42380000,op2_ar=#41F80000,op2_dr=#00000000,op2_mult=#40800000,op2_rr=#41200000,op2_sl=#00000000,op2_sr=#00000000,op2_tl=#41B00000,op3_ar=#41F80000,op3_dr=#00000000,op3_mult=#40000000,op3_rr=#41200000,op3_sl=#00000000,op3_sr=#00000000,op3_tl=#41B00000,op4_ar=#41F80000,op4_dr=#00000000,op4_mult=#40000000,op4_rr=#41200000,op4_sl=#00000000,op4_sr=#00000000,op4_tl=#41B00000,ym_algo=#40C00000,ym_channel=#00000000,ym_feedback=#40E00000";
pub const ALISIA_VOICE_LEAD2_7: &'static str = "instrument=ym,op1_ar=#41800000,op1_dr=#41000000,op1_mult=#40000000,op1_rr=#40E00000,op1_sl=#40400000,op1_sr=#00000000,op1_tl=#41F80000,op2_ar=#41900000,op2_dr=#41000000,op2_mult=#40000000,op2_rr=#40E00000,op2_sl=#40000000,op2_sr=#00000000,op2_tl=#41900000,op3_ar=#41700000,op3_dr=#40000000,op3_mult=#3F800000,op3_rr=#40E00000,op3_sl=#40400000,op3_sr=#00000000,op3_tl=#41D80000,op4_ar=#41900000,op4_dr=#40400000,op4_mult=#3F800000,op4_rr=#40E00000,op4_sl=#40400000,op4_sr=#40C00000,op4_tl=#41600000,ym_algo=#40800000,ym_channel=#00000000,ym_feedback=#40E00000";
pub const ALISIA_VOICE_ARP: &'static str = "instrument=psg,sn_channel=#00000000";
pub const ALISIA_VOICE_ARP2: &'static str = "instrument=psg,sn_channel=#3F800000";
pub const ALISIA_VOICE_HARMONY3: &'static str = "instrument=ym,op1_ar=#41700000,op1_dr=#41400000,op1_mult=#40000000,op1_rr=#40400000,op1_sl=#41200000,op1_sr=#3F800000,op1_tl=#41B00000,op2_ar=#41500000,op2_dr=#40800000,op2_mult=#40000000,op2_rr=#41000000,op2_sl=#40A00000,op2_sr=#40C00000,op2_tl=#41B00000,op3_ar=#41F80000,op3_dr=#40A00000,op3_mult=#41000000,op3_rr=#40000000,op3_sl=#41200000,op3_sr=#40C00000,op3_tl=#41880000,op4_ar=#41F80000,op4_dr=#41500000,op4_mult=#40800000,op4_rr=#40E00000,op4_sl=#41200000,op4_sr=#40800000,op4_tl=#41A00000,ym_algo=#40800000,ym_channel=#40400000,ym_feedback=#40C00000";
pub const ALISIA_VOICE_HARMONY3_2: &'static str = "instrument=ym,op1_ar=#41900000,op1_dr=#41600000,op1_mult=#40800000,op1_rr=#40A00000,op1_sl=#40C00000,op1_sr=#40400000,op1_tl=#41D00000,op2_ar=#41980000,op2_dr=#41800000,op2_mult=#41000000,op2_rr=#40A00000,op2_sl=#40A00000,op2_sr=#40000000,op2_tl=#42800000,op3_ar=#41900000,op3_dr=#40800000,op3_mult=#40800000,op3_rr=#40A00000,op3_sl=#40000000,op3_sr=#00000000,op3_tl=#42200000,op4_ar=#41700000,op4_dr=#40800000,op4_mult=#40800000,op4_rr=#41000000,op4_sl=#00000000,op4_sr=#00000000,op4_tl=#41700000,ym_algo=#40400000,ym_channel=#40400000,ym_feedback=#40E00000";
pub const ALISIA_VOICE_HARMONY3_3: &'static str = "instrument=ym,op1_ar=#41700000,op1_dr=#41400000,op1_mult=#40000000,op1_rr=#40400000,op1_sl=#41200000,op1_sr=#3F800000,op1_tl=#41B00000,op2_ar=#41500000,op2_dr=#40800000,op2_mult=#40000000,op2_rr=#41000000,op2_sl=#40A00000,op2_sr=#40C00000,op2_tl=#41900000,op3_ar=#41F80000,op3_dr=#40A00000,op3_mult=#41000000,op3_rr=#40000000,op3_sl=#41200000,op3_sr=#40C00000,op3_tl=#41880000,op4_ar=#41F80000,op4_dr=#41500000,op4_mult=#40800000,op4_rr=#40E00000,op4_sl=#41200000,op4_sr=#40800000,op4_tl=#41800000,ym_algo=#40800000,ym_channel=#40400000,ym_feedback=#40C00000";
pub const ALISIA_VOICE_HARMONY3_4: &'static str = "instrument=ym,op1_ar=#41D00000,op1_dr=#41000000,op1_mult=#40400000,op1_rr=#40E00000,op1_sl=#41500000,op1_sr=#40A00000,op1_tl=#41E80000,op2_ar=#41E80000,op2_dr=#40A00000,op2_mult=#40800000,op2_rr=#40800000,op2_sl=#40800000,op2_sr=#40800000,op2_tl=#41E80000,op3_ar=#41E00000,op3_dr=#40800000,op3_mult=#3F800000,op3_rr=#40C00000,op3_sl=#40C00000,op3_sr=#40000000,op3_tl=#42080000,op4_ar=#41F80000,op4_dr=#41200000,op4_mult=#3F800000,op4_rr=#40800000,op4_sl=#3F800000,op4_sr=#40C00000,op4_tl=#41B80000,ym_algo=#00000000,ym_channel=#40400000,ym_feedback=#40E00000";
pub const ALISIA_VOICE_HARMONY3_5: &'static str = "instrument=ym,op1_ar=#41C80000,op1_dr=#41200000,op1_mult=#3F800000,op1_rr=#40A00000,op1_sl=#3F800000,op1_sr=#00000000,op1_tl=#41F80000,op2_ar=#41C80000,op2_dr=#41300000,op2_mult=#40A00000,op2_rr=#41000000,op2_sl=#40A00000,op2_sr=#00000000,op2_tl=#41700000,op3_ar=#41E00000,op3_dr=#41500000,op3_mult=#3F800000,op3_rr=#40C00000,op3_sl=#40000000,op3_sr=#00000000,op3_tl=#423C0000,op4_ar=#41600000,op4_dr=#40800000,op4_mult=#3F800000,op4_rr=#40C00000,op4_sl=#40000000,op4_sr=#00000000,op4_tl=#41B80000,ym_algo=#40000000,ym_channel=#40400000,ym_feedback=#40E00000";
pub const ALISIA_VOICE_HARMONY3_6: &'static str = "instrument=ym,op1_ar=#41C80000,op1_dr=#41E00000,op1_mult=#40C00000,op1_rr=#3F800000,op1_sl=#40400000,op1_sr=#40A00000,op1_tl=#41A00000,op2_ar=#41C00000,op2_dr=#3F800000,op2_mult=#40800000,op2_rr=#40800000,op2_sl=#41700000,op2_sr=#3F800000,op2_tl=#41A00000,op3_ar=#41C80000,op3_dr=#41D80000,op3_mult=#3F800000,op3_rr=#40800000,op3_sl=#40000000,op3_sr=#3F800000,op3_tl=#41600000,op4_ar=#41A00000,op4_dr=#41E00000,op4_mult=#40000000,op4_rr=#40C00000,op4_sl=#40400000,op4_sr=#40A00000,op4_tl=#41A00000,ym_algo=#40400000,ym_channel=#40400000,ym_feedback=#40400000";
pub const ALISIA_VOICE_HARMONY3_7: &'static str = "instrument=ym,op1_ar=#41C80000,op1_dr=#41B80000,op1_mult=#41200000,op1_rr=#41000000,op1_sl=#41600000,op1_sr=#41200000,op1_tl=#41F00000,op2_ar=#41C80000,op2_dr=#41600000,op2_mult=#40000000,op2_rr=#41000000,op2_sl=#41700000,op2_sr=#41300000,op2_tl=#42080000,op3_ar=#41C80000,op3_dr=#41A00000,op3_mult=#40C00000,op3_rr=#41000000,op3_sl=#41600000,op3_sr=#41300000,op3_tl=#42080000,op4_ar=#41C80000,op4_dr=#41600000,op4_mult=#40000000,op4_rr=#41000000,op4_sl=#41700000,op4_sr=#41400000,op4_tl=#41980000,ym_algo=#40800000,ym_channel=#40400000,ym_feedback=#40E00000";
pub const ALISIA_VOICE_HARMONY3_8: &'static str = "instrument=ym,op1_ar=#41F80000,op1_dr=#40C00000,op1_mult=#40E00000,op1_rr=#3F800000,op1_sl=#00000000,op1_sr=#40C00000,op1_tl=#42180000,op2_ar=#41F80000,op2_dr=#40C00000,op2_mult=#41100000,op2_rr=#3F800000,op2_sl=#00000000,op2_sr=#40C00000,op2_tl=#425C0000,op3_ar=#41F80000,op3_dr=#41400000,op3_mult=#3F800000,op3_rr=#3F800000,op3_sl=#00000000,op3_sr=#40C00000,op3_tl=#42140000,op4_ar=#41F80000,op4_dr=#41400000,op4_mult=#3F800000,op4_rr=#40A00000,op4_sl=#00000000,op4_sr=#40C00000,op4_tl=#42240000,ym_algo=#40000000,ym_channel=#40400000,ym_feedback=#00000000";
pub const ALISIA_VOICE_HARMONY3_9: &'static str = "instrument=ym,op1_ar=#41C80000,op1_dr=#41E00000,op1_mult=#40C00000,op1_rr=#3F800000,op1_sl=#40400000,op1_sr=#40A00000,op1_tl=#41A00000,op2_ar=#41C00000,op2_dr=#3F800000,op2_mult=#40800000,op2_rr=#40800000,op2_sl=#41700000,op2_sr=#3F800000,op2_tl=#41A00000,op3_ar=#41C80000,op3_dr=#41D80000,op3_mult=#3F800000,op3_rr=#40800000,op3_sl=#40000000,op3_sr=#3F800000,op3_tl=#41600000,op4_ar=#41A00000,op4_dr=#41E00000,op4_mult=#40000000,op4_rr=#40C00000,op4_sl=#40400000,op4_sr=#40A00000,op4_tl=#41C00000,ym_algo=#40400000,ym_channel=#40400000,ym_feedback=#40400000";
pub const ALISIA_VOICE_HARMONY2: &'static str = "instrument=ym,op1_ar=#41700000,op1_dr=#41400000,op1_mult=#40000000,op1_rr=#40400000,op1_sl=#41200000,op1_sr=#3F800000,op1_tl=#41B00000,op2_ar=#41500000,op2_dr=#40800000,op2_mult=#40000000,op2_rr=#41000000,op2_sl=#40A00000,op2_sr=#40C00000,op2_tl=#41900000,op3_ar=#41F80000,op3_dr=#40A00000,op3_mult=#41000000,op3_rr=#40000000,op3_sl=#41200000,op3_sr=#40C00000,op3_tl=#41880000,op4_ar=#41F80000,op4_dr=#41500000,op4_mult=#40800000,op4_rr=#40E00000,op4_sl=#41200000,op4_sr=#40800000,op4_tl=#41800000,ym_algo=#40800000,ym_channel=#40000000,ym_feedback=#40C00000";
pub const ALISIA_VOICE_HARMONY2_2: &'static str = "instrument=ym,op1_ar=#41C80000,op1_dr=#41200000,op1_mult=#3F800000,op1_rr=#40A00000,op1_sl=#3F800000,op1_sr=#00000000,op1_tl=#41F80000,op2_ar=#41C80000,op2_dr=#41300000,op2_mult=#40A00000,op2_rr=#41000000,op2_sl=#40A00000,op2_sr=#00000000,op2_tl=#41700000,op3_ar=#41E00000,op3_dr=#41500000,op3_mult=#3F800000,op3_rr=#40C00000,op3_sl=#40000000,op3_sr=#00000000,op3_tl=#423C0000,op4_ar=#41600000,op4_dr=#40800000,op4_mult=#3F800000,op4_rr=#40C00000,op4_sl=#40000000,op4_sr=#00000000,op4_tl=#41B80000,ym_algo=#40000000,ym_channel=#40000000,ym_feedback=#40E00000";
pub const ALISIA_VOICE_HARMONY2_3: &'static str = "instrument=ym,op1_ar=#41C80000,op1_dr=#41E00000,op1_mult=#40C00000,op1_rr=#3F800000,op1_sl=#40400000,op1_sr=#40A00000,op1_tl=#41A00000,op2_ar=#41C00000,op2_dr=#3F800000,op2_mult=#40800000,op2_rr=#40800000,op2_sl=#41700000,op2_sr=#3F800000,op2_tl=#41A00000,op3_ar=#41C80000,op3_dr=#41D80000,op3_mult=#3F800000,op3_rr=#40800000,op3_sl=#40000000,op3_sr=#3F800000,op3_tl=#41600000,op4_ar=#41A00000,op4_dr=#41E00000,op4_mult=#40000000,op4_rr=#40C00000,op4_sl=#40400000,op4_sr=#40A00000,op4_tl=#41100000,ym_algo=#40400000,ym_channel=#40000000,ym_feedback=#40400000";
pub const ALISIA_VOICE_HARMONY2_4: &'static str = "instrument=ym,op1_ar=#41C80000,op1_dr=#41200000,op1_mult=#3F800000,op1_rr=#40A00000,op1_sl=#3F800000,op1_sr=#00000000,op1_tl=#41F80000,op2_ar=#41C80000,op2_dr=#41300000,op2_mult=#40A00000,op2_rr=#41000000,op2_sl=#40A00000,op2_sr=#00000000,op2_tl=#41700000,op3_ar=#41E00000,op3_dr=#41500000,op3_mult=#3F800000,op3_rr=#40C00000,op3_sl=#40000000,op3_sr=#00000000,op3_tl=#423C0000,op4_ar=#41600000,op4_dr=#40800000,op4_mult=#3F800000,op4_rr=#40C00000,op4_sl=#40000000,op4_sr=#00000000,op4_tl=#41700000,ym_algo=#40000000,ym_channel=#40000000,ym_feedback=#40E00000";
pub const ALISIA_VOICE_HARMONY2_5: &'static str = "instrument=ym,op1_ar=#41F80000,op1_dr=#40C00000,op1_mult=#40E00000,op1_rr=#3F800000,op1_sl=#00000000,op1_sr=#40C00000,op1_tl=#42180000,op2_ar=#41F80000,op2_dr=#40C00000,op2_mult=#41100000,op2_rr=#3F800000,op2_sl=#00000000,op2_sr=#40C00000,op2_tl=#425C0000,op3_ar=#41F80000,op3_dr=#41400000,op3_mult=#3F800000,op3_rr=#3F800000,op3_sl=#00000000,op3_sr=#40C00000,op3_tl=#42140000,op4_ar=#41F80000,op4_dr=#41400000,op4_mult=#3F800000,op4_rr=#40A00000,op4_sl=#00000000,op4_sr=#40C00000,op4_tl=#41C80000,ym_algo=#40000000,ym_channel=#40000000,ym_feedback=#00000000";
pub const ALISIA_VOICE_HARMONY2_6: &'static str = "instrument=ym,op1_ar=#41C80000,op1_dr=#41E00000,op1_mult=#40C00000,op1_rr=#3F800000,op1_sl=#40400000,op1_sr=#40A00000,op1_tl=#41A00000,op2_ar=#41C00000,op2_dr=#3F800000,op2_mult=#40800000,op2_rr=#40800000,op2_sl=#41700000,op2_sr=#3F800000,op2_tl=#41A00000,op3_ar=#41C80000,op3_dr=#41D80000,op3_mult=#3F800000,op3_rr=#40800000,op3_sl=#40000000,op3_sr=#3F800000,op3_tl=#41600000,op4_ar=#41A00000,op4_dr=#41E00000,op4_mult=#40000000,op4_rr=#40C00000,op4_sl=#40400000,op4_sr=#40A00000,op4_tl=#41000000,ym_algo=#40400000,ym_channel=#40000000,ym_feedback=#40400000";
pub const ALISIA_VOICE_HARMONY: &'static str = "instrument=ym,op1_ar=#41C80000,op1_dr=#41200000,op1_mult=#3F800000,op1_rr=#40A00000,op1_sl=#3F800000,op1_sr=#00000000,op1_tl=#41F80000,op2_ar=#41C80000,op2_dr=#41300000,op2_mult=#40A00000,op2_rr=#41000000,op2_sl=#40A00000,op2_sr=#00000000,op2_tl=#41700000,op3_ar=#41E00000,op3_dr=#41500000,op3_mult=#3F800000,op3_rr=#40C00000,op3_sl=#40000000,op3_sr=#00000000,op3_tl=#423C0000,op4_ar=#41600000,op4_dr=#40800000,op4_mult=#3F800000,op4_rr=#40C00000,op4_sl=#40000000,op4_sr=#00000000,op4_tl=#41700000,ym_algo=#40000000,ym_channel=#40A00000,ym_feedback=#40E00000";
pub const ALISIA_VOICE_HARMONY_2: &'static str = "instrument=ym,op1_ar=#41F00000,op1_dr=#41600000,op1_mult=#00000000,op1_rr=#40C00000,op1_sl=#41300000,op1_sr=#41000000,op1_tl=#41D00000,op2_ar=#41C00000,op2_dr=#41200000,op2_mult=#00000000,op2_rr=#40C00000,op2_sl=#41300000,op2_sr=#41000000,op2_tl=#42080000,op3_ar=#41E00000,op3_dr=#40800000,op3_mult=#00000000,op3_rr=#40C00000,op3_sl=#41300000,op3_sr=#41000000,op3_tl=#41900000,op4_ar=#41E00000,op4_dr=#40A00000,op4_mult=#3F800000,op4_rr=#40C00000,op4_sl=#41300000,op4_sr=#41000000,op4_tl=#41500000,ym_algo=#00000000,ym_channel=#40A00000,ym_feedback=#40C00000";
pub const ALISIA_VOICE_HARMONY_3: &'static str = "instrument=ym,op1_ar=#41B80000,op1_dr=#41800000,op1_mult=#40000000,op1_rr=#41100000,op1_sl=#41200000,op1_sr=#40E00000,op1_tl=#41C80000,op2_ar=#41E80000,op2_dr=#40C00000,op2_mult=#40400000,op2_rr=#41100000,op2_sl=#40000000,op2_sr=#40C00000,op2_tl=#42040000,op3_ar=#41D00000,op3_dr=#41100000,op3_mult=#00000000,op3_rr=#40E00000,op3_sl=#3F800000,op3_sr=#00000000,op3_tl=#41E00000,op4_ar=#41D00000,op4_dr=#40C00000,op4_mult=#3F800000,op4_rr=#41000000,op4_sl=#40A00000,op4_sr=#40A00000,op4_tl=#41900000,ym_algo=#40000000,ym_channel=#40A00000,ym_feedback=#40E00000";
pub const ALISIA_VOICE_BASS: &'static str = "instrument=ym,op1_ar=#41200000,op1_dr=#40400000,op1_mult=#40800000,op1_rr=#40400000,op1_sl=#41200000,op1_sr=#00000000,op1_tl=#41A00000,op2_ar=#41300000,op2_dr=#40400000,op2_mult=#00000000,op2_rr=#40800000,op2_sl=#40C00000,op2_sr=#3F800000,op2_tl=#41800000,op3_ar=#41400000,op3_dr=#41100000,op3_mult=#40E00000,op3_rr=#40A00000,op3_sl=#41200000,op3_sr=#40800000,op3_tl=#41D80000,op4_ar=#41700000,op4_dr=#41000000,op4_mult=#40A00000,op4_rr=#40E00000,op4_sl=#40400000,op4_sr=#41200000,op4_tl=#41500000,ym_algo=#40400000,ym_channel=#3F800000,ym_feedback=#40E00000";
pub const ALISIA_VOICE_BASS_2: &'static str = "instrument=ym,op1_ar=#41F80000,op1_dr=#41E00000,op1_mult=#41700000,op1_rr=#40C00000,op1_sl=#00000000,op1_sr=#00000000,op1_tl=#00000000,op2_ar=#41F80000,op2_dr=#41E80000,op2_mult=#40000000,op2_rr=#41200000,op2_sl=#40C00000,op2_sr=#41880000,op2_tl=#40E00000,op3_ar=#41F80000,op3_dr=#41400000,op3_mult=#41700000,op3_rr=#41000000,op3_sl=#41700000,op3_sr=#41000000,op3_tl=#00000000,op4_ar=#41F80000,op4_dr=#41C80000,op4_mult=#41100000,op4_rr=#41400000,op4_sl=#40A00000,op4_sr=#41980000,op4_tl=#40E00000,ym_algo=#40800000,ym_channel=#3F800000,ym_feedback=#40E00000";
pub const ALISIA_VOICE_BASS_3: &'static str = "instrument=ym,op1_ar=#41F80000,op1_dr=#41E00000,op1_mult=#41700000,op1_rr=#40C00000,op1_sl=#00000000,op1_sr=#00000000,op1_tl=#00000000,op2_ar=#41F80000,op2_dr=#41C80000,op2_mult=#40000000,op2_rr=#41000000,op2_sl=#40400000,op2_sr=#41400000,op2_tl=#41200000,op3_ar=#41F80000,op3_dr=#41400000,op3_mult=#41700000,op3_rr=#41000000,op3_sl=#41700000,op3_sr=#41000000,op3_tl=#00000000,op4_ar=#41F80000,op4_dr=#41C80000,op4_mult=#41100000,op4_rr=#41400000,op4_sl=#40A00000,op4_sr=#41980000,op4_tl=#41500000,ym_algo=#40800000,ym_channel=#3F800000,ym_feedback=#40E00000";
pub const ALISIA_VOICE_BASS_4: &'static str = "instrument=ym,op1_ar=#41F80000,op1_dr=#41E00000,op1_mult=#41700000,op1_rr=#40C00000,op1_sl=#00000000,op1_sr=#00000000,op1_tl=#00000000,op2_ar=#41F80000,op2_dr=#41E80000,op2_mult=#40000000,op2_rr=#41200000,op2_sl=#40C00000,op2_sr=#41880000,op2_tl=#41300000,op3_ar=#41F80000,op3_dr=#41400000,op3_mult=#41700000,op3_rr=#41000000,op3_sl=#41700000,op3_sr=#41000000,op3_tl=#00000000,op4_ar=#41F80000,op4_dr=#41C80000,op4_mult=#41100000,op4_rr=#41400000,op4_sl=#40A00000,op4_sr=#41980000,op4_tl=#41300000,ym_algo=#40800000,ym_channel=#3F800000,ym_feedback=#40E00000";
pub const ALISIA_VOICE_BASS_5: &'static str = "instrument=ym,op1_ar=#41F80000,op1_dr=#41000000,op1_mult=#40800000,op1_rr=#40C00000,op1_sl=#41500000,op1_sr=#41800000,op1_tl=#00000000,op2_ar=#41F80000,op2_dr=#41880000,op2_mult=#40000000,op2_rr=#41100000,op2_sl=#40400000,op2_sr=#41700000,op2_tl=#41300000,op3_ar=#41F80000,op3_dr=#41A80000,op3_mult=#40800000,op3_rr=#40A00000,op3_sl=#41000000,op3_sr=#41A80000,op3_tl=#41600000,op4_ar=#41F80000,op4_dr=#41800000,op4_mult=#40000000,op4_rr=#41000000,op4_sl=#41200000,op4_sr=#41980000,op4_tl=#41700000,ym_algo=#40800000,ym_channel=#3F800000,ym_feedback=#40C00000";
pub const ALISIA_VOICE_BASS_6: &'static str = "instrument=ym,op1_ar=#41F80000,op1_dr=#41E00000,op1_mult=#41700000,op1_rr=#40C00000,op1_sl=#00000000,op1_sr=#00000000,op1_tl=#00000000,op2_ar=#41F80000,op2_dr=#41C80000,op2_mult=#40000000,op2_rr=#41000000,op2_sl=#40400000,op2_sr=#41400000,op2_tl=#41600000,op3_ar=#41F80000,op3_dr=#41400000,op3_mult=#41700000,op3_rr=#41000000,op3_sl=#41700000,op3_sr=#41000000,op3_tl=#00000000,op4_ar=#41F80000,op4_dr=#41C80000,op4_mult=#41100000,op4_rr=#41400000,op4_sl=#40A00000,op4_sr=#41980000,op4_tl=#41880000,ym_algo=#40800000,ym_channel=#3F800000,ym_feedback=#40E00000";
pub const ALISIA_VOICE_BASS_7: &'static str = "instrument=ym,op1_ar=#41F80000,op1_dr=#41000000,op1_mult=#40800000,op1_rr=#40C00000,op1_sl=#41500000,op1_sr=#41800000,op1_tl=#00000000,op2_ar=#41F80000,op2_dr=#41880000,op2_mult=#40000000,op2_rr=#41100000,op2_sl=#40400000,op2_sr=#41700000,op2_tl=#40E00000,op3_ar=#41F80000,op3_dr=#41A80000,op3_mult=#40800000,op3_rr=#40A00000,op3_sl=#41000000,op3_sr=#41A80000,op3_tl=#41600000,op4_ar=#41F80000,op4_dr=#41800000,op4_mult=#40000000,op4_rr=#41000000,op4_sl=#41200000,op4_sr=#41980000,op4_tl=#41300000,ym_algo=#40800000,ym_channel=#3F800000,ym_feedback=#40C00000";
pub const ALISIA_VOICE_BASS_8: &'static str = "instrument=ym,op1_ar=#41E80000,op1_dr=#41F80000,op1_mult=#40800000,op1_rr=#40A00000,op1_sl=#00000000,op1_sr=#41A00000,op1_tl=#41A00000,op2_ar=#41E80000,op2_dr=#41F80000,op2_mult=#00000000,op2_rr=#40E00000,op2_sl=#00000000,op2_sr=#41900000,op2_tl=#41A00000,op3_ar=#41E80000,op3_dr=#41F80000,op3_mult=#00000000,op3_rr=#40C00000,op3_sl=#00000000,op3_sr=#41600000,op3_tl=#41300000,op4_ar=#41F80000,op4_dr=#41F80000,op4_mult=#00000000,op4_rr=#41100000,op4_sl=#00000000,op4_sr=#41700000,op4_tl=#41700000,ym_algo=#40000000,ym_channel=#3F800000,ym_feedback=#40E00000";
pub const ALISIA_VOICE_BASS_9: &'static str = "instrument=ym,op1_ar=#41F80000,op1_dr=#41000000,op1_mult=#40800000,op1_rr=#40C00000,op1_sl=#41500000,op1_sr=#41800000,op1_tl=#00000000,op2_ar=#41F80000,op2_dr=#41880000,op2_mult=#40000000,op2_rr=#41100000,op2_sl=#40400000,op2_sr=#41700000,op2_tl=#41000000,op3_ar=#41F80000,op3_dr=#41A80000,op3_mult=#40800000,op3_rr=#40A00000,op3_sl=#41000000,op3_sr=#41A80000,op3_tl=#41600000,op4_ar=#41F80000,op4_dr=#41800000,op4_mult=#40000000,op4_rr=#41000000,op4_sl=#41200000,op4_sr=#41980000,op4_tl=#41400000,ym_algo=#40800000,ym_channel=#3F800000,ym_feedback=#40C00000";
pub const ALISIA_VOICE_BASS_10: &'static str = "instrument=ym,op1_ar=#41F80000,op1_dr=#41E00000,op1_mult=#41700000,op1_rr=#40C00000,op1_sl=#00000000,op1_sr=#00000000,op1_tl=#00000000,op2_ar=#41F80000,op2_dr=#41C80000,op2_mult=#40000000,op2_rr=#41000000,op2_sl=#40400000,op2_sr=#41400000,op2_tl=#41300000,op3_ar=#41F80000,op3_dr=#41400000,op3_mult=#41700000,op3_rr=#41000000,op3_sl=#41700000,op3_sr=#41000000,op3_tl=#00000000,op4_ar=#41F80000,op4_dr=#41C80000,op4_mult=#41100000,op4_rr=#41400000,op4_sl=#40A00000,op4_sr=#41980000,op4_tl=#41600000,ym_algo=#40800000,ym_channel=#3F800000,ym_feedback=#40E00000";
pub const ALISIA_VOICE_BASS_11: &'static str = "instrument=ym,op1_ar=#41F80000,op1_dr=#41E00000,op1_mult=#41700000,op1_rr=#40C00000,op1_sl=#00000000,op1_sr=#00000000,op1_tl=#00000000,op2_ar=#41F80000,op2_dr=#41E80000,op2_mult=#40000000,op2_rr=#41200000,op2_sl=#40C00000,op2_sr=#41880000,op2_tl=#41000000,op3_ar=#41F80000,op3_dr=#41400000,op3_mult=#41700000,op3_rr=#41000000,op3_sl=#41700000,op3_sr=#41000000,op3_tl=#00000000,op4_ar=#41F80000,op4_dr=#41C80000,op4_mult=#41100000,op4_rr=#41400000,op4_sl=#40A00000,op4_sr=#41980000,op4_tl=#41000000,ym_algo=#40800000,ym_channel=#3F800000,ym_feedback=#40E00000";
pub const ALISIA_VOICE_BASS_12: &'static str = "instrument=ym,op1_ar=#41E80000,op1_dr=#41F80000,op1_mult=#40800000,op1_rr=#40A00000,op1_sl=#00000000,op1_sr=#41A00000,op1_tl=#41A00000,op2_ar=#41E80000,op2_dr=#41F80000,op2_mult=#00000000,op2_rr=#40E00000,op2_sl=#00000000,op2_sr=#41900000,op2_tl=#41A00000,op3_ar=#41E80000,op3_dr=#41F80000,op3_mult=#00000000,op3_rr=#40C00000,op3_sl=#00000000,op3_sr=#41600000,op3_tl=#41300000,op4_ar=#41F80000,op4_dr=#41F80000,op4_mult=#00000000,op4_rr=#41100000,op4_sl=#00000000,op4_sr=#41700000,op4_tl=#41400000,ym_algo=#40000000,ym_channel=#3F800000,ym_feedback=#40E00000";
pub const ALISIA_VOICE_BASS_13: &'static str = "instrument=ym,op1_ar=#41F00000,op1_dr=#40A00000,op1_mult=#40800000,op1_rr=#40C00000,op1_sl=#41500000,op1_sr=#41800000,op1_tl=#3F800000,op2_ar=#41F80000,op2_dr=#41880000,op2_mult=#40000000,op2_rr=#41100000,op2_sl=#40400000,op2_sr=#41700000,op2_tl=#41000000,op3_ar=#41F80000,op3_dr=#41900000,op3_mult=#40000000,op3_rr=#40A00000,op3_sl=#41000000,op3_sr=#41900000,op3_tl=#40800000,op4_ar=#41F80000,op4_dr=#41800000,op4_mult=#00000000,op4_rr=#41000000,op4_sl=#41200000,op4_sr=#41980000,op4_tl=#41A80000,ym_algo=#40800000,ym_channel=#3F800000,ym_feedback=#40C00000";
pub const ALISIA_VOICE_BASS_14: &'static str = "instrument=ym,op1_ar=#41E80000,op1_dr=#41900000,op1_mult=#3F800000,op1_rr=#40C00000,op1_sl=#40A00000,op1_sr=#00000000,op1_tl=#40C00000,op2_ar=#41F80000,op2_dr=#41D00000,op2_mult=#3F800000,op2_rr=#40C00000,op2_sl=#40000000,op2_sr=#41B00000,op2_tl=#41000000,op3_ar=#41F80000,op3_dr=#41D80000,op3_mult=#40000000,op3_rr=#40C00000,op3_sl=#40A00000,op3_sr=#41000000,op3_tl=#41500000,op4_ar=#41F80000,op4_dr=#41600000,op4_mult=#3F800000,op4_rr=#40C00000,op4_sl=#41400000,op4_sr=#41880000,op4_tl=#41000000,ym_algo=#40400000,ym_channel=#3F800000,ym_feedback=#40E00000";
pub const ALISIA_VOICE_DRUMS: &'static str = "instrument=psg,sn_channel=#40400000";
pub const ALISIA_MELODYI_SEG_0: &'static str = "ro gs4i o rx e4i o ro gs4i o ro e4i o ro";
pub const ALISIA_ARP2I_SEG_0: &'static str = "rx c5i rx e5i rid g5i rx a4i rx e5i rx c5i rx e5i rid o";

/// The theme's named blocks.
pub open spec fn alisia_block(name: Seq<char>) -> Option<Seq<char>> {
    if name == "voice_melody"@ {
        Some(ALISIA_VOICE_MELODY@)
    }     else if name == "voice_lead"@ {
        Some(ALISIA_VOICE_LEAD@)
    }     else if name == "voice_lead_2"@ {
        Some(ALISIA_VOICE_LEAD_2@)
    }     else if name == "voice_lead_3"@ {
        Some(ALISIA_VOICE_LEAD_3@)
    }     else if name == "voice_lead_4"@ {
        Some(ALISIA_VOICE_LEAD_4@)
    }     else if name == "voice_lead_5"@ {
        Some(ALISIA_VOICE_LEAD_5@)
    }     else if name == "voice_lead_6"@ {
        Some(ALISIA_VOICE_LEAD_6@)
    }     else if name == "voice_lead_7"@ {
        Some(ALISIA_VOICE_LEAD_7@)
    }     else if name == "voice_lead2"@ {
        Some(ALISIA_VOICE_LEAD2@)
    }     else if name == "voice_lead2_2"@ {
        Some(ALISIA_VOICE_LEAD2_2@)
    }     else if name == "voice_lead2_3"@ {
        Some(ALISIA_VOICE_LEAD2_3@)
    }     else if name == "voice_lead2_4"@ {
        Some(ALISIA_VOICE_LEAD2_4@)
    }     else if name == "voice_lead2_5"@ {
        Some(ALISIA_VOICE_LEAD2_5@)
    }     else if name == "voice_lead2_6"@ {
        Some(ALISIA_VOICE_LEAD2_6@)
    }     else if name == "voice_lead2_7"@ {
        Some(ALISIA_VOICE_LEAD2_7@)
    }     else if name == "voice_arp"@ {
        Some(ALISIA_VOICE_ARP@)
    }     else if name == "voice_arp2"@ {
        Some(ALISIA_VOICE_ARP2@)
    }     else if name == "voice_harmony3"@ {
        Some(ALISIA_VOICE_HARMONY3@)
    }     else if name == "voice_harmony3_2"@ {
        Some(ALISIA_VOICE_HARMONY3_2@)
    }     else if name == "voice_harmony3_3"@ {
        Some(ALISIA_VOICE_HARMONY3_3@)
    }     else if name == "voice_harmony3_4"@ {
        Some(ALISIA_VOICE_HARMONY3_4@)
    }     else if name == "voice_harmony3_5"@ {
        Some(ALISIA_VOICE_HARMONY3_5@)
    }     else if name == "voice_harmony3_6"@ {
        Some(ALISIA_VOICE_HARMONY3_6@)
    }     else if name == "voice_harmony3_7"@ {
        Some(ALISIA_VOICE_HARMONY3_7@)
    }     else if name == "voice_harmony3_8"@ {
        Some(ALISIA_VOICE_HARMONY3_8@)
    }     else if name == "voice_harmony3_9"@ {
        Some(ALISIA_VOICE_HARMONY3_9@)
    }     else if name == "voice_harmony2"@ {
        Some(ALISIA_VOICE_HARMONY2@)
    }     else if name == "voice_harmony2_2"@ {
        Some(ALISIA_VOICE_HARMONY2_2@)
    }     else if name == "voice_harmony2_3"@ {
        Some(ALISIA_VOICE_HARMONY2_3@)
    }     else if name == "voice_harmony2_4"@ {
        Some(ALISIA_VOICE_HARMONY2_4@)
    }     else if name == "voice_harmony2_5"@ {
        Some(ALISIA_VOICE_HARMONY2_5@)
    }     else if name == "voice_harmony2_6"@ {
        Some(ALISIA_VOICE_HARMONY2_6@)
    }     else if name == "voice_harmony"@ {
        Some(ALISIA_VOICE_HARMONY@)
    }     else if name == "voice_harmony_2"@ {
        Some(ALISIA_VOICE_HARMONY_2@)
    }     else if name == "voice_harmony_3"@ {
        Some(ALISIA_VOICE_HARMONY_3@)
    }     else if name == "voice_bass"@ {
        Some(ALISIA_VOICE_BASS@)
    }     else if name == "voice_bass_2"@ {
        Some(ALISIA_VOICE_BASS_2@)
    }     else if name == "voice_bass_3"@ {
        Some(ALISIA_VOICE_BASS_3@)
    }     else if name == "voice_bass_4"@ {
        Some(ALISIA_VOICE_BASS_4@)
    }     else if name == "voice_bass_5"@ {
        Some(ALISIA_VOICE_BASS_5@)
    }     else if name == "voice_bass_6"@ {
        Some(ALISIA_VOICE_BASS_6@)
    }     else if name == "voice_bass_7"@ {
        Some(ALISIA_VOICE_BASS_7@)
    }     else if name == "voice_bass_8"@ {
        Some(ALISIA_VOICE_BASS_8@)
    }     else if name == "voice_bass_9"@ {
        Some(ALISIA_VOICE_BASS_9@)
    }     else if name == "voice_bass_10"@ {
        Some(ALISIA_VOICE_BASS_10@)
    }     else if name == "voice_bass_11"@ {
        Some(ALISIA_VOICE_BASS_11@)
    }     else if name == "voice_bass_12"@ {
        Some(ALISIA_VOICE_BASS_12@)
    }     else if name == "voice_bass_13"@ {
        Some(ALISIA_VOICE_BASS_13@)
    }     else if name == "voice_bass_14"@ {
        Some(ALISIA_VOICE_BASS_14@)
    }     else if name == "voice_drums"@ {
        Some(ALISIA_VOICE_DRUMS@)
    }     else if name == "melodyi_seg_0"@ {
        Some(ALISIA_MELODYI_SEG_0@)
    }     else if name == "arp2i_seg_0"@ {
        Some(ALISIA_ARP2I_SEG_0@)
    } else {
        None
    }
}

pub open spec fn alisia_blocks() -> spec_fn(Seq<char>) -> Option<Seq<char>> {
    |n: Seq<char>| alisia_block(n)
}

/// The text of one of the theme's named blocks.
fn alisia_block_of(name: &str) -> (r: Option<&'static str>)
    ensures
        match r {
            Some(t) => alisia_block(name@) == Some(t@),
            None => alisia_block(name@) is None,
        },
{
    if str_eq(name, "voice_melody") {
        Some(ALISIA_VOICE_MELODY)
    }     else if str_eq(name, "voice_lead") {
        Some(ALISIA_VOICE_LEAD)
    }     else if str_eq(name, "voice_lead_2") {
        Some(ALISIA_VOICE_LEAD_2)
    }     else if str_eq(name, "voice_lead_3") {
        Some(ALISIA_VOICE_LEAD_3)
    }     else if str_eq(name, "voice_lead_4") {
        Some(ALISIA_VOICE_LEAD_4)
    }     else if str_eq(name, "voice_lead_5") {
        Some(ALISIA_VOICE_LEAD_5)
    }     else if str_eq(name, "voice_lead_6") {
        Some(ALISIA_VOICE_LEAD_6)
    }     else if str_eq(name, "voice_lead_7") {
        Some(ALISIA_VOICE_LEAD_7)
    }     else if str_eq(name, "voice_lead2") {
        Some(ALISIA_VOICE_LEAD2)
    }     else if str_eq(name, "voice_lead2_2") {
        Some(ALISIA_VOICE_LEAD2_2)
    }     else if str_eq(name, "voice_lead2_3") {
        Some(ALISIA_VOICE_LEAD2_3)
    }     else if str_eq(name, "voice_lead2_4") {
        Some(ALISIA_VOICE_LEAD2_4)
    }     else if str_eq(name, "voice_lead2_5") {
        Some(ALISIA_VOICE_LEAD2_5)
    }     else if str_eq(name, "voice_lead2_6") {
        Some(ALISIA_VOICE_LEAD2_6)
    }     else if str_eq(name, "voice_lead2_7") {
        Some(ALISIA_VOICE_LEAD2_7)
    }     else if str_eq(name, "voice_arp") {
        Some(ALISIA_VOICE_ARP)
    }     else if str_eq(name, "voice_arp2") {
        Some(ALISIA_VOICE_ARP2)
    }     else if str_eq(name, "voice_harmony3") {
        Some(ALISIA_VOICE_HARMONY3)
    }     else if str_eq(name, "voice_harmony3_2") {
        Some(ALISIA_VOICE_HARMONY3_2)
    }     else if str_eq(name, "voice_harmony3_3") {
        Some(ALISIA_VOICE_HARMONY3_3)
    }     else if str_eq(name, "voice_harmony3_4") {
        Some(ALISIA_VOICE_HARMONY3_4)
    }     else if str_eq(name, "voice_harmony3_5") {
        Some(ALISIA_VOICE_HARMONY3_5)
    }     else if str_eq(name, "voice_harmony3_6") {
        Some(ALISIA_VOICE_HARMONY3_6)
    }     else if str_eq(name, "voice_harmony3_7") {
        Some(ALISIA_VOICE_HARMONY3_7)
    }     else if str_eq(name, "voice_harmony3_8") {
        Some(ALISIA_VOICE_HARMONY3_8)
    }     else if str_eq(name, "voice_harmony3_9") {
        Some(ALISIA_VOICE_HARMONY3_9)
    }     else if str_eq(name, "voice_harmony2") {
        Some(ALISIA_VOICE_HARMONY2)
    }     else if str_eq(name, "voice_harmony2_2") {
        Some(ALISIA_VOICE_HARMONY2_2)
    }     else if str_eq(name, "voice_harmony2_3") {
        Some(ALISIA_VOICE_HARMONY2_3)
    }     else if str_eq(name, "voice_harmony2_4") {
        Some(ALISIA_VOICE_HARMONY2_4)
    }     else if str_eq(name, "voice_harmony2_5") {
        Some(ALISIA_VOICE_HARMONY2_5)
    }     else if str_eq(name, "voice_harmony2_6") {
        Some(ALISIA_VOICE_HARMONY2_6)
    }     else if str_eq(name, "voice_harmony") {
        Some(ALISIA_VOICE_HARMONY)
    }     else if str_eq(name, "voice_harmony_2") {
        Some(ALISIA_VOICE_HARMONY_2)
    }     else if str_eq(name, "voice_harmony_3") {
        Some(ALISIA_VOICE_HARMONY_3)
    }     else if str_eq(name, "voice_bass") {
        Some(ALISIA_VOICE_BASS)
    }     else if str_eq(name, "voice_bass_2") {
        Some(ALISIA_VOICE_BASS_2)
    }     else if str_eq(name, "voice_bass_3") {
        Some(ALISIA_VOICE_BASS_3)
    }     else if str_eq(name, "voice_bass_4") {
        Some(ALISIA_VOICE_BASS_4)
    }     else if str_eq(name, "voice_bass_5") {
        Some(ALISIA_VOICE_BASS_5)
    }     else if str_eq(name, "voice_bass_6") {
        Some(ALISIA_VOICE_BASS_6)
    }     else if str_eq(name, "voice_bass_7") {
        Some(ALISIA_VOICE_BASS_7)
    }     else if str_eq(name, "voice_bass_8") {
        Some(ALISIA_VOICE_BASS_8)
    }     else if str_eq(name, "voice_bass_9") {
        Some(ALISIA_VOICE_BASS_9)
    }     else if str_eq(name, "voice_bass_10") {
        Some(ALISIA_VOICE_BASS_10)
    }     else if str_eq(name, "voice_bass_11") {
        Some(ALISIA_VOICE_BASS_11)
    }     else if str_eq(name, "voice_bass_12") {
        Some(ALISIA_VOICE_BASS_12)
    }     else if str_eq(name, "voice_bass_13") {
        Some(ALISIA_VOICE_BASS_13)
    }     else if str_eq(name, "voice_bass_14") {
        Some(ALISIA_VOICE_BASS_14)
    }     else if str_eq(name, "voice_drums") {
        Some(ALISIA_VOICE_DRUMS)
    }     else if str_eq(name, "melodyi_seg_0") {
        Some(ALISIA_MELODYI_SEG_0)
    }     else if str_eq(name, "arp2i_seg_0") {
        Some(ALISIA_ARP2I_SEG_0)
    } else {
        None
    }
}

/// The pieces of each lane.
pub open spec fn lanes_view(v: Seq<Vec<&str>>) -> Seq<Seq<Seq<char>>> {
    v.map_values(|l: Vec<&str>| strs(l@))
}

/// The note of a word of one of the theme's lanes.
fn alisia_word_note(w: &Vec<char>) -> (r: Option<Note>)
    ensures
        match r {
            Some(n) => lane_word_note(w@, alisia_blocks()) == Some(n@),
            None => lane_word_note(w@, alisia_blocks()) is None,
        },
{
    if w.len() > 0 && w[0] == '@' {
        let name = string_of(w, 1, w.len());
        assert(w@.subrange(1, w@.len() as int) =~= w@.drop_first());
        match alisia_block_of(name.as_str()) {
            Some(t) => block_note_of(t),
            None => None,
        }
    } else {
        plain_word_note_of(w)
    }
}

proof fn lemma_lane_none(ws: Seq<Seq<char>>, i: int)
    requires
        0 <= i <= ws.len(),
        lane_notes(ws.take(i), alisia_blocks()) is None,
    ensures
        lane_notes(ws, alisia_blocks()) is None,
    decreases ws.len() - i,
{
    if i < ws.len() {
        assert(ws.take(i + 1).drop_last() =~= ws.take(i));
        lemma_lane_none(ws, i + 1);
    } else {
        assert(ws.take(i) =~= ws);
    }
}

/// One of the theme's lanes, written in pieces.
fn alisia_lane(chunks: &Vec<&'static str>) -> (r: Option<Note>)
    ensures
        match r {
            Some(n) => lane_note(strs(chunks@), alisia_blocks()) == Some(n@),
            None => lane_note(strs(chunks@), alisia_blocks()) is None,
        },
{
    let ws = words_of_chunks(chunks);
    let ghost wv = cvs(ws@);
    let mut ns: Vec<Note> = Vec::new();
    let n = ws.len();
    assert(wv.take(0) =~= Seq::<Seq<char>>::empty());
    assert(notes_view(ns@) =~= Seq::<NoteV>::empty());
    for i in 0..n
        invariant
            n == ws@.len(),
            wv == cvs(ws@),
            wv == chunk_words(strs(chunks@)),
            lane_notes(wv.take(i as int), alisia_blocks()) == Some(notes_view(ns@)),
    {
        assert(wv.take(i + 1).drop_last() =~= wv.take(i as int));
        assert(wv.take(i + 1).last() == ws@[i as int]@);
        match alisia_word_note(&ws[i]) {
            Some(x) => {
                let ghost before = notes_view(ns@);
                ns.push(x);
                assert(notes_view(ns@) =~= before.push(x@));
            },
            None => {
                proof { lemma_lane_none(wv, i + 1); }
                return None;
            },
        }
    }
    assert(wv.take(n as int) =~= wv);
    crate::compose::try_ser(ns)
}

proof fn lemma_lanes_none(ls: Seq<Seq<Seq<char>>>, i: int)
    requires
        0 <= i <= ls.len(),
        lanes_notes(ls.take(i), alisia_blocks()) is None,
    ensures
        lanes_notes(ls, alisia_blocks()) is None,
    decreases ls.len() - i,
{
    if i < ls.len() {
        assert(ls.take(i + 1).drop_last() =~= ls.take(i));
        lemma_lanes_none(ls, i + 1);
    } else {
        assert(ls.take(i) =~= ls);
    }
}

/// An empty parallel block: what a song whose text does not resolve plays.
fn silent_song() -> (r: Note)
    ensures
        r@ == NoteV::Parallel(Seq::empty()),
{
    let v: Vec<Note> = Vec::new();
    assert(notes_view(v@) =~= Seq::<NoteV>::empty());
    Note::Parallel(v)
}

/// The theme's tempo word and the lanes, played in parallel.
fn alisia_song(lanes: &Vec<Vec<&'static str>>) -> (r: Note)
    ensures
        r@ == song_of(ALISIA_HEAD@, lanes_view(lanes@), alisia_blocks()),
{
    let ghost lv = lanes_view(lanes@);
    let head_chars = chars_of(ALISIA_HEAD);
    let head = match crate::score_text::param_note_of(&head_chars) {
        Some(h) => h,
        None => return silent_song(),
    };
    let mut items: Vec<Note> = Vec::new();
    items.push(head);
    let ghost hv = items@[0]@;
    assert(notes_view(items@) =~= seq![hv]);
    assert(lv.take(0) =~= Seq::<Seq<Seq<char>>>::empty());
    let n = lanes.len();
    for i in 0..n
        invariant
            n == lanes@.len(),
            lv == lanes_view(lanes@),
            param_note(ALISIA_HEAD@) == Some(hv),
            items@.len() == i + 1,
            notes_view(items@)[0] == hv,
            lanes_notes(lv.take(i as int), alisia_blocks()) == Some(notes_view(items@).drop_first()),
    {
        assert(lv.take(i + 1).drop_last() =~= lv.take(i as int));
        assert(lv.take(i + 1).last() == strs(lanes@[i as int]@));
        match alisia_lane(&lanes[i]) {
            Some(x) => {
                let ghost before = notes_view(items@);
                items.push(x);
                assert(notes_view(items@) =~= before.push(x@));
                assert(notes_view(items@).drop_first() =~= before.drop_first().push(x@));
            },
            None => {
                proof { lemma_lanes_none(lv, i + 1); }
                return silent_song();
            },
        }
    }
    assert(lv.take(n as int) =~= lv);
    assert(notes_view(items@) =~= seq![hv] + notes_view(items@).drop_first());
    assert(lanes_notes(lv, alisia_blocks()) == Some(notes_view(items@).drop_first()));
    match try_par(items) {
        Some(p) => p,
        None => silent_song(),
    }
}

/// The theme's intro, played once.
pub open spec fn alisia_stage1_score() -> NoteV {
    song_of(ALISIA_HEAD@, seq![seq![ALISIA_INTRO_0_0@, ALISIA_INTRO_0_1@], seq![ALISIA_INTRO_1_0@, ALISIA_INTRO_1_1@], seq![ALISIA_INTRO_2_0@, ALISIA_INTRO_2_1@], seq![ALISIA_INTRO_3_0@, ALISIA_INTRO_3_1@], seq![ALISIA_INTRO_4_0@, ALISIA_INTRO_4_1@], seq![ALISIA_INTRO_5_0@, ALISIA_INTRO_5_1@], seq![ALISIA_INTRO_6_0@, ALISIA_INTRO_6_1@], seq![ALISIA_INTRO_7_0@, ALISIA_INTRO_7_1@], seq![ALISIA_INTRO_8_0@, ALISIA_INTRO_8_1@, ALISIA_INTRO_8_2@, ALISIA_INTRO_8_3@, ALISIA_INTRO_8_4@, ALISIA_INTRO_8_5@, ALISIA_INTRO_8_6@, ALISIA_INTRO_8_7@], seq![ALISIA_INTRO_9_0@]], alisia_blocks())
}

/// The theme's intro, played once.
pub fn alisia_stage1() -> (r: Note)
    ensures
        r@ == alisia_stage1_score(),
{
    let mut lanes: Vec<Vec<&'static str>> = Vec::new();
    let mut lane: Vec<&'static str> = Vec::new();
    lane.push(ALISIA_INTRO_0_0);
    lane.push(ALISIA_INTRO_0_1);
    assert(strs(lane@) =~= seq![ALISIA_INTRO_0_0@, ALISIA_INTRO_0_1@]);
    lanes.push(lane);
    let mut lane: Vec<&'static str> = Vec::new();
    lane.push(ALISIA_INTRO_1_0);
    lane.push(ALISIA_INTRO_1_1);
    assert(strs(lane@) =~= seq![ALISIA_INTRO_1_0@, ALISIA_INTRO_1_1@]);
    lanes.push(lane);
    let mut lane: Vec<&'static str> = Vec::new();
    lane.push(ALISIA_INTRO_2_0);
    lane.push(ALISIA_INTRO_2_1);
    assert(strs(lane@) =~= seq![ALISIA_INTRO_2_0@, ALISIA_INTRO_2_1@]);
    lanes.push(lane);
    let mut lane: Vec<&'static str> = Vec::new();
    lane.push(ALISIA_INTRO_3_0);
    lane.push(ALISIA_INTRO_3_1);
    assert(strs(lane@) =~= seq![ALISIA_INTRO_3_0@, ALISIA_INTRO_3_1@]);
    lanes.push(lane);
    let mut lane: Vec<&'static str> = Vec::new();
    lane.push(ALISIA_INTRO_4_0);
    lane.push(ALISIA_INTRO_4_1);
    assert(strs(lane@) =~= seq![ALISIA_INTRO_4_0@, ALISIA_INTRO_4_1@]);
    lanes.push(lane);
    let mut lane: Vec<&'static str> = Vec::new();
    lane.push(ALISIA_INTRO_5_0);
    lane.push(ALISIA_INTRO_5_1);
    assert(strs(lane@) =~= seq![ALISIA_INTRO_5_0@, ALISIA_INTRO_5_1@]);
    lanes.push(lane);
    let mut lane: Vec<&'static str> = Vec::new();
    lane.push(ALISIA_INTRO_6_0);
    lane.push(ALISIA_INTRO_6_1);
    assert(strs(lane@) =~= seq![ALISIA_INTRO_6_0@, ALISIA_INTRO_6_1@]);
    lanes.push(lane);
    let mut lane: Vec<&'static str> = Vec::new();
    lane.push(ALISIA_INTRO_7_0);
    lane.push(ALISIA_INTRO_7_1);
    assert(strs(lane@) =~= seq![ALISIA_INTRO_7_0@, ALISIA_INTRO_7_1@]);
    lanes.push(lane);
    let mut lane: Vec<&'static str> = Vec::new();
    lane.push(ALISIA_INTRO_8_0);
    lane.push(ALISIA_INTRO_8_1);
    lane.push(ALISIA_INTRO_8_2);
    lane.push(ALISIA_INTRO_8_3);
    lane.push(ALISIA_INTRO_8_4);
    lane.push(ALISIA_INTRO_8_5);
    lane.push(ALISIA_INTRO_8_6);
    lane.push(ALISIA_INTRO_8_7);
    assert(strs(lane@) =~= seq![ALISIA_INTRO_8_0@, ALISIA_INTRO_8_1@, ALISIA_INTRO_8_2@, ALISIA_INTRO_8_3@, ALISIA_INTRO_8_4@, ALISIA_INTRO_8_5@, ALISIA_INTRO_8_6@, ALISIA_INTRO_8_7@]);
    lanes.push(lane);
    let mut lane: Vec<&'static str> = Vec::new();
    lane.push(ALISIA_INTRO_9_0);
    assert(strs(lane@) =~= seq![ALISIA_INTRO_9_0@]);
    lanes.push(lane);
    assert(lanes_view(lanes@) =~= seq![seq![ALISIA_INTRO_0_0@, ALISIA_INTRO_0_1@], seq![ALISIA_INTRO_1_0@, ALISIA_INTRO_1_1@], seq![ALISIA_INTRO_2_0@, ALISIA_INTRO_2_1@], seq![ALISIA_INTRO_3_0@, ALISIA_INTRO_3_1@], seq![ALISIA_INTRO_4_0@, ALISIA_INTRO_4_1@], seq![ALISIA_INTRO_5_0@, ALISIA_INTRO_5_1@], seq![ALISIA_INTRO_6_0@, ALISIA_INTRO_6_1@], seq![ALISIA_INTRO_7_0@, ALISIA_INTRO_7_1@], seq![ALISIA_INTRO_8_0@, ALISIA_INTRO_8_1@, ALISIA_INTRO_8_2@, ALISIA_INTRO_8_3@, ALISIA_INTRO_8_4@, ALISIA_INTRO_8_5@, ALISIA_INTRO_8_6@, ALISIA_INTRO_8_7@], seq![ALISIA_INTRO_9_0@]]);
    alisia_song(&lanes)
}

/// The theme's body, looped after the intro.
pub open spec fn loop_alisia_stage1_score() -> NoteV {
    song_of(ALISIA_HEAD@, seq![seq![ALISIA_LOOP_0_0@], seq![ALISIA_LOOP_1_0@], seq![ALISIA_LOOP_2_0@], seq![ALISIA_LOOP_3_0@], seq![ALISIA_LOOP_4_0@], seq![ALISIA_LOOP_5_0@, ALISIA_LOOP_5_1@], seq![ALISIA_LOOP_6_0@], seq![ALISIA_LOOP_7_0@], seq![ALISIA_LOOP_8_0@, ALISIA_LOOP_8_1@, ALISIA_LOOP_8_2@, ALISIA_LOOP_8_3@, ALISIA_LOOP_8_4@], seq![ALISIA_LOOP_9_0@]], alisia_blocks())
}

/// The theme's body, looped after the intro.
pub fn loop_alisia_stage1() -> (r: Note)
    ensures
        r@ == loop_alisia_stage1_score(),
{
    let mut lanes: Vec<Vec<&'static str>> = Vec::new();
    let mut lane: Vec<&'static str> = Vec::new();
    lane.push(ALISIA_LOOP_0_0);
    assert(strs(lane@) =~= seq![ALISIA_LOOP_0_0@]);
    lanes.push(lane);
    let mut lane: Vec<&'static str> = Vec::new();
    lane.push(ALISIA_LOOP_1_0);
    assert(strs(lane@) =~= seq![ALISIA_LOOP_1_0@]);
    lanes.push(lane);
    let mut lane: Vec<&'static str> = Vec::new();
    lane.push(ALISIA_LOOP_2_0);
    assert(strs(lane@) =~= seq![ALISIA_LOOP_2_0@]);
    lanes.push(lane);
    let mut lane: Vec<&'static str> = Vec::new();
    lane.push(ALISIA_LOOP_3_0);
    assert(strs(lane@) =~= seq![ALISIA_LOOP_3_0@]);
    lanes.push(lane);
    let mut lane: Vec<&'static str> = Vec::new();
    lane.push(ALISIA_LOOP_4_0);
    assert(strs(lane@) =~= seq![ALISIA_LOOP_4_0@]);
    lanes.push(lane);
    let mut lane: Vec<&'static str> = Vec::new();
    lane.push(ALISIA_LOOP_5_0);
    lane.push(ALISIA_LOOP_5_1);
    assert(strs(lane@) =~= seq![ALISIA_LOOP_5_0@, ALISIA_LOOP_5_1@]);
    lanes.push(lane);
    let mut lane: Vec<&'static str> = Vec::new();
    lane.push(ALISIA_LOOP_6_0);
    assert(strs(lane@) =~= seq![ALISIA_LOOP_6_0@]);
    lanes.push(lane);
    let mut lane: Vec<&'static str> = Vec::new();
    lane.push(ALISIA_LOOP_7_0);
    assert(strs(lane@) =~= seq![ALISIA_LOOP_7_0@]);
    lanes.push(lane);
    let mut lane: Vec<&'static str> = Vec::new();
    lane.push(ALISIA_LOOP_8_0);
    lane.push(ALISIA_LOOP_8_1);
    lane.push(ALISIA_LOOP_8_2);
    lane.push(ALISIA_LOOP_8_3);
    lane.push(ALISIA_LOOP_8_4);
    assert(strs(lane@) =~= seq![ALISIA_LOOP_8_0@, ALISIA_LOOP_8_1@, ALISIA_LOOP_8_2@, ALISIA_LOOP_8_3@, ALISIA_LOOP_8_4@]);
    lanes.push(lane);
    let mut lane: Vec<&'static str> = Vec::new();
    lane.push(ALISIA_LOOP_9_0);
    assert(strs(lane@) =~= seq![ALISIA_LOOP_9_0@]);
    lanes.push(lane);
    assert(lanes_view(lanes@) =~= seq![seq![ALISIA_LOOP_0_0@], seq![ALISIA_LOOP_1_0@], seq![ALISIA_LOOP_2_0@], seq![ALISIA_LOOP_3_0@], seq![ALISIA_LOOP_4_0@], seq![ALISIA_LOOP_5_0@, ALISIA_LOOP_5_1@], seq![ALISIA_LOOP_6_0@], seq![ALISIA_LOOP_7_0@], seq![ALISIA_LOOP_8_0@, ALISIA_LOOP_8_1@, ALISIA_LOOP_8_2@, ALISIA_LOOP_8_3@, ALISIA_LOOP_8_4@], seq![ALISIA_LOOP_9_0@]]);
    alisia_song(&lanes)
}

/// The key of the `i`-th note of the endless arpeggio: C4, E4, G4, C5, again.
pub open spec fn arp_midi(i: u64) -> u8 {
    let k = i % 4;
    if k == 0 { 60 } else if k == 1 { 64 } else if k == 2 { 67 } else { 72 }
}

/// The `i`-th note of the endless arpeggio: a quarter note.
pub open spec fn arp_note(i: u64) -> NoteV {
    NoteV::Atom { midi: arp_midi(i), duration: (TICKS_PER_WHOLE / 4) as u64, parameters: Seq::empty() }
}

/// The `i`-th note of an arpeggio that never ends (C4, E4, G4, C5 in
/// quarter notes, over and over): a stream read one note at a time.
pub fn infinite_arp(i: u64) -> (r: Note)
    ensures
        r@ == arp_note(i),
{
    let k = i % 4;
    let midi: u8 = if k == 0 { 60 } else if k == 1 { 64 } else if k == 2 { 67 } else { 72 };
    let parameters: Vec<(String, ParamValue)> = Vec::new();
    let r = Note::Atom { midi, duration: TICKS_PER_WHOLE / 4, parameters };
    assert(params_view(parameters@) =~= Seq::empty());
    r
}

/// The compiled-in streamed songs, by name: body `0` is the intro, and every
/// later body is the loop; `None` for a name that is not a streamed song.
pub open spec fn song_stream_score(name: Seq<char>, body: u64) -> Option<NoteV> {
    if name == "alisia_stage1"@ {
        Some(if body == 0 { alisia_stage1_score() } else { loop_alisia_stage1_score() })
    } else {
        None
    }
}

/// Body `body` of the streamed song `name`: the intro first, then the loop
/// over and over; `None` where no streamed song has that name.
pub fn song_stream_by_name(name: &str, body: u64) -> (r: Option<Note>)
    ensures
        match r {
            Some(n) => song_stream_score(name@, body) == Some(n@),
            None => song_stream_score(name@, body) is None,
        },
{
    if str_eq(name, "alisia_stage1") {
        if body == 0 { Some(alisia_stage1()) } else { Some(loop_alisia_stage1()) }
    } else {
        None
    }
}

} // verus!
