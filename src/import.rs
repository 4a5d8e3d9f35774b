use vstd::prelude::*;

use crate::configuration::{admits, CardConfiguration};
use crate::tachi::{Difficulty, SkillLevel, TachiLamp};

verus! {

/// Where an import comes from and what it is for.
pub struct ImportMeta {
    pub game: String,
    pub play_type: String,
    pub service: String,
}

/// The skill level part of an import.
pub struct ImportClasses {
    pub dan: SkillLevel,
}

/// Judgement counts of one play.
pub struct Judgements {
    pub critical: u32,
    pub near: u32,
    pub miss: u32,
}

/// Details of one play. The gauge is kept as the game's effective rate, in
/// hundredths.
pub struct HitMeta {
    pub fast: u32,
    pub slow: u32,
    pub max_combo: u32,
    pub ex_score: Option<u32>,
    pub effective_rate: u32,
}

/// One play, as the score tracker imports it. The song is named by its
/// in-game id.
pub struct ImportScore {
    pub score: u32,
    pub lamp: TachiLamp,
    pub match_type: String,
    pub identifier: u32,
    pub difficulty: Difficulty,
    pub time_achieved: u128,
    pub judgements: Judgements,
    pub hit_meta: HitMeta,
}

/// A batch for the score tracker: plays and, maybe, a skill level.
pub struct Import {
    pub meta: ImportMeta,
    pub classes: Option<ImportClasses>,
    pub scores: Vec<ImportScore>,
}

/// One play as the game reports it.
#[derive(Debug, Clone, Copy)]
pub struct Track {
    pub music_id: u32,
    pub music_type: u32,
    pub score: u32,
    pub ex_score: u32,
    pub clear_type: u32,
    pub max_chain: u32,
    pub critical: u32,
    pub near: u32,
    pub error: u32,
    pub effective_rate: u32,
    pub gauge_type: u32,
    pub judge: [u32; 7],
}

/// The plays of a save call; `ref_id` is `None` for a guest.
pub struct GameScores {
    pub ref_id: Option<String>,
    pub tracks: Vec<Track>,
}

/// The skill level of a save call; `ref_id` is `None` for a guest.
pub struct GameSave {
    pub ref_id: Option<String>,
    pub skill_level: u32,
}

/// Why nothing is submitted.
#[derive(Debug, Clone, Copy, PartialEq, Eq, Structural)]
pub enum SkipReason {
    /// A guest played.
    Guest,
    /// No card is known.
    NoCard,
    /// The card is not on the whitelist.
    NotWhitelisted,
}

/// `m` is the standard import header: game `sdvx`, play type `Single`,
/// service `Mikado`.
pub open spec fn is_standard_meta(m: ImportMeta) -> bool {
    &&& m.game@ == "sdvx"@
    &&& m.play_type@ == "Single"@
    &&& m.service@ == "Mikado"@
}

/// `s` is the import record of the play `t`, achieved at `time`.
pub open spec fn is_import_of(s: ImportScore, t: Track, time: u128) -> bool {
    &&& s.score == t.score
    &&& s.lamp == TachiLamp::spec_from_value(t.clear_type)
    &&& s.match_type@ == "sdvxInGameID"@
    &&& s.identifier == t.music_id
    &&& s.difficulty == Difficulty::spec_from_value(t.music_type)
    &&& s.time_achieved == time
    &&& s.judgements.critical == t.critical
    &&& s.judgements.near == t.near
    &&& s.judgements.miss == t.error
    &&& s.hit_meta.fast == t.judge[0]
    &&& s.hit_meta.slow == t.judge[6]
    &&& s.hit_meta.max_combo == t.max_chain
    &&& s.hit_meta.ex_score == if t.ex_score != 0 { Some(t.ex_score) } else { None }
    &&& s.hit_meta.effective_rate == t.effective_rate
}

/// `i` is a class update to `level`, with no plays.
pub open spec fn is_class_import(i: Import, level: u32) -> bool {
    &&& is_standard_meta(i.meta)
    &&& i.classes matches Some(c) && c.dan == SkillLevel::spec_from_value(level)
    &&& i.scores@.len() == 0
}

impl ImportMeta {
    /// The standard import header.
    pub fn standard() -> (r: ImportMeta)
        ensures
            is_standard_meta(r),
    {
        ImportMeta {
            game: "sdvx".to_owned(),
            play_type: "Single".to_owned(),
            service: "Mikado".to_owned(),
        }
    }
}

impl Default for ImportMeta {
    fn default() -> (r: ImportMeta)
        ensures
            is_standard_meta(r),
    {
        ImportMeta::standard()
    }
}

/// The import record of one play.
pub fn import_score(t: &Track, time_achieved: u128) -> (r: ImportScore)
    ensures
        is_import_of(r, *t, time_achieved),
{
    ImportScore {
        score: t.score,
        lamp: TachiLamp::from_primitive(t.clear_type),
        match_type: "sdvxInGameID".to_owned(),
        identifier: t.music_id,
        difficulty: Difficulty::from_primitive(t.music_type),
        time_achieved,
        judgements: Judgements { critical: t.critical, near: t.near, miss: t.error },
        hit_meta: HitMeta {
            fast: t.judge[0],
            slow: t.judge[6],
            max_combo: t.max_chain,
            ex_score: if t.ex_score != 0 {
                Some(t.ex_score)
            } else {
                None
            },
            effective_rate: t.effective_rate,
        },
    }
}

/// The import of the plays of a save call, made by the active card at
/// `time_achieved` (milliseconds since the epoch). Nothing is imported for a
/// guest, without a card, or for a card off the whitelist.
pub fn process_scores(
    cards: &CardConfiguration,
    card_id: &Option<String>,
    scores: &GameScores,
    time_achieved: u128,
) -> (r: Result<Import, SkipReason>)
    ensures
        scores.ref_id is None ==> r == Err::<Import, SkipReason>(SkipReason::Guest),
        scores.ref_id is Some && card_id is None ==> r == Err::<Import, SkipReason>(
            SkipReason::NoCard,
        ),
        scores.ref_id is Some && card_id is Some && !admits(*cards, card_id->Some_0@) ==> r
            == Err::<Import, SkipReason>(SkipReason::NotWhitelisted),
        scores.ref_id is Some && card_id is Some && admits(*cards, card_id->Some_0@) ==> (r matches Ok(
            i,
        ) && is_standard_meta(i.meta) && i.classes is None && i.scores@.len()
            == scores.tracks@.len() && forall|j: int|
            0 <= j < i.scores@.len() ==> is_import_of(
                #[trigger] i.scores@[j],
                scores.tracks@[j],
                time_achieved,
            )),
{
    if scores.ref_id.is_none() {
        return Err(SkipReason::Guest);
    }
    match card_id {
        None => {
            return Err(SkipReason::NoCard);
        },
        Some(c) => if !cards.admits(c.as_str()) {
            return Err(SkipReason::NotWhitelisted);
        },
    }
    let mut out: Vec<ImportScore> = Vec::new();
    let mut j: usize = 0;
    while j < scores.tracks.len()
        invariant
            j <= scores.tracks@.len(),
            out@.len() == j,
            forall|k: int| 0 <= k < j ==> is_import_of(#[trigger] out@[k], scores.tracks@[k], time_achieved),
        decreases scores.tracks@.len() - j,
    {
        out.push(import_score(&scores.tracks[j], time_achieved));
        j = j + 1;
    }
    Ok(Import { meta: ImportMeta::standard(), classes: None, scores: out })
}

/// The class update of a save call by the active card. Nothing is imported
/// for a guest or without a card.
pub fn process_save(card_id: &Option<String>, save: &GameSave) -> (r: Result<Import, SkipReason>)
    ensures
        save.ref_id is None ==> r == Err::<Import, SkipReason>(SkipReason::Guest),
        save.ref_id is Some && card_id is None ==> r == Err::<Import, SkipReason>(SkipReason::NoCard),
        save.ref_id is Some && card_id is Some ==> (r matches Ok(i) && is_class_import(
            i,
            save.skill_level,
        )),
{
    if save.ref_id.is_none() {
        return Err(SkipReason::Guest);
    }
    if card_id.is_none() {
        return Err(SkipReason::NoCard);
    }
    Ok(Import {
        meta: ImportMeta::standard(),
        classes: Some(ImportClasses { dan: SkillLevel::from_primitive(save.skill_level) }),
        scores: Vec::new(),
    })
}

/// The class update of a finished course, for the card that played it.
/// Nothing is imported for a guest or for a card off the whitelist.
pub fn process_course(cards: &CardConfiguration, course: &GameSave) -> (r: Result<Import, SkipReason>)
    ensures
        course.ref_id is None ==> r == Err::<Import, SkipReason>(SkipReason::Guest),
        course.ref_id is Some && !admits(*cards, course.ref_id->Some_0@) ==> r == Err::<
            Import,
            SkipReason,
        >(SkipReason::NotWhitelisted),
        course.ref_id is Some && admits(*cards, course.ref_id->Some_0@) ==> (r matches Ok(i)
            && is_class_import(i, course.skill_level)),
{
    match &course.ref_id {
        None => Err(SkipReason::Guest),
        Some(c) => if !cards.admits(c.as_str()) {
            Err(SkipReason::NotWhitelisted)
        } else {
            Ok(Import {
                meta: ImportMeta::standard(),
                classes: Some(ImportClasses { dan: SkillLevel::from_primitive(course.skill_level) }),
                scores: Vec::new(),
            })
        },
    }
}

} // verus!
