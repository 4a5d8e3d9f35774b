use vstd::prelude::*;

use crate::chart::Chart;
use crate::tachi::{difficulty_of_token, lamp_of_token, same_text, Difficulty, TachiLamp};

verus! {

/// The highest grade the game knows.
pub const MAX_GRADE: u64 = 10;

/// The difficulty given to a chart whose difficulty token is not known.
pub const DEFAULT_DIFFICULTY: u8 = 3;

/// A chart as the score tracker describes it: its id there, and the song and
/// difficulty it stands for. A field the tracker left out is `None`.
pub struct RemoteChart {
    pub chart_id: String,
    pub song_id: Option<u32>,
    pub difficulty: Option<String>,
}

/// A personal best as the score tracker keeps it. The lamp is `None` where the
/// tracker gave no text for it.
pub struct RemotePb {
    pub chart_id: String,
    pub score: u64,
    pub lamp: Option<String>,
    pub grade: u64,
}

/// What the score tracker knows of one user: charts and personal bests.
pub struct RemoteSnapshot {
    pub charts: Vec<RemoteChart>,
    pub pbs: Vec<RemotePb>,
}

/// The text of an optional string.
pub open spec fn text_of(t: Option<String>) -> Option<Seq<char>> {
    match t {
        Some(s) => Some(s@),
        None => None,
    }
}

/// The game's grade of a tracker grade `g` (0-based): `min(g + 1, 10)`.
pub open spec fn grade_value(g: u64) -> u64 {
    if g as int + 1 >= MAX_GRADE {
        MAX_GRADE
    } else {
        (g + 1) as u64
    }
}

/// A lamp as the game can show it: without the advanced tier, a maxxive
/// clear becomes an excessive clear.
pub open spec fn downgraded(l: TachiLamp, advanced: bool) -> TachiLamp {
    if l == TachiLamp::MaxxiveClear && !advanced {
        TachiLamp::ExcessiveClear
    } else {
        l
    }
}

/// The game's clear type of a tracker lamp token; 0 for an unknown one.
pub open spec fn lamp_value(token: Option<Seq<char>>, advanced: bool) -> u32 {
    match token {
        Some(t) => match lamp_of_token(t) {
            Some(l) => downgraded(l, advanced).spec_value(),
            None => 0,
        },
        None => 0,
    }
}

/// The game's difficulty of a tracker difficulty token; 3 for an unknown one.
pub open spec fn difficulty_value(t: Seq<char>) -> u8 {
    match difficulty_of_token(t) {
        Some(d) => d.spec_value() as u8,
        None => DEFAULT_DIFFICULTY,
    }
}

/// The chart that a tracker chart stands for, if none of its fields is missing.
pub open spec fn chart_of(c: RemoteChart) -> Option<Chart> {
    match (c.song_id, c.difficulty) {
        (Some(id), Some(d)) => Some(Chart { song_id: id, difficulty: difficulty_value(d@) }),
        _ => None,
    }
}

/// The chart that the tracker id `id` stands for: the last complete entry of
/// `charts` with that id.
pub open spec fn resolve(charts: Seq<RemoteChart>, id: Seq<char>) -> Option<Chart>
    decreases charts.len(),
{
    if charts.len() == 0 {
        None
    } else if charts.last().chart_id@ == id && chart_of(charts.last()) is Some {
        chart_of(charts.last())
    } else {
        resolve(charts.drop_last(), id)
    }
}

/// The ids of the charts that miss a field, in order.
pub open spec fn excluded_ids(charts: Seq<RemoteChart>) -> Seq<Seq<char>>
    decreases charts.len(),
{
    if charts.len() == 0 {
        Seq::empty()
    } else if chart_of(charts.last()) is None {
        excluded_ids(charts.drop_last()).push(charts.last().chart_id@)
    } else {
        excluded_ids(charts.drop_last())
    }
}

/// The chart of the last entry of `entries` with id `id`.
pub open spec fn table_lookup(entries: Seq<(String, Chart)>, id: Seq<char>) -> Option<Chart>
    decreases entries.len(),
{
    if entries.len() == 0 {
        None
    } else if entries.last().0@ == id {
        Some(entries.last().1)
    } else {
        table_lookup(entries.drop_last(), id)
    }
}

/// The texts of a list of strings.
pub open spec fn texts(s: Seq<String>) -> Seq<Seq<char>> {
    s.map_values(|x: String| x@)
}

/// The lamp rule: where the game lacks the advanced tier, the maxxive clear
/// token gives the value of the tier below it (excessive clear) and every other
/// token its own value; where the game has the tier, every token gives its own
/// lamp's value.
pub proof fn lemma_lamp_downgrade(t: Seq<char>)
    requires
        lamp_of_token(t) is Some,
    ensures
        lamp_value(Some(t), true) == lamp_of_token(t)->Some_0.spec_value(),
        lamp_of_token(t) == Some(TachiLamp::MaxxiveClear) ==> lamp_value(Some(t), false)
            == TachiLamp::ExcessiveClear.spec_value(),
        lamp_of_token(t) != Some(TachiLamp::MaxxiveClear) ==> lamp_value(Some(t), false)
            == lamp_of_token(t)->Some_0.spec_value(),
{
}

/// Maps a tracker grade (0-based) to the game's grade.
pub fn map_grade(g: u64) -> (r: u64)
    ensures
        r == grade_value(g),
        r as int == if g as int + 1 <= MAX_GRADE { g as int + 1 } else { MAX_GRADE as int },
{
    if g >= MAX_GRADE - 1 {
        MAX_GRADE
    } else {
        g + 1
    }
}

/// Maps a tracker lamp token to the game's clear type, downgrading the
/// advanced tier where the game does not show it.
pub fn map_lamp(token: &Option<String>, advanced: bool) -> (r: u32)
    ensures
        r == lamp_value(text_of(*token), advanced),
{
    match token {
        Some(t) => match TachiLamp::from_token(t.as_str()) {
            Some(l) => {
                let l = if l == TachiLamp::MaxxiveClear && !advanced {
                    TachiLamp::ExcessiveClear
                } else {
                    l
                };
                l.value()
            },
            None => 0,
        },
        None => 0,
    }
}

/// Maps a tracker difficulty token to the game's difficulty.
pub fn map_difficulty(token: &str) -> (r: u8)
    ensures
        r == difficulty_value(token@),
{
    match Difficulty::from_token(token) {
        Some(d) => d.value() as u8,
        None => DEFAULT_DIFFICULTY,
    }
}

/// The table from tracker chart ids to charts, built once per snapshot.
pub struct ChartTable {
    pub entries: Vec<(String, Chart)>,
}

impl ChartTable {
    /// Builds the table from the tracker's charts. A chart that misses its
    /// song id or difficulty stays out; its id is listed in the second result.
    pub fn build(charts: &Vec<RemoteChart>) -> (r: (ChartTable, Vec<String>))
        ensures
            forall|id: Seq<char>| #[trigger] table_lookup(r.0.entries@, id) == resolve(charts@, id),
            texts(r.1@) == excluded_ids(charts@),
    {
        let mut entries: Vec<(String, Chart)> = Vec::new();
        let mut excluded: Vec<String> = Vec::new();
        let mut i: usize = 0;
        while i < charts.len()
            invariant
                i <= charts@.len(),
                forall|id: Seq<char>| #[trigger] table_lookup(entries@, id) == resolve(charts@.subrange(0, i as int), id),
                texts(excluded@) == excluded_ids(charts@.subrange(0, i as int)),
            decreases charts@.len() - i,
        {
            let c = &charts[i];
            let ghost before = entries@;
            let ghost prefix = charts@.subrange(0, i + 1);
            assert(prefix.drop_last() =~= charts@.subrange(0, i as int));
            assert(prefix.last() == *c);
            match (&c.song_id, &c.difficulty) {
                (Some(id), Some(d)) => {
                    let chart = Chart { song_id: *id, difficulty: map_difficulty(d.as_str()) };
                    entries.push((c.chart_id.clone(), chart));
                    assert(entries@.drop_last() =~= before);
                    assert forall|id: Seq<char>| #[trigger] table_lookup(entries@, id) == resolve(prefix, id) by {
                        assert(table_lookup(entries@, id) == if entries@.last().0@ == id {
                            Some(entries@.last().1)
                        } else {
                            table_lookup(before, id)
                        });
                    }
                    assert(texts(excluded@) =~= excluded_ids(prefix));
                },
                _ => {
                    let ghost ex_before = excluded@;
                    excluded.push(c.chart_id.clone());
                    assert(texts(excluded@) =~= texts(ex_before).push(c.chart_id@));
                    assert forall|id: Seq<char>| #[trigger] table_lookup(entries@, id) == resolve(prefix, id) by {
                        assert(resolve(prefix, id) == resolve(charts@.subrange(0, i as int), id));
                    }
                },
            }
            i = i + 1;
        }
        assert(charts@.subrange(0, charts@.len() as int) =~= charts@);
        (ChartTable { entries }, excluded)
    }

    /// The chart that the tracker id `id` stands for.
    pub fn lookup(&self, id: &str) -> (r: Option<Chart>)
        ensures
            r == table_lookup(self.entries@, id@),
    {
        let mut i = self.entries.len();
        assert(self.entries@.subrange(0, i as int) =~= self.entries@);
        while i > 0
            invariant
                i <= self.entries@.len(),
                table_lookup(self.entries@, id@) == table_lookup(self.entries@.subrange(0, i as int), id@),
            decreases i,
        {
            let ghost prefix = self.entries@.subrange(0, i as int);
            assert(prefix.drop_last() =~= self.entries@.subrange(0, i - 1));
            if same_text(self.entries[i - 1].0.as_str(), id) {
                return Some(self.entries[i - 1].1);
            }
            i = i - 1;
        }
        None
    }
}

} // verus!
