use vstd::prelude::*;

use crate::capability::{GameProperties, MAXXIVE_VERSION};
use crate::chart::{Chart, Score};
use crate::remote::{
    grade_value, lamp_value, map_grade, map_lamp, resolve, table_lookup, text_of, texts,
    excluded_ids, ChartTable, RemoteChart, RemotePb, RemoteSnapshot,
};
use crate::table::{full_rows, holds_key, is_row_of, lemma_table_full, lemma_table_row, ScoreTable};
use crate::tree::{PropNode, PropValue};

verus! {

/// A local row whose chart no personal best resolves to leaves the merge
/// exactly as it came in.
pub proof fn lemma_untouched_row_kept(
    m: Map<Chart, Seq<u32>>,
    pbs: Seq<RemotePb>,
    charts: Seq<RemoteChart>,
    advanced: bool,
    k: Chart,
)
    requires
        m.contains_key(k),
        forall|i: int| 0 <= i < pbs.len() ==> resolve(charts, #[trigger] pbs[i].chart_id@) != Some(k),
    ensures
        merged(m, pbs, charts, advanced).contains_key(k),
        merged(m, pbs, charts, advanced)[k] == m[k],
    decreases pbs.len(),
{
    if pbs.len() > 0 {
        let t = pbs.drop_last();
        assert forall|i: int| 0 <= i < t.len() implies resolve(charts, #[trigger] t[i].chart_id@) != Some(k) by {
            assert(t[i] == pbs[i]);
        }
        lemma_untouched_row_kept(m, t, charts, advanced, k);
        assert(pbs.last() == pbs[pbs.len() - 1]);
    }
}

/// A row that the merge added for a chart without a local row holds the
/// chart's identity in fields 0 and 1 and zero in every field outside the
/// cloud triplet.
proof fn lemma_added_row_shape(
    m: Map<Chart, Seq<u32>>,
    pbs: Seq<RemotePb>,
    charts: Seq<RemoteChart>,
    advanced: bool,
    k: Chart,
)
    requires
        !m.contains_key(k),
        merged(m, pbs, charts, advanced).contains_key(k),
    ensures
        merged(m, pbs, charts, advanced)[k].len() == 21,
        forall|f: int|
            0 <= f < 21 && !(17 <= f < 20) ==> #[trigger] merged(m, pbs, charts, advanced)[k][f]
                == identity_row(k)[f],
    decreases pbs.len(),
{
    let before = merged(m, pbs.drop_last(), charts, advanced);
    if pbs.len() > 0 {
        if before.contains_key(k) {
            lemma_added_row_shape(m, pbs.drop_last(), charts, advanced, k);
        }
    }
}

/// A chart known only to the tracker comes out of the merge as a new row: the
/// chart's identity, the mapped score, lamp and grade of the last personal
/// best for it, and zero in every other field.
pub proof fn lemma_remote_only_row(
    m: Map<Chart, Seq<u32>>,
    pbs: Seq<RemotePb>,
    charts: Seq<RemoteChart>,
    advanced: bool,
    k: Chart,
    j: int,
)
    requires
        !m.contains_key(k),
        0 <= j < pbs.len(),
        resolve(charts, pbs[j].chart_id@) == Some(k),
        forall|i: int| j < i < pbs.len() ==> resolve(charts, #[trigger] pbs[i].chart_id@) != Some(k),
    ensures
        merged(m, pbs, charts, advanced).contains_key(k),
        merged(m, pbs, charts, advanced)[k] == cloud_applied(identity_row(k), pbs[j], advanced),
        merged(m, pbs, charts, advanced)[k][0] == k.song_id,
        merged(m, pbs, charts, advanced)[k][1] == k.difficulty as u32,
        merged(m, pbs, charts, advanced)[k][17] == pbs[j].score as u32,
        merged(m, pbs, charts, advanced)[k][18] == lamp_value(text_of(pbs[j].lamp), advanced),
        merged(m, pbs, charts, advanced)[k][19] == grade_value(pbs[j].grade) as u32,
        forall|f: int|
            2 <= f < 21 && !(17 <= f < 20) ==> #[trigger] merged(m, pbs, charts, advanced)[k][f] == 0,
    decreases pbs.len(),
{
    let t = pbs.drop_last();
    let before = merged(m, t, charts, advanced);
    if j < pbs.len() - 1 {
        assert forall|i: int| j < i < t.len() implies resolve(charts, #[trigger] t[i].chart_id@) != Some(k) by {
            assert(t[i] == pbs[i]);
        }
        assert(t[j] == pbs[j]);
        lemma_remote_only_row(m, t, charts, advanced, k, j);
        assert(pbs.last() == pbs[pbs.len() - 1]);
    } else {
        assert(pbs.last() == pbs[j]);
        if before.contains_key(k) {
            lemma_added_row_shape(m, t, charts, advanced, k);
            assert(cloud_applied(before[k], pbs[j], advanced) =~= cloud_applied(identity_row(k), pbs[j], advanced));
        }
    }
}

/// Why the local score rows could not be read.
#[derive(Debug, Clone, Copy, PartialEq, Eq, Structural)]
pub enum RowError {
    /// A row has no `param` child.
    MissingParam,
    /// The `param` child of a row has no value.
    MissingValue,
    /// The fields of a row are fewer than 21.
    TooShort,
    /// The difficulty field of a row does not fit in a byte.
    BadDifficulty,
}

/// What one local row node holds: the chart and fields of a score row, or
/// nothing where its value is not an array of `u32`.
pub open spec fn row_entry(row: PropNode) -> Result<Option<(Chart, Seq<u32>)>, RowError> {
    if row.children@.len() == 0 {
        Err(RowError::MissingParam)
    } else {
        match row.children@[0].value {
            None => Err(RowError::MissingValue),
            Some(PropValue::U32Array(v)) => if v@.len() < 21 {
                Err(RowError::TooShort)
            } else if v@[1] > 255 {
                Err(RowError::BadDifficulty)
            } else {
                Ok(Some((Chart { song_id: v@[0], difficulty: v@[1] as u8 }, v@.subrange(0, 21))))
            },
            Some(_) => Ok(None),
        }
    }
}

/// The local score rows by chart (a later row of a chart wins), or the first
/// row error.
pub open spec fn local_map(rows: Seq<PropNode>) -> Result<Map<Chart, Seq<u32>>, RowError>
    decreases rows.len(),
{
    if rows.len() == 0 {
        Ok(Map::empty())
    } else {
        match local_map(rows.drop_last()) {
            Err(e) => Err(e),
            Ok(m) => match row_entry(rows.last()) {
                Err(e) => Err(e),
                Ok(None) => Ok(m),
                Ok(Some((k, v))) => Ok(m.insert(k, v)),
            },
        }
    }
}

/// A new row for chart `k`: its identity and every other field zero.
pub open spec fn identity_row(k: Chart) -> Seq<u32> {
    seq![0u32; 21].update(0, k.song_id).update(1, k.difficulty as u32)
}

/// `row` with its cloud triplet set from the personal best `pb`.
pub open spec fn cloud_applied(row: Seq<u32>, pb: RemotePb, advanced: bool) -> Seq<u32> {
    row.update(17, pb.score as u32).update(18, lamp_value(text_of(pb.lamp), advanced)).update(
        19,
        grade_value(pb.grade) as u32,
    )
}

/// The rows `m` after the personal bests `pbs`, in order, have been applied.
pub open spec fn merged(
    m: Map<Chart, Seq<u32>>,
    pbs: Seq<RemotePb>,
    charts: Seq<RemoteChart>,
    advanced: bool,
) -> Map<Chart, Seq<u32>>
    decreases pbs.len(),
{
    if pbs.len() == 0 {
        m
    } else {
        let before = merged(m, pbs.drop_last(), charts, advanced);
        match resolve(charts, pbs.last().chart_id@) {
            None => before,
            Some(k) => before.insert(
                k,
                cloud_applied(
                    if before.contains_key(k) {
                        before[k]
                    } else {
                        identity_row(k)
                    },
                    pbs.last(),
                    advanced,
                ),
            ),
        }
    }
}

/// The chart ids of the personal bests that name no known chart, in order.
pub open spec fn unresolved_ids(pbs: Seq<RemotePb>, charts: Seq<RemoteChart>) -> Seq<Seq<char>>
    decreases pbs.len(),
{
    if pbs.len() == 0 {
        Seq::empty()
    } else if resolve(charts, pbs.last().chart_id@) is None {
        unresolved_ids(pbs.drop_last(), charts).push(pbs.last().chart_id@)
    } else {
        unresolved_ids(pbs.drop_last(), charts)
    }
}

/// `r` is a `response/game/music` tree whose rows are those of `table`.
pub open spec fn is_music_response(r: PropNode, table: ScoreTable) -> bool {
    &&& r.key@ == "response"@
    &&& r.attributes@.len() == 0
    &&& r.value is None
    &&& r.children@.len() == 1
    &&& r.children@[0].key@ == "game"@
    &&& r.children@[0].attributes@.len() == 0
    &&& r.children@[0].value is None
    &&& r.children@[0].children@.len() == 1
    &&& music_rows(r.children@[0].children@[0], table)
}

/// `music` is a `music` node whose rows are those of `table`, in order.
pub open spec fn music_rows(music: PropNode, table: ScoreTable) -> bool {
    &&& music.key@ == "music"@
    &&& music.attributes@.len() == 0
    &&& music.value is None
    &&& music.children@.len() == table.entries@.len()
    &&& forall|i: int|
        0 <= i < music.children@.len() ==> is_row_of(
            #[trigger] music.children@[i],
            table.entries@[i].0,
            table.entries@[i].1.property@,
        )
}

/// The `music` node of a `response/game/music` tree.
pub open spec fn music_of(r: PropNode) -> PropNode {
    r.children@[0].children@[0]
}

/// `out` holds the rows `m` merged with the personal bests `pbs`, one row per
/// chart, and the response tree that carries them.
pub open spec fn reconciled(
    out: Reconciled,
    m: Map<Chart, Seq<u32>>,
    pbs: Seq<RemotePb>,
    charts: Seq<RemoteChart>,
    advanced: bool,
) -> bool {
    &&& full_rows(m)
    &&& out.table.wf()
    &&& out.table@ == merged(m, pbs, charts, advanced)
    &&& is_music_response(out.response, out.table)
}

/// The charts of the merged rows are those of the local rows and those the
/// personal bests resolve to, no others.
pub proof fn lemma_merged_keys(
    m: Map<Chart, Seq<u32>>,
    pbs: Seq<RemotePb>,
    charts: Seq<RemoteChart>,
    advanced: bool,
    k: Chart,
)
    ensures
        merged(m, pbs, charts, advanced).contains_key(k) <==> (m.contains_key(k) || exists|i: int|
            0 <= i < pbs.len() && resolve(charts, #[trigger] pbs[i].chart_id@) == Some(k)),
    decreases pbs.len(),
{
    if pbs.len() > 0 {
        let t = pbs.drop_last();
        lemma_merged_keys(m, t, charts, advanced, k);
        if exists|i: int| 0 <= i < t.len() && resolve(charts, #[trigger] t[i].chart_id@) == Some(k) {
            let i = choose|i: int| 0 <= i < t.len() && resolve(charts, #[trigger] t[i].chart_id@) == Some(k);
            assert(pbs[i] == t[i]);
        }
        if exists|i: int| 0 <= i < pbs.len() && resolve(charts, #[trigger] pbs[i].chart_id@) == Some(k) {
            let i = choose|i: int| 0 <= i < pbs.len() && resolve(charts, #[trigger] pbs[i].chart_id@) == Some(k);
            if i < t.len() {
                assert(t[i] == pbs[i]);
            } else {
                assert(pbs.last() == pbs[i]);
            }
        }
    }
}

/// Merging keeps every row at 21 fields.
pub proof fn lemma_merged_full(
    m: Map<Chart, Seq<u32>>,
    pbs: Seq<RemotePb>,
    charts: Seq<RemoteChart>,
    advanced: bool,
)
    requires
        full_rows(m),
    ensures
        full_rows(merged(m, pbs, charts, advanced)),
    decreases pbs.len(),
{
    if pbs.len() > 0 {
        lemma_merged_full(m, pbs.drop_last(), charts, advanced);
    }
}

/// After the last personal best for chart `k`, the row of `k` holds that personal best's score, mapped lamp and
/// mapped grade as its cloud triplet.
pub proof fn lemma_last_pb_triplet(
    m: Map<Chart, Seq<u32>>,
    pbs: Seq<RemotePb>,
    charts: Seq<RemoteChart>,
    advanced: bool,
    k: Chart,
    j: int,
)
    requires
        full_rows(m),
        0 <= j < pbs.len(),
        resolve(charts, pbs[j].chart_id@) == Some(k),
        forall|i: int| j < i < pbs.len() ==> resolve(charts, #[trigger] pbs[i].chart_id@) != Some(k),
    ensures
        merged(m, pbs, charts, advanced).contains_key(k),
        merged(m, pbs, charts, advanced)[k][17] == pbs[j].score as u32,
        merged(m, pbs, charts, advanced)[k][18] == lamp_value(text_of(pbs[j].lamp), advanced),
        merged(m, pbs, charts, advanced)[k][19] == grade_value(pbs[j].grade) as u32,
    decreases pbs.len(),
{
    let t = pbs.drop_last();
    if j < pbs.len() - 1 {
        assert forall|i: int| j < i < t.len() implies resolve(charts, #[trigger] t[i].chart_id@) != Some(k) by {
            assert(t[i] == pbs[i]);
        }
        assert(t[j] == pbs[j]);
        lemma_last_pb_triplet(m, t, charts, advanced, k, j);
        assert(pbs.last() == pbs[pbs.len() - 1]);
    } else {
        assert(pbs.last() == pbs[j]);
        let before = merged(m, t, charts, advanced);
        let prev = if before.contains_key(k) {
            before[k]
        } else {
            identity_row(k)
        };
        lemma_merged_full(m, t, charts, advanced);
        assert(prev.len() == 21);
        let v = cloud_applied(prev, pbs[j], advanced);
        assert(merged(m, pbs, charts, advanced)[k] == v);
    }
}

/// In a reconciled response, a chart of the merged rows has exactly one row,
/// at position `i`, and it holds the merged fields of that chart.
pub proof fn lemma_response_row(out: Reconciled, k: Chart) -> (i: int)
    requires
        out.table.wf(),
        is_music_response(out.response, out.table),
        out.table@.contains_key(k),
    ensures
        0 <= i < music_of(out.response).children@.len(),
        is_row_of(music_of(out.response).children@[i], k, out.table@[k]),
        forall|j: int|
            0 <= j < music_of(out.response).children@.len() && j != i ==> is_row_of(
                #[trigger] music_of(out.response).children@[j],
                out.table.entries@[j].0,
                out.table.entries@[j].1.property@,
            ) && out.table.entries@[j].0 != k,
{
    lemma_table_row(out.table, k);
    let i = choose|i: int| 0 <= i < out.table.entries@.len() && out.table.entries@[i].0 == k;
    i
}

/// A local row whose chart no personal best names comes out of a
/// reconciliation as the one row of its chart, every field unchanged.
pub proof fn lemma_untouched_row_in_response(
    out: Reconciled,
    rows: Seq<PropNode>,
    pbs: Seq<RemotePb>,
    charts: Seq<RemoteChart>,
    advanced: bool,
    k: Chart,
) -> (i: int)
    requires
        local_map(rows) is Ok,
        local_map(rows)->Ok_0.contains_key(k),
        reconciled(out, local_map(rows)->Ok_0, pbs, charts, advanced),
        forall|j: int| 0 <= j < pbs.len() ==> resolve(charts, #[trigger] pbs[j].chart_id@) != Some(k),
    ensures
        is_row_of(music_of(out.response).children@[i], k, local_map(rows)->Ok_0[k]),
        forall|j: int|
            0 <= j < music_of(out.response).children@.len() && j != i ==> out.table.entries@[j].0
                != k,
{
    lemma_untouched_row_kept(local_map(rows)->Ok_0, pbs, charts, advanced, k);
    lemma_response_row(out, k)
}

/// A chart that only the tracker knows comes out of a reconciliation as one
/// new row: the chart's identity, the cloud triplet of its last personal best,
/// and zero elsewhere.
pub proof fn lemma_remote_only_row_in_response(
    out: Reconciled,
    m: Map<Chart, Seq<u32>>,
    pbs: Seq<RemotePb>,
    charts: Seq<RemoteChart>,
    advanced: bool,
    k: Chart,
    j: int,
) -> (i: int)
    requires
        reconciled(out, m, pbs, charts, advanced),
        !m.contains_key(k),
        0 <= j < pbs.len(),
        resolve(charts, pbs[j].chart_id@) == Some(k),
        forall|l: int| j < l < pbs.len() ==> resolve(charts, #[trigger] pbs[l].chart_id@) != Some(k),
    ensures
        is_row_of(
            music_of(out.response).children@[i],
            k,
            cloud_applied(identity_row(k), pbs[j], advanced),
        ),
        forall|l: int|
            0 <= l < music_of(out.response).children@.len() && l != i ==> out.table.entries@[l].0
                != k,
{
    lemma_remote_only_row(m, pbs, charts, advanced, k, j);
    lemma_response_row(out, k)
}

/// In a reconciliation, the row of a chart named by personal bests carries, in
/// fields 17 to 19, the last one's score, its lamp as the game shows it
/// (downgraded where the advanced tier is missing) and its grade `min(g + 1, 10)`.
pub proof fn lemma_cloud_triplet_in_response(
    out: Reconciled,
    m: Map<Chart, Seq<u32>>,
    pbs: Seq<RemotePb>,
    charts: Seq<RemoteChart>,
    advanced: bool,
    k: Chart,
    j: int,
) -> (i: int)
    requires
        reconciled(out, m, pbs, charts, advanced),
        0 <= j < pbs.len(),
        resolve(charts, pbs[j].chart_id@) == Some(k),
        forall|l: int| j < l < pbs.len() ==> resolve(charts, #[trigger] pbs[l].chart_id@) != Some(k),
    ensures
        is_row_of(music_of(out.response).children@[i], k, out.table@[k]),
        out.table@[k][17] == pbs[j].score as u32,
        out.table@[k][18] == lamp_value(text_of(pbs[j].lamp), advanced),
        out.table@[k][19] == grade_value(pbs[j].grade) as u32,
        forall|l: int|
            0 <= l < music_of(out.response).children@.len() && l != i ==> out.table.entries@[l].0
                != k,
{
    lemma_last_pb_triplet(m, pbs, charts, advanced, k, j);
    lemma_response_row(out, k)
}

/// The outcome of a reconciliation.
pub struct Reconciled {
    /// The response tree to hand to the game.
    pub response: PropNode,
    /// The merged rows.
    pub table: ScoreTable,
    /// Ids of personal bests whose chart is unknown; they were skipped.
    pub unresolved: Vec<String>,
    /// Ids of tracker charts that missed a field; they were left out.
    pub excluded: Vec<String>,
}

/// Reads one local row node.
fn read_row(row: &PropNode) -> (r: Result<Option<(Chart, Score)>, RowError>)
    ensures
        match row_entry(*row) {
            Err(e) => r == Err::<Option<(Chart, Score)>, RowError>(e),
            Ok(None) => r == Ok::<Option<(Chart, Score)>, RowError>(None),
            Ok(Some((k, v))) => r matches Ok(Some((k2, s))) && k2 == k && s.property@ == v
                && holds_key(k, s),
        },
{
    if row.children.len() == 0 {
        return Err(RowError::MissingParam);
    }
    match &row.children[0].value {
        None => Err(RowError::MissingValue),
        Some(PropValue::U32Array(v)) => match Score::from_slice(v.as_slice()) {
            Ok(s) => if v[1] > 255 {
                Err(RowError::BadDifficulty)
            } else {
                Ok(Some((Chart { song_id: v[0], difficulty: v[1] as u8 }, s)))
            },
            Err(_) => Err(RowError::TooShort),
        },
        Some(_) => Ok(None),
    }
}

proof fn lemma_error_sticks(rows: Seq<PropNode>, j: int)
    requires
        0 <= j <= rows.len(),
        local_map(rows.subrange(0, j)) is Err,
    ensures
        local_map(rows) == local_map(rows.subrange(0, j)),
    decreases rows.len(),
{
    if j < rows.len() {
        assert(rows.drop_last().subrange(0, j) =~= rows.subrange(0, j));
        lemma_error_sticks(rows.drop_last(), j);
    } else {
        assert(rows.subrange(0, j) =~= rows);
    }
}

/// Reads the local score rows of a `music` node.
pub fn parse_local(rows: &Vec<PropNode>) -> (r: Result<ScoreTable, RowError>)
    ensures
        match local_map(rows@) {
            Err(e) => r == Err::<ScoreTable, RowError>(e),
            Ok(m) => r matches Ok(t) && t.wf() && t@ == m,
        },
{
    let mut table = ScoreTable::new();
    let mut i: usize = 0;
    while i < rows.len()
        invariant
            i <= rows@.len(),
            table.wf(),
            local_map(rows@.subrange(0, i as int)) == Ok::<Map<Chart, Seq<u32>>, RowError>(table@),
        decreases rows@.len() - i,
    {
        let ghost prefix = rows@.subrange(0, i + 1);
        assert(prefix.drop_last() =~= rows@.subrange(0, i as int));
        match read_row(&rows[i]) {
            Err(e) => {
                proof {
                    lemma_error_sticks(rows@, i + 1);
                }
                return Err(e);
            },
            Ok(None) => {},
            Ok(Some((k, s))) => {
                table.upsert(k, s);
            },
        }
        i = i + 1;
    }
    assert(rows@.subrange(0, rows@.len() as int) =~= rows@);
    Ok(table)
}

/// Wraps score row nodes as a `response/game/music` tree.
pub fn build_response_base(scores: Vec<PropNode>) -> (r: PropNode)
    ensures
        r.key@ == "response"@,
        r.attributes@.len() == 0,
        r.value is None,
        r.children@.len() == 1,
        r.children@[0].key@ == "game"@,
        r.children@[0].attributes@.len() == 0,
        r.children@[0].value is None,
        r.children@[0].children@.len() == 1,
        r.children@[0].children@[0].key@ == "music"@,
        r.children@[0].children@[0].attributes@.len() == 0,
        r.children@[0].children@[0].value is None,
        r.children@[0].children@[0].children@ == scores@,
{
    let music = PropNode::with_nodes("music", scores);
    let game = PropNode::with_nodes("game", vec![music]);
    let r = PropNode::with_nodes("response", vec![game]);
    assert(r.children@[0] == game);
    assert(game.children@[0] == music);
    r
}

/// Merges the local score rows of `music` with the personal bests of
/// `snapshot`, and builds the response tree that carries the result.
///
/// A personal best overwrites only the cloud triplet (fields 17 to 19) of the
/// row of its chart; for a chart without a local row it adds a row that holds
/// the chart's identity, the triplet, and zero elsewhere. A personal best whose
/// chart is unknown is skipped and its id reported. Fails only on a malformed
/// local row.
pub fn process_pbs(music: &PropNode, snapshot: &RemoteSnapshot, game: &GameProperties) -> (r:
    Result<Reconciled, RowError>)
    ensures
        match local_map(music.children@) {
            Err(e) => r is Err && r->Err_0 == e,
            Ok(m) => r matches Ok(out) && reconciled(
                out,
                m,
                snapshot.pbs@,
                snapshot.charts@,
                game@.ext >= MAXXIVE_VERSION,
            ) && texts(out.unresolved@) == unresolved_ids(snapshot.pbs@, snapshot.charts@)
                && texts(out.excluded@) == excluded_ids(snapshot.charts@),
        },
{
    let (charts, excluded) = ChartTable::build(&snapshot.charts);
    let mut table = match parse_local(&music.children) {
        Ok(t) => t,
        Err(e) => {
            return Err(e);
        },
    };
    let advanced = game.supports_advanced_lamp_tier();
    let ghost m = table@;
    proof {
        lemma_table_full(table);
    }
    let ghost all = snapshot.pbs@;
    let mut unresolved: Vec<String> = Vec::new();
    let mut i: usize = 0;
    assert(all.subrange(0, 0) =~= Seq::<RemotePb>::empty());
    assert(texts(unresolved@) =~= Seq::<Seq<char>>::empty());
    while i < snapshot.pbs.len()
        invariant
            i <= all.len(),
            all == snapshot.pbs@,
            advanced == (game@.ext >= MAXXIVE_VERSION),
            forall|id: Seq<char>| #[trigger] table_lookup(charts.entries@, id) == resolve(snapshot.charts@, id),
            table.wf(),
            table@ == merged(m, all.subrange(0, i as int), snapshot.charts@, advanced),
            texts(unresolved@) == unresolved_ids(all.subrange(0, i as int), snapshot.charts@),
        decreases all.len() - i,
    {
        let pb = &snapshot.pbs[i];
        let ghost prefix = all.subrange(0, i + 1);
        assert(prefix.drop_last() =~= all.subrange(0, i as int));
        assert(prefix.last() == *pb);
        match charts.lookup(pb.chart_id.as_str()) {
            None => {
                let ghost before = unresolved@;
                unresolved.push(pb.chart_id.clone());
                assert(texts(unresolved@) =~= texts(before).push(pb.chart_id@));
            },
            Some(k) => {
                let lamp = map_lamp(&pb.lamp, advanced);
                let grade = map_grade(pb.grade);
                let ghost before = table@;
                let row = match table.find(k) {
                    Some(j) => {
                        let mut s = table.entries[j].1;
                        *s.cloud_score_mut() = pb.score as u32;
                        *s.cloud_clear_mut() = lamp;
                        *s.cloud_grade_mut() = grade as u32;
                        proof {
                            lemma_table_row(table, k);
                        }
                        assert(s.property@ =~= cloud_applied(before[k], *pb, advanced));
                        s
                    },
                    None => {
                        let mut s = Score::from_cloud(pb.score as u32, lamp as u8, grade as u8);
                        s.property[0] = k.song_id;
                        s.property[1] = k.difficulty as u32;
                        assert(s.property@ =~= cloud_applied(identity_row(k), *pb, advanced));
                        s
                    },
                };
                table.upsert(k, row);
            },
        }
        i = i + 1;
    }
    assert(all.subrange(0, all.len() as int) =~= all);
    let response = build_response_base(table.to_properties());
    Ok(Reconciled { response, table, unresolved, excluded })
}

} // verus!
