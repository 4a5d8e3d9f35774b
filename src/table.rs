use vstd::prelude::*;

use crate::chart::{Chart, Score};
use crate::tree::{PropNode, PropValue};

verus! {

/// No chart appears twice in `s`.
pub open spec fn keys_unique(s: Seq<(Chart, Score)>) -> bool {
    forall|i: int, j: int| 0 <= i < s.len() && 0 <= j < s.len() && i != j ==> s[i].0 != s[j].0
}

/// The identity fields (0 and 1) of `s` name the chart `k`.
pub open spec fn holds_key(k: Chart, s: Score) -> bool {
    s.property@[0] == k.song_id && s.property@[1] == k.difficulty as u32
}

/// Every row of `s` names its own chart in its identity fields.
pub open spec fn keys_match(s: Seq<(Chart, Score)>) -> bool {
    forall|i: int| 0 <= i < s.len() ==> holds_key(#[trigger] s[i].0, s[i].1)
}

/// The map from chart to row fields that `s` holds.
pub open spec fn entries_map(s: Seq<(Chart, Score)>) -> Map<Chart, Seq<u32>>
    decreases s.len(),
{
    if s.len() == 0 {
        Map::empty()
    } else {
        entries_map(s.drop_last()).insert(s.last().0, s.last().1.property@)
    }
}

proof fn lemma_map_dom(s: Seq<(Chart, Score)>, k: Chart)
    ensures
        entries_map(s).contains_key(k) <==> exists|i: int| 0 <= i < s.len() && s[i].0 == k,
    decreases s.len(),
{
    if s.len() > 0 {
        lemma_map_dom(s.drop_last(), k);
        if entries_map(s.drop_last()).contains_key(k) {
            let i = choose|i: int| 0 <= i < s.drop_last().len() && s.drop_last()[i].0 == k;
            assert(s[i].0 == k);
        }
        if exists|i: int| 0 <= i < s.len() && s[i].0 == k {
            let i = choose|i: int| 0 <= i < s.len() && s[i].0 == k;
            if i < s.len() - 1 {
                assert(s.drop_last()[i].0 == k);
            }
        }
    }
}

proof fn lemma_map_at(s: Seq<(Chart, Score)>, i: int)
    requires
        keys_unique(s),
        0 <= i < s.len(),
    ensures
        entries_map(s).contains_key(s[i].0),
        entries_map(s)[s[i].0] == s[i].1.property@,
    decreases s.len(),
{
    if i < s.len() - 1 {
        let t = s.drop_last();
        assert(keys_unique(t));
        lemma_map_at(t, i);
        assert(s[i].0 != s.last().0);
    }
}

proof fn lemma_map_update(s: Seq<(Chart, Score)>, i: int, v: Score)
    requires
        keys_unique(s),
        0 <= i < s.len(),
    ensures
        keys_unique(s.update(i, (s[i].0, v))),
        entries_map(s.update(i, (s[i].0, v))) =~= entries_map(s).insert(s[i].0, v.property@),
    decreases s.len(),
{
    let u = s.update(i, (s[i].0, v));
    assert(u.drop_last() =~= if i == s.len() - 1 { s.drop_last() } else { s.drop_last().update(i, (s[i].0, v)) });
    if i < s.len() - 1 {
        assert(keys_unique(s.drop_last()));
        lemma_map_update(s.drop_last(), i, v);
        assert(s[i].0 != s.last().0);
    }
}

/// `n` is a score row node of the game: `info` holding `param` = the fields.
pub open spec fn is_row_node(n: PropNode, fields: Seq<u32>) -> bool {
    &&& n.key@ == "info"@
    &&& n.attributes@.len() == 0
    &&& n.value is None
    &&& n.children@.len() == 1
    &&& n.children@[0].key@ == "param"@
    &&& n.children@[0].attributes@.len() == 0
    &&& n.children@[0].children@.len() == 0
    &&& match n.children@[0].value {
        Some(PropValue::U32Array(v)) => v@ == fields,
        _ => false,
    }
}

/// The row node of the game for one score row.
pub fn row_node(score: Score) -> (r: PropNode)
    ensures
        is_row_node(r, score.property@),
{
    let param = PropNode::with_value("param", PropValue::U32Array(score.to_property()));
    let r = PropNode::with_nodes("info", vec![param]);
    assert(r.children@[0] == param);
    r
}

/// `n` is the row node of the game for chart `k` with fields `fields`, which
/// begin with the chart's song id and difficulty.
pub open spec fn is_row_of(n: PropNode, k: Chart, fields: Seq<u32>) -> bool {
    &&& is_row_node(n, fields)
    &&& fields.len() == 21
    &&& fields[0] == k.song_id
    &&& fields[1] == k.difficulty as u32
}

/// Score rows keyed by chart, at most one per chart, in insertion order.
pub struct ScoreTable {
    pub entries: Vec<(Chart, Score)>,
}

/// Every row of a map of score rows holds 21 fields.
pub open spec fn full_rows(m: Map<Chart, Seq<u32>>) -> bool {
    forall|c: Chart| m.contains_key(c) ==> #[trigger] m[c].len() == 21
}

proof fn lemma_entries_full(s: Seq<(Chart, Score)>)
    ensures
        full_rows(entries_map(s)),
    decreases s.len(),
{
    if s.len() > 0 {
        lemma_entries_full(s.drop_last());
    }
}

/// Every row of a table holds 21 fields.
pub proof fn lemma_table_full(t: ScoreTable)
    ensures
        full_rows(t@),
{
    lemma_entries_full(t.entries@);
}

/// In a well-formed table each chart of the map has exactly one row, and that
/// row holds the map's fields for it, beginning with the chart's identity.
pub proof fn lemma_table_row(t: ScoreTable, k: Chart)
    requires
        t.wf(),
    ensures
        t@.contains_key(k) <==> exists|i: int| 0 <= i < t.entries@.len() && t.entries@[i].0 == k,
        forall|i: int|
            0 <= i < t.entries@.len() && t.entries@[i].0 == k ==> t@[k] == t.entries@[i].1.property@
                && t@[k][0] == k.song_id && t@[k][1] == k.difficulty as u32,
        forall|i: int, j: int|
            0 <= i < t.entries@.len() && 0 <= j < t.entries@.len() && t.entries@[i].0 == k
                && t.entries@[j].0 == k ==> i == j,
{
    lemma_map_dom(t.entries@, k);
    assert forall|i: int|
        0 <= i < t.entries@.len() && t.entries@[i].0 == k implies t@[k] == t.entries@[i].1.property@
            && t@[k][0] == k.song_id && t@[k][1] == k.difficulty as u32 by {
        lemma_map_at(t.entries@, i);
        assert(holds_key(t.entries@[i].0, t.entries@[i].1));
    }
}

impl View for ScoreTable {
    type V = Map<Chart, Seq<u32>>;

    open spec fn view(&self) -> Map<Chart, Seq<u32>> {
        entries_map(self.entries@)
    }
}

impl ScoreTable {
    /// No chart has two rows, and each row names its chart in fields 0 and 1.
    pub open spec fn wf(&self) -> bool {
        keys_unique(self.entries@) && keys_match(self.entries@)
    }

    /// An empty table.
    pub fn new() -> (r: ScoreTable)
        ensures
            r.wf(),
            r@ == Map::<Chart, Seq<u32>>::empty(),
            r.entries@.len() == 0,
    {
        ScoreTable { entries: Vec::new() }
    }

    /// The position of the row of `k`.
    pub fn find(&self, k: Chart) -> (r: Option<usize>)
        requires
            self.wf(),
        ensures
            r matches Some(i) ==> i < self.entries@.len() && self.entries@[i as int].0 == k
                && self@.contains_key(k) && self@[k] == self.entries@[i as int].1.property@,
            r is None ==> !self@.contains_key(k),
    {
        let mut i: usize = 0;
        while i < self.entries.len()
            invariant
                i <= self.entries@.len(),
                self.wf(),
                forall|j: int| 0 <= j < i ==> self.entries@[j].0 != k,
            decreases self.entries@.len() - i,
        {
            if self.entries[i].0 == k {
                proof {
                    lemma_map_at(self.entries@, i as int);
                }
                return Some(i);
            }
            i = i + 1;
        }
        proof {
            lemma_map_dom(self.entries@, k);
        }
        None
    }

    /// Sets the row of `k` to `s`: in place where `k` has a row, else last.
    pub fn upsert(&mut self, k: Chart, s: Score)
        requires
            old(self).wf(),
            holds_key(k, s),
        ensures
            final(self).wf(),
            final(self)@ == old(self)@.insert(k, s.property@),
    {
        match self.find(k) {
            Some(i) => {
                proof {
                    lemma_map_update(self.entries@, i as int, s);
                }
                self.entries.set(i, (k, s));
            },
            None => {
                proof {
                    lemma_map_dom(self.entries@, k);
                }
                let ghost before = self.entries@;
                self.entries.push((k, s));
                assert(self.entries@.drop_last() =~= before);
                assert(forall|j: int| 0 <= j < before.len() ==> self.entries@[j] == before[j]);
            },
        }
    }

    /// The rows of the table as row nodes of the game, in table order.
    pub fn to_properties(&self) -> (r: Vec<PropNode>)
        requires
            self.wf(),
        ensures
            r@.len() == self.entries@.len(),
            forall|i: int|
                0 <= i < r@.len() ==> is_row_of(
                    #[trigger] r@[i],
                    self.entries@[i].0,
                    self.entries@[i].1.property@,
                ),
    {
        let mut r: Vec<PropNode> = Vec::new();
        let mut i: usize = 0;
        while i < self.entries.len()
            invariant
                i <= self.entries@.len(),
                r@.len() == i,
                self.wf(),
                forall|j: int|
                    0 <= j < i ==> is_row_of(
                        #[trigger] r@[j],
                        self.entries@[j].0,
                        self.entries@[j].1.property@,
                    ),
            decreases self.entries@.len() - i,
        {
            assert(holds_key(self.entries@[i as int].0, self.entries@[i as int].1));
            r.push(row_node(self.entries[i].1));
            i = i + 1;
        }
        r
    }
}

} // verus!
