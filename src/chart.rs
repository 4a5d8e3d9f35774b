use vstd::prelude::*;

verus! {

/// Number of numeric fields in one score row.
pub const SCORE_FIELDS: usize = 21;

/// Index of the cloud score field.
pub const CLOUD_SCORE: usize = 17;

/// Index of the cloud lamp (clear type) field.
pub const CLOUD_CLEAR: usize = 18;

/// Index of the cloud grade field.
pub const CLOUD_GRADE: usize = 19;

/// Why a score row could not be read.
#[derive(Debug, Clone, Copy, PartialEq, Eq, Structural)]
pub enum ScoreError {
    /// The row holds fewer than 21 values.
    TooShort,
}

/// One playable chart: a song and one of its difficulties.
#[derive(Debug, Clone, Copy, Default, PartialEq, Eq, Hash, Structural)]
pub struct Chart {
    pub song_id: u32,
    pub difficulty: u8,
}

/// A score row of the game: 21 numeric fields. Fields 0 and 1 name the chart,
/// 2 to 16 are kept by the device, 17 to 19 are the cloud score, lamp and grade.
#[derive(Debug, Clone, Copy)]
pub struct Score {
    pub property: [u32; 21],
}

impl Score {
    /// A row with every field zero but the cloud triplet.
    pub fn from_cloud(score: u32, clear: u8, grade: u8) -> (r: Self)
        ensures
            r.property@ == seq![0u32; 21].update(17, score).update(18, clear as u32).update(19, grade as u32),
    {
        let mut property = [0u32; 21];
        property[CLOUD_SCORE] = score;
        property[CLOUD_CLEAR] = clear as u32;
        property[CLOUD_GRADE] = grade as u32;
        let r = Score { property };
        assert(r.property@ =~= seq![0u32; 21].update(17, score).update(18, clear as u32).update(19, grade as u32));
        r
    }

    /// The first 21 values of `vec`; fails on a shorter slice.
    pub fn from_slice(vec: &[u32]) -> (r: Result<Self, ScoreError>)
        ensures
            vec@.len() < 21 ==> r == Err::<Self, ScoreError>(ScoreError::TooShort),
            vec@.len() >= 21 ==> r is Ok && r->Ok_0.property@ == vec@.subrange(0, 21),
    {
        if vec.len() < SCORE_FIELDS {
            return Err(ScoreError::TooShort);
        }
        let mut property = [0u32; 21];
        let mut i: usize = 0;
        while i < SCORE_FIELDS
            invariant
                i <= 21,
                vec@.len() >= 21,
                forall|j: int| 0 <= j < i ==> property@[j] == vec@[j],
            decreases 21 - i,
        {
            property[i] = vec[i];
            i = i + 1;
        }
        let r = Score { property };
        assert(r.property@ =~= vec@.subrange(0, 21));
        Ok(r)
    }

    /// The cloud score field, for writing.
    pub fn cloud_score_mut(&mut self) -> (r: &mut u32)
        ensures
            *r == old(self).property[17],
            final(self).property@ == old(self).property@.update(17, *final(r)),
    {
        &mut self.property[CLOUD_SCORE]
    }

    /// The cloud lamp field, for writing.
    pub fn cloud_clear_mut(&mut self) -> (r: &mut u32)
        ensures
            *r == old(self).property[18],
            final(self).property@ == old(self).property@.update(18, *final(r)),
    {
        &mut self.property[CLOUD_CLEAR]
    }

    /// The cloud grade field, for writing.
    pub fn cloud_grade_mut(&mut self) -> (r: &mut u32)
        ensures
            *r == old(self).property[19],
            final(self).property@ == old(self).property@.update(19, *final(r)),
    {
        &mut self.property[CLOUD_GRADE]
    }

    /// The row as a vector of its 21 fields.
    pub fn to_property(self) -> (r: Vec<u32>)
        ensures
            r@ == self.property@,
    {
        let mut r: Vec<u32> = Vec::new();
        let mut i: usize = 0;
        while i < SCORE_FIELDS
            invariant
                i <= 21,
                r@ == self.property@.subrange(0, i as int),
            decreases 21 - i,
        {
            r.push(self.property[i]);
            i = i + 1;
            assert(r@ =~= self.property@.subrange(0, i as int));
        }
        assert(r@ =~= self.property@);
        r
    }
}

} // verus!
