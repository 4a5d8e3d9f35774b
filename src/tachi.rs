use vstd::prelude::*;

verus! {

/// A clear lamp as the score tracker names it.
#[derive(Debug, Clone, Copy, PartialEq, Eq, Structural)]
pub enum TachiLamp {
    Failed,
    Clear,
    ExcessiveClear,
    UltimateChain,
    PerfectUltimateChain,
    MaxxiveClear,
}

/// The token of each lamp in the score tracker's data.
pub open spec fn lamp_of_token(t: Seq<char>) -> Option<TachiLamp> {
    if t == "FAILED"@ {
        Some(TachiLamp::Failed)
    } else if t == "CLEAR"@ {
        Some(TachiLamp::Clear)
    } else if t == "EXCESSIVE CLEAR"@ {
        Some(TachiLamp::ExcessiveClear)
    } else if t == "ULTIMATE CHAIN"@ {
        Some(TachiLamp::UltimateChain)
    } else if t == "PERFECT ULTIMATE CHAIN"@ {
        Some(TachiLamp::PerfectUltimateChain)
    } else if t == "MAXXIVE CLEAR"@ {
        Some(TachiLamp::MaxxiveClear)
    } else {
        None
    }
}

/// Whether two texts are equal.
pub fn same_text(a: &str, b: &str) -> (r: bool)
    ensures
        r == (a@ == b@),
{
    let x = a.to_owned();
    let y = b.to_owned();
    x == y
}

impl TachiLamp {
    /// The game's numeric clear type of each lamp.
    pub open spec fn spec_value(self) -> u32 {
        match self {
            TachiLamp::Failed => 1,
            TachiLamp::Clear => 2,
            TachiLamp::ExcessiveClear => 3,
            TachiLamp::UltimateChain => 4,
            TachiLamp::PerfectUltimateChain => 5,
            TachiLamp::MaxxiveClear => 6,
        }
    }

    /// The game's numeric clear type of this lamp.
    pub fn value(&self) -> (r: u32)
        ensures
            r == self.spec_value(),
    {
        match self {
            TachiLamp::Failed => 1,
            TachiLamp::Clear => 2,
            TachiLamp::ExcessiveClear => 3,
            TachiLamp::UltimateChain => 4,
            TachiLamp::PerfectUltimateChain => 5,
            TachiLamp::MaxxiveClear => 6,
        }
    }

    /// The lamp of a numeric clear type; an unknown number reads as `Failed`.
    pub open spec fn spec_from_value(v: u32) -> TachiLamp {
        if v == 2 {
            TachiLamp::Clear
        } else if v == 3 {
            TachiLamp::ExcessiveClear
        } else if v == 4 {
            TachiLamp::UltimateChain
        } else if v == 5 {
            TachiLamp::PerfectUltimateChain
        } else if v == 6 {
            TachiLamp::MaxxiveClear
        } else {
            TachiLamp::Failed
        }
    }

    /// The lamp of a numeric clear type; an unknown number reads as `Failed`.
    pub fn from_primitive(v: u32) -> (r: TachiLamp)
        ensures
            r == Self::spec_from_value(v),
            1 <= v <= 6 ==> r.spec_value() == v,
            !(1 <= v <= 6) ==> r == TachiLamp::Failed,
    {
        if v == 2 {
            TachiLamp::Clear
        } else if v == 3 {
            TachiLamp::ExcessiveClear
        } else if v == 4 {
            TachiLamp::UltimateChain
        } else if v == 5 {
            TachiLamp::PerfectUltimateChain
        } else if v == 6 {
            TachiLamp::MaxxiveClear
        } else {
            TachiLamp::Failed
        }
    }

    /// The lamp that the score tracker's token names.
    pub fn from_token(t: &str) -> (r: Option<TachiLamp>)
        ensures
            r == lamp_of_token(t@),
    {
        if same_text(t, "FAILED") {
            Some(TachiLamp::Failed)
        } else if same_text(t, "CLEAR") {
            Some(TachiLamp::Clear)
        } else if same_text(t, "EXCESSIVE CLEAR") {
            Some(TachiLamp::ExcessiveClear)
        } else if same_text(t, "ULTIMATE CHAIN") {
            Some(TachiLamp::UltimateChain)
        } else if same_text(t, "PERFECT ULTIMATE CHAIN") {
            Some(TachiLamp::PerfectUltimateChain)
        } else if same_text(t, "MAXXIVE CLEAR") {
            Some(TachiLamp::MaxxiveClear)
        } else {
            None
        }
    }
}

/// A chart difficulty as the score tracker names it.
#[derive(Debug, Clone, Copy, PartialEq, Eq, Structural)]
pub enum Difficulty {
    Novice,
    Advanced,
    Exhaust,
    AnyInfinite,
    Maximum,
}

/// The token of each difficulty in the score tracker's data.
pub open spec fn difficulty_of_token(t: Seq<char>) -> Option<Difficulty> {
    if t == "NOV"@ {
        Some(Difficulty::Novice)
    } else if t == "ADV"@ {
        Some(Difficulty::Advanced)
    } else if t == "EXH"@ {
        Some(Difficulty::Exhaust)
    } else if t == "ANY_INF"@ {
        Some(Difficulty::AnyInfinite)
    } else if t == "MXM"@ {
        Some(Difficulty::Maximum)
    } else {
        None
    }
}

impl Difficulty {
    /// The game's numeric difficulty of each difficulty.
    pub open spec fn spec_value(self) -> u32 {
        match self {
            Difficulty::Novice => 0,
            Difficulty::Advanced => 1,
            Difficulty::Exhaust => 2,
            Difficulty::AnyInfinite => 3,
            Difficulty::Maximum => 4,
        }
    }

    /// The game's numeric difficulty.
    pub fn value(&self) -> (r: u32)
        ensures
            r == self.spec_value(),
    {
        match self {
            Difficulty::Novice => 0,
            Difficulty::Advanced => 1,
            Difficulty::Exhaust => 2,
            Difficulty::AnyInfinite => 3,
            Difficulty::Maximum => 4,
        }
    }

    /// The difficulty of a numeric value; an unknown number reads as `Novice`.
    pub open spec fn spec_from_value(v: u32) -> Difficulty {
        if v == 1 {
            Difficulty::Advanced
        } else if v == 2 {
            Difficulty::Exhaust
        } else if v == 3 {
            Difficulty::AnyInfinite
        } else if v == 4 {
            Difficulty::Maximum
        } else {
            Difficulty::Novice
        }
    }

    /// The difficulty of a numeric value; an unknown number reads as `Novice`.
    pub fn from_primitive(v: u32) -> (r: Difficulty)
        ensures
            r == Self::spec_from_value(v),
            v <= 4 ==> r.spec_value() == v,
            v > 4 ==> r == Difficulty::Novice,
    {
        if v == 1 {
            Difficulty::Advanced
        } else if v == 2 {
            Difficulty::Exhaust
        } else if v == 3 {
            Difficulty::AnyInfinite
        } else if v == 4 {
            Difficulty::Maximum
        } else {
            Difficulty::Novice
        }
    }

    /// The difficulty that the score tracker's token names.
    pub fn from_token(t: &str) -> (r: Option<Difficulty>)
        ensures
            r == difficulty_of_token(t@),
    {
        if same_text(t, "NOV") {
            Some(Difficulty::Novice)
        } else if same_text(t, "ADV") {
            Some(Difficulty::Advanced)
        } else if same_text(t, "EXH") {
            Some(Difficulty::Exhaust)
        } else if same_text(t, "ANY_INF") {
            Some(Difficulty::AnyInfinite)
        } else if same_text(t, "MXM") {
            Some(Difficulty::Maximum)
        } else {
            None
        }
    }
}

/// A skill level (class) of the game, from the first dan to infinite.
#[derive(Debug, Clone, Copy, PartialEq, Eq, Structural)]
pub enum SkillLevel {
    First,
    Second,
    Third,
    Fourth,
    Fifth,
    Sixth,
    Seventh,
    Eighth,
    Ninth,
    Tenth,
    Eleventh,
    Infinite,
}

impl SkillLevel {
    /// The game's number of each level.
    pub open spec fn spec_value(self) -> u32 {
        match self {
            SkillLevel::First => 1,
            SkillLevel::Second => 2,
            SkillLevel::Third => 3,
            SkillLevel::Fourth => 4,
            SkillLevel::Fifth => 5,
            SkillLevel::Sixth => 6,
            SkillLevel::Seventh => 7,
            SkillLevel::Eighth => 8,
            SkillLevel::Ninth => 9,
            SkillLevel::Tenth => 10,
            SkillLevel::Eleventh => 11,
            SkillLevel::Infinite => 12,
        }
    }

    /// The level of a number; an unknown number reads as `First`.
    pub open spec fn spec_from_value(v: u32) -> SkillLevel {
        if v == 2 {
            SkillLevel::Second
        } else if v == 3 {
            SkillLevel::Third
        } else if v == 4 {
            SkillLevel::Fourth
        } else if v == 5 {
            SkillLevel::Fifth
        } else if v == 6 {
            SkillLevel::Sixth
        } else if v == 7 {
            SkillLevel::Seventh
        } else if v == 8 {
            SkillLevel::Eighth
        } else if v == 9 {
            SkillLevel::Ninth
        } else if v == 10 {
            SkillLevel::Tenth
        } else if v == 11 {
            SkillLevel::Eleventh
        } else if v == 12 {
            SkillLevel::Infinite
        } else {
            SkillLevel::First
        }
    }

    /// The level of a number; an unknown number reads as `First`.
    pub fn from_primitive(v: u32) -> (r: SkillLevel)
        ensures
            r == Self::spec_from_value(v),
            1 <= v <= 12 ==> r.spec_value() == v,
            !(1 <= v <= 12) ==> r == SkillLevel::First,
    {
        match v {
            2 => SkillLevel::Second,
            3 => SkillLevel::Third,
            4 => SkillLevel::Fourth,
            5 => SkillLevel::Fifth,
            6 => SkillLevel::Sixth,
            7 => SkillLevel::Seventh,
            8 => SkillLevel::Eighth,
            9 => SkillLevel::Ninth,
            10 => SkillLevel::Tenth,
            11 => SkillLevel::Eleventh,
            12 => SkillLevel::Infinite,
            _ => SkillLevel::First,
        }
    }
}

} // verus!
