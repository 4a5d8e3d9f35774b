use vstd::prelude::*;

use crate::tachi::same_text;
use vstd::string::StringExecFns;

verus! {

/// The first version with the maxxive clear lamp.
pub const MAXXIVE_VERSION: u64 = 2025042200;

/// The first version with ultimate charts.
pub const ULTIMATE_VERSION: u64 = 2025062400;

/// The oldest version this library supports.
pub const OLDEST_VERSION: u64 = 2022083000;

/// Whether every character of `s` is an ASCII digit.
pub open spec fn all_digits(s: Seq<char>) -> bool {
    forall|i: int| 0 <= i < s.len() ==> '0' <= #[trigger] s[i] <= '9'
}

/// The number that the decimal digits `s` write.
pub open spec fn digits_value(s: Seq<char>) -> int
    decreases s.len(),
{
    if s.len() == 0 {
        0
    } else {
        digits_value(s.drop_last()) * 10 + (s.last() as int - '0' as int)
    }
}

/// The digits of a decimal text after an optional leading `+`.
pub open spec fn unsigned_digits(s: Seq<char>) -> Seq<char> {
    if s.len() > 0 && s[0] == '+' {
        s.drop_first()
    } else {
        s
    }
}

/// The `u64` that a decimal text writes: an optional `+`, then one or more
/// digits, of a value that fits.
pub open spec fn parsed_u64(s: Seq<char>) -> Option<u64> {
    let d = unsigned_digits(s);
    if d.len() > 0 && all_digits(d) && digits_value(d) <= u64::MAX {
        Some(digits_value(d) as u64)
    } else {
        None
    }
}

proof fn lemma_digits_nonneg(s: Seq<char>)
    requires
        all_digits(s),
    ensures
        digits_value(s) >= 0,
    decreases s.len(),
{
    if s.len() > 0 {
        assert(all_digits(s.drop_last()));
        lemma_digits_nonneg(s.drop_last());
    }
}

/// Reads a decimal `u64` as `str::parse` does.
pub fn parse_u64(s: &str) -> (r: Option<u64>)
    ensures
        r == parsed_u64(s@),
{
    let n = s.unicode_len();
    let start: usize = if n > 0 && s.get_char(0) == '+' { 1 } else { 0 };
    let ghost d = unsigned_digits(s@);
    assert(d =~= s@.subrange(start as int, n as int));
    if start >= n {
        return None;
    }
    let mut value: u64 = 0;
    let mut too_big = false;
    let mut i = start;
    while i < n
        invariant
            start <= i <= n,
            n == s@.len(),
            d == s@.subrange(start as int, n as int),
            d == unsigned_digits(s@),
            all_digits(s@.subrange(start as int, i as int)),
            !too_big ==> value == digits_value(s@.subrange(start as int, i as int)),
            too_big ==> digits_value(s@.subrange(start as int, i as int)) > u64::MAX,
        decreases n - i,
    {
        let c = s.get_char(i);
        if !('0' <= c && c <= '9') {
            assert(d[i - start] == c);
            assert(!all_digits(d));
            return None;
        }
        let ghost prev = s@.subrange(start as int, i as int);
        let ghost next = s@.subrange(start as int, i + 1);
        assert(next.drop_last() =~= prev);
        assert(next.last() == c);
        let digit = (c as u32 - '0' as u32) as u64;
        proof {
            lemma_digits_nonneg(prev);
        }
        if !too_big {
            if value > (u64::MAX - digit) / 10 {
                too_big = true;
                assert(digits_value(next) > u64::MAX) by (nonlinear_arith)
                    requires
                        value > (u64::MAX - digit) / 10,
                        digits_value(next) == value * 10 + digit,
                        digit <= 9,
                ;
            } else {
                assert(value * 10 + digit <= u64::MAX) by (nonlinear_arith)
                    requires
                        value <= (u64::MAX - digit) / 10,
                        digit <= 9,
                ;
                value = value * 10 + digit;
            }
        } else {
            assert(digits_value(next) >= digits_value(prev)) by (nonlinear_arith)
                requires
                    digits_value(next) == digits_value(prev) * 10 + digit,
                    digits_value(prev) >= 0,
                    digit <= 9,
            ;
        }
        i = i + 1;
        assert(all_digits(s@.subrange(start as int, i as int)));
    }
    if too_big {
        None
    } else {
        Some(value)
    }
}

/// The character of a decimal digit.
pub open spec fn digit_char(d: int) -> char {
    if d == 0 {
        '0'
    } else if d == 1 {
        '1'
    } else if d == 2 {
        '2'
    } else if d == 3 {
        '3'
    } else if d == 4 {
        '4'
    } else if d == 5 {
        '5'
    } else if d == 6 {
        '6'
    } else if d == 7 {
        '7'
    } else if d == 8 {
        '8'
    } else {
        '9'
    }
}

/// The decimal text of `n`, without leading zeros.
pub open spec fn decimal_text(n: nat) -> Seq<char>
    decreases n,
{
    if n < 10 {
        seq![digit_char(n as int)]
    } else {
        decimal_text(n / 10) + seq![digit_char((n % 10) as int)]
    }
}

/// The text of one decimal digit.
fn digit_str(d: u64) -> (r: &'static str)
    requires
        d < 10,
    ensures
        r@ == seq![digit_char(d as int)],
{
    match d {
        0 => {
            proof {
                reveal_strlit("0");
            }
            "0"
        },
        1 => {
            proof {
                reveal_strlit("1");
            }
            "1"
        },
        2 => {
            proof {
                reveal_strlit("2");
            }
            "2"
        },
        3 => {
            proof {
                reveal_strlit("3");
            }
            "3"
        },
        4 => {
            proof {
                reveal_strlit("4");
            }
            "4"
        },
        5 => {
            proof {
                reveal_strlit("5");
            }
            "5"
        },
        6 => {
            proof {
                reveal_strlit("6");
            }
            "6"
        },
        7 => {
            proof {
                reveal_strlit("7");
            }
            "7"
        },
        8 => {
            proof {
                reveal_strlit("8");
            }
            "8"
        },
        _ => {
            proof {
                reveal_strlit("9");
            }
            "9"
        },
    }
}

/// The decimal text of `n`.
pub fn decimal_string(n: u64) -> (r: String)
    ensures
        r@ == decimal_text(n as nat),
    decreases n,
{
    if n < 10 {
        digit_str(n).to_owned()
    } else {
        let head = decimal_string(n / 10);
        let r = head.concat(digit_str(n % 10));
        r
    }
}

/// The version fingerprint of the connected game, as plain values.
pub struct Fingerprint {
    pub model: Seq<char>,
    pub dest: Seq<char>,
    pub spec: Seq<char>,
    pub revision: Seq<char>,
    pub ext: u64,
}

/// The game's version fingerprint and the features derived from it.
#[derive(Debug)]
pub struct GameProperties {
    model: String,
    dest: String,
    spec: String,
    revision: String,
    ext: u64,
    valkyrie: bool,
    maxxive_support: bool,
    ultimate_support: bool,
}

/// Why the game's configuration is not supported.
#[derive(Debug)]
pub enum NotSupportedReason {
    /// The game is another model than `KFC`.
    WrongModel(String),
    /// A modified data set (destination `O` or `X`) is in use.
    OmnimixDetected,
    /// The game is older than the oldest supported version.
    TooOld(u64),
}

impl View for GameProperties {
    type V = Fingerprint;

    closed spec fn view(&self) -> Fingerprint {
        Fingerprint {
            model: self.model@,
            dest: self.dest@,
            spec: self.spec@,
            revision: self.revision@,
            ext: self.ext,
        }
    }
}

/// The game is another model than `KFC`.
pub open spec fn is_wrong_model(f: Fingerprint) -> bool {
    f.model != "KFC"@
}

/// The game runs a modified data set (destination `O` or `X`).
pub open spec fn is_omnimix(f: Fingerprint) -> bool {
    f.dest == "O"@ || f.dest == "X"@
}

/// The game is older than the oldest supported version.
pub open spec fn is_too_old(f: Fingerprint) -> bool {
    f.ext < OLDEST_VERSION
}

/// Whether the interception may be switched on for the game.
pub open spec fn is_supported(f: Fingerprint) -> bool {
    !is_wrong_model(f) && !is_omnimix(f) && !is_too_old(f)
}

/// The message that explains a reason.
pub open spec fn reason_text(r: NotSupportedReason) -> Seq<char> {
    match r {
        NotSupportedReason::WrongModel(m) => "Game model '"@ + m@ + "' is not related to chicken"@,
        NotSupportedReason::OmnimixDetected => "Omnimix/Plus detected"@,
        NotSupportedReason::TooOld(ext) => "Game version '"@ + decimal_text(ext as nat)
            + "' is too old"@,
    }
}

/// `text` if `flag` holds, else nothing.
pub open spec fn text_if(flag: bool, text: Seq<char>) -> Seq<char> {
    if flag {
        text
    } else {
        Seq::empty()
    }
}

/// The description of a fingerprint: `model:dest:spec:revision:ext`, then the
/// features it has.
pub open spec fn fingerprint_text(f: Fingerprint) -> Seq<char> {
    f.model + ":"@ + f.dest + ":"@ + f.spec + ":"@ + f.revision + ":"@ + decimal_text(f.ext as nat)
        + text_if(f.spec == "G"@ || f.spec == "H"@, " (Valkyrie)"@) + text_if(
        f.ext >= MAXXIVE_VERSION,
        " (Maxxive support)"@,
    ) + text_if(f.ext >= ULTIMATE_VERSION, " (Ultimate support)"@)
}

impl NotSupportedReason {
    /// The message that explains this reason.
    pub fn message(&self) -> (r: String)
        ensures
            r@ == reason_text(*self),
    {
        match self {
            NotSupportedReason::WrongModel(m) => "Game model '".to_owned().concat(m.as_str()).concat(
                "' is not related to chicken",
            ),
            NotSupportedReason::OmnimixDetected => "Omnimix/Plus detected".to_owned(),
            NotSupportedReason::TooOld(ext) => "Game version '".to_owned().concat(
                decimal_string(*ext).as_str(),
            ).concat("' is too old"),
        }
    }
}

impl GameProperties {
    /// The description of the game: its fingerprint and the features it has.
    pub fn describe(&self) -> (r: String)
        ensures
            r@ == fingerprint_text(self@),
    {
        let mut r = self.model.clone();
        r.append(":");
        r.append(self.dest.as_str());
        r.append(":");
        r.append(self.spec.as_str());
        r.append(":");
        r.append(self.revision.as_str());
        r.append(":");
        r.append(decimal_string(self.ext).as_str());
        let ghost base = r@;
        if self.is_valkyrie() {
            r.append(" (Valkyrie)");
        }
        let ghost with_v = r@;
        if self.has_maxxive_support() {
            r.append(" (Maxxive support)");
        }
        let ghost with_m = r@;
        if self.has_ultimate_support() {
            r.append(" (Ultimate support)");
        }
        assert(with_v =~= base + text_if(self@.spec == "G"@ || self@.spec == "H"@, " (Valkyrie)"@));
        assert(with_m =~= with_v + text_if(self@.ext >= MAXXIVE_VERSION, " (Maxxive support)"@));
        assert(r@ =~= with_m + text_if(self@.ext >= ULTIMATE_VERSION, " (Ultimate support)"@));
        r
    }

    #[verifier::type_invariant]
    spec fn derived(self) -> bool {
        &&& self.valkyrie == (self.spec@ == "G"@ || self.spec@ == "H"@)
        &&& self.maxxive_support == (self.ext >= MAXXIVE_VERSION)
        &&& self.ultimate_support == (self.ext >= ULTIMATE_VERSION)
    }

    /// The properties of a fingerprint; an unreadable version reads as 0.
    pub fn from_fingerprint(model: &str, dest: &str, spec: &str, revision: &str, ext: &str) -> (r:
        GameProperties)
        ensures
            r@.model == model@,
            r@.dest == dest@,
            r@.spec == spec@,
            r@.revision == revision@,
            r@.ext == match parsed_u64(ext@) {
                Some(v) => v,
                None => 0,
            },
    {
        let ext = match parse_u64(ext) {
            Some(v) => v,
            None => 0,
        };
        let valkyrie = same_text(spec, "G") || same_text(spec, "H");
        GameProperties {
            model: model.to_owned(),
            dest: dest.to_owned(),
            spec: spec.to_owned(),
            revision: revision.to_owned(),
            ext,
            valkyrie,
            maxxive_support: ext >= MAXXIVE_VERSION,
            ultimate_support: ext >= ULTIMATE_VERSION,
        }
    }

    /// Properties of an unknown game: empty texts and version 0.
    pub fn unknown() -> (r: GameProperties)
        ensures
            r@.model.len() == 0,
            r@.dest.len() == 0,
            r@.spec.len() == 0,
            r@.revision.len() == 0,
            r@.ext == 0,
    {
        let spec = String::new();
        proof {
            reveal_strlit("G");
            reveal_strlit("H");
            assert(spec@.len() != "G"@.len());
            assert(spec@.len() != "H"@.len());
        }
        let r = GameProperties {
            model: String::new(),
            dest: String::new(),
            spec,
            revision: String::new(),
            ext: 0,
            valkyrie: false,
            maxxive_support: false,
            ultimate_support: false,
        };
        r
    }

    pub fn model(&self) -> (r: &str)
        ensures
            r@ == self@.model,
    {
        self.model.as_str()
    }

    pub fn dest(&self) -> (r: &str)
        ensures
            r@ == self@.dest,
    {
        self.dest.as_str()
    }

    pub fn spec(&self) -> (r: &str)
        ensures
            r@ == self@.spec,
    {
        self.spec.as_str()
    }

    pub fn revision(&self) -> (r: &str)
        ensures
            r@ == self@.revision,
    {
        self.revision.as_str()
    }

    pub fn ext(&self) -> (r: u64)
        ensures
            r == self@.ext,
    {
        self.ext
    }

    /// Whether the data set is a Valkyrie cabinet's (`G` or `H`).
    pub fn is_valkyrie(&self) -> (r: bool)
        ensures
            r == (self@.spec == "G"@ || self@.spec == "H"@),
    {
        proof {
            use_type_invariant(self);
        }
        self.valkyrie
    }

    /// Whether the game knows the maxxive clear lamp.
    pub fn has_maxxive_support(&self) -> (r: bool)
        ensures
            r == (self@.ext >= MAXXIVE_VERSION),
    {
        proof {
            use_type_invariant(self);
        }
        self.maxxive_support
    }

    /// Whether the game knows ultimate charts.
    pub fn has_ultimate_support(&self) -> (r: bool)
        ensures
            r == (self@.ext >= ULTIMATE_VERSION),
    {
        proof {
            use_type_invariant(self);
        }
        self.ultimate_support
    }

    /// Whether the game accepts the advanced lamp tier (maxxive clear).
    pub fn supports_advanced_lamp_tier(&self) -> (r: bool)
        ensures
            r == (self@.ext >= MAXXIVE_VERSION),
    {
        self.has_maxxive_support()
    }

    /// Why this configuration is not supported, if it is not.
    pub fn is_not_supported(&self) -> (r: Option<NotSupportedReason>)
        ensures
            is_supported(self@) <==> r is None,
            is_wrong_model(self@) ==> (r matches Some(NotSupportedReason::WrongModel(m)) && m@
                == self@.model),
            !is_wrong_model(self@) && is_omnimix(self@) ==> r matches Some(
                NotSupportedReason::OmnimixDetected,
            ),
            !is_wrong_model(self@) && !is_omnimix(self@) && is_too_old(self@) ==> r == Some(
                NotSupportedReason::TooOld(self@.ext),
            ),
    {
        if !same_text(self.model.as_str(), "KFC") {
            Some(NotSupportedReason::WrongModel(self.model.clone()))
        } else if same_text(self.dest.as_str(), "O") || same_text(self.dest.as_str(), "X") {
            Some(NotSupportedReason::OmnimixDetected)
        } else if self.ext < OLDEST_VERSION {
            Some(NotSupportedReason::TooOld(self.ext))
        } else {
            None
        }
    }

    /// Whether the whole interception may be switched on for this game.
    pub fn is_supported_configuration(&self) -> (r: bool)
        ensures
            r == is_supported(self@),
    {
        self.is_not_supported().is_none()
    }
}

} // verus!
