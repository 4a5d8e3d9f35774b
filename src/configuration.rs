use vstd::prelude::*;

verus! {

/// The longest time a request to the score tracker may take, in milliseconds.
pub const MAX_TIMEOUT_MS: u64 = 10000;

/// The settings of the library.
pub struct Configuration {
    pub general: GeneralConfiguration,
    pub cards: CardConfiguration,
    pub tachi: TachiConfiguration,
}

/// The switches and the request timeout.
pub struct GeneralConfiguration {
    /// Master switch: nothing is intercepted when it is off.
    pub enable: bool,
    /// Whether skill level updates are sent to the score tracker.
    pub export_class: bool,
    /// Whether personal bests are injected as cloud scores.
    pub inject_cloud_pbs: bool,
    /// Request timeout in milliseconds.
    pub timeout: u64,
}

/// The cards that may talk to the score tracker; an empty list admits every card.
pub struct CardConfiguration {
    pub whitelist: Vec<String>,
}

/// Where the score tracker is and how to sign in to it.
pub struct TachiConfiguration {
    pub base_url: String,
    pub status: String,
    pub import: String,
    pub pbs: String,
    pub api_key: Option<String>,
}

/// The credentials under which a card talks to the score tracker.
pub struct Profile {
    pub name: String,
    pub api_key: String,
    /// The cards the profile serves.
    pub cards: Vec<String>,
}

/// The default of the master switch: on.
pub fn default_true() -> (r: bool)
    ensures
        r,
{
    true
}

/// The default request timeout: 3 seconds.
pub fn default_timeout() -> (r: u64)
    ensures
        r == 3000,
{
    3000
}

/// Whether `card` is admitted by `cards`.
pub open spec fn admits(cards: CardConfiguration, card: Seq<char>) -> bool {
    cards.whitelist@.len() == 0 || exists|i: int| 0 <= i < cards.whitelist@.len() && #[trigger] cards.whitelist@[i]@ == card
}

/// Whether the active card, if there is one, is admitted by `cards`.
pub open spec fn card_whitelisted(cards: CardConfiguration, card: Option<String>) -> bool {
    match card {
        Some(c) => admits(cards, c@),
        None => false,
    }
}

impl GeneralConfiguration {
    /// The request timeout, capped at ten seconds.
    pub fn request_timeout(&self) -> (r: u64)
        ensures
            r == if self.timeout > MAX_TIMEOUT_MS { MAX_TIMEOUT_MS } else { self.timeout },
    {
        if self.timeout > MAX_TIMEOUT_MS {
            MAX_TIMEOUT_MS
        } else {
            self.timeout
        }
    }
}

impl CardConfiguration {
    /// Whether `card` may talk to the score tracker.
    pub fn admits(&self, card: &str) -> (r: bool)
        ensures
            r == admits(*self, card@),
    {
        if self.whitelist.len() == 0 {
            return true;
        }
        let mut i: usize = 0;
        while i < self.whitelist.len()
            invariant
                i <= self.whitelist@.len(),
                forall|j: int| 0 <= j < i ==> self.whitelist@[j]@ != card@,
            decreases self.whitelist@.len() - i,
        {
            if crate::tachi::same_text(self.whitelist[i].as_str(), card) {
                return true;
            }
            i = i + 1;
        }
        false
    }

    /// Whether the active card, if there is one, may talk to the score tracker.
    pub fn is_card_whitelisted(&self, card: &Option<String>) -> (r: bool)
        ensures
            r == card_whitelisted(*self, *card),
    {
        match card {
            Some(c) => self.admits(c.as_str()),
            None => false,
        }
    }
}

/// A copy of a list of strings.
fn copy_strings(v: &Vec<String>) -> (r: Vec<String>)
    ensures
        r@ == v@,
{
    let mut r: Vec<String> = Vec::new();
    let mut i: usize = 0;
    while i < v.len()
        invariant
            i <= v@.len(),
            r@ == v@.subrange(0, i as int),
        decreases v@.len() - i,
    {
        r.push(v[i].clone());
        i = i + 1;
        assert(r@ =~= v@.subrange(0, i as int));
    }
    assert(v@.subrange(0, v@.len() as int) =~= v@);
    r
}

/// The profile of `card`: the configured credentials, where the card is
/// admitted and a key is configured.
pub fn get_profile(config: &Configuration, card: &str) -> (r: Option<Profile>)
    ensures
        r is Some <==> admits(config.cards, card@) && config.tachi.api_key is Some,
        r matches Some(p) ==> p.name@ == "default"@ && p.api_key@ == config.tachi.api_key->Some_0@
            && p.cards@ == config.cards.whitelist@,
{
    match &config.tachi.api_key {
        Some(key) => if config.cards.admits(card) {
            Some(
                Profile {
                    name: "default".to_owned(),
                    api_key: key.clone(),
                    cards: copy_strings(&config.cards.whitelist),
                },
            )
        } else {
            None
        },
        None => None,
    }
}

} // verus!
