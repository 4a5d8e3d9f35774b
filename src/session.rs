use vstd::prelude::*;

use crate::capability::GameProperties;
use crate::configuration::{card_whitelisted, CardConfiguration, GeneralConfiguration};
use crate::reconcile::process_pbs;
use crate::remote::RemoteSnapshot;
use crate::rewrite::{common_rewritten, load_rewritten, rewrite_common, rewrite_load};
use crate::tachi::same_text;
use crate::tree::{at_path, PropNode};

verus! {

/// The responses that an intercepted call has announced and that wait for
/// their rewrite. Each flag is set by a call and cleared only by a
/// successful rewrite.
#[derive(Debug, Clone, Copy, PartialEq, Eq, Structural)]
pub struct PendingFlags {
    /// A `common` response will get the cloud marker event.
    pub common: bool,
    /// A `load` response will get the cloud node.
    pub load: bool,
    /// A `load_m` response will get the personal bests.
    pub load_music: bool,
}

/// The three kinds of rewrite, one for each pending flag.
#[derive(Debug, Clone, Copy, PartialEq, Eq, Structural)]
pub enum RewriteKind {
    Common,
    Load,
    LoadMusic,
}

/// What an intercepted call asks of the caller.
#[derive(Debug, Clone, Copy, PartialEq, Eq, Structural)]
pub enum CallOutcome {
    /// Nothing to do.
    Ignore,
    /// The call's payload holds scores to submit.
    SubmitScores,
    /// The call's payload holds a save (skill level) to submit.
    SubmitSave,
}

/// What to do with a response buffer.
pub enum ResponsePlan {
    /// Hand the original bytes back.
    PassThrough,
    /// Encode `tree` in place of the original; then report the outcome.
    Rewrite { kind: RewriteKind, tree: PropNode },
    /// Fetch the personal bests, merge them into `music`, encode; then report.
    Reconcile { music: PropNode },
}

/// The state shared by the two observation points: the pending flags and
/// the card of the current transaction.
pub struct Session {
    pub pending: PendingFlags,
    pub card_id: Option<String>,
}

/// No flag is pending.
pub open spec fn no_flags() -> PendingFlags {
    PendingFlags { common: false, load: false, load_music: false }
}

/// `p` with the flag of `kind` cleared.
pub open spec fn cleared(p: PendingFlags, kind: RewriteKind) -> PendingFlags {
    match kind {
        RewriteKind::Common => PendingFlags { common: false, load: p.load, load_music: p.load_music },
        RewriteKind::Load => PendingFlags { common: p.common, load: false, load_music: p.load_music },
        RewriteKind::LoadMusic => PendingFlags { common: p.common, load: p.load, load_music: false },
    }
}

/// `p` with only the flag of `kind` set.
pub open spec fn only(kind: RewriteKind) -> PendingFlags {
    match kind {
        RewriteKind::Common => PendingFlags { common: true, load: false, load_music: false },
        RewriteKind::Load => PendingFlags { common: false, load: true, load_music: false },
        RewriteKind::LoadMusic => PendingFlags { common: false, load: false, load_music: true },
    }
}

/// The flags after a `game` call named `method` completed.
pub open spec fn pending_after(p: PendingFlags, inject: bool, method: Seq<char>) -> PendingFlags {
    if !inject {
        p
    } else if method == "sv6_load_m"@ {
        PendingFlags { common: p.common, load: p.load, load_music: true }
    } else if method == "sv6_common"@ {
        PendingFlags { common: true, load: p.load, load_music: p.load_music }
    } else if method == "sv6_load"@ {
        PendingFlags { common: p.common, load: true, load_music: p.load_music }
    } else {
        p
    }
}

/// What a completed call asks of the caller.
pub open spec fn call_outcome(g: GeneralConfiguration, name: Seq<char>, method: Seq<char>) -> CallOutcome {
    if !g.enable || name != "game"@ {
        CallOutcome::Ignore
    } else if method == "sv6_save_m"@ {
        CallOutcome::SubmitScores
    } else if g.export_class && method == "sv6_save"@ {
        CallOutcome::SubmitSave
    } else {
        CallOutcome::Ignore
    }
}

/// The rewrite that a decoded response gets, first match first.
pub open spec fn selected(p: PendingFlags, whitelisted: bool, root: PropNode) -> Option<RewriteKind> {
    if p.common && at_path(root, "game"@, "event"@) is Some {
        Some(RewriteKind::Common)
    } else if whitelisted && p.load && at_path(root, "game"@, "code"@) is Some {
        Some(RewriteKind::Load)
    } else if whitelisted && p.load_music && at_path(root, "game"@, "music"@) is Some {
        Some(RewriteKind::LoadMusic)
    } else {
        None
    }
}

/// The plan that `plan_response` gives for a decoded response `root`.
pub open spec fn plan_fits(r: ResponsePlan, kind: Option<RewriteKind>, root: PropNode) -> bool {
    match kind {
        None => r is PassThrough,
        Some(RewriteKind::Common) => r matches ResponsePlan::Rewrite { kind, tree } && kind
            == RewriteKind::Common && common_rewritten(root, tree),
        Some(RewriteKind::Load) => r matches ResponsePlan::Rewrite { kind, tree } && kind
            == RewriteKind::Load && load_rewritten(root, tree),
        Some(RewriteKind::LoadMusic) => r matches ResponsePlan::Reconcile { music } && at_path(
            root,
            "game"@,
            "music"@,
        ) == Some(music),
    }
}

/// Takes the node at `a`/`b` out of `root`.
fn take_at_path(root: PropNode, a: &str, b: &str) -> (r: PropNode)
    requires
        at_path(root, a@, b@) is Some,
    ensures
        at_path(root, a@, b@) == Some(r),
{
    let mut root = root;
    let gi = root.find_child(a).unwrap();
    let mut game = root.children.remove(gi);
    let mi = game.find_child(b).unwrap();
    game.children.remove(mi)
}

impl Session {
    /// A session with no flag pending and no card.
    pub fn new() -> (r: Session)
        ensures
            r.pending == no_flags(),
            r.card_id is None,
    {
        Session { pending: PendingFlags { common: false, load: false, load_music: false }, card_id: None }
    }

    /// Observes a completed call of module `name` (`game` or `cardmng`) and
    /// method `method`; `card_id` is the card argument of a card inquiry.
    pub fn on_call_completed(
        &mut self,
        general: &GeneralConfiguration,
        name: &str,
        method: &str,
        card_id: Option<String>,
    ) -> (r: CallOutcome)
        ensures
            r == call_outcome(*general, name@, method@),
            final(self).pending == if general.enable && name@ == "game"@ {
                pending_after(old(self).pending, general.inject_cloud_pbs, method@)
            } else {
                old(self).pending
            },
            final(self).card_id == if general.enable && name@ == "cardmng"@ && method@
                == "inquire"@ && card_id is Some {
                card_id
            } else {
                old(self).card_id
            },
    {
        if !general.enable {
            return CallOutcome::Ignore;
        }
        if same_text(name, "cardmng") {
            proof {
                reveal_strlit("cardmng");
                reveal_strlit("game");
                assert("cardmng"@.len() != "game"@.len());
            }
            if same_text(method, "inquire") && card_id.is_some() {
                self.card_id = card_id;
            }
            return CallOutcome::Ignore;
        }
        if !same_text(name, "game") {
            return CallOutcome::Ignore;
        }
        if general.inject_cloud_pbs {
            if same_text(method, "sv6_load_m") {
                self.pending.load_music = true;
            } else if same_text(method, "sv6_common") {
                self.pending.common = true;
            } else if same_text(method, "sv6_load") {
                self.pending.load = true;
            }
        }
        if same_text(method, "sv6_save_m") {
            CallOutcome::SubmitScores
        } else if general.export_class && same_text(method, "sv6_save") {
            CallOutcome::SubmitSave
        } else {
            CallOutcome::Ignore
        }
    }

    /// Decides what a response buffer gets, from its decoded tree (`None`
    /// where it could not be decoded), the pending flags and the active card.
    pub fn plan_response(&self, cards: &CardConfiguration, decoded: Option<PropNode>) -> (r:
        ResponsePlan)
        ensures
            decoded is None ==> r is PassThrough,
            decoded matches Some(root) ==> plan_fits(
                r,
                selected(self.pending, card_whitelisted(*cards, self.card_id), root),
                root,
            ),
    {
        let root = match decoded {
            Some(root) => root,
            None => {
                return ResponsePlan::PassThrough;
            },
        };
        if self.pending.common && root.has_path("game", "event") {
            return ResponsePlan::Rewrite { kind: RewriteKind::Common, tree: rewrite_common(root) };
        }
        let whitelisted = cards.is_card_whitelisted(&self.card_id);
        if whitelisted && self.pending.load && root.has_path("game", "code") {
            return ResponsePlan::Rewrite { kind: RewriteKind::Load, tree: rewrite_load(root) };
        }
        if whitelisted && self.pending.load_music && root.has_path("game", "music") {
            return ResponsePlan::Reconcile { music: take_at_path(root, "game", "music") };
        }
        ResponsePlan::PassThrough
    }

    /// Ends the rewrite of kind `kind`: with the encoded replacement, clears
    /// its flag and returns the replacement; without one (any failure on the
    /// way), keeps every flag and returns the original bytes.
    pub fn finish_response(&mut self, kind: RewriteKind, original: Vec<u8>, encoded: Option<
        Vec<u8>,
    >) -> (r: Vec<u8>)
        ensures
            encoded matches Some(b) ==> r@ == b@ && final(self).pending == cleared(
                old(self).pending,
                kind,
            ) && final(self).card_id == old(self).card_id,
            encoded is None ==> r@ == original@ && *final(self) == *old(self),
    {
        match encoded {
            Some(b) => {
                match kind {
                    RewriteKind::Common => self.pending.common = false,
                    RewriteKind::Load => self.pending.load = false,
                    RewriteKind::LoadMusic => self.pending.load_music = false,
                }
                b
            },
            None => original,
        }
    }
}

/// The merged response tree for `music`, from the outcome of the fetch of the
/// personal bests: `None` where the fetch failed or a local row is malformed.
pub fn reconcile_fetched(music: &PropNode, fetched: Option<RemoteSnapshot>, game: &GameProperties) -> (r:
    Option<PropNode>)
    ensures
        fetched is None ==> r is None,
        fetched matches Some(s) ==> (r is Some <==> crate::reconcile::local_map(music.children@) is Ok),
        fetched matches Some(s) ==> (r matches Some(t) ==> exists|out: crate::reconcile::Reconciled|
            out.response == t && out.table.wf() && crate::reconcile::is_music_response(t, out.table)
                && out.table@
                == crate::reconcile::merged(
                crate::reconcile::local_map(music.children@)->Ok_0,
                s.pbs@,
                s.charts@,
                game@.ext >= crate::capability::MAXXIVE_VERSION,
            )),
{
    match fetched {
        Some(s) => match process_pbs(music, &s, game) {
            Ok(out) => Some(out.response),
            Err(_) => None,
        },
        None => None,
    }
}

/// The active card of the session, if any.
pub fn get_current_user(session: &Session) -> (r: Option<String>)
    ensures
        r == session.card_id,
{
    match &session.card_id {
        Some(c) => Some(c.clone()),
        None => None,
    }
}

/// A rewrite fires once: after a successful rewrite for the one pending flag,
/// no flag is pending, and the same response, handed in again, passes through.
pub proof fn lemma_rewrite_fires_once(kind: RewriteKind, whitelisted: bool, root: PropNode)
    requires
        selected(only(kind), whitelisted, root) == Some(kind),
    ensures
        cleared(only(kind), kind) == no_flags(),
        selected(cleared(only(kind), kind), whitelisted, root) is None,
{
}

} // verus!
