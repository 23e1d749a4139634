//! The confirm policy across every source: pausing and resuming are
//! reversible and never confirm; anything that deletes, removes, terminates,
//! stops, restarts or declines always does.

use vstd::prelude::*;

use crate::arr::{remove_action, rss_action, testall_action};
use crate::jax::{pet_action, snack_action};
use crate::nzbget::{group_actions, queue_actions};
use crate::overseerr::request_actions;
use crate::panel::ActionView;
use crate::plex::plex_terminate_action;
use crate::qbit::{qbit_panel_actions_view, torrent_actions_view};
use crate::sabnzbd::{sab_queue_actions, slot_actions};
use crate::speedtest::run_action;
use crate::ssh::container_actions;
use crate::tautulli::terminate_action;

verus! {

/// Actions that cannot be taken back.
pub open spec fn destructive_id(id: Seq<char>) -> bool {
    id == "delete"@ || id == "remove"@ || id == "terminate"@ || id == "stop"@ || id == "restart"@
        || id == "decline"@ || id == "slot_delete"@
}

/// Actions that a second action undoes.
pub open spec fn reversible_id(id: Seq<char>) -> bool {
    id == "pause"@ || id == "resume"@ || id == "pause_all"@ || id == "resume_all"@ || id == "group_pause"@
        || id == "group_resume"@ || id == "slot_pause"@ || id == "slot_resume"@
}

/// Every action any source offers, on its rows or on its whole panel.
pub open spec fn every_action() -> Seq<ActionView> {
    torrent_actions_view() + qbit_panel_actions_view() + seq![terminate_action()] + seq![
        remove_action(),
        rss_action(),
        testall_action(),
    ] + group_actions() + queue_actions() + request_actions() + container_actions() + seq![
        pet_action(),
        snack_action(),
    ] + seq![plex_terminate_action()] + slot_actions() + sab_queue_actions() + seq![run_action()]
}

/// An action follows the policy: it confirms exactly when it is
/// destructive, and a pause or resume never confirms.
pub open spec fn follows_policy(a: ActionView) -> bool {
    &&& a.danger == destructive_id(a.id)
    &&& reversible_id(a.id) ==> !a.danger
}

pub open spec fn all_follow(s: Seq<ActionView>) -> bool {
    forall|i: int| 0 <= i < s.len() ==> follows_policy(#[trigger] s[i])
}

pub proof fn lemma_all_follow_concat(a: Seq<ActionView>, b: Seq<ActionView>)
    requires
        all_follow(a),
        all_follow(b),
    ensures
        all_follow(a + b),
{
    assert forall|i: int| 0 <= i < (a + b).len() implies follows_policy(#[trigger] (a + b)[i]) by {
        if i < a.len() {
            assert((a + b)[i] == a[i]);
        } else {
            assert((a + b)[i] == b[i - a.len()]);
        }
    }
}

pub proof fn lemma_all_follow_small(s: Seq<ActionView>)
    requires
        s.len() <= 3,
        s.len() > 0 ==> follows_policy(s[0]),
        s.len() > 1 ==> follows_policy(s[1]),
        s.len() > 2 ==> follows_policy(s[2]),
    ensures
        all_follow(s),
{
    assert forall|i: int| 0 <= i < s.len() implies follows_policy(#[trigger] s[i]) by {
        if i == 0 {
        } else if i == 1 {
        } else {
        }
    }
}

/// Each action a source offers follows the policy on its own.
pub proof fn lemma_each_action_follows()
    ensures
        forall|i: int| 0 <= i < torrent_actions_view().len() ==> follows_policy(#[trigger] torrent_actions_view()[i]),
        forall|i: int| 0 <= i < qbit_panel_actions_view().len() ==> follows_policy(#[trigger] qbit_panel_actions_view()[i]),
        forall|i: int| 0 <= i < group_actions().len() ==> follows_policy(#[trigger] group_actions()[i]),
        forall|i: int| 0 <= i < queue_actions().len() ==> follows_policy(#[trigger] queue_actions()[i]),
        forall|i: int| 0 <= i < request_actions().len() ==> follows_policy(#[trigger] request_actions()[i]),
        forall|i: int| 0 <= i < container_actions().len() ==> follows_policy(#[trigger] container_actions()[i]),
        forall|i: int| 0 <= i < slot_actions().len() ==> follows_policy(#[trigger] slot_actions()[i]),
        forall|i: int| 0 <= i < sab_queue_actions().len() ==> follows_policy(#[trigger] sab_queue_actions()[i]),
        follows_policy(terminate_action()),
        follows_policy(remove_action()),
        follows_policy(rss_action()),
        follows_policy(testall_action()),
        follows_policy(pet_action()),
        follows_policy(snack_action()),
        follows_policy(plex_terminate_action()),
        follows_policy(run_action()),
{
    reveal_strlit("delete");
    assert("delete"@.len() == 6);
    reveal_strlit("remove");
    assert("remove"@.len() == 6);
    reveal_strlit("terminate");
    assert("terminate"@.len() == 9);
    reveal_strlit("stop");
    assert("stop"@.len() == 4);
    reveal_strlit("restart");
    assert("restart"@.len() == 7);
    reveal_strlit("decline");
    assert("decline"@.len() == 7);
    reveal_strlit("slot_delete");
    assert("slot_delete"@.len() == 11);
    reveal_strlit("pause");
    assert("pause"@.len() == 5);
    reveal_strlit("resume");
    assert("resume"@.len() == 6);
    reveal_strlit("pause_all");
    assert("pause_all"@.len() == 9);
    reveal_strlit("resume_all");
    assert("resume_all"@.len() == 10);
    reveal_strlit("group_pause");
    assert("group_pause"@.len() == 11);
    reveal_strlit("group_resume");
    assert("group_resume"@.len() == 12);
    reveal_strlit("slot_pause");
    assert("slot_pause"@.len() == 10);
    reveal_strlit("slot_resume");
    assert("slot_resume"@.len() == 11);
    reveal_strlit("alt");
    assert("alt"@.len() == 3);
    reveal_strlit("rss");
    assert("rss"@.len() == 3);
    reveal_strlit("testall");
    assert("testall"@.len() == 7);
    reveal_strlit("approve");
    assert("approve"@.len() == 7);
    reveal_strlit("pet");
    assert("pet"@.len() == 3);
    reveal_strlit("snack");
    assert("snack"@.len() == 5);
    reveal_strlit("run");
    assert("run"@.len() == 3);
    assert("resume"@ != "remove"@) by {
        assert("resume"@[2] != "remove"@[2]);
    }
    assert("resume"@ != "delete"@) by {
        assert("resume"@[0] != "delete"@[0]);
    }
    assert("pause_all"@ != "terminate"@) by {
        assert("pause_all"@[0] != "terminate"@[0]);
    }
    assert("slot_resume"@ != "slot_delete"@) by {
        assert("slot_resume"@[5] != "slot_delete"@[5]);
    }
    assert("group_pause"@ != "slot_delete"@) by {
        assert("group_pause"@[0] != "slot_delete"@[0]);
    }
    assert("approve"@ != "restart"@) by {
        assert("approve"@[0] != "restart"@[0]);
    }
    assert("approve"@ != "decline"@) by {
        assert("approve"@[0] != "decline"@[0]);
    }
    assert("testall"@ != "restart"@) by {
        assert("testall"@[0] != "restart"@[0]);
    }
    assert("testall"@ != "decline"@) by {
        assert("testall"@[0] != "decline"@[0]);
    }
    assert forall|i: int| 0 <= i < torrent_actions_view().len() implies follows_policy(#[trigger] torrent_actions_view()[i]) by {}
    assert forall|i: int| 0 <= i < qbit_panel_actions_view().len() implies follows_policy(#[trigger] qbit_panel_actions_view()[i]) by {}
    assert forall|i: int| 0 <= i < group_actions().len() implies follows_policy(#[trigger] group_actions()[i]) by {}
    assert forall|i: int| 0 <= i < queue_actions().len() implies follows_policy(#[trigger] queue_actions()[i]) by {}
    assert forall|i: int| 0 <= i < request_actions().len() implies follows_policy(#[trigger] request_actions()[i]) by {}
    assert forall|i: int| 0 <= i < container_actions().len() implies follows_policy(#[trigger] container_actions()[i]) by {}
    assert forall|i: int| 0 <= i < slot_actions().len() implies follows_policy(#[trigger] slot_actions()[i]) by {}
    assert forall|i: int| 0 <= i < sab_queue_actions().len() implies follows_policy(#[trigger] sab_queue_actions()[i]) by {}
}

/// Every action of every source asks for confirmation exactly when it is
/// destructive (it deletes, removes, terminates, stops, restarts or
/// declines), and no pause or resume ever does.
pub proof fn law_confirm_exactly_the_destructive()
    ensures
        all_follow(every_action()),
{
    lemma_each_action_follows();
    let p0 = torrent_actions_view();
    lemma_all_follow_small(p0);
    let p1 = qbit_panel_actions_view();
    lemma_all_follow_small(p1);
    let p2 = seq![terminate_action()];
    lemma_all_follow_small(p2);
    let p3 = seq![remove_action(), rss_action(), testall_action()];
    lemma_all_follow_small(p3);
    let p4 = group_actions();
    lemma_all_follow_small(p4);
    let p5 = queue_actions();
    lemma_all_follow_small(p5);
    let p6 = request_actions();
    lemma_all_follow_small(p6);
    let p7 = container_actions();
    lemma_all_follow_small(p7);
    let p8 = seq![pet_action(), snack_action()];
    lemma_all_follow_small(p8);
    let p9 = seq![plex_terminate_action()];
    lemma_all_follow_small(p9);
    let p10 = slot_actions();
    lemma_all_follow_small(p10);
    let p11 = sab_queue_actions();
    lemma_all_follow_small(p11);
    let p12 = seq![run_action()];
    lemma_all_follow_small(p12);
    let s1 = p0 + p1;
    lemma_all_follow_concat(p0, p1);
    let s2 = s1 + p2;
    lemma_all_follow_concat(s1, p2);
    let s3 = s2 + p3;
    lemma_all_follow_concat(s2, p3);
    let s4 = s3 + p4;
    lemma_all_follow_concat(s3, p4);
    let s5 = s4 + p5;
    lemma_all_follow_concat(s4, p5);
    let s6 = s5 + p6;
    lemma_all_follow_concat(s5, p6);
    let s7 = s6 + p7;
    lemma_all_follow_concat(s6, p7);
    let s8 = s7 + p8;
    lemma_all_follow_concat(s7, p8);
    let s9 = s8 + p9;
    lemma_all_follow_concat(s8, p9);
    let s10 = s9 + p10;
    lemma_all_follow_concat(s9, p10);
    let s11 = s10 + p11;
    lemma_all_follow_concat(s10, p11);
    let s12 = s11 + p12;
    lemma_all_follow_concat(s11, p12);
    assert(every_action() == s12);
}

} // verus!
