//! What the menu promises as a whole, told by what is on the record, on the screen and asked of the
//! outside before and after.
use vstd::prelude::*;
use crate::app::AppV;
use crate::hosts::{host_is, host_pos};
use crate::model::{HostV, ProfileV, TargetV};
use crate::seqs::{lemma_first_from, lemma_first_is};
use crate::slots::{EffectV, PersistedV};

pub mod drawing;
pub mod hearing;
pub mod hosting;
pub mod launching;
pub mod listing;
pub mod pointing;
pub mod profiling;
pub mod shelving;
pub mod showing;
pub mod steering;
pub mod tuning;
pub mod waking;

verus! {

/// `e` was asked for between the two.
pub open spec fn asked(before: AppV, after: AppV, e: EffectV) -> bool {
    exists|k: int| before.effects.len() <= k < after.effects.len() && #[trigger] after.effects[k] == e
}

/// What is written of a menu: its settings, its hosts, the one that is selected, and its profiles.
pub open spec fn document(app: AppV) -> PersistedV {
    PersistedV {
        settings: app.settings,
        known_hosts: app.hosts.known,
        selected_host: app.library.selected_host,
        profiles: app.profiles,
    }
}

/// The saved host at an address is the one at `i`.
pub open spec fn saved_at(known: Seq<HostV>, i: int, at: TargetV) -> bool {
    &&& 0 <= i < known.len()
    &&& known[i].addr == at.host
    &&& known[i].port == at.port
    &&& forall|j: int| 0 <= j < i ==> !((#[trigger] known[j]).addr == at.host && known[j].port == at.port)
}

/// No host is saved at an address.
pub open spec fn unsaved(known: Seq<HostV>, at: TargetV) -> bool {
    forall|j: int| 0 <= j < known.len() ==> !((#[trigger] known[j]).addr == at.host && known[j].port == at.port)
}

/// The selected host is the saved one at `i`.
pub open spec fn selected_at(app: AppV, i: int) -> bool {
    app.library.selected_host is Some && saved_at(app.hosts.known, i, app.library.selected_host->0)
}

/// The profile with an id is the one at `i`.
pub open spec fn profile_at(profiles: Seq<ProfileV>, i: int, id: Seq<char>) -> bool {
    &&& 0 <= i < profiles.len()
    &&& profiles[i].id == id
    &&& forall|j: int| 0 <= j < i ==> (#[trigger] profiles[j]).id != id
}

/// A saved host is found at its address, and nothing is found where none is saved.
pub proof fn law_saved_host_is_found(known: Seq<HostV>, i: int, at: TargetV)
    ensures
        saved_at(known, i, at) <==> host_pos(known, at.host, at.port) == Some(i),
        unsaved(known, at) <==> host_pos(known, at.host, at.port) is None,
{
    lemma_first_from(known, host_is(at.host, at.port), 0);
    if saved_at(known, i, at) {
        lemma_first_is(known, host_is(at.host, at.port), i);
    }
    if unsaved(known, at) {
        match host_pos(known, at.host, at.port) {
            Some(k) => {
                assert(host_is(at.host, at.port)(known[k]));
            },
            None => {},
        }
    }
    if host_pos(known, at.host, at.port) is None {
        assert forall|j: int| 0 <= j < known.len() implies !((#[trigger] known[j]).addr == at.host && known[j].port
            == at.port) by {
            assert(!host_is(at.host, at.port)(known[j]));
        }
    }
    if host_pos(known, at.host, at.port) == Some(i) {
        assert forall|j: int| 0 <= j < i implies !((#[trigger] known[j]).addr == at.host && known[j].port
            == at.port) by {
            assert(!host_is(at.host, at.port)(known[j]));
        }
    }
}

/// The selected host's record is the one at its address.
pub proof fn law_selected_host_is_found(app: AppV, i: int)
    ensures
        selected_at(app, i) <==> app.selected_pos() == Some(i),
        selected_at(app, i) ==> app.selected_known_host() == Some(app.hosts.known[i]),
{
    match app.library.selected_host {
        Some(at) => law_saved_host_is_found(app.hosts.known, i, at),
        None => {},
    }
}

/// A profile is found by its id.
pub proof fn law_profile_is_found(profiles: Seq<ProfileV>, i: int, id: Seq<char>)
    ensures
        profile_at(profiles, i, id) <==> crate::hosts::profile_pos(profiles, id) == Some(i),
{
    let named = crate::hosts::profile_is(id);
    lemma_first_from(profiles, named, 0);
    if profile_at(profiles, i, id) {
        lemma_first_is(profiles, named, i);
    }
    if crate::hosts::profile_pos(profiles, id) == Some(i) {
        assert forall|j: int| 0 <= j < i implies (#[trigger] profiles[j]).id != id by {
            assert(!named(profiles[j]));
        }
    }
}

/// One more thing asked is the last one asked, and all that was asked before still stands.
pub proof fn lemma_asked_last(before: AppV, after: AppV, e: EffectV)
    requires
        after.effects.len() > before.effects.len(),
        after.effects.last() == e,
    ensures
        asked(before, after, e),
{
    assert(after.effects[after.effects.len() - 1] == e);
}

} // verus!
