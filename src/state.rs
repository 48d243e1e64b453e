//! The monitor's state and the reconciliation step run after each event.
use vstd::prelude::*;
use crate::error::MonitorError;
use crate::source::{
    SourceDatum,
    SourceView,
    Sources,
    get_default_source_index,
    resolved_index,
};

verus! {

/// The mute state of source `default` in `m`: `None` when there is no
/// default or the catalog does not hold it.
pub open spec fn mute_of(m: Map<u32, SourceView>, default: Option<u32>) -> Option<bool> {
    match default {
        Some(i) => if m.contains_key(i) {
            Some(m[i].mute)
        } else {
            None
        },
        None => None,
    }
}

/// A default index kept across a catalog refresh: dropped when the new
/// catalog no longer holds it.
pub open spec fn kept_default(m: Map<u32, SourceView>, default: Option<u32>) -> Option<u32> {
    match default {
        Some(i) => if m.contains_key(i) {
            Some(i)
        } else {
            None
        },
        None => None,
    }
}

/// What the watcher reports when the default source's mute state changes.
#[derive(Debug, Clone, Copy, PartialEq, Eq, Structural)]
pub enum Notice {
    /// The default source is now muted.
    Muted,
    /// The default source is now unmuted.
    Unmuted,
    /// There is now no default source.
    NoDefault,
}

/// The notice owed when the default source's mute state goes from `before` to
/// `after`, each `None` when there is no default: none when nothing changed,
/// else the new state.
pub open spec fn notice_for(before: Option<bool>, after: Option<bool>) -> Option<Notice> {
    if before == after {
        None
    } else {
        match after {
            Some(true) => Some(Notice::Muted),
            Some(false) => Some(Notice::Unmuted),
            None => Some(Notice::NoDefault),
        }
    }
}

/// Compares the default source's mute state before and after an event; see
/// [`notice_for`].
pub fn transition_notice(before: Option<bool>, after: Option<bool>) -> (r: Option<Notice>)
    ensures
        r == notice_for(before, after),
{
    if before == after {
        None
    } else {
        match after {
            Some(true) => Some(Notice::Muted),
            Some(false) => Some(Notice::Unmuted),
            None => Some(Notice::NoDefault),
        }
    }
}

/// A default source that goes from muted to unmuted gives one `UNMUTED`
/// notice, and a mute state that stays as it was gives none.
pub proof fn lemma_transition_emission(before: Option<bool>, after: Option<bool>)
    ensures
        before == Some(true) && after == Some(false) ==> notice_for(before, after) == Some(
            Notice::Unmuted,
        ) && notice_text(Notice::Unmuted) == "UNMUTED"@,
        before == after ==> notice_for(before, after) is None,
{
}

/// The line that announces a notice.
pub open spec fn notice_text(n: Notice) -> Seq<char> {
    match n {
        Notice::Muted => "MUTED"@,
        Notice::Unmuted => "UNMUTED"@,
        Notice::NoDefault => "No default source"@,
    }
}

impl Notice {
    /// The line that announces this notice; see [`notice_text`].
    pub fn text(&self) -> (r: String)
        ensures
            r@ == notice_text(*self),
    {
        match self {
            Notice::Muted => "MUTED".to_owned(),
            Notice::Unmuted => "UNMUTED".to_owned(),
            Notice::NoDefault => "No default source".to_owned(),
        }
    }
}

/// What the daemon answered after an event: for a server change the default
/// source's name and then the catalog, for a source change the catalog.
pub enum Refresh {
    Device { sources: Sources },
    Server { default_name: String, sources: Sources },
}

impl Refresh {
    /// The catalog read after the event.
    pub open spec fn fresh(&self) -> Sources {
        match self {
            Refresh::Device { sources } => *sources,
            Refresh::Server { sources, .. } => *sources,
        }
    }
}

/// The catalog of sources and which of them is the default.
#[derive(Debug, Clone)]
pub struct ListenerState {
    pub sources: Sources,
    pub default_source: Option<u32>,
}

impl ListenerState {
    /// The catalog is well formed and a default index, when present, is a key
    /// of it.
    pub open spec fn wf(&self) -> bool {
        &&& self.sources.wf()
        &&& (self.default_source matches Some(i) ==> self.sources@.contains_key(i))
    }

    /// The initial state: `sources` and the one source named `default_name`.
    /// Without such a source monitoring cannot start.
    pub fn new(sources: Sources, default_name: &String) -> (r: Result<Self, MonitorError>)
        requires
            sources.wf(),
        ensures
            match resolved_index(sources@, default_name@) {
                Some(i) => r matches Ok(st) && st.wf() && st.sources@ == sources@
                    && st.default_source == Some(i),
                None => r matches Err(MonitorError::NoDefaultSource),
            },
    {
        match get_default_source_index(&sources, default_name) {
            Some(i) => Ok(ListenerState { sources, default_source: Some(i) }),
            None => Err(MonitorError::NoDefaultSource),
        }
    }

    /// The default source, when there is one and the catalog holds it.
    pub fn default_source(&self) -> (r: Option<&SourceDatum>)
        requires
            self.sources.wf(),
        ensures
            match r {
                Some(d) => self.default_source is Some && self.sources@.contains_key(
                    self.default_source->Some_0,
                ) && d@ == self.sources@[self.default_source->Some_0],
                None => mute_of(self.sources@, self.default_source) is None,
            },
    {
        match self.default_source {
            Some(i) => self.sources.get(i),
            None => None,
        }
    }

    /// The default source's mute state; `None` when there is no default.
    pub fn default_mute(&self) -> (r: Option<bool>)
        requires
            self.sources.wf(),
        ensures
            r == mute_of(self.sources@, self.default_source),
    {
        match self.default_source() {
            Some(d) => Some(d.mute),
            None => None,
        }
    }

    /// Resolves the default source again, against the catalog held now; it is
    /// absent when no single source carries `default_name`.
    pub fn handle_server_change(&mut self, default_name: &String)
        requires
            old(self).sources.wf(),
        ensures
            final(self).sources == old(self).sources,
            final(self).default_source == resolved_index(old(self).sources@, default_name@),
            final(self).wf(),
    {
        self.default_source = get_default_source_index(&self.sources, default_name);
    }

    /// Installs a freshly read catalog in place of the old one; a default that
    /// it no longer holds is dropped.
    pub fn refresh_sources(&mut self, fresh: Sources)
        requires
            fresh.wf(),
        ensures
            final(self).sources == fresh,
            final(self).default_source == kept_default(fresh@, old(self).default_source),
            final(self).wf(),
    {
        let keep = match self.default_source {
            Some(i) => fresh.get(i).is_some(),
            None => false,
        };
        if !keep {
            self.default_source = None;
        }
        self.sources = fresh;
    }

    /// One reconciliation pass after an event: on a server change the default
    /// is resolved again against the catalog held so far; then the fresh
    /// catalog replaces the old one. Returns the notice that the change of the
    /// default source's mute state calls for.
    pub fn reconcile(&mut self, refresh: Refresh) -> (r: Option<Notice>)
        requires
            old(self).wf(),
            refresh.fresh().wf(),
        ensures
            final(self).wf(),
            final(self).sources == refresh.fresh(),
            final(self).default_source == kept_default(
                refresh.fresh()@,
                match refresh {
                    Refresh::Server { default_name, .. } => resolved_index(
                        old(self).sources@,
                        default_name@,
                    ),
                    Refresh::Device { .. } => old(self).default_source,
                },
            ),
            r == notice_for(
                mute_of(old(self).sources@, old(self).default_source),
                mute_of(final(self).sources@, final(self).default_source),
            ),
    {
        let before = self.default_mute();
        match refresh {
            Refresh::Server { default_name, sources } => {
                self.handle_server_change(&default_name);
                self.refresh_sources(sources);
            },
            Refresh::Device { sources } => {
                self.refresh_sources(sources);
            },
        }
        let after = self.default_mute();
        transition_notice(before, after)
    }
}

} // verus!
