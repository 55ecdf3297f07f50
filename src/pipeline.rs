//! The order of an export and what a failure does to it.
//!
//! Per organization: switch to it, list its datasources and save each, then
//! list its dashboards and save each. A failed switch or listing only skips
//! that organization's part; a failed save stops the whole run, so the
//! objects after it, in this and every later organization, are not tried.
use vstd::prelude::*;
use crate::error::ExportError;

verus! {

/// Where an export stands.
#[derive(Debug, Clone, Copy, PartialEq, Eq)]
pub enum Stage {
    /// Switch the server's current organization to organization `org`.
    Switch,
    /// List the datasources of the current organization.
    ListDatasources,
    /// Fetch and save datasource `pending[next]`.
    SaveDatasources,
    /// List the dashboards of the current organization.
    ListDashboards,
    /// Fetch and save dashboard `pending[next]`.
    SaveDashboards,
    /// Every organization was tried.
    Finished,
    /// A save failed; nothing more is tried.
    Aborted,
}

/// What the caller is to do next.
#[derive(Debug)]
pub enum Action {
    SwitchOrg(String),
    ListDatasources,
    SaveDatasource { org_name: String, uid: String },
    ListDashboards,
    SaveDashboard { org_name: String, uid: String },
    Finish,
    /// Stop: a save failed, with the error that `Export::failure` holds.
    Abort,
}

/// How the action went.
#[derive(Debug)]
pub enum Event {
    /// A switch or a save succeeded.
    Done,
    /// A listing succeeded with these uids, in order.
    Listed(Vec<String>),
    /// The action failed.
    Failed(ExportError),
}

/// An export in progress over a list of (id, name) organizations.
#[derive(Debug)]
pub struct Export {
    pub orgs: Vec<(String, String)>,
    pub org: usize,
    pub stage: Stage,
    pub pending: Vec<String>,
    pub next: usize,
    pub failure: Option<ExportError>,
}

impl Export {
    pub open spec fn wf(&self) -> bool {
        &&& (self.stage is Finished || self.stage is Aborted || self.org < self.orgs@.len())
        &&& (self.stage is SaveDatasources || self.stage is SaveDashboards) ==> self.next < self.pending@.len()
        &&& self.stage is Aborted <==> self.failure is Some
    }

    /// Whether the fields are consistent, as `start` and `step` keep them.
    pub fn well_formed(&self) -> (r: bool)
        ensures
            r == self.wf(),
    {
        let placed = match self.stage {
            Stage::Finished => true,
            Stage::Aborted => true,
            _ => self.org < self.orgs.len(),
        };
        let saving = match self.stage {
            Stage::SaveDatasources => true,
            Stage::SaveDashboards => true,
            _ => false,
        };
        let aborted = match self.stage {
            Stage::Aborted => true,
            _ => false,
        };
        placed && (!saving || self.next < self.pending.len()) && aborted == self.failure.is_some()
    }

    /// The stage that comes when organization `org` is done: the next
    /// organization's switch, or the end.
    pub open spec fn after_org(&self) -> (usize, Stage) {
        if self.org + 1 < self.orgs@.len() {
            ((self.org + 1) as usize, Stage::Switch)
        } else {
            (self.org, Stage::Finished)
        }
    }

    /// A new export, about to switch to the first organization.
    pub fn start(orgs: Vec<(String, String)>) -> (r: Export)
        ensures
            r.wf(),
            r.orgs@ == orgs@,
            r.org == 0,
            r.stage == (if orgs@.len() == 0 { Stage::Finished } else { Stage::Switch }),
    {
        let stage = if orgs.len() == 0 { Stage::Finished } else { Stage::Switch };
        Export { orgs, org: 0, stage, pending: Vec::new(), next: 0, failure: None }
    }

    /// The action that the current stage asks for.
    pub fn action(&self) -> (r: Action)
        requires
            self.wf(),
        ensures
            self.stage is Switch ==> (r matches Action::SwitchOrg(id) && id@ == self.orgs@[self.org as int].0@),
            self.stage is ListDatasources ==> r is ListDatasources,
            self.stage is SaveDatasources ==> (r matches Action::SaveDatasource { org_name, uid }
                && org_name@ == self.orgs@[self.org as int].1@ && uid@ == self.pending@[self.next as int]@),
            self.stage is ListDashboards ==> r is ListDashboards,
            self.stage is SaveDashboards ==> (r matches Action::SaveDashboard { org_name, uid }
                && org_name@ == self.orgs@[self.org as int].1@ && uid@ == self.pending@[self.next as int]@),
            self.stage is Finished ==> r is Finish,
            self.stage is Aborted ==> r is Abort,
    {
        match self.stage {
            Stage::Switch => Action::SwitchOrg(self.orgs[self.org].0.clone()),
            Stage::ListDatasources => Action::ListDatasources,
            Stage::SaveDatasources => Action::SaveDatasource {
                org_name: self.orgs[self.org].1.clone(),
                uid: self.pending[self.next].clone(),
            },
            Stage::ListDashboards => Action::ListDashboards,
            Stage::SaveDashboards => Action::SaveDashboard {
                org_name: self.orgs[self.org].1.clone(),
                uid: self.pending[self.next].clone(),
            },
            Stage::Finished => Action::Finish,
            Stage::Aborted => Action::Abort,
        }
    }

    /// Moves past organization `org`.
    fn finish_org(&mut self)
        requires
            old(self).wf(),
            !(old(self).stage is Finished || old(self).stage is Aborted),
        ensures
            final(self).wf(),
            (final(self).org, final(self).stage) == old(self).after_org(),
            final(self).orgs == old(self).orgs,
            final(self).failure == old(self).failure,
            final(self).pending == old(self).pending,
            final(self).next == old(self).next,
    {
        if self.org < self.orgs.len() - 1 {
            self.org = self.org + 1;
            self.stage = Stage::Switch;
        } else {
            self.stage = Stage::Finished;
        }
    }

    /// Takes in how the last action went and moves to the next stage.
    /// A failed switch skips the organization; a failed datasource listing
    /// goes on with the dashboards, a failed dashboard listing with the next
    /// organization; a failed save aborts the run. An event that does not
    /// answer the current stage's action changes nothing.
    pub fn step(&mut self, event: Event)
        requires
            old(self).wf(),
        ensures
            final(self).wf(),
            final(self).orgs == old(self).orgs,
            old(self).stage is Finished || old(self).stage is Aborted ==> *final(self) == *old(self),
            old(self).stage is Aborted ==> final(self).failure == old(self).failure,
            // switching
            old(self).stage is Switch && event is Done ==> final(self).org == old(self).org
                && final(self).stage is ListDatasources,
            old(self).stage is Switch && event is Failed ==> (final(self).org, final(self).stage) == old(self).after_org(),
            // listing datasources
            old(self).stage is ListDatasources ==> final(self).org == old(self).org,
            old(self).stage is ListDatasources && event is Failed ==> final(self).stage is ListDashboards,
            event matches Event::Listed(u) ==> (old(self).stage is ListDatasources ==> (if u@.len() == 0 {
                final(self).stage is ListDashboards
            } else {
                final(self).stage is SaveDatasources && final(self).pending@ == u@ && final(self).next == 0
            })),
            // saving datasources
            old(self).stage is SaveDatasources && event is Done ==> final(self).org == old(self).org && (
                if old(self).next + 1 < old(self).pending@.len() {
                    final(self).stage is SaveDatasources && final(self).next == old(self).next + 1
                        && final(self).pending == old(self).pending
                } else {
                    final(self).stage is ListDashboards
                }),
            event matches Event::Failed(e) ==> (old(self).stage is SaveDatasources ==> final(self).stage is Aborted
                && final(self).failure == Some(e)),
            // listing dashboards
            old(self).stage is ListDashboards && event is Failed ==> (final(self).org, final(self).stage) == old(self).after_org(),
            event matches Event::Listed(u) ==> (old(self).stage is ListDashboards ==> (if u@.len() == 0 {
                (final(self).org, final(self).stage) == old(self).after_org()
            } else {
                final(self).org == old(self).org && final(self).stage is SaveDashboards
                    && final(self).pending@ == u@ && final(self).next == 0
            })),
            // saving dashboards
            old(self).stage is SaveDashboards && event is Done ==> (
                if old(self).next + 1 < old(self).pending@.len() {
                    final(self).org == old(self).org && final(self).stage is SaveDashboards
                        && final(self).next == old(self).next + 1 && final(self).pending == old(self).pending
                } else {
                    (final(self).org, final(self).stage) == old(self).after_org()
                }),
            event matches Event::Failed(e) ==> (old(self).stage is SaveDashboards ==> final(self).stage is Aborted
                && final(self).failure == Some(e)),
            // what is left to save changes only with a listing or a save
            (old(self).stage is Switch || ((old(self).stage is ListDatasources || old(self).stage is ListDashboards)
                && event is Failed)) ==> final(self).pending == old(self).pending && final(self).next == old(self).next,
            // only a failed save aborts
            !(old(self).stage is SaveDatasources || old(self).stage is SaveDashboards || old(self).stage is Aborted)
                ==> !(final(self).stage is Aborted),
            // an event that does not answer the stage
            (old(self).stage is Switch && event is Listed) ==> *final(self) == *old(self),
            ((old(self).stage is ListDatasources || old(self).stage is ListDashboards) && event is Done)
                ==> *final(self) == *old(self),
            ((old(self).stage is SaveDatasources || old(self).stage is SaveDashboards) && event is Listed)
                ==> *final(self) == *old(self),
    {
        match self.stage {
            Stage::Switch => match event {
                Event::Done => {
                    self.stage = Stage::ListDatasources;
                },
                Event::Failed(_) => {
                    self.finish_org();
                },
                Event::Listed(_) => {},
            },
            Stage::ListDatasources => match event {
                Event::Listed(uids) => {
                    if uids.len() == 0 {
                        self.stage = Stage::ListDashboards;
                    } else {
                        self.pending = uids;
                        self.next = 0;
                        self.stage = Stage::SaveDatasources;
                    }
                },
                Event::Failed(_) => {
                    self.stage = Stage::ListDashboards;
                },
                Event::Done => {},
            },
            Stage::SaveDatasources => match event {
                Event::Done => {
                    if self.next < self.pending.len() - 1 {
                        self.next = self.next + 1;
                    } else {
                        self.stage = Stage::ListDashboards;
                    }
                },
                Event::Failed(e) => {
                    self.failure = Some(e);
                    self.stage = Stage::Aborted;
                },
                Event::Listed(_) => {},
            },
            Stage::ListDashboards => match event {
                Event::Listed(uids) => {
                    if uids.len() == 0 {
                        self.finish_org();
                    } else {
                        self.pending = uids;
                        self.next = 0;
                        self.stage = Stage::SaveDashboards;
                    }
                },
                Event::Failed(_) => {
                    self.finish_org();
                },
                Event::Done => {},
            },
            Stage::SaveDashboards => match event {
                Event::Done => {
                    if self.next < self.pending.len() - 1 {
                        self.next = self.next + 1;
                    } else {
                        self.finish_org();
                    }
                },
                Event::Failed(e) => {
                    self.failure = Some(e);
                    self.stage = Stage::Aborted;
                },
                Event::Listed(_) => {},
            },
            Stage::Finished => {},
            Stage::Aborted => {},
        }
    }
}

} // verus!
