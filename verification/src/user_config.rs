//! The user's own settings: the organization deployments go to.
use vstd::prelude::*;
use crate::credentials::{current_time, Timestamp};

verus! {

/// An organization chosen for deployments.
#[derive(Debug, Clone)]
pub struct OrgSelection {
    /// Organization id at WorkOS
    pub id: String,
    /// Organization name, for display
    pub name: String,
    /// When it was chosen
    pub selected_at: Timestamp,
}

/// The user's settings.
#[derive(Debug, Clone)]
pub struct UserConfig {
    /// The organization deployments go to, if one was chosen
    pub selected_org: Option<OrgSelection>,
}

impl Default for UserConfig {
    /// No organization chosen.
    fn default() -> (r: UserConfig)
        ensures
            r.selected_org is None,
    {
        UserConfig { selected_org: None }
    }
}

impl UserConfig {
    /// Chooses the organization `id` (named `name`) at the instant `at`.
    pub fn set_selected_org_at(&mut self, id: String, name: String, at: Timestamp)
        ensures
            final(self).selected_org matches Some(o) && o.id == id && o.name == name && o.selected_at == at,
    {
        self.selected_org = Some(OrgSelection { id, name, selected_at: at });
    }

    /// Chooses the organization `id` (named `name`) now, by the system
    /// clock. A clock that reads before the Unix epoch gives an error and
    /// leaves the settings as they were.
    pub fn set_selected_org(&mut self, id: String, name: String) -> (r: Result<(), String>)
        ensures
            r is Ok ==> (final(self).selected_org matches Some(o) && o.id == id && o.name == name),
            r matches Err(m) ==> m@ == "System clock reads before the Unix epoch"@
                && final(self).selected_org == old(self).selected_org,
    {
        match current_time() {
            Some(now) => {
                self.set_selected_org_at(id, name, now);
                Ok(())
            },
            None => Err("System clock reads before the Unix epoch".to_owned()),
        }
    }

    /// Forgets the chosen organization.
    pub fn clear_selected_org(&mut self)
        ensures
            final(self).selected_org is None,
    {
        self.selected_org = None;
    }
}

} // verus!
