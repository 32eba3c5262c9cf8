//! The store: a flat file of records, one per line, that only grows. The
//! file itself is the caller's business; here is what has to be created
//! before its first use, and what an append does to its contents.

use crate::record::{format_line, record_line};
use vstd::prelude::*;
use vstd::string::*;

verus! {

/// What the caller found on disk.
#[derive(Clone, Copy, Debug, PartialEq, Eq, Structural)]
pub struct Presence {
    /// The store's directory exists.
    pub dir_exists: bool,
    /// The store's file exists.
    pub file_exists: bool,
}

/// What the caller has to create before the store can be used.
#[derive(Clone, Copy, Debug, PartialEq, Eq, Structural)]
pub struct SetupPlan {
    /// Create the directory, with the directories above it.
    pub create_dir: bool,
    /// Create the file, empty.
    pub create_file: bool,
}

impl Presence {
    /// What to create: each of the two that is missing, and nothing else.
    pub open spec fn plan(self) -> SetupPlan {
        SetupPlan { create_dir: !self.dir_exists, create_file: !self.file_exists }
    }

    /// What is on disk once `plan` has been carried out.
    pub open spec fn after(self, plan: SetupPlan) -> Presence {
        Presence {
            dir_exists: self.dir_exists || plan.create_dir,
            file_exists: self.file_exists || plan.create_file,
        }
    }

    /// Directory and file are both there.
    pub open spec fn complete(self) -> bool {
        self.dir_exists && self.file_exists
    }
}

impl SetupPlan {
    /// Nothing is to be created.
    pub open spec fn is_empty(self) -> bool {
        !self.create_dir && !self.create_file
    }
}

/// Decides what has to be created so that the store can be read and
/// appended to. Where directory and file exist, nothing is.
pub fn setup_plan(presence: Presence) -> (plan: SetupPlan)
    ensures
        plan == presence.plan(),
        presence.complete() <==> plan.is_empty(),
{
    SetupPlan { create_dir: !presence.dir_exists, create_file: !presence.file_exists }
}

/// Setting up is idempotent: once a plan has been carried out the store
/// is complete, the next plan is empty, and carrying that out changes
/// nothing.
pub proof fn lemma_setup_is_idempotent(presence: Presence)
    ensures
        presence.after(presence.plan()).complete(),
        presence.after(presence.plan()).plan().is_empty(),
        presence.after(presence.plan()).after(presence.after(presence.plan()).plan())
            == presence.after(presence.plan()),
{
}

/// Adds one record to the end of the store's contents. What was there
/// stays as it is, in its order.
pub fn append_record(contents: &mut String, name: &str, password: &str)
    ensures
        final(contents)@ == old(contents)@ + record_line(name@, password@),
{
    let line = format_line(name, password);
    contents.append(line.as_str());
}

} // verus!
