//! The status registry: what the supervisors publish and the administrative
//! API reads.

use crate::names::NameMap;
use vstd::prelude::*;

verus! {

/// Whether a program is running, as its supervisor last wrote it.
#[derive(Debug, Clone, Copy, PartialEq, Eq, Structural)]
pub enum ProgramStatus {
    Running,
    Stopped,
}

impl ProgramStatus {
    /// The text by which the administrative API shows this status.
    pub open spec fn text(self) -> Seq<char> {
        match self {
            ProgramStatus::Running => "Running"@,
            ProgramStatus::Stopped => "Stopped"@,
        }
    }

    /// The text by which the administrative API shows this status.
    pub fn to_text(&self) -> (s: String)
        ensures
            s@ == self.text(),
    {
        match self {
            ProgramStatus::Running => String::from_str("Running"),
            ProgramStatus::Stopped => String::from_str("Stopped"),
        }
    }
}

/// The status of the application as a whole.
#[derive(Debug, Clone, Copy, PartialEq, Eq, Structural)]
pub enum ApplicationStatus {
    Running,
}

impl Default for ApplicationStatus {
    fn default() -> (s: Self)
        ensures
            s == ApplicationStatus::Running,
    {
        ApplicationStatus::Running
    }
}

impl ApplicationStatus {
    /// The text by which the administrative API shows this status.
    pub open spec fn text(self) -> Seq<char> {
        "Running"@
    }

    /// The text by which the administrative API shows this status.
    pub fn to_text(&self) -> (s: String)
        ensures
            s@ == self.text(),
    {
        String::from_str("Running")
    }
}

/// The status registry: the application's status and the status of each
/// program that a supervisor has written so far.
pub struct ApplicationState {
    pub application_status: ApplicationStatus,
    pub programs: NameMap<ProgramStatus>,
}

impl ApplicationState {
    /// The registry's map of program names is well formed.
    pub open spec fn wf(&self) -> bool {
        self.programs.wf()
    }

    /// The status of each program that has one, by name.
    pub open spec fn statuses(&self) -> Map<Seq<char>, ProgramStatus> {
        self.programs@
    }

    /// The listing of the registry: each program that has a status with that
    /// status, in the order in which the programs were first written.
    pub open spec fn listing(&self) -> Seq<(Seq<char>, ProgramStatus)> {
        Seq::new(
            self.programs.names().len(),
            |i: int| (self.programs.names()[i], self.programs@[self.programs.names()[i]]),
        )
    }

    /// A registry without any program status, for a running application.
    pub fn new() -> (state: Self)
        ensures
            state.wf(),
            state.application_status == ApplicationStatus::Running,
            state.statuses() == Map::<Seq<char>, ProgramStatus>::empty(),
            state.listing() == Seq::<(Seq<char>, ProgramStatus)>::empty(),
    {
        let state = ApplicationState {
            application_status: ApplicationStatus::Running,
            programs: NameMap::new(),
        };
        assert(state.listing() =~= Seq::<(Seq<char>, ProgramStatus)>::empty());
        state
    }

    /// Writes the status of the program `name`: a first write adds the
    /// program, a later one replaces its status. Nothing else changes.
    pub fn set(&mut self, name: &str, status: ProgramStatus)
        requires
            old(self).wf(),
        ensures
            final(self).wf(),
            final(self).statuses() == old(self).statuses().insert(name@, status),
            final(self).application_status == old(self).application_status,
            final(self).programs.names() == if old(self).statuses().contains_key(name@) {
                old(self).programs.names()
            } else {
                old(self).programs.names().push(name@)
            },
    {
        self.programs.insert(String::from_str(name), status);
    }

    /// The status of the program `name`, if a supervisor has written one.
    pub fn get(&self, name: &str) -> (status: Option<ProgramStatus>)
        requires
            self.wf(),
        ensures
            status == if self.statuses().contains_key(name@) {
                Some(self.statuses()[name@])
            } else {
                None
            },
    {
        match self.programs.get(name) {
            Some(s) => Some(*s),
            None => None,
        }
    }

    /// A snapshot of all program statuses, in order of first write.
    pub fn list(&self) -> (snapshot: Vec<(String, ProgramStatus)>)
        requires
            self.wf(),
        ensures
            snapshot@.len() == self.listing().len(),
            forall|i: int|
                0 <= i < snapshot@.len() ==> (#[trigger] snapshot@[i]).0@ == self.listing()[i].0
                    && snapshot@[i].1 == self.listing()[i].1,
    {
        let mut snapshot: Vec<(String, ProgramStatus)> = Vec::new();
        let n = self.programs.len();
        let mut i: usize = 0;
        while i < n
            invariant
                self.wf(),
                n == self.programs.names().len(),
                i <= n,
                snapshot@.len() == i,
                forall|j: int|
                    0 <= j < i ==> (#[trigger] snapshot@[j]).0@ == self.listing()[j].0
                        && snapshot@[j].1 == self.listing()[j].1,
            decreases n - i,
        {
            let name = self.programs.name_at(i).clone();
            let status = *self.programs.value_at(i);
            snapshot.push((name, status));
            i += 1;
        }
        snapshot
    }

    /// The status of the application.
    pub fn application_status(&self) -> (status: ApplicationStatus)
        ensures
            status == self.application_status,
    {
        self.application_status
    }
}

impl Default for ApplicationState {
    fn default() -> (state: Self)
        ensures
            state.wf(),
            state.application_status == ApplicationStatus::Running,
            state.statuses() == Map::<Seq<char>, ProgramStatus>::empty(),
    {
        ApplicationState::new()
    }
}

} // verus!
