//! Command: an action is an object of its own, which can be kept, handed
//! on, and run later or undone.
//!
//! The actions are the steps of a database migration; a schema keeps them
//! in order, runs them first to last and rolls them back last to first.

use vstd::prelude::*;

verus! {

/// A step of a migration: what it says when it is run, and when it is
/// rolled back.
pub trait Migration {
    /// What the step says when it is run.
    spec fn executed(&self) -> Seq<char>;

    /// What the step says when it is rolled back.
    spec fn rolled_back(&self) -> Seq<char>;

    /// Runs the step.
    fn execute(&self) -> (said: &str)
        ensures
            said@ == self.executed(),
    ;

    /// Rolls the step back.
    fn rollback(&self) -> (said: &str)
        ensures
            said@ == self.rolled_back(),
    ;
}

/// The step that creates a table.
pub struct CreateTable;

impl Migration for CreateTable {
    open spec fn executed(&self) -> Seq<char> {
        "execute create table"@
    }

    open spec fn rolled_back(&self) -> Seq<char> {
        "execute rollback"@
    }

    fn execute(&self) -> (said: &str) {
        "execute create table"
    }

    fn rollback(&self) -> (said: &str) {
        "execute rollback"
    }
}

/// The step that adds a field.
pub struct AddField;

impl Migration for AddField {
    open spec fn executed(&self) -> Seq<char> {
        "execute add field"@
    }

    open spec fn rolled_back(&self) -> Seq<char> {
        "roll back field"@
    }

    fn execute(&self) -> (said: &str) {
        "execute add field"
    }

    fn rollback(&self) -> (said: &str) {
        "roll back field"
    }
}

/// Either step.
pub enum AnyMigration {
    CreateTable(CreateTable),
    AddField(AddField),
}

impl Migration for AnyMigration {
    open spec fn executed(&self) -> Seq<char> {
        match self {
            AnyMigration::CreateTable(step) => step.executed(),
            AnyMigration::AddField(step) => step.executed(),
        }
    }

    open spec fn rolled_back(&self) -> Seq<char> {
        match self {
            AnyMigration::CreateTable(step) => step.rolled_back(),
            AnyMigration::AddField(step) => step.rolled_back(),
        }
    }

    fn execute(&self) -> (said: &str) {
        match self {
            AnyMigration::CreateTable(step) => step.execute(),
            AnyMigration::AddField(step) => step.execute(),
        }
    }

    fn rollback(&self) -> (said: &str) {
        match self {
            AnyMigration::CreateTable(step) => step.rollback(),
            AnyMigration::AddField(step) => step.rollback(),
        }
    }
}

/// The steps of a migration, in the order in which they were added.
pub struct Schema<M: Migration> {
    commands: Vec<M>,
}

impl<M: Migration> Schema<M> {
    /// The steps, first to last.
    pub closed spec fn steps(&self) -> Seq<M> {
        self.commands@
    }

    /// What the steps say when they are run, first to last.
    pub open spec fn executed(&self) -> Seq<Seq<char>> {
        Seq::new(self.steps().len(), |i: int| self.steps()[i].executed())
    }

    /// What the steps say when they are rolled back, last to first.
    pub open spec fn rolled_back(&self) -> Seq<Seq<char>> {
        Seq::new(
            self.steps().len(),
            |i: int| self.steps()[self.steps().len() - 1 - i].rolled_back(),
        )
    }

    /// A schema without steps.
    pub fn new() -> (schema: Self)
        ensures
            schema.steps() == Seq::<M>::empty(),
    {
        Self { commands: Vec::new() }
    }

    /// Adds `cmd` as the last step.
    pub fn add_migration(&mut self, cmd: M)
        ensures
            final(self).steps() == old(self).steps().push(cmd),
    {
        self.commands.push(cmd);
    }

    /// Rolls the steps back, last to first, and returns what each said.
    pub fn rollback(&self) -> (said: Vec<&str>)
        ensures
            said@.len() == self.steps().len(),
            forall|i: int| 0 <= i < said@.len() ==> (#[trigger] said@[i])@ == self.rolled_back()[i],
    {
        let mut said: Vec<&str> = Vec::new();
        let mut remaining: usize = self.commands.len();
        while remaining > 0
            invariant
                remaining <= self.commands.len(),
                said@.len() == self.commands.len() - remaining,
                forall|i: int|
                    0 <= i < said@.len() ==> (#[trigger] said@[i])@ == self.rolled_back()[i],
            decreases remaining,
        {
            remaining -= 1;
            said.push(self.commands[remaining].rollback());
        }
        said
    }

    /// Runs the steps, first to last, and returns what each said.
    pub fn execute(&self) -> (said: Vec<&str>)
        ensures
            said@.len() == self.steps().len(),
            forall|i: int| 0 <= i < said@.len() ==> (#[trigger] said@[i])@ == self.executed()[i],
    {
        let mut said: Vec<&str> = Vec::new();
        let mut i: usize = 0;
        while i < self.commands.len()
            invariant
                i <= self.commands.len(),
                said@.len() == i,
                forall|j: int| 0 <= j < said@.len() ==> (#[trigger] said@[j])@ == self.executed()[j],
            decreases self.commands.len() - i,
        {
            said.push(self.commands[i].execute());
            i += 1;
        }
        said
    }
}

} // verus!
