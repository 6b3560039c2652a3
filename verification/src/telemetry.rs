//! What a sync reports about itself.

use vstd::prelude::*;

verus! {

/// How the incoming records fared.
#[derive(Clone, Copy, Debug, PartialEq, Eq, Structural)]
pub struct EngineIncoming {
    /// How many records were staged.
    pub applied: u32,
    /// How many records were malformed and left out.
    pub failed: u32,
}

/// One more; the count stops at the largest value.
pub open spec fn one_more(n: u32) -> u32 {
    if n < u32::MAX {
        (n + 1) as u32
    } else {
        n
    }
}

impl EngineIncoming {
    /// A report of nothing.
    pub fn new() -> (r: Self)
        ensures
            r.applied == 0,
            r.failed == 0,
    {
        EngineIncoming { applied: 0, failed: 0 }
    }

    /// Counts one more staged record.
    pub fn applied(&mut self)
        ensures
            final(self).applied == one_more(old(self).applied),
            final(self).failed == old(self).failed,
    {
        if self.applied < u32::MAX {
            self.applied = self.applied + 1;
        }
    }

    /// Counts one more record that was left out.
    pub fn failed(&mut self)
        ensures
            final(self).failed == one_more(old(self).failed),
            final(self).applied == old(self).applied,
    {
        if self.failed < u32::MAX {
            self.failed = self.failed + 1;
        }
    }
}

/// A kind of problem in the structure of the server's tree, with the number
/// of items that have it.
#[derive(Debug)]
pub struct Problem {
    pub name: String,
    pub count: usize,
}

/// What a `Problem` says, with the name as its text.
pub ghost struct ProblemModel {
    pub name: Seq<char>,
    pub count: usize,
}

impl DeepView for Problem {
    type V = ProblemModel;

    open spec fn deep_view(&self) -> ProblemModel {
        ProblemModel { name: self.name@, count: self.count }
    }
}

/// The problems found in the structure of the server's tree.
#[derive(Debug)]
pub struct Validation {
    pub problems: Vec<Problem>,
}

/// The problems with one of the kind `name` added, where `count` items have
/// it.
pub open spec fn with_problem(problems: Seq<ProblemModel>, name: Seq<char>, count: usize) -> Seq<
    ProblemModel,
> {
    if count > 0 {
        problems.push(ProblemModel { name, count })
    } else {
        problems
    }
}

impl Validation {
    /// A report of no problem.
    pub fn new() -> (r: Self)
        ensures
            r.problems.deep_view() == Seq::<ProblemModel>::empty(),
    {
        let r = Validation { problems: Vec::new() };
        assert(r.problems.deep_view() =~= Seq::empty());
        r
    }

    /// Notes a kind of problem, unless no item has it.
    pub fn problem(&mut self, name: &str, count: usize)
        ensures
            final(self).problems.deep_view() == with_problem(
                old(self).problems.deep_view(),
                name@,
                count,
            ),
    {
        if count > 0 {
            self.problems.push(Problem { name: name.to_owned(), count });
            assert(self.problems.deep_view() =~= old(self).problems.deep_view().push(
                ProblemModel { name: name@, count },
            ));
        }
    }
}

/// What a sync of the engine reports.
#[derive(Debug)]
pub struct Engine {
    pub name: String,
    pub incoming: Option<EngineIncoming>,
    pub validation: Option<Validation>,
}

impl Engine {
    /// A report of nothing for the engine `name`.
    pub fn new(name: &str) -> (r: Self)
        ensures
            r.name@ == name@,
            r.incoming is None,
            r.validation is None,
    {
        Engine { name: name.to_owned(), incoming: None, validation: None }
    }

    /// Takes in how the incoming records fared.
    pub fn incoming(&mut self, incoming: EngineIncoming)
        ensures
            final(self).incoming == Some(incoming),
            final(self).name == old(self).name,
            final(self).validation == old(self).validation,
    {
        self.incoming = Some(incoming);
    }

    /// Takes in the problems found in the server's tree.
    pub fn validation(&mut self, validation: Validation)
        ensures
            final(self).validation == Some(validation),
            final(self).name == old(self).name,
            final(self).incoming == old(self).incoming,
    {
        self.validation = Some(validation);
    }
}

} // verus!
