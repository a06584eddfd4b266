//! The case sub-state-machine: Upper / Lower / Number, with a memory of
//! the case that was active before Number was entered, so that leaving
//! Number restores it.

use vstd::prelude::*;

verus! {

/// The character set a digit key currently decodes into.
#[derive(Debug, Clone, Copy, PartialEq, Eq, Structural)]
pub enum Case {
    Upper,
    Lower,
    Number,
}

/// The abstract state of the case machine: the active case and the case
/// that was active before Number was entered.
pub struct CaseModel {
    pub case: Case,
    pub prev_case: Case,
}

/// One short press of the case key: Upper and Lower swap; from Number the
/// previously active case is restored, defaulting to Upper if the machine
/// was somehow in Number before as well.
pub open spec fn cycled(m: CaseModel) -> CaseModel {
    CaseModel {
        case: match m.case {
            Case::Upper => Case::Lower,
            Case::Lower => Case::Upper,
            Case::Number => match m.prev_case {
                Case::Number => Case::Upper,
                p => p,
            },
        },
        prev_case: m.prev_case,
    }
}

/// Entering Number mode: the active case is remembered so that it can be
/// restored later.
pub open spec fn numeric(m: CaseModel) -> CaseModel {
    CaseModel { case: Case::Number, prev_case: m.case }
}

/// The case machine.  It has no terminal state: it runs for the lifetime
/// of a text-entry session.
#[derive(Debug)]
pub struct CaseState {
    case: Case,
    prev_case: Case,
}

impl View for CaseState {
    type V = CaseModel;

    closed spec fn view(&self) -> CaseModel {
        CaseModel { case: self.case, prev_case: self.prev_case }
    }
}

impl CaseState {
    pub fn new(case: Case) -> (r: Self)
        ensures
            r@ == (CaseModel { case, prev_case: case }),
    {
        Self { case, prev_case: case }
    }

    pub fn case(&self) -> (c: Case)
        ensures
            c == self@.case,
    {
        self.case
    }

    /// Switches to Number, remembering the case that was active.
    pub fn enable_numeric_case(&mut self)
        ensures
            final(self)@ == numeric(old(self)@),
    {
        self.prev_case = self.case;
        self.case = Case::Number;
    }

    /// Cycles the case as one short press of the case key does; see
    /// [`cycled`].
    pub fn cycle_case(&mut self)
        ensures
            final(self)@ == cycled(old(self)@),
    {
        self.case = match self.case {
            Case::Number => match self.prev_case {
                Case::Upper => Case::Upper,
                Case::Lower => Case::Lower,
                Case::Number => Case::Upper,
            },
            Case::Upper => Case::Lower,
            Case::Lower => Case::Upper,
        }
    }
}

} // verus!
