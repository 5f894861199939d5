//! The exams that the trainer knows, by name.

use crate::exam::{Exam, ExamView};
use crate::utils::text::str_eq;
use vstd::prelude::*;

verus! {

/// The first exam of that name in a list.
pub open spec fn find_exam(exams: Seq<ExamView>, name: Seq<char>) -> Option<ExamView>
    decreases exams.len(),
{
    if exams.len() == 0 {
        None
    } else if exams[0].name == name {
        Some(exams[0])
    } else {
        find_exam(exams.drop_first(), name)
    }
}

/// The values of a list of exams.
pub open spec fn exam_views(exams: Seq<Exam>) -> Seq<ExamView> {
    Seq::new(exams.len(), |i: int| exams[i]@)
}

/// The exams in the order in which they were taken up.
#[derive(Debug)]
pub struct ExamDB {
    exams: Vec<Exam>,
}

impl View for ExamDB {
    type V = Seq<ExamView>;

    closed spec fn view(&self) -> Seq<ExamView> {
        exam_views(self.exams@)
    }
}

impl ExamDB {
    /// A database without exams.
    pub fn new() -> (database: Self)
        ensures
            database@ == Seq::<ExamView>::empty(),
    {
        let database = Self { exams: Vec::new() };
        proof {
            assert(database@ =~= Seq::<ExamView>::empty());
        }
        database
    }

    /// Takes an exam up, unless one of the same name is there already:
    /// then the database stays as it is, and the answer is `false`.
    pub fn insert(&mut self, exam: Exam) -> (taken: bool)
        ensures
            taken == find_exam(old(self)@, exam@.name) is None,
            taken ==> final(self)@ == old(self)@.push(exam@),
            !taken ==> final(self)@ == old(self)@,
    {
        if self.get_exam_by_name(exam.name()).is_some() {
            false
        } else {
            self.exams.push(exam);
            proof {
                assert(self@ =~= old(self)@.push(exam@));
            }
            true
        }
    }

    pub fn get_exam_by_name(&self, name: &str) -> (found: Option<&Exam>)
        ensures
            match found {
                Some(exam) => find_exam(self@, name@) == Some(exam@),
                None => find_exam(self@, name@) is None,
            },
    {
        let mut i: usize = 0;
        proof {
            assert(self@.skip(0) =~= self@);
        }
        while i < self.exams.len()
            invariant
                i <= self.exams.len(),
                find_exam(self@, name@) == find_exam(self@.skip(i as int), name@),
            decreases self.exams.len() - i,
        {
            proof {
                assert(self@.skip(i as int)[0] == self.exams[i as int]@);
                assert(self@.skip(i as int).drop_first() =~= self@.skip(i + 1));
            }
            if str_eq(self.exams[i].name(), name) {
                return Some(&self.exams[i]);
            }
            i = i + 1;
        }
        proof {
            assert(self@.skip(i as int) =~= Seq::<ExamView>::empty());
        }
        None
    }

    /// The number of exams.
    pub fn len(&self) -> (len: usize)
        ensures
            len == self@.len(),
    {
        self.exams.len()
    }

    /// The exam at a position, in the order in which they were taken up.
    pub fn get(&self, index: usize) -> (found: Option<&Exam>)
        ensures
            match found {
                Some(exam) => index < self@.len() && exam@ == self@[index as int],
                None => index >= self@.len(),
            },
    {
        if index < self.exams.len() {
            Some(&self.exams[index])
        } else {
            None
        }
    }
}

} // verus!
