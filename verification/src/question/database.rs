//! The questions that the trainer knows, by name.

use crate::question::error::{QuestionError, QuestionErrorView};
use crate::question::{Question, QuestionView};
use crate::utils::text::{copy_str, str_eq};
use crate::utils::Range;
use vstd::prelude::*;

verus! {

/// The first question of that name in a list.
pub open spec fn find_question(questions: Seq<QuestionView>, name: Seq<char>) -> Option<
    QuestionView,
>
    decreases questions.len(),
{
    if questions.len() == 0 {
        None
    } else if questions[0].name == name {
        Some(questions[0])
    } else {
        find_question(questions.drop_first(), name)
    }
}

/// The questions of a list whose difficulty lies between two ends, in the
/// order of the list.
pub open spec fn questions_in(questions: Seq<QuestionView>, ends: (u32, u32)) -> Seq<QuestionView>
    decreases questions.len(),
{
    if questions.len() == 0 {
        Seq::empty()
    } else if ends.0 <= questions.last().difficulty && questions.last().difficulty <= ends.1 {
        questions_in(questions.drop_last(), ends).push(questions.last())
    } else {
        questions_in(questions.drop_last(), ends)
    }
}

/// The values of a list of questions.
pub open spec fn question_views(questions: Seq<Question>) -> Seq<QuestionView> {
    Seq::new(questions.len(), |i: int| questions[i]@)
}

/// The values of a list of borrowed questions.
pub open spec fn borrowed_views(questions: Seq<&Question>) -> Seq<QuestionView> {
    Seq::new(questions.len(), |i: int| questions[i]@)
}

/// Whether no two questions of a list bear the same name.
pub open spec fn distinct_names(questions: Seq<QuestionView>) -> bool {
    forall|i: int, j: int|
        0 <= i < j < questions.len() ==> (#[trigger] questions[i]).name != (
        #[trigger] questions[j]).name
}

/// The questions in the order in which they were taken up.
#[derive(Debug)]
pub struct QuestionDB {
    questions: Vec<Question>,
}

impl View for QuestionDB {
    type V = Seq<QuestionView>;

    closed spec fn view(&self) -> Seq<QuestionView> {
        question_views(self.questions@)
    }
}

impl QuestionDB {
    /// A database without questions.
    pub fn new() -> (database: Self)
        ensures
            database@ == Seq::<QuestionView>::empty(),
    {
        let database = Self { questions: Vec::new() };
        proof {
            assert(database@ =~= Seq::<QuestionView>::empty());
        }
        database
    }

    /// Takes a question up, unless one of the same name is there already:
    /// then the database stays as it is and the name is reported.
    pub fn insert(&mut self, question: Question) -> (result: Result<(), QuestionError>)
        ensures
            match result {
                Ok(_) => find_question(old(self)@, question@.name) is None && final(self)@ == old(
                    self,
                )@.push(question@),
                Err(error) => find_question(old(self)@, question@.name) is Some && final(self)@
                    == old(self)@ && error@ == QuestionErrorView::DuplicateQuestion(
                    question@.name,
                ),
            },
            distinct_names(old(self)@) ==> distinct_names(final(self)@),
    {
        if self.get_question_by_name(question.name()).is_some() {
            Err(QuestionError::DuplicateQuestion(copy_str(question.name())))
        } else {
            proof {
                lemma_not_found(self@, question@.name);
            }
            self.questions.push(question);
            proof {
                assert(self@ =~= old(self)@.push(question@));
            }
            Ok(())
        }
    }

    pub fn get_question_by_name(&self, name: &str) -> (found: Option<&Question>)
        ensures
            match found {
                Some(question) => find_question(self@, name@) == Some(question@),
                None => find_question(self@, name@) is None,
            },
    {
        let mut i: usize = 0;
        proof {
            assert(self@.skip(0) =~= self@);
        }
        while i < self.questions.len()
            invariant
                i <= self.questions.len(),
                find_question(self@, name@) == find_question(self@.skip(i as int), name@),
            decreases self.questions.len() - i,
        {
            proof {
                assert(self@.skip(i as int)[0] == self.questions[i as int]@);
                assert(self@.skip(i as int).drop_first() =~= self@.skip(i + 1));
            }
            if str_eq(self.questions[i].name(), name) {
                return Some(&self.questions[i]);
            }
            i = i + 1;
        }
        proof {
            assert(self@.skip(i as int) =~= Seq::<QuestionView>::empty());
        }
        None
    }

    /// Whether a question of that name is known.
    pub fn contains(&self, name: &str) -> (known: bool)
        ensures
            known == find_question(self@, name@) is Some,
    {
        self.get_question_by_name(name).is_some()
    }

    /// The questions whose difficulty lies in a range, in the order in
    /// which they were taken up.
    pub fn get_questions_by_difficulty_range(&self, range: &Range) -> (found: Vec<&Question>)
        ensures
            borrowed_views(found@) == questions_in(self@, range.ends()),
    {
        let mut out: Vec<&Question> = Vec::new();
        let mut i: usize = 0;
        proof {
            assert(self@.take(0) =~= Seq::<QuestionView>::empty());
            assert(borrowed_views(out@) =~= Seq::<QuestionView>::empty());
        }
        while i < self.questions.len()
            invariant
                i <= self.questions.len(),
                borrowed_views(out@) == questions_in(self@.take(i as int), range.ends()),
            decreases self.questions.len() - i,
        {
            proof {
                assert(self@.take(i + 1).drop_last() =~= self@.take(i as int));
                assert(self@.take(i + 1).last() == self.questions[i as int]@);
            }
            let ghost before = borrowed_views(out@);
            if self.questions[i].has_difficulty_in_range(range) {
                out.push(&self.questions[i]);
                proof {
                    assert(borrowed_views(out@) =~= before.push(self.questions[i as int]@));
                }
            }
            i = i + 1;
        }
        proof {
            assert(self@.take(i as int) =~= self@);
        }
        out
    }

    /// The number of questions.
    pub fn len(&self) -> (len: usize)
        ensures
            len == self@.len(),
    {
        self.questions.len()
    }

    /// The question at a position, in the order in which they were taken
    /// up.
    pub fn get(&self, index: usize) -> (found: Option<&Question>)
        ensures
            match found {
                Some(question) => index < self@.len() && question@ == self@[index as int],
                None => index >= self@.len(),
            },
    {
        if index < self.questions.len() {
            Some(&self.questions[index])
        } else {
            None
        }
    }
}

/// A name that is not found is borne by no question of the list.
pub proof fn lemma_not_found(questions: Seq<QuestionView>, name: Seq<char>)
    requires
        find_question(questions, name) is None,
    ensures
        forall|i: int| 0 <= i < questions.len() ==> (#[trigger] questions[i]).name != name,
    decreases questions.len(),
{
    if questions.len() > 0 {
        lemma_not_found(questions.drop_first(), name);
        assert forall|i: int| 0 <= i < questions.len() implies (#[trigger] questions[i]).name
            != name by {
            if i > 0 {
                assert(questions.drop_first()[i - 1] == questions[i]);
            }
        }
    }
}

} // verus!
