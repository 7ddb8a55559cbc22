//! Questions the tool asks its user, and a scripted stand-in that answers
//! them from prepared lists.

use vstd::prelude::*;

verus! {

/// The answer of an input validator: accepted, or rejected with a reason.
pub type ValidatorResult = Result<(), String>;

/// The questions the tool can ask.
pub trait UserInteraction {
    /// Whether a yes/no question can be answered now.
    spec fn can_confirm(&self) -> bool;

    /// Whether a text question can be answered now.
    spec fn can_input(&self) -> bool;

    /// Whether a choice among items can be made now.
    spec fn can_select(&self) -> bool;

    /// Whether a choice of several items can be made now.
    spec fn can_multi_select(&self) -> bool;

    fn confirm(&mut self, msg: &str) -> bool
        requires
            old(self).can_confirm(),
    ;

    fn input<F: Fn(&String) -> ValidatorResult>(&mut self, msg: &str, validator: F) -> String
        requires
            old(self).can_input(),
    ;

    fn select(&mut self, msg: &str, items: &[String]) -> usize
        requires
            old(self).can_select(),
    ;

    fn multi_select(&mut self, msg: &str, items: &[String]) -> Vec<usize>
        requires
            old(self).can_multi_select(),
    ;
}

/// Answers questions from prepared lists, in order, one answer per question.
#[derive(Debug, Default)]
pub struct MockUserInteraction {
    pub confirm_answers: Vec<bool>,
    pub input_answers: Vec<String>,
    pub select_answers: Vec<usize>,
    pub multi_select_answers: Vec<Vec<usize>>,
}

impl UserInteraction for MockUserInteraction {
    open spec fn can_confirm(&self) -> bool {
        self.confirm_answers@.len() > 0
    }

    open spec fn can_input(&self) -> bool {
        self.input_answers@.len() > 0
    }

    open spec fn can_select(&self) -> bool {
        self.select_answers@.len() > 0
    }

    open spec fn can_multi_select(&self) -> bool {
        self.multi_select_answers@.len() > 0
    }

    /// The next prepared yes/no answer.
    fn confirm(&mut self, msg: &str) -> (res: bool)
        ensures
            res == old(self).confirm_answers@[0],
            final(self).confirm_answers@ == old(self).confirm_answers@.drop_first(),
            final(self).input_answers == old(self).input_answers,
            final(self).select_answers == old(self).select_answers,
            final(self).multi_select_answers == old(self).multi_select_answers,
    {
        self.confirm_answers.remove(0)
    }

    /// The next prepared text, whatever the validator says.
    fn input<F: Fn(&String) -> ValidatorResult>(&mut self, msg: &str, validator: F) -> (res: String)
        ensures
            res == old(self).input_answers@[0],
            final(self).input_answers@ == old(self).input_answers@.drop_first(),
            final(self).confirm_answers == old(self).confirm_answers,
            final(self).select_answers == old(self).select_answers,
            final(self).multi_select_answers == old(self).multi_select_answers,
    {
        self.input_answers.remove(0)
    }

    /// The next prepared choice.
    fn select(&mut self, msg: &str, items: &[String]) -> (res: usize)
        ensures
            res == old(self).select_answers@[0],
            final(self).select_answers@ == old(self).select_answers@.drop_first(),
            final(self).confirm_answers == old(self).confirm_answers,
            final(self).input_answers == old(self).input_answers,
            final(self).multi_select_answers == old(self).multi_select_answers,
    {
        self.select_answers.remove(0)
    }

    /// The next prepared set of choices.
    fn multi_select(&mut self, msg: &str, items: &[String]) -> (res: Vec<usize>)
        ensures
            res == old(self).multi_select_answers@[0],
            final(self).multi_select_answers@ == old(self).multi_select_answers@.drop_first(),
            final(self).confirm_answers == old(self).confirm_answers,
            final(self).input_answers == old(self).input_answers,
            final(self).select_answers == old(self).select_answers,
    {
        self.multi_select_answers.remove(0)
    }
}

} // verus!
