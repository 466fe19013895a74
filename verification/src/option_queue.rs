use vstd::prelude::*;

use crate::call::SetSockOpt;

verus! {

/// The socket options that are still to be set, in their order: no configuration sets more than
/// two.
#[derive(Clone, Copy, Debug, PartialEq, Eq)]
pub enum OptionQueue {
    Empty,
    One(SetSockOpt),
    Two(SetSockOpt, SetSockOpt),
}

impl OptionQueue {
    pub open spec fn view(self) -> Seq<SetSockOpt> {
        match self {
            OptionQueue::Empty => seq![],
            OptionQueue::One(first) => seq![first],
            OptionQueue::Two(first, second) => seq![first, second],
        }
    }

    /// The first option and those after it, if there is one.
    pub open spec fn first_and_rest(self) -> Option<(SetSockOpt, OptionQueue)> {
        match self {
            OptionQueue::Empty => None,
            OptionQueue::One(first) => Some((first, OptionQueue::Empty)),
            OptionQueue::Two(first, second) => Some((first, OptionQueue::One(second))),
        }
    }

    /// Adds an option at the end.
    pub fn push(self, option: SetSockOpt) -> (queue: OptionQueue)
        requires
            self !is Two,
        ensures
            queue@ == self@.push(option),
            self is Empty ==> queue == OptionQueue::One(option),
            self matches OptionQueue::One(first) ==> queue == OptionQueue::Two(first, option),
    {
        match self {
            OptionQueue::Empty => OptionQueue::One(option),
            OptionQueue::One(first) => OptionQueue::Two(first, option),
            OptionQueue::Two(..) => self,
        }
    }

    pub fn split_first(self) -> (res: Option<(SetSockOpt, OptionQueue)>)
        ensures
            res == self.first_and_rest(),
            res is None <==> self@.len() == 0,
            res matches Some((first, rest)) ==> self@ == seq![first] + rest@,
    {
        match self {
            OptionQueue::Empty => None,
            OptionQueue::One(first) => Some((first, OptionQueue::Empty)),
            OptionQueue::Two(first, second) => Some((first, OptionQueue::One(second))),
        }
    }
}

} // verus!
