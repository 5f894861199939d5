//! A range of difficulties, both ends included.

use crate::error::{Error, ErrorView};
use crate::utils::text::copy_str;
use vstd::prelude::*;

verus! {

#[derive(Debug, Clone, Copy, PartialEq, Eq, Structural)]
pub struct Range {
    min: u32,
    max: u32,
}

/// The range that two ends make, where the lower is not above the upper.
pub open spec fn range_of(min: u32, max: u32) -> Result<(u32, u32), ErrorView> {
    if min > max {
        Err(ErrorView::General("Max < Min in creation of Range value"@))
    } else {
        Ok((min, max))
    }
}

/// The range that a list of numbers makes: it must hold the two ends and
/// nothing else.
pub open spec fn range_of_list(list: Seq<u32>) -> Result<(u32, u32), ErrorView> {
    if list.len() == 2 {
        range_of(list[0], list[1])
    } else {
        Err(ErrorView::General("Creating Range with vector that has length not equal to 2"@))
    }
}

/// The ranges that a list of lists makes, or what is wrong with the first
/// list that makes none.
pub open spec fn ranges_of(lists: Seq<Vec<u32>>) -> Result<Seq<(u32, u32)>, ErrorView>
    decreases lists.len(),
{
    if lists.len() == 0 {
        Ok(Seq::empty())
    } else {
        match ranges_of(lists.drop_last()) {
            Err(error) => Err(error),
            Ok(ranges) => match range_of_list(lists.last()@) {
                Err(error) => Err(error),
                Ok(range) => Ok(ranges.push(range)),
            },
        }
    }
}

/// The ends of each range of a list.
pub open spec fn ends_of(ranges: Seq<Range>) -> Seq<(u32, u32)> {
    Seq::new(ranges.len(), |i: int| ranges[i].ends())
}

impl Range {
    /// The two ends of the range, the lower first.
    pub closed spec fn ends(&self) -> (u32, u32) {
        (self.min, self.max)
    }

    pub fn new(min: u32, max: u32) -> (result: Result<Self, Error>)
        ensures
            match result {
                Ok(range) => range_of(min, max) == Ok::<(u32, u32), ErrorView>(range.ends()),
                Err(error) => range_of(min, max) == Err::<(u32, u32), ErrorView>(error@),
            },
    {
        if min > max {
            Err(Error::General(copy_str("Max < Min in creation of Range value")))
        } else {
            Ok(Self { min, max })
        }
    }

    pub fn from_vector(vec: &Vec<u32>) -> (result: Result<Self, Error>)
        ensures
            match result {
                Ok(range) => range_of_list(vec@) == Ok::<(u32, u32), ErrorView>(range.ends()),
                Err(error) => range_of_list(vec@) == Err::<(u32, u32), ErrorView>(error@),
            },
    {
        if vec.len() == 2 {
            Self::new(vec[0], vec[1])
        } else {
            Err(
                Error::General(
                    copy_str("Creating Range with vector that has length not equal to 2"),
                ),
            )
        }
    }

    pub fn new_range_vector(vec: &Vec<Vec<u32>>) -> (result: Result<Vec<Self>, Error>)
        ensures
            match result {
                Ok(ranges) => ranges_of(vec@) == Ok::<Seq<(u32, u32)>, ErrorView>(
                    ends_of(ranges@),
                ),
                Err(error) => ranges_of(vec@) == Err::<Seq<(u32, u32)>, ErrorView>(error@),
            },
    {
        let mut output: Vec<Self> = Vec::new();
        let mut i: usize = 0;
        proof {
            assert(vec@.take(0) =~= Seq::<Vec<u32>>::empty());
            assert(ends_of(output@) =~= Seq::<(u32, u32)>::empty());
        }
        while i < vec.len()
            invariant
                i <= vec.len(),
                output.len() == i,
                ranges_of(vec@.take(i as int)) == Ok::<Seq<(u32, u32)>, ErrorView>(
                    ends_of(output@),
                ),
            decreases vec.len() - i,
        {
            proof {
                assert(vec@.take(i + 1).drop_last() =~= vec@.take(i as int));
                assert(vec@.take(i + 1).last() == vec@[i as int]);
            }
            let ghost before = ends_of(output@);
            match Self::from_vector(&vec[i]) {
                Ok(range) => {
                    output.push(range);
                    proof {
                        assert(ends_of(output@) =~= before.push(range.ends()));
                    }
                },
                Err(error) => {
                    proof {
                        lemma_first_bad_list(vec@, i as int);
                    }
                    return Err(error);
                },
            }
            i = i + 1;
        }
        proof {
            assert(vec@.take(i as int) =~= vec@);
        }
        Ok(output)
    }

    /// Whether a value lies in the range.
    pub fn contains(&self, val: u32) -> (inside: bool)
        ensures
            inside == (self.ends().0 <= val && val <= self.ends().1),
    {
        val >= self.min && val <= self.max
    }

    pub fn min(&self) -> (min: u32)
        ensures
            min == self.ends().0,
    {
        self.min
    }

    pub fn max(&self) -> (max: u32)
        ensures
            max == self.ends().1,
    {
        self.max
    }
}

/// Where the lists before a position make ranges and the list at it makes
/// none, the whole has the error of that list.
proof fn lemma_first_bad_list(lists: Seq<Vec<u32>>, at: int)
    requires
        0 <= at < lists.len(),
        ranges_of(lists.take(at)) is Ok,
        range_of_list(lists[at]@) is Err,
    ensures
        ranges_of(lists) == Err::<Seq<(u32, u32)>, ErrorView>(range_of_list(lists[at]@)->Err_0),
    decreases lists.len(),
{
    if at == lists.len() - 1 {
        assert(lists.drop_last() =~= lists.take(at));
    } else {
        assert(lists.drop_last().take(at) =~= lists.take(at));
        lemma_first_bad_list(lists.drop_last(), at);
    }
}

} // verus!
