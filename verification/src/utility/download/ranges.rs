//! The byte ranges in which a resource is fetched piece by piece.

use vstd::prelude::*;
use vstd::string::StringExecFns;

use crate::utility::text::{decimal, push_decimal};

verus! {

/// The text of the byte range from `first` to `last`, as it stands in a
/// range header: both numbers with a hyphen between them.
pub open spec fn range_text(first: nat, last: nat) -> Seq<char> {
    decimal(first) + "-"@ + decimal(last)
}

/// The texts of the byte ranges of the length `chunk_size` that cover the
/// bytes from `next` to `max`; the last range ends with `max`.
pub open spec fn ranges(next: nat, max: nat, chunk_size: nat) -> Seq<Seq<char>>
    decreases max + 1 - next,
{
    if next > max || chunk_size == 0 {
        Seq::empty()
    } else if next + chunk_size > max {
        seq![range_text(next, max)]
    } else {
        seq![range_text(next, (next + chunk_size - 1) as nat)] + ranges(
            next + chunk_size,
            max,
            chunk_size,
        )
    }
}

/// The views of a list of texts.
pub open spec fn views(list: Seq<String>) -> Seq<Seq<char>> {
    Seq::new(list.len(), |i: int| list[i]@)
}

/// Walks over a span of bytes in ranges of a fixed length.
#[derive(Clone, Copy, Debug, PartialEq, Eq, Structural)]
pub struct PartialRangeIter {
    chunk_size: u32,
    max_length: u32,
    val: u64,
}

impl PartialRangeIter {
    #[verifier::type_invariant]
    closed spec fn bounded(self) -> bool {
        self.chunk_size > 0 && self.val <= 0x2_0000_0000
    }

    /// The texts of the ranges that are still to come.
    pub closed spec fn remaining(self) -> Seq<Seq<char>> {
        ranges(self.val as nat, self.max_length as nat, self.chunk_size as nat)
    }

    /// Starts a walk over the bytes from `starting_value` to `max_value`
    /// in ranges of `chunk_size` bytes.
    pub fn new(starting_value: u32, max_value: u32, chunk_size: u32) -> (walk: PartialRangeIter)
        requires
            chunk_size > 0,
        ensures
            walk.remaining() == ranges(starting_value as nat, max_value as nat, chunk_size as nat),
    {
        PartialRangeIter { chunk_size, max_length: max_value, val: starting_value as u64 }
    }

    /// The text of the next range, and `None` when the span is covered.
    pub fn next(&mut self) -> (range: Option<String>)
        ensures
            match range {
                Some(text) => old(self).remaining().len() > 0 && text@ == old(self).remaining()[0]
                    && final(self).remaining() == old(self).remaining().drop_first(),
                None => old(self).remaining().len() == 0 && final(self).remaining().len() == 0,
            },
    {
        proof {
            use_type_invariant(&*self);
        }
        if self.val > self.max_length as u64 {
            None
        } else {
            let current_val = self.val;
            let next_val = self.val + self.chunk_size as u64;
            let last = if next_val > self.max_length as u64 {
                self.max_length as u64
            } else {
                next_val - 1
            };
            let mut text = String::new();
            push_decimal(&mut text, current_val);
            text.append("-");
            push_decimal(&mut text, last);
            assert(text@ =~= range_text(current_val as nat, last as nat));
            let ghost before = self.remaining();
            *self = PartialRangeIter {
                chunk_size: self.chunk_size,
                max_length: self.max_length,
                val: next_val,
            };
            proof {
                if next_val > self.max_length {
                    assert(before.drop_first() =~= Seq::<Seq<char>>::empty());
                } else {
                    assert(before.drop_first() =~= self.remaining());
                }
            }
            Some(text)
        }
    }

    /// The texts of all the ranges that are still to come, in order.
    pub fn collect(self) -> (list: Vec<String>)
        ensures
            views(list@) == self.remaining(),
    {
        let mut walk = self;
        let mut list: Vec<String> = Vec::new();
        loop
            invariant
                views(list@) + walk.remaining() == self.remaining(),
            decreases walk.remaining().len(),
        {
            let ghost before = walk.remaining();
            let ghost texts = views(list@);
            match walk.next() {
                Some(text) => {
                    list.push(text);
                    assert(views(list@) =~= texts + seq![before[0]]);
                    assert(views(list@) + walk.remaining() =~= texts + before);
                },
                None => {
                    assert(views(list@) =~= views(list@) + walk.remaining());
                    return list;
                },
            }
        }
    }
}

} // verus!
