//! Token ids: which lie in a vocabulary, which sequences of them a model takes,
//! and which groups of sequences form one tensor.

use vstd::prelude::*;
use crate::error::Error;

verus! {

/// Whether a token id indexes a vocabulary of the given size.
pub open spec fn in_vocabulary(token: i64, vocabulary: u32) -> bool {
    0 <= token < vocabulary
}

/// Whether every token id of a sequence indexes the vocabulary.
pub open spec fn all_in_vocabulary(tokens: Seq<i64>, vocabulary: u32) -> bool {
    forall|i: int| 0 <= i < tokens.len() ==> in_vocabulary(#[trigger] tokens[i], vocabulary)
}

/// What is wrong with a sequence of token ids, if anything: it is longer than
/// the context window (`ShapeError`), or else one of its ids lies outside the
/// vocabulary (`RangeError`).
pub open spec fn sequence_checked(tokens: Seq<i64>, context_window: u32, vocabulary: u32) -> Result<
    (),
    Error,
> {
    if tokens.len() > context_window {
        Err(Error::ShapeError)
    } else if !all_in_vocabulary(tokens, vocabulary) {
        Err(Error::RangeError)
    } else {
        Ok(())
    }
}

/// Checks a sequence of token ids against a context window and a vocabulary.
pub fn check_sequence(tokens: &Vec<i64>, context_window: u32, vocabulary: u32) -> (r: Result<
    (),
    Error,
>)
    ensures
        r == sequence_checked(tokens@, context_window, vocabulary),
{
    if tokens.len() > context_window as usize {
        Err(Error::ShapeError)
    } else if !tokens_in_vocabulary(tokens, vocabulary) {
        Err(Error::RangeError)
    } else {
        Ok(())
    }
}

/// Whether every token id of a sequence indexes the vocabulary.
pub fn tokens_in_vocabulary(tokens: &Vec<i64>, vocabulary: u32) -> (r: bool)
    ensures
        r == all_in_vocabulary(tokens@, vocabulary),
{
    let mut i: usize = 0;
    while i < tokens.len()
        invariant
            i <= tokens.len(),
            forall|j: int| 0 <= j < i ==> in_vocabulary(#[trigger] tokens@[j], vocabulary),
        decreases tokens.len() - i,
    {
        let token = tokens[i];
        if token < 0 || token >= vocabulary as i64 {
            return false;
        }
        i = i + 1;
    }
    true
}

/// The sequences of a group, each as a mathematical sequence.
pub open spec fn sequences_of(group: Seq<Vec<i64>>) -> Seq<Seq<i64>> {
    Seq::new(group.len(), |i: int| group[i]@)
}

/// The length that the sequences of a group share if they share one: that of
/// the first, and zero for an empty group.
pub open spec fn common_length(group: Seq<Seq<i64>>) -> nat {
    if group.len() == 0 {
        0
    } else {
        group[0].len()
    }
}

/// Whether every sequence of a group has the given length.
pub open spec fn all_of_length(group: Seq<Seq<i64>>, length: nat) -> bool {
    forall|i: int| 0 <= i < group.len() ==> (#[trigger] group[i]).len() == length
}

/// Whether the sequences of a group are all equally long.
pub open spec fn uniform(group: Seq<Seq<i64>>) -> bool {
    all_of_length(group, common_length(group))
}

/// Whether every token id of every sequence of a group indexes the vocabulary.
pub open spec fn group_in_vocabulary(group: Seq<Seq<i64>>, vocabulary: u32) -> bool {
    forall|i: int| 0 <= i < group.len() ==> all_in_vocabulary(#[trigger] group[i], vocabulary)
}

/// What is wrong with a group of sequences, if anything: they are not equally
/// long or are longer than the context window (`ShapeError`), or else one of
/// their ids lies outside the vocabulary (`RangeError`).
pub open spec fn group_checked(group: Seq<Seq<i64>>, context_window: u32, vocabulary: u32) -> Result<
    (),
    Error,
> {
    if !uniform(group) || common_length(group) > context_window {
        Err(Error::ShapeError)
    } else if !group_in_vocabulary(group, vocabulary) {
        Err(Error::RangeError)
    } else {
        Ok(())
    }
}

/// Whether every sequence of a group has the given length.
pub fn has_length(group: &Vec<Vec<i64>>, length: usize) -> (r: bool)
    ensures
        r == all_of_length(sequences_of(group@), length as nat),
{
    let mut i: usize = 0;
    while i < group.len()
        invariant
            i <= group.len(),
            forall|j: int| 0 <= j < i ==> (#[trigger] sequences_of(group@)[j]).len() == length,
        decreases group.len() - i,
    {
        if group[i].len() != length {
            assert(sequences_of(group@)[i as int].len() != length);
            return false;
        }
        i = i + 1;
    }
    true
}

/// Whether every token id of every sequence of a group indexes the vocabulary.
pub fn group_tokens_in_vocabulary(group: &Vec<Vec<i64>>, vocabulary: u32) -> (r: bool)
    ensures
        r == group_in_vocabulary(sequences_of(group@), vocabulary),
{
    let mut i: usize = 0;
    while i < group.len()
        invariant
            i <= group.len(),
            forall|j: int|
                0 <= j < i ==> all_in_vocabulary(#[trigger] sequences_of(group@)[j], vocabulary),
        decreases group.len() - i,
    {
        if !tokens_in_vocabulary(&group[i], vocabulary) {
            assert(!all_in_vocabulary(sequences_of(group@)[i as int], vocabulary));
            return false;
        }
        i = i + 1;
    }
    true
}

/// The length of the first sequence of a group, or zero for an empty group.
pub fn first_length(group: &Vec<Vec<i64>>) -> (r: usize)
    ensures
        r == common_length(sequences_of(group@)),
{
    if group.len() == 0 {
        0
    } else {
        group[0].len()
    }
}

/// Checks a group of sequences against a context window and a vocabulary.
pub fn check_group(group: &Vec<Vec<i64>>, context_window: u32, vocabulary: u32) -> (r: Result<
    (),
    Error,
>)
    ensures
        r == group_checked(sequences_of(group@), context_window, vocabulary),
{
    let length = first_length(group);
    if !has_length(group, length) || length > context_window as usize {
        Err(Error::ShapeError)
    } else if !group_tokens_in_vocabulary(group, vocabulary) {
        Err(Error::RangeError)
    } else {
        Ok(())
    }
}

} // verus!
