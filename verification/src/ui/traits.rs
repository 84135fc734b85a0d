//! Values that have a name to show and to be chosen by.

use vstd::prelude::*;
use crate::error::Error;
use crate::utils::{first_index, lemma_first_index_is, lemma_first_index_none};

verus! {

/// The values of a type, each with its name, in the order in which they are
/// offered.
pub struct StringLookupDictionary<T> {
    pub dict: Vec<(T, &'static str)>,
}

/// Holds of the entries of a dictionary that have the name `name`.
pub open spec fn is_named<T>(name: Seq<char>) -> spec_fn((T, Seq<char>)) -> bool {
    |entry: (T, Seq<char>)| entry.1 == name
}

/// Whether two texts hold the same characters.
pub fn same_text(a: &str, b: &str) -> (same: bool)
    ensures
        same == (a@ == b@),
{
    let a: String = a.to_owned();
    let b: String = b.to_owned();
    a == b
}

/// A type whose values have names.
pub trait StringLookup: Copy {
    /// The values and their names.
    spec fn spec_dictionary() -> Seq<(Self, Seq<char>)>;

    fn dictionary() -> (dictionary: StringLookupDictionary<Self>)
        ensures
            dictionary.dict@.len() == Self::spec_dictionary().len(),
            forall|i: int|
                0 <= i < dictionary.dict@.len() ==> (#[trigger] dictionary.dict@[i]).0
                    == Self::spec_dictionary()[i].0 && dictionary.dict@[i].1@
                    == Self::spec_dictionary()[i].1,
    ;
}

/// A type whose values can be chosen by name.
pub trait ChoiceAttribute: StringLookup {
    /// The names of the values, in the order of the dictionary.
    fn choices() -> (choices: Vec<&'static str>)
        ensures
            choices@.len() == Self::spec_dictionary().len(),
            forall|i: int|
                0 <= i < choices@.len() ==> (#[trigger] choices@[i])@
                    == Self::spec_dictionary()[i].1,
    {
        let dictionary = Self::dictionary();
        let mut choices: Vec<&'static str> = Vec::new();
        let mut k: usize = 0;
        while k < dictionary.dict.len()
            invariant
                k <= dictionary.dict.len(),
                dictionary.dict@.len() == Self::spec_dictionary().len(),
                forall|i: int|
                    0 <= i < dictionary.dict@.len() ==> (#[trigger] dictionary.dict@[i]).1@
                        == Self::spec_dictionary()[i].1,
                choices@.len() == k,
                forall|i: int|
                    0 <= i < k ==> (#[trigger] choices@[i])@ == Self::spec_dictionary()[i].1,
            decreases dictionary.dict.len() - k,
        {
            choices.push(dictionary.dict[k].1);
            k += 1;
        }
        choices
    }

    /// The first value of the dictionary that has the name `s`.
    fn from_str(s: &str) -> (result: Result<Self, Error>)
        ensures
            match first_index(Self::spec_dictionary(), is_named(s@)) {
                Some(i) => result == Ok::<Self, Error>(Self::spec_dictionary()[i].0),
                None => result == Err::<Self, Error>(Error::UnknownChoice),
            },
    {
        let dictionary = Self::dictionary();
        let mut k: usize = 0;
        while k < dictionary.dict.len()
            invariant
                k <= dictionary.dict.len(),
                dictionary.dict@.len() == Self::spec_dictionary().len(),
                forall|i: int|
                    0 <= i < dictionary.dict@.len() ==> (#[trigger] dictionary.dict@[i]).0
                        == Self::spec_dictionary()[i].0 && dictionary.dict@[i].1@
                        == Self::spec_dictionary()[i].1,
                forall|j: int|
                    0 <= j < k ==> !is_named::<Self>(s@)(#[trigger] Self::spec_dictionary()[j]),
            decreases dictionary.dict.len() - k,
        {
            if same_text(s, dictionary.dict[k].1) {
                proof {
                    assert(dictionary.dict@[k as int].1@ == Self::spec_dictionary()[k as int].1);
                    lemma_first_index_is(Self::spec_dictionary(), is_named(s@), k as int);
                }
                return Ok(dictionary.dict[k].0);
            }
            assert(dictionary.dict@[k as int].1@ == Self::spec_dictionary()[k as int].1);
            k += 1;
        }
        proof {
            lemma_first_index_none(Self::spec_dictionary(), is_named(s@));
        }
        Err(Error::UnknownChoice)
    }
}

impl StringLookup for bool {
    open spec fn spec_dictionary() -> Seq<(bool, Seq<char>)> {
        seq![(false, "false"@), (true, "true"@)]
    }

    fn dictionary() -> (dictionary: StringLookupDictionary<bool>) {
        let mut dict: Vec<(bool, &'static str)> = Vec::new();
        dict.push((false, "false"));
        dict.push((true, "true"));
        StringLookupDictionary { dict }
    }
}

impl ChoiceAttribute for bool {

}

} // verus!
