//! The arguments of a command: what follows its name in the message, split
//! at the configured delimiters.

use vstd::prelude::*;
use vstd::string::*;

use crate::platform::{split, split_arguments};

verus! {

/// The texts at which arguments are split. None of them is empty.
pub struct Delimiters {
    items: Vec<String>,
}

impl View for Delimiters {
    type V = Seq<Seq<char>>;

    closed spec fn view(&self) -> Seq<Seq<char>> {
        self.items.deep_view()
    }
}

/// Whether none of `items` is empty.
pub open spec fn none_empty(items: Seq<Seq<char>>) -> bool {
    forall|i: int| 0 <= i < items.len() ==> (#[trigger] items[i]).len() > 0
}

impl Delimiters {
    #[verifier::type_invariant]
    spec fn valid(&self) -> bool {
        forall|i: int| 0 <= i < self.items.len() ==> (#[trigger] self.items[i])@.len() > 0
    }

    /// Takes `items` as delimiters, in this order. An empty text cannot
    /// delimit anything: with one among them there is no result.
    pub fn new(items: Vec<String>) -> (r: Option<Delimiters>)
        ensures
            r is Some <==> none_empty(items.deep_view()),
            r matches Some(d) ==> d@ == items.deep_view(),
    {
        let mut i: usize = 0;
        while i < items.len()
            invariant
                i <= items.len(),
                forall|j: int| 0 <= j < i ==> (#[trigger] items[j])@.len() > 0,
            decreases items.len() - i,
        {
            if items[i].as_str().is_empty() {
                assert(items.deep_view()[i as int] == items[i as int]@);
                return None;
            }
            i += 1;
        }
        assert forall|j: int| 0 <= j < items.deep_view().len() implies (
        #[trigger] items.deep_view()[j]).len() > 0 by {
            assert(items.deep_view()[j] == items[j]@);
        }
        Some(Delimiters { items })
    }

    /// One space, the delimiter of commands that take words.
    pub fn space() -> (r: Delimiters)
        ensures
            r@ == seq![" "@],
    {
        let mut items: Vec<String> = Vec::new();
        items.push(String::from_str(" "));
        proof {
            reveal_strlit(" ");
        }
        assert(items.deep_view() =~= seq![" "@]);
        Delimiters { items }
    }

    /// No delimiter at all: a message that is not empty is one argument.
    pub fn none() -> (r: Delimiters)
        ensures
            r@ == Seq::<Seq<char>>::empty(),
    {
        let items: Vec<String> = Vec::new();
        assert(items.deep_view() =~= Seq::<Seq<char>>::empty());
        Delimiters { items }
    }
}

/// The arguments of one invocation.
pub struct Arguments {
    /// The arguments, in order.
    pub tokens: Vec<String>,
    /// The message from its first argument on; empty without arguments.
    pub rest: String,
}

impl Arguments {
    /// Splits `message` at `delimiters`. The splitting itself, quoted
    /// arguments included, is serenity's.
    pub fn parse(message: &str, delimiters: &Delimiters) -> (r: Arguments)
        ensures
            r.tokens.deep_view() == split_arguments(message@, delimiters@).0,
            r.rest@ == split_arguments(message@, delimiters@).1,
    {
        proof {
            use_type_invariant(delimiters);
        }
        let (tokens, rest) = split(message, &delimiters.items);
        Arguments { tokens, rest }
    }
}

} // verus!
