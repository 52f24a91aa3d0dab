//! Sets of tagged values, as the service lists them.
//!
//! A set holds each token once. It keeps its items in the order in which they
//! were first inserted, and writes them in that order.

use vstd::prelude::*;
use vstd::std_specs::cmp::PartialEqSpecImpl;
use crate::error::DecodeError;
use crate::tag::{same_token, to_token, token, FromLabel, SetItem};

verus! {

/// Whether one of `items` has the token `text`.
pub open spec fn has_token<T: SetItem>(items: Seq<T>, text: Seq<char>) -> bool {
    exists|i: int| 0 <= i < items.len() && token(#[trigger] items[i]) == text
}

/// Whether no two of `items` have the same token.
pub open spec fn distinct<T: SetItem>(items: Seq<T>) -> bool {
    forall|i: int, j: int|
        0 <= i < j < items.len() ==> token(#[trigger] items[i]) != token(#[trigger] items[j])
}

/// `items` without the items whose token an earlier item has already.
pub open spec fn collapse<T: SetItem>(items: Seq<T>) -> Seq<T>
    decreases items.len(),
{
    if items.len() == 0 {
        Seq::empty()
    } else {
        let before = collapse(items.drop_last());
        if has_token(before, token(items.last())) {
            before
        } else {
            before.push(items.last())
        }
    }
}

/// `parts` written one after the other, with `separator` between each two.
pub open spec fn joined(parts: Seq<Seq<char>>, separator: Seq<char>) -> Seq<char>
    decreases parts.len(),
{
    if parts.len() == 0 {
        Seq::empty()
    } else if parts.len() == 1 {
        parts[0]
    } else {
        joined(parts.drop_last(), separator) + separator + parts.last()
    }
}

/// The tokens of `items`, in their order.
pub open spec fn tokens<T: SetItem>(items: Seq<T>) -> Seq<Seq<char>> {
    Seq::new(items.len(), |i: int| token(items[i]))
}

/// `texts` without the texts that occurred earlier already.
pub open spec fn first_occurrences(texts: Seq<Seq<char>>) -> Seq<Seq<char>>
    decreases texts.len(),
{
    if texts.len() == 0 {
        Seq::empty()
    } else {
        let before = first_occurrences(texts.drop_last());
        if before.contains(texts.last()) {
            before
        } else {
            before.push(texts.last())
        }
    }
}

/// The first occurrences of a list hold every text of the list, each once.
pub proof fn lemma_first_occurrences(texts: Seq<Seq<char>>)
    ensures
        first_occurrences(texts).no_duplicates(),
        forall|text: Seq<char>|
            first_occurrences(texts).contains(text) <==> #[trigger] texts.contains(text),
    decreases texts.len(),
{
    if texts.len() > 0 {
        let front = texts.drop_last();
        let before = first_occurrences(front);
        let kept = first_occurrences(texts);
        lemma_first_occurrences(front);
        assert forall|text: Seq<char>| kept.contains(text) <==> #[trigger] texts.contains(
            text,
        ) by {
            if texts.contains(text) {
                let i = choose|i: int| 0 <= i < texts.len() && texts[i] == text;
                if i < front.len() {
                    assert(front[i] == text);
                    assert(front.contains(text));
                    let j = choose|j: int| 0 <= j < before.len() && before[j] == text;
                    assert(kept[j] == text);
                } else if before.contains(text) {
                    let j = choose|j: int| 0 <= j < before.len() && before[j] == text;
                    assert(kept[j] == text);
                } else {
                    assert(kept[before.len() as int] == text);
                }
            }
            if kept.contains(text) {
                let j = choose|j: int| 0 <= j < kept.len() && kept[j] == text;
                if j < before.len() {
                    assert(before[j] == text);
                    assert(before.contains(text) <==> front.contains(text));
                    let i = choose|i: int| 0 <= i < front.len() && front[i] == text;
                    assert(texts[i] == text);
                } else {
                    assert(texts[texts.len() - 1] == text);
                }
            }
        }
    }
}

/// Whether `text` is the label of a case of `T`.
pub open spec fn known<T: FromLabel>(text: Seq<char>) -> bool {
    exists|tag: T| #[trigger] tag.label() == text
}

/// Whether each of `texts` is the label of a case of `T`.
pub open spec fn all_known<T: FromLabel>(texts: Seq<Seq<char>>) -> bool {
    forall|i: int| 0 <= i < texts.len() ==> known::<T>(#[trigger] texts[i])
}

/// A list has a token exactly where the tokens of its items hold it.
pub proof fn lemma_has_token<T: SetItem>(items: Seq<T>, text: Seq<char>)
    ensures
        has_token(items, text) == tokens(items).contains(text),
{
    if has_token(items, text) {
        let i = choose|i: int| 0 <= i < items.len() && token(#[trigger] items[i]) == text;
        assert(tokens(items)[i] == text);
    }
    if tokens(items).contains(text) {
        let i = choose|i: int| 0 <= i < tokens(items).len() && tokens(items)[i] == text;
        assert(token(items[i]) == text);
    }
}

/// The tokens that `collapse` keeps are the first occurrences of the tokens
/// of the list.
pub proof fn lemma_collapse_tokens<T: SetItem>(items: Seq<T>)
    ensures
        tokens(collapse(items)) == first_occurrences(tokens(items)),
    decreases items.len(),
{
    if items.len() == 0 {
        assert(tokens(collapse(items)) =~= first_occurrences(tokens(items)));
    } else {
        let front = items.drop_last();
        lemma_collapse_tokens(front);
        lemma_has_token(collapse(front), token(items.last()));
        assert(tokens(items).drop_last() =~= tokens(front));
        assert(tokens(items).last() == token(items.last()));
        assert(tokens(collapse(items)) =~= first_occurrences(tokens(items)));
    }
}

/// What `collapse` keeps has each token once.
pub proof fn lemma_collapse_distinct<T: SetItem>(items: Seq<T>)
    ensures
        distinct(collapse(items)),
    decreases items.len(),
{
    if items.len() > 0 {
        lemma_collapse_distinct(items.drop_last());
    }
}

/// `collapse` keeps every token of the list, and adds none.
pub proof fn lemma_collapse_keeps_tokens<T: SetItem>(items: Seq<T>, text: Seq<char>)
    ensures
        has_token(collapse(items), text) == has_token(items, text),
    decreases items.len(),
{
    if items.len() > 0 {
        let front = items.drop_last();
        let before = collapse(front);
        lemma_collapse_keeps_tokens(front, text);
        lemma_collapse_keeps_tokens(front, token(items.last()));
        if has_token(items, text) {
            let i = choose|i: int| 0 <= i < items.len() && token(#[trigger] items[i]) == text;
            if i < front.len() {
                assert(token(front[i]) == text);
            }
        }
        if has_token(collapse(items), text) {
            let i = choose|i: int|
                0 <= i < collapse(items).len() && token(#[trigger] collapse(items)[i]) == text;
            if i < before.len() {
                assert(token(before[i]) == text);
                let j = choose|j: int| 0 <= j < front.len() && token(#[trigger] front[j]) == text;
                assert(token(items[j]) == text);
            } else {
                assert(token(items[items.len() - 1]) == text);
            }
        }
        if has_token(before, text) {
            let i = choose|i: int| 0 <= i < before.len() && token(#[trigger] before[i]) == text;
            assert(token(collapse(items)[i]) == text);
        }
        if !has_token(before, token(items.last())) {
            assert(collapse(items)[before.len() as int] == items.last());
        }
    }
}

/// Whether every token of `part` is a token of `all`.
pub open spec fn tokens_within<T: SetItem>(part: Seq<T>, all: Seq<T>) -> bool {
    forall|i: int| 0 <= i < part.len() ==> has_token(all, token(#[trigger] part[i]))
}

/// A set of tagged values. It is read from a list and written as its tokens
/// joined by `|`.
#[derive(Debug)]
pub struct ApiSet<T: SetItem> {
    items: Vec<T>,
}

impl<T: SetItem> View for ApiSet<T> {
    type V = Seq<T>;

    /// The items of the set, in the order of their first insertion.
    closed spec fn view(&self) -> Seq<T> {
        self.items@
    }
}

impl<T: SetItem> ApiSet<T> {
    #[verifier::type_invariant]
    spec fn holds_each_token_once(&self) -> bool {
        distinct(self.items@)
    }

    /// The empty set.
    pub fn new() -> (set: Self)
        ensures
            set@ == Seq::<T>::empty(),
    {
        ApiSet { items: Vec::new() }
    }

    /// The number of items.
    pub fn len(&self) -> (n: usize)
        ensures
            n == self@.len(),
    {
        self.items.len()
    }

    /// Whether the set holds nothing.
    pub fn is_empty(&self) -> (empty: bool)
        ensures
            empty == (self@.len() == 0),
    {
        self.items.len() == 0
    }

    /// The items, in the order of their first insertion. No two of them have
    /// the same token.
    pub fn as_slice(&self) -> (items: &[T])
        ensures
            items@ == self@,
            distinct(self@),
    {
        proof {
            use_type_invariant(self);
        }
        self.items.as_slice()
    }

    /// Whether the set holds an item with the token of `item`.
    pub fn contains(&self, item: &T) -> (found: bool)
        ensures
            found == has_token(self@, token(*item)),
    {
        let mut i: usize = 0;
        while i < self.items.len()
            invariant
                i <= self.items.len(),
                forall|j: int| 0 <= j < i ==> token(#[trigger] self.items@[j]) != token(*item),
            decreases self.items.len() - i,
        {
            if same_token(&self.items[i], item) {
                return true;
            }
            i += 1;
        }
        false
    }

    /// Whether `other` holds every token of the set.
    pub fn is_within(&self, other: &Self) -> (within: bool)
        ensures
            within == tokens_within(self@, other@),
    {
        let mut i: usize = 0;
        while i < self.items.len()
            invariant
                i <= self.items.len(),
                tokens_within(self.items@.take(i as int), other@),
            decreases self.items.len() - i,
        {
            if !other.contains(&self.items[i]) {
                return false;
            }
            i += 1;
        }
        assert(self.items@.take(self.items.len() as int) =~= self.items@);
        true
    }

    /// The set with `item` added at its end, or the set as it is where it
    /// holds the token of `item` already.
    pub fn with(self, item: T) -> (set: Self)
        ensures
            set@ == if has_token(self@, token(item)) {
                self@
            } else {
                self@.push(item)
            },
    {
        proof {
            use_type_invariant(&self);
        }
        if self.contains(&item) {
            self
        } else {
            let mut items = self.items;
            items.push(item);
            ApiSet { items }
        }
    }

    /// The set of the items of a list: duplicates collapse, and what came
    /// first stays first.
    pub fn from_vec(list: Vec<T>) -> (set: Self)
        ensures
            set@ == collapse(list@),
    {
        let mut set = ApiSet::new();
        let ghost all = list@;
        for item in it: list
            invariant
                it.seq() == all,
                set@ == collapse(all.take(it.index() as int)),
        {
            proof {
                let n = it.index() as int;
                assert(all.take(n + 1).drop_last() =~= all.take(n));
                assert(all.take(n + 1).last() == item);
            }
            set = set.with(item);
        }
        assert(all.take(all.len() as int) =~= all);
        set
    }

    /// The set as the service reads it: the tokens of the items, joined by
    /// `|`.
    pub fn encode(&self) -> (text: String)
        ensures
            text@ == joined(tokens(self@), seq!['|']),
    {
        let mut text = String::new();
        let mut i: usize = 0;
        while i < self.items.len()
            invariant
                i <= self.items.len(),
                text@ == joined(tokens(self.items@.take(i as int)), seq!['|']),
            decreases self.items.len() - i,
        {
            proof {
                reveal_strlit("|");
                let now = tokens(self.items@.take(i as int + 1));
                assert(now.drop_last() =~= tokens(self.items@.take(i as int)));
                assert(now.last() == token(self.items@[i as int]));
            }
            if i > 0 {
                text.append("|");
            }
            let part = to_token(&self.items[i]);
            text.append(part.as_str());
            i += 1;
            assert(text@ =~= joined(tokens(self.items@.take(i as int)), seq!['|']));
        }
        assert(self.items@.take(self.items.len() as int) =~= self.items@);
        text
    }
}

impl<T: SetItem> PartialEq for ApiSet<T> {
    /// Two sets are equal where they hold the same tokens, in whatever order.
    fn eq(&self, other: &Self) -> (same: bool) {
        self.is_within(other) && other.is_within(self)
    }
}

impl<T: SetItem> PartialEqSpecImpl for ApiSet<T> {
    open spec fn obeys_eq_spec() -> bool {
        true
    }

    open spec fn eq_spec(&self, other: &Self) -> bool {
        tokens_within(self@, other@) && tokens_within(other@, self@)
    }
}

impl<T: SetItem> Eq for ApiSet<T> {

}

impl<T: FromLabel> ApiSet<T> {
    /// The set that a list of labels names: each label is read as its tag,
    /// and duplicates collapse. A label that `T` does not have fails the
    /// whole list, and the error holds the first such label.
    pub fn decode(labels: &Vec<String>) -> (decoded: Result<ApiSet<T>, DecodeError>)
        ensures
            match decoded {
                Ok(set) => {
                    &&& all_known::<T>(labels.deep_view())
                    &&& tokens(set@) == first_occurrences(labels.deep_view())
                },
                Err(error) => exists|i: int|
                    {
                        &&& 0 <= i < labels.len()
                        &&& all_known::<T>(labels.deep_view().take(i))
                        &&& !known::<T>(#[trigger] labels.deep_view()[i])
                        &&& error == DecodeError::UnknownTag(labels[i])
                    },
            },
    {
        let ghost texts = labels.deep_view();
        let mut set: ApiSet<T> = ApiSet::new();
        let mut i: usize = 0;
        assert(tokens(set@) =~= first_occurrences(texts.take(0)));
        while i < labels.len()
            invariant
                i <= labels.len(),
                texts == labels.deep_view(),
                all_known::<T>(texts.take(i as int)),
                tokens(set@) == first_occurrences(texts.take(i as int)),
            decreases labels.len() - i,
        {
            let ghost before = set@;
            assert(texts[i as int] == labels[i as int]@);
            match T::from_label(labels[i].as_str()) {
                None => {
                    return Err(DecodeError::UnknownTag(labels[i].clone()));
                },
                Some(tag) => {
                    proof {
                        lemma_has_token(before, token(tag));
                        assert(texts.take(i + 1).drop_last() =~= texts.take(i as int));
                        assert(texts.take(i + 1).last() == token(tag));
                        assert forall|j: int| 0 <= j < i + 1 implies known::<T>(
                            #[trigger] texts.take(i + 1)[j],
                        ) by {
                            if j < i {
                                assert(texts.take(i as int)[j] == texts.take(i + 1)[j]);
                            } else {
                                assert(tag.label() == texts.take(i + 1)[j]);
                            }
                        }
                    }
                    set = set.with(tag);
                    assert(tokens(set@) =~= first_occurrences(texts.take(i + 1)));
                },
            }
            i += 1;
        }
        assert(texts.take(labels.len() as int) =~= texts);
        Ok(set)
    }
}

} // verus!
