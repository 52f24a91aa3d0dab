//! Wire labels of tagged values.
//!
//! Every enumeration that travels to or from the service has, for each of its
//! cases, one fixed text: its label. A case may also carry a payload; the label
//! never depends on it.

use vstd::prelude::*;

verus! {

/// A value of a closed enumeration whose cases each have a declared wire label.
pub trait Tagged: Sized {
    /// The label of the case that `self` holds, whatever payload it carries.
    spec fn label(&self) -> Seq<char>;

    /// The label of the case that `self` holds.
    fn variant_name(&self) -> (name: &'static str)
        ensures
            name@ == self.label(),
    ;
}

/// A tagged value that can stand in a delimited set.
///
/// On the wire such a value is its token: the label alone, or the label, a
/// colon and the payload.
pub trait SetItem: Tagged {
    /// The free text that the case carries, if it carries any.
    spec fn payload(&self) -> Option<Seq<char>>;

    /// The free text that the case carries, if it carries any.
    fn value(&self) -> (v: Option<&str>)
        ensures
            v.is_some() == self.payload().is_some(),
            v.is_some() ==> v.unwrap()@ == self.payload().unwrap(),
    ;

    /// No label holds a colon, so the first colon of a token ends its label.
    proof fn lemma_label_has_no_colon(&self)
        ensures
            !self.label().contains(':'),
    ;
}

/// A tag without payload that can be read back from its label.
pub trait FromLabel: SetItem {
    /// The case whose label is `label`, if there is one.
    fn from_label(label: &str) -> (tag: Option<Self>)
        ensures
            match tag {
                Some(t) => t.label() == label@ && t.payload().is_none(),
                None => forall|t: Self| #[trigger] t.label() != label@,
            },
    ;
}

/// The token of `item`: its label, followed by a colon and the payload where
/// the case carries one.
pub open spec fn token<T: SetItem>(item: T) -> Seq<char> {
    match item.payload() {
        None => item.label(),
        Some(text) => item.label() + seq![':'] + text,
    }
}

/// A token tells the label and the payload of its item.
pub proof fn lemma_token_injective<T: SetItem>(a: T, b: T)
    requires
        token(a) == token(b),
    ensures
        a.label() == b.label(),
        a.payload() == b.payload(),
{
    a.lemma_label_has_no_colon();
    b.lemma_label_has_no_colon();
    let la = a.label();
    let lb = b.label();
    let ta = token(a);
    let tb = token(b);
    match (a.payload(), b.payload()) {
        (None, None) => {},
        (Some(va), None) => {
            assert(ta[la.len() as int] == ':');
            assert(lb[la.len() as int] == ':');
        },
        (None, Some(vb)) => {
            assert(tb[lb.len() as int] == ':');
            assert(la[lb.len() as int] == ':');
        },
        (Some(va), Some(vb)) => {
            assert(ta[la.len() as int] == ':');
            assert(tb[lb.len() as int] == ':');
            if la.len() < lb.len() {
                assert(tb[la.len() as int] == lb[la.len() as int]);
            } else if lb.len() < la.len() {
                assert(ta[lb.len() as int] == la[lb.len() as int]);
            } else {
                let n = la.len() as int;
                assert(la =~= ta.subrange(0, n));
                assert(lb =~= tb.subrange(0, n));
                assert(va =~= ta.subrange(n + 1, ta.len() as int));
                assert(vb =~= tb.subrange(n + 1, tb.len() as int));
            }
        },
    }
}

/// The token of `item`, as it is written into a delimited set.
pub fn to_token<T: SetItem>(item: &T) -> (text: String)
    ensures
        text@ == token(*item),
{
    let mut text = String::from_str(item.variant_name());
    match item.value() {
        None => {},
        Some(payload) => {
            proof {
                reveal_strlit(":");
            }
            text.append(":");
            text.append(payload);
            assert(text@ =~= item.label() + seq![':'] + payload@);
        },
    }
    text
}

/// Whether two items have the same token, that is the same label and the
/// same payload.
pub fn same_token<T: SetItem>(a: &T, b: &T) -> (same: bool)
    ensures
        same == (token(*a) == token(*b)),
{
    proof {
        if token(*a) == token(*b) {
            lemma_token_injective(*a, *b);
        }
    }
    if !str_eq(a.variant_name(), b.variant_name()) {
        return false;
    }
    match a.value() {
        None => b.value().is_none(),
        Some(x) => match b.value() {
            None => false,
            Some(y) => str_eq(x, y),
        },
    }
}

/// The declared wire label of `t`.
pub fn variant_name<T: Tagged>(t: &T) -> (name: &'static str)
    ensures
        name@ == t.label(),
{
    t.variant_name()
}

/// Whether two texts hold the same characters.
pub fn str_eq(a: &str, b: &str) -> (same: bool)
    ensures
        same == (a@ == b@),
{
    let x = a.as_bytes();
    let y = b.as_bytes();
    proof {
        vstd::utf8::encode_utf8_decode_utf8(a@);
        vstd::utf8::encode_utf8_decode_utf8(b@);
    }
    if x.len() != y.len() {
        return false;
    }
    let mut i: usize = 0;
    while i < x.len()
        invariant
            i <= x.len(),
            x.len() == y.len(),
            x@ == vstd::utf8::encode_utf8(a@),
            y@ == vstd::utf8::encode_utf8(b@),
            forall|j: int| 0 <= j < i ==> x@[j] == y@[j],
        decreases x.len() - i,
    {
        if x[i] != y[i] {
            assert(x@[i as int] != y@[i as int]);
            return false;
        }
        i += 1;
    }
    assert(x@ =~= y@);
    true
}

} // verus!
