//! Structured filters of a forward search.

use vstd::prelude::*;
use crate::tag::{lemma_token_injective, token, SetItem, Tagged};

verus! {

/// One rule of a component filter: a kind of address component and the text
/// that it has to match.
#[derive(Debug, PartialEq, Eq, Hash)]
pub enum ComponentFilterRule {
    /// Matches a postal code or the beginning of one.
    PostalCode(String),
    /// Matches a country name or a two-letter ISO 3166-1 country code.
    Country(String),
    /// Matches the long or the short name of a route.
    Route(String),
    /// Matches a locality or a sublocality.
    Locality(String),
    /// Matches an administrative area of any level.
    AdministrativeArea(String),
}

impl ComponentFilterRule {
    /// The text that the rule matches against.
    pub open spec fn text(&self) -> Seq<char> {
        match self {
            ComponentFilterRule::PostalCode(text) => text@,
            ComponentFilterRule::Country(text) => text@,
            ComponentFilterRule::Route(text) => text@,
            ComponentFilterRule::Locality(text) => text@,
            ComponentFilterRule::AdministrativeArea(text) => text@,
        }
    }
}

impl Clone for ComponentFilterRule {
    fn clone(&self) -> (copy: Self)
        ensures
            copy == *self,
    {
        match self {
            ComponentFilterRule::PostalCode(text) => ComponentFilterRule::PostalCode(text.clone()),
            ComponentFilterRule::Country(text) => ComponentFilterRule::Country(text.clone()),
            ComponentFilterRule::Route(text) => ComponentFilterRule::Route(text.clone()),
            ComponentFilterRule::Locality(text) => ComponentFilterRule::Locality(text.clone()),
            ComponentFilterRule::AdministrativeArea(text) => ComponentFilterRule::AdministrativeArea(
                text.clone(),
            ),
        }
    }
}

impl Tagged for ComponentFilterRule {
    open spec fn label(&self) -> Seq<char> {
        match self {
            ComponentFilterRule::PostalCode(_) => "postal_code"@,
            ComponentFilterRule::Country(_) => "country"@,
            ComponentFilterRule::Route(_) => "route"@,
            ComponentFilterRule::Locality(_) => "locality"@,
            ComponentFilterRule::AdministrativeArea(_) => "administrative_area"@,
        }
    }

    fn variant_name(&self) -> (name: &'static str) {
        match self {
            ComponentFilterRule::PostalCode(_) => "postal_code",
            ComponentFilterRule::Country(_) => "country",
            ComponentFilterRule::Route(_) => "route",
            ComponentFilterRule::Locality(_) => "locality",
            ComponentFilterRule::AdministrativeArea(_) => "administrative_area",
        }
    }
}

impl SetItem for ComponentFilterRule {
    open spec fn payload(&self) -> Option<Seq<char>> {
        Some(self.text())
    }

    fn value(&self) -> (v: Option<&str>) {
        match self {
            ComponentFilterRule::PostalCode(text) => Some(text.as_str()),
            ComponentFilterRule::Country(text) => Some(text.as_str()),
            ComponentFilterRule::Route(text) => Some(text.as_str()),
            ComponentFilterRule::Locality(text) => Some(text.as_str()),
            ComponentFilterRule::AdministrativeArea(text) => Some(text.as_str()),
        }
    }

    proof fn lemma_label_has_no_colon(&self) {
        reveal_strlit("postal_code");
        reveal_strlit("country");
        reveal_strlit("route");
        reveal_strlit("locality");
        reveal_strlit("administrative_area");
    }
}

/// Two rules with the same label are of the same kind.
pub proof fn lemma_rule_label_injective(a: ComponentFilterRule, b: ComponentFilterRule)
    requires
        a.label() == b.label(),
    ensures
        a is PostalCode == b is PostalCode,
        a is Country == b is Country,
        a is Route == b is Route,
        a is Locality == b is Locality,
        a is AdministrativeArea == b is AdministrativeArea,
{
    reveal_strlit("postal_code");
    reveal_strlit("country");
    reveal_strlit("route");
    reveal_strlit("locality");
    reveal_strlit("administrative_area");
    assert("postal_code"@.len() == 11);
    assert("country"@.len() == 7);
    assert("route"@.len() == 5);
    assert("locality"@.len() == 8);
    assert("administrative_area"@.len() == 19);
}

/// Two rules with the same token are of the same kind and match against the
/// same text: a set of rules holds no rule twice.
pub proof fn lemma_rule_token_injective(a: ComponentFilterRule, b: ComponentFilterRule)
    requires
        token(a) == token(b),
    ensures
        a.text() == b.text(),
        a is PostalCode == b is PostalCode,
        a is Country == b is Country,
        a is Route == b is Route,
        a is Locality == b is Locality,
        a is AdministrativeArea == b is AdministrativeArea,
{
    lemma_token_injective(a, b);
    lemma_rule_label_injective(a, b);
}

} // verus!
