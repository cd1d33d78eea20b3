use vstd::prelude::*;
use vstd::string::StringExecFns;

use crate::blocklist::Blocklist;
use crate::decimal::append_decimal;
use crate::decimal::decimal_of;

verus! {

/// What the middleware does with one request: pass it on to the next
/// stage of the pipeline, or short-circuit with a rejection response.
#[derive(Debug, PartialEq, Eq)]
pub enum Decision {
    Forward,
    Reject { status: u16, body: String },
}

/// The mathematical shape of a `Decision`: the rejection body as a
/// sequence of characters.
pub enum DecisionView {
    Forward,
    Reject { status: u16, body: Seq<char> },
}

impl View for Decision {
    type V = DecisionView;

    open spec fn view(&self) -> DecisionView {
        match self {
            Decision::Forward => DecisionView::Forward,
            Decision::Reject { status, body } => DecisionView::Reject {
                status: *status,
                body: body@,
            },
        }
    }
}

/// The text of the rejection response for a blocked provider.
pub open spec fn reject_body_of(asn: nat, name: Seq<char>) -> Seq<char> {
    "Your ISP "@ + decimal_of(asn) + " ("@ + name + ") has been blocked from this website"@
}

/// What the middleware decides once the provider number is resolved:
/// no number, or a number that is not listed, lets the request through;
/// a listed number draws a 403 with the fixed explanatory body.
pub open spec fn spec_decision(blocklist: Map<Seq<char>, Seq<char>>, asn: Option<u32>) -> DecisionView {
    match asn {
        Option::None => DecisionView::Forward,
        Option::Some(a) => if blocklist.contains_key(decimal_of(a as nat)) {
            DecisionView::Reject {
                status: 403,
                body: reject_body_of(a as nat, blocklist[decimal_of(a as nat)]),
            }
        } else {
            DecisionView::Forward
        },
    }
}

/// Builds the rejection body naming the provider and its listed entity.
pub fn reject_body(asn: u32, name: &String) -> (r: String)
    ensures
        r@ == reject_body_of(asn as nat, name@),
{
    let mut s = String::from_str("Your ISP ");
    append_decimal(&mut s, asn);
    s.append(" (");
    s.append(name.as_str());
    s.append(") has been blocked from this website");
    s
}

/// Decides a request whose provider number has already been resolved
/// (or found unresolvable) against the blocklist.
pub fn decide_resolved(blocklist: &Blocklist, asn: Option<u32>) -> (d: Decision)
    ensures
        d@ == spec_decision(blocklist@, asn),
{
    match asn {
        None => Decision::Forward,
        Some(a) => match blocklist.is_blocked(a) {
            Some(name) => Decision::Reject { status: 403, body: reject_body(a, name) },
            None => Decision::Forward,
        },
    }
}

/// The placeholder greeting served at the root route.
pub fn root_body() -> (r: String)
    ensures
        r@ == "Hello, World!"@,
{
    String::from_str("Hello, World!")
}

/// Repeated identical requests are answered identically: the decision is
/// a function of the immutable blocklist and the resolved provider number
/// alone, so two evaluations on the same inputs always agree.
pub proof fn lemma_decision_deterministic(
    blocklist: Map<Seq<char>, Seq<char>>,
    asn: Option<u32>,
    d1: DecisionView,
    d2: DecisionView,
)
    requires
        d1 == spec_decision(blocklist, asn),
        d2 == spec_decision(blocklist, asn),
    ensures
        d1 == d2,
{
}

/// A request with no resolved provider number is always forwarded,
/// never rejected.
pub proof fn lemma_forward_when_unresolved(blocklist: Map<Seq<char>, Seq<char>>)
    ensures
        spec_decision(blocklist, Option::None) == DecisionView::Forward,
{
}

/// A request whose resolved provider number is absent from the blocklist
/// is always forwarded.
pub proof fn lemma_forward_when_not_listed(blocklist: Map<Seq<char>, Seq<char>>, a: u32)
    requires
        !blocklist.contains_key(decimal_of(a as nat)),
    ensures
        spec_decision(blocklist, Option::Some(a)) == DecisionView::Forward,
{
}

/// A rejection arises only for a resolved provider number whose decimal
/// key is present in the blocklist, and it always carries status 403
/// with the fixed explanatory body.
pub proof fn lemma_reject_only_when_listed(blocklist: Map<Seq<char>, Seq<char>>, asn: Option<u32>)
    ensures
        spec_decision(blocklist, asn) is Reject ==> (asn matches Some(a)
            && blocklist.contains_key(decimal_of(a as nat))
            && spec_decision(blocklist, asn) == (DecisionView::Reject {
                status: 403,
                body: reject_body_of(a as nat, blocklist[decimal_of(a as nat)]),
            })),
{
}

} // verus!
