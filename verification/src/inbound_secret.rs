//! Host-only inbound secret substitution: an exact header value is checked
//! in constant time and replaced by a VM-visible placeholder.
use vstd::prelude::*;
use crate::routes::{GatewayEdgeError, GatewayHeader, GatewayRequest, HeaderView, spec_headers};
use crate::text::{chars_of, seq_eq};

verus! {

/// Compares two byte strings without a data-dependent early exit.
///
/// Trusted: `subtle::ConstantTimeEq::ct_eq` on `[u8]`, converted with
/// `bool::from`.  Its source returns a true choice exactly when the slices
/// have the same length and every byte pair is equal.
#[verifier::external_body]
fn constant_time_eq(a: &[u8], b: &[u8]) -> (equal: bool)
    ensures
        equal == (a@ == b@),
{
    bool::from(subtle::ConstantTimeEq::ct_eq(a, b))
}

/// Abstract value of a substitution rule.
pub struct SecretRuleView {
    /// Lower-case header name the rule guards.
    pub header: Seq<char>,
    /// The real value that must arrive.
    pub expected: Seq<u8>,
    /// The value the VM sees in its place.
    pub placeholder: Seq<u8>,
}

/// One host-only inbound header substitution for an accepted invocation.
///
/// The real value stays inside this object and is never copied into a VM
/// request or a response.
pub struct InboundGatewaySecretRule {
    header: String,
    expected: Vec<u8>,
    placeholder: Vec<u8>,
}

impl View for InboundGatewaySecretRule {
    type V = SecretRuleView;

    closed spec fn view(&self) -> SecretRuleView {
        SecretRuleView { header: self.header@, expected: self.expected@, placeholder: self.placeholder@ }
    }
}

impl InboundGatewaySecretRule {
    /// Neither the secret nor the placeholder is empty.
    #[verifier::type_invariant]
    spec fn nonempty(self) -> bool {
        self.expected@.len() > 0 && self.placeholder@.len() > 0
    }

    /// Creates one exact header-value matcher and VM-visible placeholder.
    ///
    /// Returns a contract error for an empty secret or placeholder.
    pub fn new(header: String, expected: Vec<u8>, placeholder: Vec<u8>) -> (result: Result<Self, GatewayEdgeError>)
        ensures
            result is Ok <==> expected@.len() > 0 && placeholder@.len() > 0,
            result matches Ok(rule) ==> rule@.header == header@ && rule@.expected == expected@
                && rule@.placeholder == placeholder@,
            result matches Err(e) ==> e == GatewayEdgeError::Contract("invalid inbound secret rule"),
    {
        if expected.len() == 0 || placeholder.len() == 0 {
            return Err(GatewayEdgeError::Contract("invalid inbound secret rule"));
        }
        Ok(InboundGatewaySecretRule { header, expected, placeholder })
    }
}

/// `i` is the one and only position of a header named `name`.
pub open spec fn spec_sole_index(headers: Seq<HeaderView>, name: Seq<char>, i: int) -> bool {
    &&& 0 <= i < headers.len()
    &&& headers[i].name == name
    &&& forall|j: int| 0 <= j < headers.len() && #[trigger] headers[j].name == name ==> j == i
}

/// Applies one rule: the header must occur exactly once with exactly the
/// expected value, and its value becomes the placeholder; otherwise the
/// request is rejected (`None`).
pub open spec fn spec_apply_rule(headers: Seq<HeaderView>, rule: SecretRuleView) -> Option<Seq<HeaderView>> {
    if exists|i: int| spec_sole_index(headers, rule.header, i) {
        let i = choose|i: int| spec_sole_index(headers, rule.header, i);
        if headers[i].value == rule.expected {
            Some(headers.update(i, HeaderView { name: rule.header, value: rule.placeholder }))
        } else {
            None
        }
    } else {
        None
    }
}

/// Applies rules in order, stopping at the first rejection.
pub open spec fn spec_apply_rules(headers: Seq<HeaderView>, rules: Seq<SecretRuleView>) -> Option<Seq<HeaderView>>
    decreases rules.len(),
{
    if rules.len() == 0 {
        Some(headers)
    } else {
        match spec_apply_rules(headers, rules.drop_last()) {
            Some(h) => spec_apply_rule(h, rules.last()),
            None => None,
        }
    }
}

/// Abstract values of a rule list.
pub open spec fn spec_rules(rules: Seq<InboundGatewaySecretRule>) -> Seq<SecretRuleView> {
    rules.map_values(|r: InboundGatewaySecretRule| r@)
}

proof fn lemma_sole_index_unique(headers: Seq<HeaderView>, name: Seq<char>, i: int, k: int)
    requires
        spec_sole_index(headers, name, i),
        spec_sole_index(headers, name, k),
    ensures
        i == k,
{
}

/// Applies one rule to a header list in place.
fn apply_rule(headers: &mut Vec<GatewayHeader>, rule: &InboundGatewaySecretRule) -> (accepted: bool)
    ensures
        accepted <==> spec_apply_rule(spec_headers(old(headers)@), rule@) is Some,
        accepted ==> spec_apply_rule(spec_headers(old(headers)@), rule@) == Some(spec_headers(final(headers)@)),
{
    proof {
        use_type_invariant(rule);
    }
    let ghost hv = spec_headers(headers@);
    let name = chars_of(rule.header.as_str());
    let mut found: Option<usize> = None;
    let mut k: usize = 0;
    while k < headers.len()
        invariant
            hv == spec_headers(headers@),
            name@ == rule@.header,
            k <= headers@.len(),
            match found {
                None => forall|j: int| 0 <= j < k ==> #[trigger] hv[j].name != name@,
                Some(i) => i < k && hv[i as int].name == name@
                    && forall|j: int| 0 <= j < k && #[trigger] hv[j].name == name@ ==> j == i,
            },
        decreases headers@.len() - k,
    {
        let candidate = chars_of(headers[k].name.as_str());
        if seq_eq(&candidate, &name) {
            if found.is_some() {
                proof {
                    let i = found.unwrap() as int;
                    assert(hv[k as int].name == name@);
                    assert(!(exists|x: int| spec_sole_index(hv, rule@.header, x))) by {
                        if exists|x: int| spec_sole_index(hv, rule@.header, x) {
                            let x = choose|x: int| spec_sole_index(hv, rule@.header, x);
                            assert(hv[i].name == rule@.header);
                            assert(i == x);
                            assert(k as int == x);
                        }
                    }
                }
                return false;
            }
            found = Some(k);
        } else {
            assert(hv[k as int].name != name@);
        }
        k += 1;
    }
    match found {
        None => {
            proof {
                assert(!(exists|x: int| spec_sole_index(hv, rule@.header, x))) by {
                    if exists|x: int| spec_sole_index(hv, rule@.header, x) {
                        let x = choose|x: int| spec_sole_index(hv, rule@.header, x);
                        assert(hv[x].name == name@);
                    }
                }
            }
            false
        },
        Some(i) => {
            assert(spec_sole_index(hv, rule@.header, i as int));
            proof {
                let x = choose|x: int| spec_sole_index(hv, rule@.header, x);
                lemma_sole_index_unique(hv, rule@.header, i as int, x);
            }
            if !constant_time_eq(headers[i].value.as_slice(), rule.expected.as_slice()) {
                return false;
            }
            let replacement = GatewayHeader { name: rule.header.clone(), value: rule.placeholder.clone() };
            headers.set(i, replacement);
            proof {
                assert(spec_headers(headers@) =~= hv.update(
                    i as int,
                    HeaderView { name: rule@.header, value: rule@.placeholder },
                ));
            }
            true
        },
    }
}

/// Replaces each guarded real secret in an accepted request by its
/// placeholder.  A guarded header that is missing, repeated, or carries
/// another value rejects the whole request.
pub fn rewrite_inbound_secrets(rules: &Vec<InboundGatewaySecretRule>, request: GatewayRequest) -> (result: Result<GatewayRequest, GatewayEdgeError>)
    ensures
        match spec_apply_rules(spec_headers(request.headers@), spec_rules(rules@)) {
            Some(h) => result matches Ok(r) && spec_headers(r.headers@) == h && r.method == request.method
                && r.path_and_query == request.path_and_query && r.body == request.body
                && r.trusted == request.trusted,
            None => result == Err::<GatewayRequest, GatewayEdgeError>(GatewayEdgeError::SecretRejected),
        },
{
    let mut current = request;
    let mut n: usize = 0;
    while n < rules.len()
        invariant
            n <= rules@.len(),
            spec_apply_rules(spec_headers(request.headers@), spec_rules(rules@).take(n as int))
                == Some(spec_headers(current.headers@)),
            current.method == request.method,
            current.path_and_query == request.path_and_query,
            current.body == request.body,
            current.trusted == request.trusted,
        decreases rules@.len() - n,
    {
        proof {
            assert(spec_rules(rules@).take(n as int + 1).drop_last() =~= spec_rules(rules@).take(n as int));
        }
        if !apply_rule(&mut current.headers, &rules[n]) {
            proof {
                assert(spec_rules(rules@).take(n as int + 1).last() == rules@[n as int]@);
                assert(spec_apply_rules(spec_headers(request.headers@), spec_rules(rules@).take(n as int + 1)) is None);
                lemma_rejection_persists(spec_headers(request.headers@), spec_rules(rules@), n as int + 1);
            }
            return Err(GatewayEdgeError::SecretRejected);
        }
        proof {
            assert(spec_rules(rules@).take(n as int + 1).last() == rules@[n as int]@);
        }
        n += 1;
    }
    proof {
        assert(spec_rules(rules@).take(rules@.len() as int) =~= spec_rules(rules@));
    }
    Ok(current)
}

/// Once a prefix of the rules rejects, every longer prefix rejects too.
proof fn lemma_rejection_persists(headers: Seq<HeaderView>, rules: Seq<SecretRuleView>, k: int)
    requires
        0 <= k <= rules.len(),
        spec_apply_rules(headers, rules.take(k)) is None,
    ensures
        spec_apply_rules(headers, rules) is None,
    decreases rules.len() - k,
{
    if k < rules.len() {
        assert(rules.take(k + 1).drop_last() =~= rules.take(k));
        lemma_rejection_persists(headers, rules, k + 1);
    } else {
        assert(rules.take(k) =~= rules);
    }
}

/// An accepted rule leaves exactly one header with the guarded name, now
/// carrying the placeholder where the real value was, and every other
/// header as it was: the real value never travels on.
pub proof fn lemma_accepted_rule_replaces_secret(headers: Seq<HeaderView>, rule: SecretRuleView)
    requires
        spec_apply_rule(headers, rule) is Some,
    ensures
        ({
            let after = spec_apply_rule(headers, rule)->Some_0;
            exists|i: int| {
                &&& spec_sole_index(headers, rule.header, i)
                &&& headers[i].value == rule.expected
                &&& after.len() == headers.len()
                &&& after[i].name == rule.header
                &&& after[i].value == rule.placeholder
                &&& forall|j: int| 0 <= j < after.len() && j != i ==> #[trigger] after[j] == headers[j]
                &&& spec_sole_index(after, rule.header, i)
            }
        }),
{
    let i = choose|i: int| spec_sole_index(headers, rule.header, i);
    let after = spec_apply_rule(headers, rule)->Some_0;
    assert(after == headers.update(i, HeaderView { name: rule.header, value: rule.placeholder }));
    assert forall|j: int| 0 <= j < after.len() && #[trigger] after[j].name == rule.header implies j == i by {
        if j != i {
            assert(after[j] == headers[j]);
        }
    }
    assert(spec_sole_index(after, rule.header, i));
}

} // verus!
