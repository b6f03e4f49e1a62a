//! The JSON payloads of bootstrap commands.
use vstd::prelude::*;
use vstd::string::*;

use crate::json::{json_document, parse_json, JsonValue, JsonValueView};

verus! {

/// Name of a namespace.
#[derive(Debug)]
pub struct NamespaceName(pub String);

impl NamespaceName {
    pub fn as_str(&self) -> (r: &str)
        ensures
            r@ == self.0@,
    {
        self.0.as_str()
    }
}

/// How a cache namespace evicts entries.
#[derive(Clone, Copy, Debug, PartialEq, Eq, Structural)]
pub enum EvictionPolicy {
    NoEviction,
}

/// Retention limits of a msgs namespace.
#[derive(Clone, Copy, Debug, PartialEq, Eq, Structural)]
pub struct Retention {
    pub period_ms: Option<u64>,
    pub size_bytes: Option<u64>,
}

impl Retention {
    pub open spec fn spec_default() -> Retention {
        Retention { period_ms: None, size_bytes: None }
    }

    pub fn default() -> (r: Retention)
        ensures
            r == Retention::spec_default(),
    {
        Retention { period_ms: None, size_bytes: None }
    }
}

#[derive(Clone, Copy, Debug, PartialEq, Eq, Structural)]
pub enum AccessEffect {
    Allow,
    Deny,
}

/// One rule of an access policy or role.
#[derive(Debug)]
pub struct AccessRule {
    pub effect: AccessEffect,
    pub resource: String,
    pub actions: Vec<String>,
}

#[derive(Debug)]
pub struct KvConfigureNamespaceIn {
    pub name: NamespaceName,
}

#[derive(Debug)]
pub struct CacheConfigureNamespaceIn {
    pub name: NamespaceName,
    pub eviction_policy: EvictionPolicy,
}

#[derive(Debug)]
pub struct IdempotencyConfigureNamespaceIn {
    pub name: NamespaceName,
}

#[derive(Debug)]
pub struct RateLimitConfigureNamespaceIn {
    pub name: NamespaceName,
}

#[derive(Debug)]
pub struct MsgNamespaceConfigureIn {
    pub name: NamespaceName,
    pub retention: Retention,
}

#[derive(Debug)]
pub struct AuthTokenConfigureNamespaceIn {
    pub name: NamespaceName,
}

#[derive(Debug)]
pub struct AdminAccessPolicyConfigureIn {
    pub id: String,
    pub description: String,
    pub rules: Vec<AccessRule>,
}

#[derive(Debug)]
pub struct AdminRoleConfigureIn {
    pub id: String,
    pub description: String,
    pub rules: Vec<AccessRule>,
    pub policies: Vec<String>,
    pub context: Vec<(String, String)>,
}

pub struct RuleView {
    pub effect: AccessEffect,
    pub resource: Seq<char>,
    pub actions: Seq<Seq<char>>,
}

impl View for AccessRule {
    type V = RuleView;

    open spec fn view(&self) -> RuleView {
        RuleView {
            effect: self.effect,
            resource: self.resource@,
            actions: self.actions@.map_values(|a: String| a@),
        }
    }
}

pub struct PolicyView {
    pub id: Seq<char>,
    pub description: Seq<char>,
    pub rules: Seq<RuleView>,
}

pub struct RoleView {
    pub id: Seq<char>,
    pub description: Seq<char>,
    pub rules: Seq<RuleView>,
    pub policies: Seq<Seq<char>>,
    pub context: Seq<(Seq<char>, Seq<char>)>,
}

impl View for AdminAccessPolicyConfigureIn {
    type V = PolicyView;

    open spec fn view(&self) -> PolicyView {
        PolicyView {
            id: self.id@,
            description: self.description@,
            rules: self.rules@.map_values(|r: AccessRule| r@),
        }
    }
}

impl View for AdminRoleConfigureIn {
    type V = RoleView;

    open spec fn view(&self) -> RoleView {
        RoleView {
            id: self.id@,
            description: self.description@,
            rules: self.rules@.map_values(|r: AccessRule| r@),
            policies: self.policies@.map_values(|p: String| p@),
            context: self.context@.map_values(|p: (String, String)| (p.0@, p.1@)),
        }
    }
}

// ----- decoding, stated over serde_json's reading of each document -----

/// The value text of the first member named `key`.
pub open spec fn member(m: Seq<(Seq<char>, Seq<char>)>, key: Seq<char>) -> Option<Seq<char>>
    decreases m.len(),
{
    if m.len() == 0 {
        None
    } else if m[0].0 == key {
        Some(m[0].1)
    } else {
        member(m.drop_first(), key)
    }
}

/// The members of a document that is a JSON object.
pub open spec fn object_members(text: Seq<char>) -> Option<Seq<(Seq<char>, Seq<char>)>> {
    match json_document(text) {
        Some(JsonValueView::Object(m)) => Some(m),
        _ => None,
    }
}

/// A document that is a JSON string.
pub open spec fn text_value(text: Seq<char>) -> Option<Seq<char>> {
    match json_document(text) {
        Some(JsonValueView::Text(s)) => Some(s),
        _ => None,
    }
}

/// A required string member.
pub open spec fn required_string(m: Seq<(Seq<char>, Seq<char>)>, key: Seq<char>) -> Option<Seq<char>> {
    match member(m, key) {
        Some(t) => text_value(t),
        None => None,
    }
}

/// Strings of an array of JSON strings.
pub open spec fn string_elements(elems: Seq<Seq<char>>) -> Option<Seq<Seq<char>>>
    decreases elems.len(),
{
    if elems.len() == 0 {
        Some(Seq::empty())
    } else {
        match (string_elements(elems.drop_last()), text_value(elems.last())) {
            (Some(prefix), Some(s)) => Some(prefix.push(s)),
            _ => None,
        }
    }
}

/// A document that is an array of strings.
pub open spec fn string_array(text: Seq<char>) -> Option<Seq<Seq<char>>> {
    match json_document(text) {
        Some(JsonValueView::Array(elems)) => string_elements(elems),
        _ => None,
    }
}

pub open spec fn effect_of(s: Seq<char>) -> Option<AccessEffect> {
    if s == "allow"@ {
        Some(AccessEffect::Allow)
    } else if s == "deny"@ {
        Some(AccessEffect::Deny)
    } else {
        None
    }
}

/// A rule's effect is the one its text names: "allow" allows and "deny" denies, no other
/// text names an effect, and the two texts give different effects.
pub proof fn lemma_effect_names(s: Seq<char>)
    ensures
        effect_of("allow"@) == Some(AccessEffect::Allow),
        effect_of("deny"@) == Some(AccessEffect::Deny),
        effect_of(s) is Some ==> s == "allow"@ || s == "deny"@,
        effect_of(s) == Some(AccessEffect::Deny) <==> s == "deny"@,
        effect_of(s) == Some(AccessEffect::Allow) <==> s == "allow"@,
{
    reveal_strlit("allow");
    reveal_strlit("deny");
    assert("allow"@ != "deny"@) by {
        assert("allow"@.len() != "deny"@.len());
    }
}

/// A decoded rule denies exactly when its `effect` member is the string "deny", and allows
/// exactly when it is "allow".
pub proof fn lemma_rule_effect(text: Seq<char>)
    requires
        rule_of(text) is Some,
    ensures
        object_members(text) is Some,
        rule_of(text)->0.effect == AccessEffect::Deny <==> required_string(object_members(text)->0, "effect"@) == Some("deny"@),
        rule_of(text)->0.effect == AccessEffect::Allow <==> required_string(object_members(text)->0, "effect"@) == Some("allow"@),
{
    let m = object_members(text)->0;
    let e = required_string(m, "effect"@)->0;
    lemma_effect_names(e);
}

/// An access rule: `{"effect": "allow"|"deny", "resource": <string>, "actions": [<string>...]}`.
pub open spec fn rule_of(text: Seq<char>) -> Option<RuleView> {
    match object_members(text) {
        Some(m) => match (required_string(m, "effect"@), required_string(m, "resource"@), member(m, "actions"@)) {
            (Some(e), Some(resource), Some(a)) => match (effect_of(e), string_array(a)) {
                (Some(effect), Some(actions)) => Some(RuleView { effect, resource, actions }),
                _ => None,
            },
            _ => None,
        },
        None => None,
    }
}

pub open spec fn rule_elements(elems: Seq<Seq<char>>) -> Option<Seq<RuleView>>
    decreases elems.len(),
{
    if elems.len() == 0 {
        Some(Seq::empty())
    } else {
        match (rule_elements(elems.drop_last()), rule_of(elems.last())) {
            (Some(prefix), Some(r)) => Some(prefix.push(r)),
            _ => None,
        }
    }
}

/// The required `rules` member: an array of access rules.
pub open spec fn rules_of(m: Seq<(Seq<char>, Seq<char>)>) -> Option<Seq<RuleView>> {
    match member(m, "rules"@) {
        Some(t) => match json_document(t) {
            Some(JsonValueView::Array(elems)) => rule_elements(elems),
            _ => None,
        },
        None => None,
    }
}

/// An optional member holding an array of strings; absent means empty.
pub open spec fn optional_string_list(m: Seq<(Seq<char>, Seq<char>)>, key: Seq<char>) -> Option<Seq<Seq<char>>> {
    match member(m, key) {
        Some(t) => string_array(t),
        None => Some(Seq::empty()),
    }
}

pub open spec fn string_members(m: Seq<(Seq<char>, Seq<char>)>) -> Option<Seq<(Seq<char>, Seq<char>)>>
    decreases m.len(),
{
    if m.len() == 0 {
        Some(Seq::empty())
    } else {
        match (string_members(m.drop_last()), text_value(m.last().1)) {
            (Some(prefix), Some(v)) => Some(prefix.push((m.last().0, v))),
            _ => None,
        }
    }
}

/// The optional `context` member: an object of strings; absent means empty.
pub open spec fn context_of(m: Seq<(Seq<char>, Seq<char>)>) -> Option<Seq<(Seq<char>, Seq<char>)>> {
    match member(m, "context"@) {
        Some(t) => match object_members(t) {
            Some(c) => string_members(c),
            None => None,
        },
        None => Some(Seq::empty()),
    }
}

/// The optional `eviction_policy` member; absent means no eviction.
pub open spec fn eviction_policy_of(m: Seq<(Seq<char>, Seq<char>)>) -> Option<EvictionPolicy> {
    match member(m, "eviction_policy"@) {
        None => Some(EvictionPolicy::NoEviction),
        Some(t) => match text_value(t) {
            Some(s) => if s == "no-eviction"@ {
                Some(EvictionPolicy::NoEviction)
            } else {
                None
            },
            None => None,
        },
    }
}

/// An optional unsigned member: absent or `null` mean `None`.
pub open spec fn optional_unsigned(m: Seq<(Seq<char>, Seq<char>)>, key: Seq<char>) -> Option<Option<u64>> {
    match member(m, key) {
        None => Some(None),
        Some(t) => match json_document(t) {
            Some(JsonValueView::Null) => Some(None),
            Some(JsonValueView::Unsigned(u)) => Some(Some(u)),
            _ => None,
        },
    }
}

/// The optional `retention` member: `{"period_ms": <u64>?, "size_bytes": <non-zero u64>?}`.
pub open spec fn retention_of(m: Seq<(Seq<char>, Seq<char>)>) -> Option<Retention> {
    match member(m, "retention"@) {
        None => Some(Retention::spec_default()),
        Some(t) => match object_members(t) {
            Some(r) => match (optional_unsigned(r, "period_ms"@), optional_unsigned(r, "size_bytes"@)) {
                (Some(period_ms), Some(size_bytes)) => if size_bytes == Some(0u64) {
                    None
                } else {
                    Some(Retention { period_ms, size_bytes })
                },
                _ => None,
            },
            None => None,
        },
    }
}

// ----- executable decoding -----

fn lit(s: &str) -> (r: String)
    ensures
        r@ == s@,
{
    String::from_str(s)
}

/// The value text of the first member named `key`.
pub fn find_member<'a>(m: &'a Vec<(String, String)>, key: &str) -> (r: Option<&'a String>)
    ensures
        r matches Some(v) ==> member(m@.map_values(|p: (String, String)| (p.0@, p.1@)), key@) == Some(v@),
        r is None ==> member(m@.map_values(|p: (String, String)| (p.0@, p.1@)), key@) is None,
{
    let ghost mv = m@.map_values(|p: (String, String)| (p.0@, p.1@));
    let k = lit(key);
    let mut i: usize = 0;
    assert(mv.subrange(0, mv.len() as int) =~= mv);
    while i < m.len()
        invariant
            i <= m@.len(),
            mv == m@.map_values(|p: (String, String)| (p.0@, p.1@)),
            k@ == key@,
            member(mv, key@) == member(mv.subrange(i as int, mv.len() as int), key@),
        decreases m@.len() - i,
    {
        let ghost rest = mv.subrange(i as int, mv.len() as int);
        assert(rest.drop_first() =~= mv.subrange(i + 1, mv.len() as int));
        if m[i].0 == k {
            return Some(&m[i].1);
        }
        i = i + 1;
    }
    assert(mv.subrange(i as int, mv.len() as int).len() == 0);
    None
}

/// The members of `text` when it is a JSON object.
pub fn parse_object(text: &str) -> (r: Option<Vec<(String, String)>>)
    ensures
        r matches Some(m) ==> object_members(text@) == Some(m@.map_values(|p: (String, String)| (p.0@, p.1@))),
        r is None ==> object_members(text@) is None,
{
    match parse_json(text) {
        Some(JsonValue::Object(m)) => Some(m),
        _ => None,
    }
}

/// The string that `text` holds when it is a JSON string.
pub fn parse_text(text: &str) -> (r: Option<String>)
    ensures
        r matches Some(s) ==> text_value(text@) == Some(s@),
        r is None ==> text_value(text@) is None,
{
    match parse_json(text) {
        Some(JsonValue::Text(s)) => Some(s),
        _ => None,
    }
}

pub fn decode_required_string(m: &Vec<(String, String)>, key: &str) -> (r: Option<String>)
    ensures
        r matches Some(s) ==> required_string(m@.map_values(|p: (String, String)| (p.0@, p.1@)), key@) == Some(s@),
        r is None ==> required_string(m@.map_values(|p: (String, String)| (p.0@, p.1@)), key@) is None,
{
    match find_member(m, key) {
        Some(t) => parse_text(t.as_str()),
        None => None,
    }
}

fn decode_string_elements(elems: &Vec<String>) -> (r: Option<Vec<String>>)
    ensures
        r matches Some(v) ==> string_elements(elems@.map_values(|e: String| e@)) == Some(v@.map_values(|s: String| s@)),
        r is None ==> string_elements(elems@.map_values(|e: String| e@)) is None,
{
    let ghost ev = elems@.map_values(|e: String| e@);
    let mut out: Vec<String> = Vec::new();
    let mut i: usize = 0;
    while i < elems.len()
        invariant
            i <= elems@.len(),
            ev == elems@.map_values(|e: String| e@),
            string_elements(ev.subrange(0, i as int)) == Some(out@.map_values(|s: String| s@)),
        decreases elems@.len() - i,
    {
        proof {
            assert(ev.subrange(0, i + 1).drop_last() =~= ev.subrange(0, i as int));
        }
        match parse_text(elems[i].as_str()) {
            Some(s) => {
                let ghost before = out@;
                out.push(s);
                proof {
                    assert(out@.map_values(|s: String| s@) =~= before.map_values(|s: String| s@).push(s@));
                }
            },
            None => {
                proof {
                    lemma_string_elements_none(ev, i + 1);
                }
                return None;
            },
        }
        i = i + 1;
    }
    assert(ev.subrange(0, i as int) =~= ev);
    Some(out)
}


proof fn lemma_string_elements_none(s: Seq<Seq<char>>, k: int)
    requires
        0 <= k <= s.len(),
        string_elements(s.subrange(0, k)) is None,
    ensures
        string_elements(s) is None,
    decreases s.len() - k,
{
    if k < s.len() {
        assert(s.subrange(0, k + 1).drop_last() =~= s.subrange(0, k));
        lemma_string_elements_none(s, k + 1);
    } else {
        assert(s.subrange(0, k) =~= s);
    }
}

proof fn lemma_rule_elements_none(s: Seq<Seq<char>>, k: int)
    requires
        0 <= k <= s.len(),
        rule_elements(s.subrange(0, k)) is None,
    ensures
        rule_elements(s) is None,
    decreases s.len() - k,
{
    if k < s.len() {
        assert(s.subrange(0, k + 1).drop_last() =~= s.subrange(0, k));
        lemma_rule_elements_none(s, k + 1);
    } else {
        assert(s.subrange(0, k) =~= s);
    }
}

proof fn lemma_string_members_none(s: Seq<(Seq<char>, Seq<char>)>, k: int)
    requires
        0 <= k <= s.len(),
        string_members(s.subrange(0, k)) is None,
    ensures
        string_members(s) is None,
    decreases s.len() - k,
{
    if k < s.len() {
        assert(s.subrange(0, k + 1).drop_last() =~= s.subrange(0, k));
        lemma_string_members_none(s, k + 1);
    } else {
        assert(s.subrange(0, k) =~= s);
    }
}

/// A document that is an array of strings.
pub fn decode_string_array(text: &str) -> (r: Option<Vec<String>>)
    ensures
        r matches Some(v) ==> string_array(text@) == Some(v@.map_values(|s: String| s@)),
        r is None ==> string_array(text@) is None,
{
    match parse_json(text) {
        Some(JsonValue::Array(elems)) => decode_string_elements(&elems),
        _ => None,
    }
}

fn decode_effect(s: &String) -> (r: Option<AccessEffect>)
    ensures
        r == effect_of(s@),
{
    if *s == lit("allow") {
        Some(AccessEffect::Allow)
    } else if *s == lit("deny") {
        Some(AccessEffect::Deny)
    } else {
        None
    }
}

/// One access rule.
pub fn decode_rule(text: &str) -> (r: Option<AccessRule>)
    ensures
        r matches Some(rule) ==> rule_of(text@) == Some(rule@),
        r is None ==> rule_of(text@) is None,
{
    let m = match parse_object(text) {
        Some(m) => m,
        None => return None,
    };
    let e = match decode_required_string(&m, "effect") {
        Some(e) => e,
        None => return None,
    };
    let resource = match decode_required_string(&m, "resource") {
        Some(r) => r,
        None => return None,
    };
    let a = match find_member(&m, "actions") {
        Some(a) => a,
        None => return None,
    };
    let effect = match decode_effect(&e) {
        Some(effect) => effect,
        None => return None,
    };
    let actions = match decode_string_array(a.as_str()) {
        Some(actions) => actions,
        None => return None,
    };
    Some(AccessRule { effect, resource, actions })
}

fn decode_rule_elements(elems: &Vec<String>) -> (r: Option<Vec<AccessRule>>)
    ensures
        r matches Some(v) ==> rule_elements(elems@.map_values(|e: String| e@)) == Some(v@.map_values(|x: AccessRule| x@)),
        r is None ==> rule_elements(elems@.map_values(|e: String| e@)) is None,
{
    let ghost ev = elems@.map_values(|e: String| e@);
    let mut out: Vec<AccessRule> = Vec::new();
    let mut i: usize = 0;
    while i < elems.len()
        invariant
            i <= elems@.len(),
            ev == elems@.map_values(|e: String| e@),
            rule_elements(ev.subrange(0, i as int)) == Some(out@.map_values(|x: AccessRule| x@)),
        decreases elems@.len() - i,
    {
        proof {
            assert(ev.subrange(0, i + 1).drop_last() =~= ev.subrange(0, i as int));
        }
        match decode_rule(elems[i].as_str()) {
            Some(rule) => {
                let ghost before = out@;
                let ghost rv = rule@;
                out.push(rule);
                proof {
                    assert(out@.map_values(|x: AccessRule| x@) =~= before.map_values(|x: AccessRule| x@).push(rv));
                }
            },
            None => {
                proof {
                    lemma_rule_elements_none(ev, i + 1);
                }
                return None;
            },
        }
        i = i + 1;
    }
    assert(ev.subrange(0, i as int) =~= ev);
    Some(out)
}

/// The required `rules` member.
pub fn decode_rules(m: &Vec<(String, String)>) -> (r: Option<Vec<AccessRule>>)
    ensures
        r matches Some(v) ==> rules_of(m@.map_values(|p: (String, String)| (p.0@, p.1@))) == Some(v@.map_values(|x: AccessRule| x@)),
        r is None ==> rules_of(m@.map_values(|p: (String, String)| (p.0@, p.1@))) is None,
{
    match find_member(m, "rules") {
        Some(t) => match parse_json(t.as_str()) {
            Some(JsonValue::Array(elems)) => decode_rule_elements(&elems),
            _ => None,
        },
        None => None,
    }
}

/// An optional member holding an array of strings; absent means empty.
pub fn decode_optional_string_list(m: &Vec<(String, String)>, key: &str) -> (r: Option<Vec<String>>)
    ensures
        r matches Some(v) ==> optional_string_list(m@.map_values(|p: (String, String)| (p.0@, p.1@)), key@) == Some(v@.map_values(|s: String| s@)),
        r is None ==> optional_string_list(m@.map_values(|p: (String, String)| (p.0@, p.1@)), key@) is None,
{
    match find_member(m, key) {
        Some(t) => decode_string_array(t.as_str()),
        None => {
            let v: Vec<String> = Vec::new();
            assert(v@.map_values(|s: String| s@) =~= Seq::<Seq<char>>::empty());
            Some(v)
        },
    }
}

fn decode_string_members(m: &Vec<(String, String)>) -> (r: Option<Vec<(String, String)>>)
    ensures
        r matches Some(v) ==> string_members(m@.map_values(|p: (String, String)| (p.0@, p.1@))) == Some(v@.map_values(|p: (String, String)| (p.0@, p.1@))),
        r is None ==> string_members(m@.map_values(|p: (String, String)| (p.0@, p.1@))) is None,
{
    let ghost mv = m@.map_values(|p: (String, String)| (p.0@, p.1@));
    let mut out: Vec<(String, String)> = Vec::new();
    let mut i: usize = 0;
    while i < m.len()
        invariant
            i <= m@.len(),
            mv == m@.map_values(|p: (String, String)| (p.0@, p.1@)),
            string_members(mv.subrange(0, i as int)) == Some(out@.map_values(|p: (String, String)| (p.0@, p.1@))),
        decreases m@.len() - i,
    {
        proof {
            assert(mv.subrange(0, i + 1).drop_last() =~= mv.subrange(0, i as int));
        }
        match parse_text(m[i].1.as_str()) {
            Some(v) => {
                let ghost before = out@;
                let key = m[i].0.clone();
                let ghost pv = (key@, v@);
                out.push((key, v));
                proof {
                    assert(out@.map_values(|p: (String, String)| (p.0@, p.1@)) =~= before.map_values(|p: (String, String)| (p.0@, p.1@)).push(pv));
                }
            },
            None => {
                proof {
                    lemma_string_members_none(mv, i + 1);
                }
                return None;
            },
        }
        i = i + 1;
    }
    assert(mv.subrange(0, i as int) =~= mv);
    Some(out)
}

/// The optional `context` member.
pub fn decode_context(m: &Vec<(String, String)>) -> (r: Option<Vec<(String, String)>>)
    ensures
        r matches Some(v) ==> context_of(m@.map_values(|p: (String, String)| (p.0@, p.1@))) == Some(v@.map_values(|p: (String, String)| (p.0@, p.1@))),
        r is None ==> context_of(m@.map_values(|p: (String, String)| (p.0@, p.1@))) is None,
{
    match find_member(m, "context") {
        Some(t) => match parse_object(t.as_str()) {
            Some(c) => decode_string_members(&c),
            None => None,
        },
        None => {
            let v: Vec<(String, String)> = Vec::new();
            assert(v@.map_values(|p: (String, String)| (p.0@, p.1@)) =~= Seq::<(Seq<char>, Seq<char>)>::empty());
            Some(v)
        },
    }
}

/// The optional `eviction_policy` member.
pub fn decode_eviction_policy(m: &Vec<(String, String)>) -> (r: Option<EvictionPolicy>)
    ensures
        r == eviction_policy_of(m@.map_values(|p: (String, String)| (p.0@, p.1@))),
{
    match find_member(m, "eviction_policy") {
        None => Some(EvictionPolicy::NoEviction),
        Some(t) => match parse_text(t.as_str()) {
            Some(s) => if s == lit("no-eviction") {
                Some(EvictionPolicy::NoEviction)
            } else {
                None
            },
            None => None,
        },
    }
}

fn decode_optional_unsigned(m: &Vec<(String, String)>, key: &str) -> (r: Option<Option<u64>>)
    ensures
        r == optional_unsigned(m@.map_values(|p: (String, String)| (p.0@, p.1@)), key@),
{
    match find_member(m, key) {
        None => Some(None),
        Some(t) => match parse_json(t.as_str()) {
            Some(JsonValue::Null) => Some(None),
            Some(JsonValue::Unsigned(u)) => Some(Some(u)),
            _ => None,
        },
    }
}

/// The optional `retention` member.
pub fn decode_retention(m: &Vec<(String, String)>) -> (r: Option<Retention>)
    ensures
        r == retention_of(m@.map_values(|p: (String, String)| (p.0@, p.1@))),
{
    match find_member(m, "retention") {
        None => Some(Retention::default()),
        Some(t) => match parse_object(t.as_str()) {
            Some(r) => match (decode_optional_unsigned(&r, "period_ms"), decode_optional_unsigned(&r, "size_bytes")) {
                (Some(period_ms), Some(size_bytes)) => if size_bytes == Some(0u64) {
                    None
                } else {
                    Some(Retention { period_ms, size_bytes })
                },
                _ => None,
            },
            None => None,
        },
    }
}

} // verus!
