//! The namespaces that every cluster is bootstrapped with.
use vstd::prelude::*;
use vstd::string::*;

use super::payload::{
    AuthTokenConfigureNamespaceIn, CacheConfigureNamespaceIn, EvictionPolicy, IdempotencyConfigureNamespaceIn,
    KvConfigureNamespaceIn, MsgNamespaceConfigureIn, NamespaceName, RateLimitConfigureNamespaceIn, Retention,
};
use super::{BootstrapCommand, CommandView};

verus! {

/// Name of the namespace that each module starts with.
pub open spec fn default_namespace() -> Seq<char> {
    "default"@
}

/// Name of the namespace that holds the cluster's own auth tokens.
pub open spec fn internal_namespace() -> Seq<char> {
    "_internal"@
}

pub fn default_namespace_name() -> (n: NamespaceName)
    ensures
        n.0@ == default_namespace(),
{
    NamespaceName(String::from_str("default"))
}

pub fn internal_namespace_name() -> (n: NamespaceName)
    ensures
        n.0@ == internal_namespace(),
{
    NamespaceName(String::from_str("_internal"))
}

/// The modules whose commands configure a namespace.
#[derive(Clone, Copy, Debug, PartialEq, Eq, Structural)]
pub enum NamespacedModule {
    Kv,
    Cache,
    Idempotency,
    RateLimit,
    Msgs,
    AuthToken,
}

pub open spec fn module_of(c: CommandView) -> Option<NamespacedModule> {
    match c {
        CommandView::Kv(_) => Some(NamespacedModule::Kv),
        CommandView::Cache(..) => Some(NamespacedModule::Cache),
        CommandView::Idempotency(_) => Some(NamespacedModule::Idempotency),
        CommandView::RateLimit(_) => Some(NamespacedModule::RateLimit),
        CommandView::Msgs(..) => Some(NamespacedModule::Msgs),
        CommandView::AuthToken(_) => Some(NamespacedModule::AuthToken),
        _ => None,
    }
}

/// The namespace a command configures; access-control commands configure none.
pub open spec fn namespace_of(c: CommandView) -> Option<Seq<char>> {
    match c {
        CommandView::Kv(n) => Some(n),
        CommandView::Cache(n, _) => Some(n),
        CommandView::Idempotency(n) => Some(n),
        CommandView::RateLimit(n) => Some(n),
        CommandView::Msgs(n, _) => Some(n),
        CommandView::AuthToken(n) => Some(n),
        _ => None,
    }
}

/// `c` configures the default namespace of module `m`.
pub open spec fn is_default_of(c: CommandView, m: NamespacedModule) -> bool {
    module_of(c) == Some(m) && namespace_of(c) == Some(default_namespace())
}

pub open spec fn has_default(cmds: Seq<CommandView>, m: NamespacedModule) -> bool {
    exists|i: int| 0 <= i < cmds.len() && #[trigger] is_default_of(cmds[i], m)
}

/// `c` put first, unless the default namespace of `m` is already configured.
pub open spec fn with_default(cmds: Seq<CommandView>, m: NamespacedModule, c: CommandView) -> Seq<CommandView> {
    if has_default(cmds, m) {
        cmds
    } else {
        seq![c] + cmds
    }
}

/// The commands that `ensure_defaults` leaves: the internal auth-token namespace always,
/// and the default namespace of each module that the script does not configure, in
/// front of the script's own commands.
pub open spec fn with_defaults(cmds: Seq<CommandView>) -> Seq<CommandView> {
    let c1 = with_default(cmds, NamespacedModule::AuthToken, CommandView::AuthToken(default_namespace()));
    let c2 = seq![CommandView::AuthToken(internal_namespace())] + c1;
    let c3 = with_default(
        c2,
        NamespacedModule::Msgs,
        CommandView::Msgs(default_namespace(), Retention::spec_default()),
    );
    let c4 = with_default(c3, NamespacedModule::RateLimit, CommandView::RateLimit(default_namespace()));
    let c5 = with_default(c4, NamespacedModule::Idempotency, CommandView::Idempotency(default_namespace()));
    let c6 = with_default(
        c5,
        NamespacedModule::Cache,
        CommandView::Cache(default_namespace(), EvictionPolicy::NoEviction),
    );
    with_default(c6, NamespacedModule::Kv, CommandView::Kv(default_namespace()))
}

impl BootstrapCommand {
    /// The namespace that the command configures.
    pub fn namespace(&self) -> (r: Option<&NamespaceName>)
        ensures
            r matches Some(n) ==> namespace_of(self@) == Some(n.0@),
            r is None ==> namespace_of(self@) is None,
    {
        match self {
            BootstrapCommand::Kv(v) => Some(&v.name),
            BootstrapCommand::Cache(v) => Some(&v.name),
            BootstrapCommand::Idempotency(v) => Some(&v.name),
            BootstrapCommand::RateLimit(v) => Some(&v.name),
            BootstrapCommand::Msgs(v) => Some(&v.name),
            BootstrapCommand::AuthToken(v) => Some(&v.name),
            BootstrapCommand::AdminAuthPolicy(_) | BootstrapCommand::AdminAuthRole(_) => None,
        }
    }

    fn module(&self) -> (r: Option<NamespacedModule>)
        ensures
            r == module_of(self@),
    {
        match self {
            BootstrapCommand::Kv(_) => Some(NamespacedModule::Kv),
            BootstrapCommand::Cache(_) => Some(NamespacedModule::Cache),
            BootstrapCommand::Idempotency(_) => Some(NamespacedModule::Idempotency),
            BootstrapCommand::RateLimit(_) => Some(NamespacedModule::RateLimit),
            BootstrapCommand::Msgs(_) => Some(NamespacedModule::Msgs),
            BootstrapCommand::AuthToken(_) => Some(NamespacedModule::AuthToken),
            _ => None,
        }
    }
}

fn configures_default(commands: &Vec<BootstrapCommand>, m: NamespacedModule) -> (b: bool)
    ensures
        b == has_default(commands@.map_values(|c: BootstrapCommand| c@), m),
{
    let ghost cv = commands@.map_values(|c: BootstrapCommand| c@);
    let default = String::from_str("default");
    let mut i: usize = 0;
    while i < commands.len()
        invariant
            i <= commands@.len(),
            cv == commands@.map_values(|c: BootstrapCommand| c@),
            default@ == default_namespace(),
            forall|j: int| 0 <= j < i ==> !#[trigger] is_default_of(cv[j], m),
        decreases commands@.len() - i,
    {
        let c = &commands[i];
        if c.module() == Some(m) {
            match c.namespace() {
                Some(n) => {
                    if n.0 == default {
                        assert(is_default_of(cv[i as int], m));
                        return true;
                    }
                },
                None => {},
            }
        }
        i = i + 1;
    }
    false
}

fn insert_default(commands: &mut Vec<BootstrapCommand>, m: NamespacedModule, c: BootstrapCommand)
    ensures
        final(commands)@.map_values(|c: BootstrapCommand| c@) == with_default(
            old(commands)@.map_values(|c: BootstrapCommand| c@),
            m,
            c@,
        ),
{
    let ghost before = commands@.map_values(|c: BootstrapCommand| c@);
    if !configures_default(commands, m) {
        let ghost cv = c@;
        commands.insert(0, c);
        proof {
            assert(commands@.map_values(|c: BootstrapCommand| c@) =~= seq![cv] + before);
        }
    }
}

/// Puts in front of the script's commands the namespaces that every cluster needs.
pub fn ensure_defaults(commands: &mut Vec<BootstrapCommand>)
    ensures
        final(commands)@.map_values(|c: BootstrapCommand| c@) == with_defaults(
            old(commands)@.map_values(|c: BootstrapCommand| c@),
        ),
{
    insert_default(
        commands,
        NamespacedModule::AuthToken,
        BootstrapCommand::AuthToken(AuthTokenConfigureNamespaceIn { name: default_namespace_name() }),
    );
    let ghost before = commands@.map_values(|c: BootstrapCommand| c@);
    let internal = BootstrapCommand::AuthToken(AuthTokenConfigureNamespaceIn { name: internal_namespace_name() });
    let ghost iv = internal@;
    commands.insert(0, internal);
    proof {
        assert(commands@.map_values(|c: BootstrapCommand| c@) =~= seq![iv] + before);
    }
    insert_default(
        commands,
        NamespacedModule::Msgs,
        BootstrapCommand::Msgs(MsgNamespaceConfigureIn { name: default_namespace_name(), retention: Retention::default() }),
    );
    insert_default(
        commands,
        NamespacedModule::RateLimit,
        BootstrapCommand::RateLimit(RateLimitConfigureNamespaceIn { name: default_namespace_name() }),
    );
    insert_default(
        commands,
        NamespacedModule::Idempotency,
        BootstrapCommand::Idempotency(IdempotencyConfigureNamespaceIn { name: default_namespace_name() }),
    );
    insert_default(
        commands,
        NamespacedModule::Cache,
        BootstrapCommand::Cache(
            CacheConfigureNamespaceIn { name: default_namespace_name(), eviction_policy: EvictionPolicy::NoEviction },
        ),
    );
    insert_default(
        commands,
        NamespacedModule::Kv,
        BootstrapCommand::Kv(KvConfigureNamespaceIn { name: default_namespace_name() }),
    );
}


proof fn lemma_prefix_keeps_default(p: Seq<CommandView>, cmds: Seq<CommandView>, m: NamespacedModule)
    requires
        has_default(cmds, m),
    ensures
        has_default(p + cmds, m),
{
    let i = choose|i: int| 0 <= i < cmds.len() && #[trigger] is_default_of(cmds[i], m);
    assert((p + cmds)[p.len() + i] == cmds[i]);
    assert(is_default_of((p + cmds)[p.len() + i], m));
}

proof fn lemma_with_default_step(cmds: Seq<CommandView>, m: NamespacedModule, c: CommandView, other: NamespacedModule)
    ensures
        has_default(cmds, other) ==> has_default(with_default(cmds, m, c), other),
        is_default_of(c, m) ==> has_default(with_default(cmds, m, c), m),
        exists|p: Seq<CommandView>| #[trigger] with_default(cmds, m, c) == p + cmds && p.len() <= 1 && (
            p.len() == 1 ==> p[0] == c && !has_default(cmds, m)),
{
    if has_default(cmds, m) {
        assert(with_default(cmds, m, c) == Seq::<CommandView>::empty() + cmds);
    } else {
        assert(with_default(cmds, m, c) == seq![c] + cmds);
        if has_default(cmds, other) {
            lemma_prefix_keeps_default(seq![c], cmds, other);
        }
        if is_default_of(c, m) {
            assert(is_default_of((seq![c] + cmds)[0], m));
        }
    }
}

/// The default command of a module, where the script does not configure that module's
/// default namespace; nothing where it does.
pub open spec fn missing_default(cmds: Seq<CommandView>, m: NamespacedModule, c: CommandView) -> Seq<CommandView> {
    if has_default(cmds, m) {
        Seq::empty()
    } else {
        seq![c]
    }
}

pub open spec fn free_of(p: Seq<CommandView>, m: NamespacedModule) -> bool {
    forall|k: int| 0 <= k < p.len() ==> module_of(#[trigger] p[k]) != Some(m)
}

proof fn lemma_free_concat(a: Seq<CommandView>, b: Seq<CommandView>, m: NamespacedModule)
    requires
        free_of(a, m),
        free_of(b, m),
    ensures
        free_of(a + b, m),
{
    assert forall|k: int| 0 <= k < (a + b).len() implies module_of(#[trigger] (a + b)[k]) != Some(m) by {
        if k < a.len() {
            assert((a + b)[k] == a[k]);
        } else {
            assert((a + b)[k] == b[k - a.len()]);
        }
    }
}

proof fn lemma_free_missing(cmds: Seq<CommandView>, m2: NamespacedModule, c: CommandView, m: NamespacedModule)
    requires
        module_of(c) == Some(m2),
        m2 != m,
    ensures
        free_of(missing_default(cmds, m2, c), m),
{
}

proof fn lemma_has_default_prepend(p: Seq<CommandView>, s: Seq<CommandView>, m: NamespacedModule)
    requires
        free_of(p, m),
    ensures
        has_default(p + s, m) == has_default(s, m),
{
    if has_default(p + s, m) {
        let i = choose|i: int| 0 <= i < (p + s).len() && #[trigger] is_default_of((p + s)[i], m);
        if i < p.len() {
            assert(module_of(p[i]) != Some(m));
        } else {
            assert((p + s)[i] == s[i - p.len()]);
            assert(is_default_of(s[i - p.len()], m));
        }
    }
    if has_default(s, m) {
        lemma_prefix_keeps_default(p, s, m);
    }
}

proof fn lemma_step(cmds: Seq<CommandView>, p: Seq<CommandView>, m: NamespacedModule, c: CommandView)
    requires
        free_of(p, m),
    ensures
        with_default(p + cmds, m, c) == missing_default(cmds, m, c) + p + cmds,
{
    lemma_has_default_prepend(p, cmds, m);
    if has_default(cmds, m) {
        assert(missing_default(cmds, m, c) + p + cmds =~= p + cmds);
    } else {
        assert(missing_default(cmds, m, c) + p + cmds =~= seq![c] + (p + cmds));
    }
}

/// What `ensure_defaults` adds, in full: in front of the script, the default namespace of
/// each of Kv, Cache, Idempotency, RateLimit and Msgs that the script does not configure,
/// then the internal auth-token namespace (always, and once), then the default auth-token
/// namespace unless the script configures it. So at most one default per module is added,
/// none for a module that the script configures, and the script follows unchanged.
#[verifier::spinoff_prover]
#[verifier::rlimit(60)]
pub proof fn lemma_defaults_shape(cmds: Seq<CommandView>)
    ensures
        with_defaults(cmds) == missing_default(cmds, NamespacedModule::Kv, CommandView::Kv(default_namespace()))
            + missing_default(cmds, NamespacedModule::Cache, CommandView::Cache(default_namespace(), EvictionPolicy::NoEviction))
            + missing_default(cmds, NamespacedModule::Idempotency, CommandView::Idempotency(default_namespace()))
            + missing_default(cmds, NamespacedModule::RateLimit, CommandView::RateLimit(default_namespace()))
            + missing_default(cmds, NamespacedModule::Msgs, CommandView::Msgs(default_namespace(), Retention::spec_default()))
            + seq![CommandView::AuthToken(internal_namespace())]
            + missing_default(cmds, NamespacedModule::AuthToken, CommandView::AuthToken(default_namespace()))
            + cmds,
{
    let kvc = CommandView::Kv(default_namespace());
    let cac = CommandView::Cache(default_namespace(), EvictionPolicy::NoEviction);
    let idc = CommandView::Idempotency(default_namespace());
    let rlc = CommandView::RateLimit(default_namespace());
    let msc = CommandView::Msgs(default_namespace(), Retention::spec_default());
    let atc = CommandView::AuthToken(default_namespace());
    let kv = missing_default(cmds, NamespacedModule::Kv, kvc);
    let ca = missing_default(cmds, NamespacedModule::Cache, cac);
    let id = missing_default(cmds, NamespacedModule::Idempotency, idc);
    let rl = missing_default(cmds, NamespacedModule::RateLimit, rlc);
    let ms = missing_default(cmds, NamespacedModule::Msgs, msc);
    let it = seq![CommandView::AuthToken(internal_namespace())];
    let at = missing_default(cmds, NamespacedModule::AuthToken, atc);
    let e = Seq::<CommandView>::empty();
    // Auth-token default first.
    assert(free_of(e, NamespacedModule::AuthToken));
    lemma_step(cmds, e, NamespacedModule::AuthToken, atc);
    assert(e + cmds =~= cmds);
    let c1 = with_default(cmds, NamespacedModule::AuthToken, atc);
    assert(c1 == at + e + cmds);
    let p2 = it + at;
    assert(it + c1 =~= p2 + cmds);
    // Msgs.
    lemma_free_missing(cmds, NamespacedModule::AuthToken, atc, NamespacedModule::Msgs);
    lemma_free_concat(it, at, NamespacedModule::Msgs);
    lemma_step(cmds, p2, NamespacedModule::Msgs, msc);
    let p3 = ms + p2;
    assert(ms + p2 + cmds =~= p3 + cmds);
    // RateLimit.
    lemma_free_missing(cmds, NamespacedModule::AuthToken, atc, NamespacedModule::RateLimit);
    lemma_free_missing(cmds, NamespacedModule::Msgs, msc, NamespacedModule::RateLimit);
    lemma_free_concat(it, at, NamespacedModule::RateLimit);
    lemma_free_concat(ms, p2, NamespacedModule::RateLimit);
    lemma_step(cmds, p3, NamespacedModule::RateLimit, rlc);
    let p4 = rl + p3;
    assert(rl + p3 + cmds =~= p4 + cmds);
    // Idempotency.
    lemma_free_missing(cmds, NamespacedModule::AuthToken, atc, NamespacedModule::Idempotency);
    lemma_free_missing(cmds, NamespacedModule::Msgs, msc, NamespacedModule::Idempotency);
    lemma_free_missing(cmds, NamespacedModule::RateLimit, rlc, NamespacedModule::Idempotency);
    lemma_free_concat(it, at, NamespacedModule::Idempotency);
    lemma_free_concat(ms, p2, NamespacedModule::Idempotency);
    lemma_free_concat(rl, p3, NamespacedModule::Idempotency);
    lemma_step(cmds, p4, NamespacedModule::Idempotency, idc);
    let p5 = id + p4;
    assert(id + p4 + cmds =~= p5 + cmds);
    // Cache.
    lemma_free_missing(cmds, NamespacedModule::AuthToken, atc, NamespacedModule::Cache);
    lemma_free_missing(cmds, NamespacedModule::Msgs, msc, NamespacedModule::Cache);
    lemma_free_missing(cmds, NamespacedModule::RateLimit, rlc, NamespacedModule::Cache);
    lemma_free_missing(cmds, NamespacedModule::Idempotency, idc, NamespacedModule::Cache);
    lemma_free_concat(it, at, NamespacedModule::Cache);
    lemma_free_concat(ms, p2, NamespacedModule::Cache);
    lemma_free_concat(rl, p3, NamespacedModule::Cache);
    lemma_free_concat(id, p4, NamespacedModule::Cache);
    lemma_step(cmds, p5, NamespacedModule::Cache, cac);
    let p6 = ca + p5;
    assert(ca + p5 + cmds =~= p6 + cmds);
    // Kv.
    lemma_free_missing(cmds, NamespacedModule::AuthToken, atc, NamespacedModule::Kv);
    lemma_free_missing(cmds, NamespacedModule::Msgs, msc, NamespacedModule::Kv);
    lemma_free_missing(cmds, NamespacedModule::RateLimit, rlc, NamespacedModule::Kv);
    lemma_free_missing(cmds, NamespacedModule::Idempotency, idc, NamespacedModule::Kv);
    lemma_free_missing(cmds, NamespacedModule::Cache, cac, NamespacedModule::Kv);
    lemma_free_concat(it, at, NamespacedModule::Kv);
    lemma_free_concat(ms, p2, NamespacedModule::Kv);
    lemma_free_concat(rl, p3, NamespacedModule::Kv);
    lemma_free_concat(id, p4, NamespacedModule::Kv);
    lemma_free_concat(ca, p5, NamespacedModule::Kv);
    lemma_step(cmds, p6, NamespacedModule::Kv, kvc);
    assert(kv + ca + id + rl + ms + it + at + cmds =~= kv + p6 + cmds);
}

/// How many of the commands satisfy `p`.
pub open spec fn count_where(s: Seq<CommandView>, p: spec_fn(CommandView) -> bool) -> nat
    decreases s.len(),
{
    if s.len() == 0 {
        0
    } else {
        count_where(s.drop_last(), p) + if p(s.last()) { 1nat } else { 0nat }
    }
}

proof fn lemma_count_concat(a: Seq<CommandView>, b: Seq<CommandView>, p: spec_fn(CommandView) -> bool)
    ensures
        count_where(a + b, p) == count_where(a, p) + count_where(b, p),
    decreases b.len(),
{
    if b.len() == 0 {
        assert(a + b =~= a);
    } else {
        assert((a + b).drop_last() =~= a + b.drop_last());
        lemma_count_concat(a, b.drop_last(), p);
    }
}

proof fn lemma_count_one(c: CommandView, p: spec_fn(CommandView) -> bool)
    ensures
        count_where(seq![c], p) == if p(c) { 1nat } else { 0nat },
{
    assert(seq![c].drop_last() =~= Seq::<CommandView>::empty());
    assert(count_where(Seq::<CommandView>::empty(), p) == 0);
    assert(seq![c].last() == c);
}

proof fn lemma_count_positive(s: Seq<CommandView>, m: NamespacedModule)
    ensures
        has_default(s, m) <==> count_where(s, |c: CommandView| is_default_of(c, m)) > 0,
    decreases s.len(),
{
    let p = |c: CommandView| is_default_of(c, m);
    if s.len() > 0 {
        lemma_count_positive(s.drop_last(), m);
        if has_default(s.drop_last(), m) {
            let i = choose|i: int| 0 <= i < s.drop_last().len() && #[trigger] is_default_of(s.drop_last()[i], m);
            assert(is_default_of(s[i], m));
        }
        if has_default(s, m) && !is_default_of(s.last(), m) {
            let i = choose|i: int| 0 <= i < s.len() && #[trigger] is_default_of(s[i], m);
            assert(is_default_of(s.drop_last()[i], m));
        }
        if is_default_of(s.last(), m) {
            assert(is_default_of(s[s.len() - 1], m));
        }
    }
}

proof fn lemma_count_missing(cmds: Seq<CommandView>, m2: NamespacedModule, c: CommandView, p: spec_fn(CommandView) -> bool)
    ensures
        count_where(missing_default(cmds, m2, c), p) == if has_default(cmds, m2) { 0nat } else if p(c) { 1nat } else { 0nat },
{
    if has_default(cmds, m2) {
        assert(missing_default(cmds, m2, c).len() == 0);
    } else {
        lemma_count_one(c, p);
    }
}

/// The counting law of `ensure_defaults`: each module's default namespace is configured as
/// many times as the script configures it, or once where the script does not; the internal
/// auth-token namespace is configured once more than in the script; and every added command
/// configures one of those namespaces (the script itself follows unchanged).
#[verifier::rlimit(60)]
pub proof fn lemma_defaults_counts(cmds: Seq<CommandView>, m: NamespacedModule)
    ensures
        ({
            let p = |c: CommandView| is_default_of(c, m);
            let n = count_where(cmds, p);
            count_where(with_defaults(cmds), p) == if n == 0 { 1 } else { n }
        }),
        ({
            let q = |c: CommandView| c == CommandView::AuthToken(internal_namespace());
            count_where(with_defaults(cmds), q) == count_where(cmds, q) + 1
        }),
        ends_with(with_defaults(cmds), cmds),
        forall|k: int|
            0 <= k < with_defaults(cmds).len() - cmds.len() ==> (#[trigger] with_defaults(cmds)[k] == CommandView::AuthToken(
                internal_namespace(),
            ) || exists|m2: NamespacedModule| is_default_of(with_defaults(cmds)[k], m2)),
{
    reveal_strlit("_internal");
    reveal_strlit("default");
    assert(internal_namespace() != default_namespace()) by {
        assert(internal_namespace().len() != default_namespace().len());
    }
    lemma_defaults_shape(cmds);
    lemma_defaults_keep_script(cmds);
    let kvc = CommandView::Kv(default_namespace());
    let cac = CommandView::Cache(default_namespace(), EvictionPolicy::NoEviction);
    let idc = CommandView::Idempotency(default_namespace());
    let rlc = CommandView::RateLimit(default_namespace());
    let msc = CommandView::Msgs(default_namespace(), Retention::spec_default());
    let atc = CommandView::AuthToken(default_namespace());
    let itc = CommandView::AuthToken(internal_namespace());
    let kv = missing_default(cmds, NamespacedModule::Kv, kvc);
    let ca = missing_default(cmds, NamespacedModule::Cache, cac);
    let id = missing_default(cmds, NamespacedModule::Idempotency, idc);
    let rl = missing_default(cmds, NamespacedModule::RateLimit, rlc);
    let ms = missing_default(cmds, NamespacedModule::Msgs, msc);
    let it = seq![itc];
    let at = missing_default(cmds, NamespacedModule::AuthToken, atc);
    let prefix = kv + ca + id + rl + ms + it + at;
    assert(with_defaults(cmds) =~= prefix + cmds);
    let p = |c: CommandView| is_default_of(c, m);
    let q = |c: CommandView| c == itc;
    lemma_count_concat(prefix, cmds, p);
    lemma_count_concat(prefix, cmds, q);
    lemma_count_concat(kv + ca + id + rl + ms + it, at, p);
    lemma_count_concat(kv + ca + id + rl + ms, it, p);
    lemma_count_concat(kv + ca + id + rl, ms, p);
    lemma_count_concat(kv + ca + id, rl, p);
    lemma_count_concat(kv + ca, id, p);
    lemma_count_concat(kv, ca, p);
    lemma_count_concat(kv + ca + id + rl + ms + it, at, q);
    lemma_count_concat(kv + ca + id + rl + ms, it, q);
    lemma_count_concat(kv + ca + id + rl, ms, q);
    lemma_count_concat(kv + ca + id, rl, q);
    lemma_count_concat(kv + ca, id, q);
    lemma_count_concat(kv, ca, q);
    lemma_count_missing(cmds, NamespacedModule::Kv, kvc, p);
    lemma_count_missing(cmds, NamespacedModule::Cache, cac, p);
    lemma_count_missing(cmds, NamespacedModule::Idempotency, idc, p);
    lemma_count_missing(cmds, NamespacedModule::RateLimit, rlc, p);
    lemma_count_missing(cmds, NamespacedModule::Msgs, msc, p);
    lemma_count_missing(cmds, NamespacedModule::AuthToken, atc, p);
    lemma_count_missing(cmds, NamespacedModule::Kv, kvc, q);
    lemma_count_missing(cmds, NamespacedModule::Cache, cac, q);
    lemma_count_missing(cmds, NamespacedModule::Idempotency, idc, q);
    lemma_count_missing(cmds, NamespacedModule::RateLimit, rlc, q);
    lemma_count_missing(cmds, NamespacedModule::Msgs, msc, q);
    lemma_count_missing(cmds, NamespacedModule::AuthToken, atc, q);
    lemma_count_one(itc, p);
    lemma_count_one(itc, q);
    lemma_count_positive(cmds, m);
    assert(is_default_of(kvc, NamespacedModule::Kv));
    assert(is_default_of(cac, NamespacedModule::Cache));
    assert(is_default_of(idc, NamespacedModule::Idempotency));
    assert(is_default_of(rlc, NamespacedModule::RateLimit));
    assert(is_default_of(msc, NamespacedModule::Msgs));
    assert(is_default_of(atc, NamespacedModule::AuthToken));
    assert forall|k: int|
        0 <= k < with_defaults(cmds).len() - cmds.len() implies (#[trigger] with_defaults(cmds)[k] == itc
            || exists|m2: NamespacedModule| is_default_of(with_defaults(cmds)[k], m2)) by {
        assert(with_defaults(cmds)[k] == prefix[k]);
        let x = prefix[k];
        assert(x == kvc || x == cac || x == idc || x == rlc || x == msc || x == itc || x == atc) by {
            let s1 = kv + ca;
            let s2 = s1 + id;
            let s3 = s2 + rl;
            let s4 = s3 + ms;
            let s5 = s4 + it;
            if k < kv.len() { assert(x == kv[k]); }
            else if k < s1.len() { assert(x == ca[k - kv.len()]); }
            else if k < s2.len() { assert(x == id[k - s1.len()]); }
            else if k < s3.len() { assert(x == rl[k - s2.len()]); }
            else if k < s4.len() { assert(x == ms[k - s3.len()]); }
            else if k < s5.len() { assert(x == it[k - s4.len()]); }
            else { assert(x == at[k - s5.len()]); }
        }
        if x == kvc { assert(is_default_of(x, NamespacedModule::Kv)); }
        if x == cac { assert(is_default_of(x, NamespacedModule::Cache)); }
        if x == idc { assert(is_default_of(x, NamespacedModule::Idempotency)); }
        if x == rlc { assert(is_default_of(x, NamespacedModule::RateLimit)); }
        if x == msc { assert(is_default_of(x, NamespacedModule::Msgs)); }
        if x == atc { assert(is_default_of(x, NamespacedModule::AuthToken)); }
    }
}

/// After `ensure_defaults`, the default namespace of every module is configured, whatever
/// the script held.
pub proof fn lemma_defaults_complete(cmds: Seq<CommandView>, m: NamespacedModule)
    ensures
        has_default(with_defaults(cmds), m),
{
    let c1 = with_default(cmds, NamespacedModule::AuthToken, CommandView::AuthToken(default_namespace()));
    let c2 = seq![CommandView::AuthToken(internal_namespace())] + c1;
    let c3 = with_default(c2, NamespacedModule::Msgs, CommandView::Msgs(default_namespace(), Retention::spec_default()));
    let c4 = with_default(c3, NamespacedModule::RateLimit, CommandView::RateLimit(default_namespace()));
    let c5 = with_default(c4, NamespacedModule::Idempotency, CommandView::Idempotency(default_namespace()));
    let c6 = with_default(c5, NamespacedModule::Cache, CommandView::Cache(default_namespace(), EvictionPolicy::NoEviction));
    lemma_with_default_step(cmds, NamespacedModule::AuthToken, CommandView::AuthToken(default_namespace()), m);
    if has_default(c1, m) {
        lemma_prefix_keeps_default(seq![CommandView::AuthToken(internal_namespace())], c1, m);
    }
    lemma_with_default_step(c2, NamespacedModule::Msgs, CommandView::Msgs(default_namespace(), Retention::spec_default()), m);
    lemma_with_default_step(c3, NamespacedModule::RateLimit, CommandView::RateLimit(default_namespace()), m);
    lemma_with_default_step(c4, NamespacedModule::Idempotency, CommandView::Idempotency(default_namespace()), m);
    lemma_with_default_step(c5, NamespacedModule::Cache, CommandView::Cache(default_namespace(), EvictionPolicy::NoEviction), m);
    lemma_with_default_step(c6, NamespacedModule::Kv, CommandView::Kv(default_namespace()), m);
}

pub open spec fn ends_with(s: Seq<CommandView>, t: Seq<CommandView>) -> bool {
    s.len() >= t.len() && s.subrange(s.len() - t.len(), s.len() as int) == t
}

proof fn lemma_prepend_keeps_suffix(p: Seq<CommandView>, s: Seq<CommandView>, t: Seq<CommandView>)
    requires
        ends_with(s, t),
    ensures
        ends_with(p + s, t),
{
    assert((p + s).subrange((p + s).len() - t.len(), (p + s).len() as int) =~= s.subrange(
        s.len() - t.len(),
        s.len() as int,
    ));
}

proof fn lemma_with_default_keeps_suffix(s: Seq<CommandView>, m: NamespacedModule, c: CommandView, t: Seq<CommandView>)
    requires
        ends_with(s, t),
    ensures
        ends_with(with_default(s, m, c), t),
{
    if !has_default(s, m) {
        lemma_prepend_keeps_suffix(seq![c], s, t);
    }
}

/// `ensure_defaults` only puts commands in front: the script's own commands follow, all
/// of them and in their order.
pub proof fn lemma_defaults_keep_script(cmds: Seq<CommandView>)
    ensures
        ends_with(with_defaults(cmds), cmds),
{
    let c1 = with_default(cmds, NamespacedModule::AuthToken, CommandView::AuthToken(default_namespace()));
    let c2 = seq![CommandView::AuthToken(internal_namespace())] + c1;
    let c3 = with_default(c2, NamespacedModule::Msgs, CommandView::Msgs(default_namespace(), Retention::spec_default()));
    let c4 = with_default(c3, NamespacedModule::RateLimit, CommandView::RateLimit(default_namespace()));
    let c5 = with_default(c4, NamespacedModule::Idempotency, CommandView::Idempotency(default_namespace()));
    let c6 = with_default(c5, NamespacedModule::Cache, CommandView::Cache(default_namespace(), EvictionPolicy::NoEviction));
    assert(cmds.subrange(0, cmds.len() as int) =~= cmds);
    lemma_with_default_keeps_suffix(cmds, NamespacedModule::AuthToken, CommandView::AuthToken(default_namespace()), cmds);
    lemma_prepend_keeps_suffix(seq![CommandView::AuthToken(internal_namespace())], c1, cmds);
    lemma_with_default_keeps_suffix(c2, NamespacedModule::Msgs, CommandView::Msgs(default_namespace(), Retention::spec_default()), cmds);
    lemma_with_default_keeps_suffix(c3, NamespacedModule::RateLimit, CommandView::RateLimit(default_namespace()), cmds);
    lemma_with_default_keeps_suffix(c4, NamespacedModule::Idempotency, CommandView::Idempotency(default_namespace()), cmds);
    lemma_with_default_keeps_suffix(c5, NamespacedModule::Cache, CommandView::Cache(default_namespace(), EvictionPolicy::NoEviction), cmds);
    lemma_with_default_keeps_suffix(c6, NamespacedModule::Kv, CommandView::Kv(default_namespace()), cmds);
}

/// No command is added in front of the script's own that configures the default
/// namespace of a module that the script already configures.
pub proof fn lemma_defaults_no_duplicate(cmds: Seq<CommandView>, m: NamespacedModule)
    requires
        has_default(cmds, m),
    ensures
        forall|k: int| 0 <= k < with_defaults(cmds).len() - cmds.len() ==> !#[trigger] is_default_of(with_defaults(cmds)[k], m),
{
    reveal_strlit("_internal");
    reveal_strlit("default");
    assert(internal_namespace() != default_namespace()) by {
        assert(internal_namespace().len() != default_namespace().len());
    }
    let c1 = with_default(cmds, NamespacedModule::AuthToken, CommandView::AuthToken(default_namespace()));
    let c2 = seq![CommandView::AuthToken(internal_namespace())] + c1;
    let c3 = with_default(c2, NamespacedModule::Msgs, CommandView::Msgs(default_namespace(), Retention::spec_default()));
    let c4 = with_default(c3, NamespacedModule::RateLimit, CommandView::RateLimit(default_namespace()));
    let c5 = with_default(c4, NamespacedModule::Idempotency, CommandView::Idempotency(default_namespace()));
    let c6 = with_default(c5, NamespacedModule::Cache, CommandView::Cache(default_namespace(), EvictionPolicy::NoEviction));
    let r = with_defaults(cmds);
    lemma_with_default_step(cmds, NamespacedModule::AuthToken, CommandView::AuthToken(default_namespace()), m);
    lemma_prefix_keeps_default(seq![CommandView::AuthToken(internal_namespace())], c1, m);
    lemma_with_default_step(c2, NamespacedModule::Msgs, CommandView::Msgs(default_namespace(), Retention::spec_default()), m);
    lemma_with_default_step(c3, NamespacedModule::RateLimit, CommandView::RateLimit(default_namespace()), m);
    lemma_with_default_step(c4, NamespacedModule::Idempotency, CommandView::Idempotency(default_namespace()), m);
    lemma_with_default_step(c5, NamespacedModule::Cache, CommandView::Cache(default_namespace(), EvictionPolicy::NoEviction), m);
    lemma_with_default_step(c6, NamespacedModule::Kv, CommandView::Kv(default_namespace()), m);
    // every step that could add a command of module `m` adds none, as `m` is configured
    // at each step; the commands added by the other steps belong to other modules
    lemma_no_dup_step(cmds, cmds, NamespacedModule::AuthToken, CommandView::AuthToken(default_namespace()), m);
    assert(forall|k: int| 0 <= k < c2.len() - cmds.len() ==> !#[trigger] is_default_of(c2[k], m)) by {
        assert forall|k: int| 0 <= k < c2.len() - cmds.len() implies !#[trigger] is_default_of(c2[k], m) by {
            if k > 0 {
                assert(c2[k] == c1[k - 1]);
            }
        }
    }
    lemma_no_dup_step(cmds, c2, NamespacedModule::Msgs, CommandView::Msgs(default_namespace(), Retention::spec_default()), m);
    lemma_no_dup_step(cmds, c3, NamespacedModule::RateLimit, CommandView::RateLimit(default_namespace()), m);
    lemma_no_dup_step(cmds, c4, NamespacedModule::Idempotency, CommandView::Idempotency(default_namespace()), m);
    lemma_no_dup_step(cmds, c5, NamespacedModule::Cache, CommandView::Cache(default_namespace(), EvictionPolicy::NoEviction), m);
    lemma_no_dup_step(cmds, c6, NamespacedModule::Kv, CommandView::Kv(default_namespace()), m);
}

proof fn lemma_no_dup_step(
    cmds: Seq<CommandView>,
    s: Seq<CommandView>,
    step: NamespacedModule,
    c: CommandView,
    m: NamespacedModule,
)
    requires
        has_default(s, m),
        module_of(c) == Some(step),
        s.len() >= cmds.len(),
        s == cmds || forall|k: int| 0 <= k < s.len() - cmds.len() ==> !#[trigger] is_default_of(s[k], m),
    ensures
        with_default(s, step, c).len() >= cmds.len(),
        forall|k: int| 0 <= k < with_default(s, step, c).len() - cmds.len() ==> !#[trigger] is_default_of(with_default(s, step, c)[k], m),
{
    let r = with_default(s, step, c);
    if has_default(s, step) {
        assert(r == s);
    } else {
        assert(step != m);
        assert forall|k: int| 0 <= k < r.len() - cmds.len() implies !#[trigger] is_default_of(r[k], m) by {
            if k > 0 {
                assert(r[k] == s[k - 1]);
            }
        }
    }
}

} // verus!
