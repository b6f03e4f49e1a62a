//! Bootstrap scripts: newline-delimited commands that configure namespaces and access
//! control when a cluster first starts. Each command is `<module> <resource> <action> <json>`,
//! where the JSON payload may continue over the following lines.
pub mod payload;
pub mod defaults;
pub mod script;

use vstd::prelude::*;
use vstd::string::*;

use crate::text::{decimal, u64_to_decimal, find_first_ws, leading_ws_len, split_once_ws, sub_chars, trim, trim_chars, trim_start};
use self::payload::{
    context_of, decode_context, decode_eviction_policy, decode_optional_string_list, decode_required_string,
    decode_retention, decode_rules, eviction_policy_of, object_members, optional_string_list, parse_object,
    required_string, retention_of, rules_of, AdminAccessPolicyConfigureIn, AdminRoleConfigureIn,
    AuthTokenConfigureNamespaceIn, CacheConfigureNamespaceIn, EvictionPolicy, IdempotencyConfigureNamespaceIn,
    KvConfigureNamespaceIn, MsgNamespaceConfigureIn, NamespaceName, PolicyView, RateLimitConfigureNamespaceIn,
    Retention, RoleView,
};

verus! {

/// A parsed bootstrap command.
#[derive(Debug)]
pub enum BootstrapCommand {
    Kv(KvConfigureNamespaceIn),
    Cache(CacheConfigureNamespaceIn),
    Idempotency(IdempotencyConfigureNamespaceIn),
    RateLimit(RateLimitConfigureNamespaceIn),
    Msgs(MsgNamespaceConfigureIn),
    AuthToken(AuthTokenConfigureNamespaceIn),
    AdminAuthPolicy(AdminAccessPolicyConfigureIn),
    AdminAuthRole(AdminRoleConfigureIn),
}

pub enum CommandView {
    Kv(Seq<char>),
    Cache(Seq<char>, EvictionPolicy),
    Idempotency(Seq<char>),
    RateLimit(Seq<char>),
    Msgs(Seq<char>, Retention),
    AuthToken(Seq<char>),
    AdminAuthPolicy(PolicyView),
    AdminAuthRole(RoleView),
}

impl View for BootstrapCommand {
    type V = CommandView;

    open spec fn view(&self) -> CommandView {
        match self {
            BootstrapCommand::Kv(v) => CommandView::Kv(v.name.0@),
            BootstrapCommand::Cache(v) => CommandView::Cache(v.name.0@, v.eviction_policy),
            BootstrapCommand::Idempotency(v) => CommandView::Idempotency(v.name.0@),
            BootstrapCommand::RateLimit(v) => CommandView::RateLimit(v.name.0@),
            BootstrapCommand::Msgs(v) => CommandView::Msgs(v.name.0@, v.retention),
            BootstrapCommand::AuthToken(v) => CommandView::AuthToken(v.name.0@),
            BootstrapCommand::AdminAuthPolicy(v) => CommandView::AdminAuthPolicy(v@),
            BootstrapCommand::AdminAuthRole(v) => CommandView::AdminAuthRole(v@),
        }
    }
}

/// The commands that a script line may name.
#[derive(Clone, Copy, Debug, PartialEq, Eq, Structural)]
pub enum CommandKind {
    Kv,
    Cache,
    Idempotency,
    RateLimit,
    Msgs,
    AdminAuthPolicy,
    AdminAuthRole,
}

/// Why a bootstrap command or script was refused.
#[derive(Clone, Copy, Debug, PartialEq, Eq, Structural)]
pub enum BootstrapErrorKind {
    /// The line is not `<module> <resource> <action> <json>`.
    MalformedHeader,
    /// No command has this module, resource and action.
    UnknownCommand,
    /// The JSON payload does not describe the command's input.
    InvalidPayload,
    /// The text after the action holds no JSON value.
    ExpectedJson,
    /// The JSON value is malformed.
    InvalidJson,
    /// The script ends inside the JSON value.
    UnterminatedJson,
}

/// A refusal, with the 1-based script line it concerns where there is one.
#[derive(Clone, Copy, Debug, PartialEq, Eq, Structural)]
pub struct BootstrapError {
    pub kind: BootstrapErrorKind,
    pub line: Option<usize>,
}

/// Which command a module, resource and action name.
pub open spec fn command_kind(module: Seq<char>, resource: Seq<char>, action: Seq<char>) -> Option<CommandKind> {
    if action != "configure"@ {
        None
    } else if resource == "namespace"@ {
        if module == "kv"@ {
            Some(CommandKind::Kv)
        } else if module == "cache"@ {
            Some(CommandKind::Cache)
        } else if module == "idempotency"@ {
            Some(CommandKind::Idempotency)
        } else if module == "rate-limit"@ {
            Some(CommandKind::RateLimit)
        } else if module == "msgs"@ {
            Some(CommandKind::Msgs)
        } else {
            None
        }
    } else if module == "admin"@ && resource == "auth-policy"@ {
        Some(CommandKind::AdminAuthPolicy)
    } else if module == "admin"@ && resource == "auth-role"@ {
        Some(CommandKind::AdminAuthRole)
    } else {
        None
    }
}

/// The command of the given kind that a JSON payload describes.
pub open spec fn decode_payload(kind: CommandKind, json: Seq<char>) -> Option<CommandView> {
    match object_members(json) {
        None => None,
        Some(m) => match kind {
            CommandKind::Kv => match required_string(m, "name"@) {
                Some(n) => Some(CommandView::Kv(n)),
                None => None,
            },
            CommandKind::Cache => match (required_string(m, "name"@), eviction_policy_of(m)) {
                (Some(n), Some(p)) => Some(CommandView::Cache(n, p)),
                _ => None,
            },
            CommandKind::Idempotency => match required_string(m, "name"@) {
                Some(n) => Some(CommandView::Idempotency(n)),
                None => None,
            },
            CommandKind::RateLimit => match required_string(m, "name"@) {
                Some(n) => Some(CommandView::RateLimit(n)),
                None => None,
            },
            CommandKind::Msgs => match (required_string(m, "name"@), retention_of(m)) {
                (Some(n), Some(r)) => Some(CommandView::Msgs(n, r)),
                _ => None,
            },
            CommandKind::AdminAuthPolicy => match (
                required_string(m, "id"@),
                required_string(m, "description"@),
                rules_of(m),
            ) {
                (Some(id), Some(description), Some(rules)) => Some(
                    CommandView::AdminAuthPolicy(PolicyView { id, description, rules }),
                ),
                _ => None,
            },
            CommandKind::AdminAuthRole => match (
                required_string(m, "id"@),
                required_string(m, "description"@),
                rules_of(m),
                optional_string_list(m, "policies"@),
                context_of(m),
            ) {
                (Some(id), Some(description), Some(rules), Some(policies), Some(context)) => Some(
                    CommandView::AdminAuthRole(RoleView { id, description, rules, policies, context }),
                ),
                _ => None,
            },
        },
    }
}

/// The command that a module, resource, action and JSON payload make.
pub open spec fn command_from_parts(
    module: Seq<char>,
    resource: Seq<char>,
    action: Seq<char>,
    json: Seq<char>,
) -> Result<CommandView, BootstrapErrorKind> {
    match command_kind(module, resource, action) {
        None => Err(BootstrapErrorKind::UnknownCommand),
        Some(kind) => match decode_payload(kind, json) {
            Some(c) => Ok(c),
            None => Err(BootstrapErrorKind::InvalidPayload),
        },
    }
}

/// `<module> <resource> <action> <json>`: three words, each ended by one whitespace
/// character, with whitespace before a word skipped; the rest is the JSON text.
pub open spec fn split_header_spec(line: Seq<char>) -> Option<(Seq<char>, Seq<char>, Seq<char>, Seq<char>)> {
    match split_once_ws(line) {
        None => None,
        Some((module, rest)) => match split_once_ws(trim_start(rest)) {
            None => None,
            Some((resource, rest)) => match split_once_ws(trim_start(rest)) {
                None => None,
                Some((action, json)) => Some((module, resource, action, json)),
            },
        },
    }
}

/// What one line of a script makes, read on its own.
pub open spec fn command_from_line(line: Seq<char>) -> Result<CommandView, BootstrapErrorKind> {
    match split_header_spec(line) {
        None => Err(BootstrapErrorKind::MalformedHeader),
        Some((m, r, a, j)) => command_from_parts(m, r, a, trim(j)),
    }
}

/// The module, resource and action triples that name a command: `configure` of a
/// `namespace` of kv, cache, idempotency, rate-limit or msgs, or of an admin `auth-policy`
/// or `auth-role`.
pub open spec fn accepted_triple(module: Seq<char>, resource: Seq<char>, action: Seq<char>) -> bool {
    &&& action == "configure"@
    &&& ((resource == "namespace"@ && (module == "kv"@ || module == "cache"@ || module == "idempotency"@
        || module == "rate-limit"@ || module == "msgs"@)) || (module == "admin"@ && (resource == "auth-policy"@
        || resource == "auth-role"@)))
}

/// A line reads as a command exactly when it has the `<module> <resource> <action> <json>`
/// shape, the triple is one that names a command, and the trimmed JSON is a payload of that
/// command; any other line is refused.
pub proof fn lemma_line_accepted(line: Seq<char>)
    ensures
        command_from_line(line) is Ok <==> (split_header_spec(line) matches Some((m, r, a, j)) && accepted_triple(m, r, a)
            && decode_payload(command_kind(m, r, a)->0, trim(j)) is Some),
{
    match split_header_spec(line) {
        None => {},
        Some((m, r, a, j)) => {
            lemma_kind_iff_accepted(m, r, a);
        },
    }
}

/// `command_kind` names a command exactly on the accepted triples.
proof fn lemma_kind_iff_accepted(module: Seq<char>, resource: Seq<char>, action: Seq<char>)
    ensures
        command_kind(module, resource, action) is Some <==> accepted_triple(module, resource, action),
{
    reveal_strlit("namespace");
    reveal_strlit("auth-policy");
    reveal_strlit("auth-role");
    assert("namespace"@ != "auth-policy"@) by {
        assert("namespace"@.len() != "auth-policy"@.len());
    }
    assert("namespace"@ != "auth-role"@) by {
        assert("namespace"@[0] != "auth-role"@[0]);
    }
}

fn lit(s: &str) -> (r: String)
    ensures
        r@ == s@,
{
    String::from_str(s)
}

/// Splits off the first word of `s`, at its first whitespace character.
fn split_word(s: &[char]) -> (r: Option<(Vec<char>, Vec<char>)>)
    ensures
        r matches Some((a, b)) ==> split_once_ws(s@) == Some((a@, b@)),
        r is None ==> split_once_ws(s@) is None,
{
    match find_first_ws(s) {
        None => None,
        Some(i) => {
            assert(crate::text::is_first_ws(s@, i as int));
            assert(i < s.len());
            Some((sub_chars(s, 0, i), sub_chars(s, i + 1, s.len())))
        },
    }
}

fn skip_ws(s: &[char]) -> (v: Vec<char>)
    ensures
        v@ == trim_start(s@),
{
    let k = leading_ws_len(s);
    sub_chars(s, k, s.len())
}

impl BootstrapCommand {
    /// The kind of command named by a module, resource and action.
    pub fn kind_of(module: &str, resource: &str, action: &str) -> (r: Option<CommandKind>)
        ensures
            r == command_kind(module@, resource@, action@),
    {
        let module = lit(module);
        let resource = lit(resource);
        let action = lit(action);
        if action != lit("configure") {
            None
        } else if resource == lit("namespace") {
            if module == lit("kv") {
                Some(CommandKind::Kv)
            } else if module == lit("cache") {
                Some(CommandKind::Cache)
            } else if module == lit("idempotency") {
                Some(CommandKind::Idempotency)
            } else if module == lit("rate-limit") {
                Some(CommandKind::RateLimit)
            } else if module == lit("msgs") {
                Some(CommandKind::Msgs)
            } else {
                None
            }
        } else if module == lit("admin") && resource == lit("auth-policy") {
            Some(CommandKind::AdminAuthPolicy)
        } else if module == lit("admin") && resource == lit("auth-role") {
            Some(CommandKind::AdminAuthRole)
        } else {
            None
        }
    }

    /// Reads the JSON payload of a command of the given kind.
    pub fn decode(kind: CommandKind, json: &str) -> (r: Option<BootstrapCommand>)
        ensures
            r matches Some(c) ==> decode_payload(kind, json@) == Some(c@),
            r is None ==> decode_payload(kind, json@) is None,
    {
        let m = match parse_object(json) {
            Some(m) => m,
            None => return None,
        };
        match kind {
            CommandKind::Kv => match decode_required_string(&m, "name") {
                Some(n) => Some(BootstrapCommand::Kv(KvConfigureNamespaceIn { name: NamespaceName(n) })),
                None => None,
            },
            CommandKind::Cache => match (decode_required_string(&m, "name"), decode_eviction_policy(&m)) {
                (Some(n), Some(p)) => Some(
                    BootstrapCommand::Cache(CacheConfigureNamespaceIn { name: NamespaceName(n), eviction_policy: p }),
                ),
                _ => None,
            },
            CommandKind::Idempotency => match decode_required_string(&m, "name") {
                Some(n) => Some(
                    BootstrapCommand::Idempotency(IdempotencyConfigureNamespaceIn { name: NamespaceName(n) }),
                ),
                None => None,
            },
            CommandKind::RateLimit => match decode_required_string(&m, "name") {
                Some(n) => Some(
                    BootstrapCommand::RateLimit(RateLimitConfigureNamespaceIn { name: NamespaceName(n) }),
                ),
                None => None,
            },
            CommandKind::Msgs => match (decode_required_string(&m, "name"), decode_retention(&m)) {
                (Some(n), Some(r)) => Some(
                    BootstrapCommand::Msgs(MsgNamespaceConfigureIn { name: NamespaceName(n), retention: r }),
                ),
                _ => None,
            },
            CommandKind::AdminAuthPolicy => match (
                decode_required_string(&m, "id"),
                decode_required_string(&m, "description"),
                decode_rules(&m),
            ) {
                (Some(id), Some(description), Some(rules)) => Some(
                    BootstrapCommand::AdminAuthPolicy(AdminAccessPolicyConfigureIn { id, description, rules }),
                ),
                _ => None,
            },
            CommandKind::AdminAuthRole => match (
                decode_required_string(&m, "id"),
                decode_required_string(&m, "description"),
                decode_rules(&m),
                decode_optional_string_list(&m, "policies"),
                decode_context(&m),
            ) {
                (Some(id), Some(description), Some(rules), Some(policies), Some(context)) => Some(
                    BootstrapCommand::AdminAuthRole(
                        AdminRoleConfigureIn { id, description, rules, policies, context },
                    ),
                ),
                _ => None,
            },
        }
    }

    /// The command named by module, resource and action, with its JSON payload.
    pub fn from_parts(module: &str, resource: &str, action: &str, json: &str) -> (r: Result<BootstrapCommand, BootstrapErrorKind>)
        ensures
            r matches Ok(c) ==> command_from_parts(module@, resource@, action@, json@) == Ok::<CommandView, BootstrapErrorKind>(c@),
            r matches Err(e) ==> command_from_parts(module@, resource@, action@, json@) == Err::<CommandView, BootstrapErrorKind>(e),
    {
        match Self::kind_of(module, resource, action) {
            None => Err(BootstrapErrorKind::UnknownCommand),
            Some(kind) => match Self::decode(kind, json) {
                Some(c) => Ok(c),
                None => Err(BootstrapErrorKind::InvalidPayload),
            },
        }
    }

    /// Splits a line into module, resource, action and the JSON text that follows.
    pub fn split_header(line: &[char]) -> (r: Option<(Vec<char>, Vec<char>, Vec<char>, Vec<char>)>)
        ensures
            r matches Some((m, res, a, j)) ==> split_header_spec(line@) == Some((m@, res@, a@, j@)),
            r is None ==> split_header_spec(line@) is None,
    {
        let (module, rest) = match split_word(line) {
            Some(p) => p,
            None => return None,
        };
        let rest = skip_ws(&rest);
        let (resource, rest) = match split_word(&rest) {
            Some(p) => p,
            None => return None,
        };
        let rest = skip_ws(&rest);
        let (action, json) = match split_word(&rest) {
            Some(p) => p,
            None => return None,
        };
        Some((module, resource, action, json))
    }

    /// Parses one script line on its own, as `str::parse` does.
    pub fn parse_line(line: &str) -> (r: Result<BootstrapCommand, BootstrapErrorKind>)
        ensures
            r matches Ok(c) ==> command_from_line(line@) == Ok::<CommandView, BootstrapErrorKind>(c@),
            r matches Err(e) ==> command_from_line(line@) == Err::<CommandView, BootstrapErrorKind>(e),
    {
        let chars = crate::text::chars_of(line);
        match Self::split_header(&chars) {
            None => Err(BootstrapErrorKind::MalformedHeader),
            Some((m, res, a, j)) => {
                let json = trim_chars(&j);
                let m = crate::text::string_of(&m);
                let res = crate::text::string_of(&res);
                let a = crate::text::string_of(&a);
                let json = crate::text::string_of(&json);
                Self::from_parts(m.as_str(), res.as_str(), a.as_str(), json.as_str())
            },
        }
    }
}


pub open spec fn kind_text(kind: BootstrapErrorKind) -> Seq<char> {
    match kind {
        BootstrapErrorKind::MalformedHeader => "expected '<module> <resource> <action> <json>'"@,
        BootstrapErrorKind::UnknownCommand => "unknown command"@,
        BootstrapErrorKind::InvalidPayload => "invalid JSON payload for command"@,
        BootstrapErrorKind::ExpectedJson => "expected JSON"@,
        BootstrapErrorKind::InvalidJson => "invalid JSON"@,
        BootstrapErrorKind::UnterminatedJson => "unterminated JSON"@,
    }
}

/// The text of an error: what went wrong, then the line where there is one.
pub open spec fn error_text(e: BootstrapError) -> Seq<char> {
    match e.line {
        Some(line) => kind_text(e.kind) + " on line "@ + decimal(line as nat),
        None => kind_text(e.kind),
    }
}

impl BootstrapErrorKind {
    pub fn text(&self) -> (s: &'static str)
        ensures
            s@ == kind_text(*self),
    {
        match self {
            BootstrapErrorKind::MalformedHeader => "expected '<module> <resource> <action> <json>'",
            BootstrapErrorKind::UnknownCommand => "unknown command",
            BootstrapErrorKind::InvalidPayload => "invalid JSON payload for command",
            BootstrapErrorKind::ExpectedJson => "expected JSON",
            BootstrapErrorKind::InvalidJson => "invalid JSON",
            BootstrapErrorKind::UnterminatedJson => "unterminated JSON",
        }
    }
}

impl BootstrapError {
    /// A readable description of the error.
    pub fn message(&self) -> (s: String)
        ensures
            s@ == error_text(*self),
    {
        let text = lit(self.kind.text());
        match self.line {
            Some(line) => {
                let number = u64_to_decimal(line as u64);
                text.concat(" on line ").concat(number.as_str())
            },
            None => text,
        }
    }
}

impl std::str::FromStr for BootstrapCommand {
    type Err = BootstrapErrorKind;

    fn from_str(line: &str) -> (r: Result<BootstrapCommand, BootstrapErrorKind>)
        ensures
            r matches Ok(c) ==> command_from_line(line@) == Ok::<CommandView, BootstrapErrorKind>(c@),
            r matches Err(e) ==> command_from_line(line@) == Err::<CommandView, BootstrapErrorKind>(e),
    {
        BootstrapCommand::parse_line(line)
    }
}

} // verus!
