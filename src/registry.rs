//! Registry authentication: a table of login methods, the dispatch that
//! turns a login request into the exchange to perform, and the step that
//! turns the exchange's outcome into a session or a typed failure.
use vstd::prelude::*;

verus! {

/// The protocol a login method speaks.
#[derive(Clone, Copy, Debug, PartialEq, Eq, Structural)]
pub enum MethodKind {
    /// A private key resolved from the caller's environment.
    Ssh,
    /// A personal access token given by the caller.
    Pat,
    /// A federated token exchange with an identity provider.
    Federated,
}

/// One registered login method.
pub struct MethodEntry {
    pub name: String,
    pub description: String,
    pub kind: MethodKind,
}

/// The registered methods: name, one-line description and protocol.
/// Adding a provider means adding one entry here.
pub open spec fn registered_methods() -> Seq<(Seq<char>, Seq<char>, MethodKind)> {
    seq![
        ("ssh"@, "SSH Authentication with a Private Key"@, MethodKind::Ssh),
        ("github_oidc"@, "Github OpenID Connect Authentication with a Token"@, MethodKind::Federated),
        ("github"@, "Github Authentication with a Personal Access Token (PAT)"@, MethodKind::Pat),
        ("gitlab"@, "Gitlab OpenID Connect Authentication"@, MethodKind::Federated),
    ]
}

pub open spec fn entry_view(e: MethodEntry) -> (Seq<char>, Seq<char>, MethodKind) {
    (e.name@, e.description@, e.kind)
}

fn entry(name: &str, description: &str, kind: MethodKind) -> (r: MethodEntry)
    ensures
        entry_view(r) == (name@, description@, kind),
{
    MethodEntry { name: String::from_str(name), description: String::from_str(description), kind }
}

/// The registered methods, in table order.
pub fn method_table() -> (r: Vec<MethodEntry>)
    ensures
        r@.len() == registered_methods().len(),
        forall|i: int| 0 <= i < r@.len() ==> entry_view(#[trigger] r@[i]) == registered_methods()[i],
{
    let mut r: Vec<MethodEntry> = Vec::new();
    r.push(entry("ssh", "SSH Authentication with a Private Key", MethodKind::Ssh));
    r.push(
        entry(
            "github_oidc",
            "Github OpenID Connect Authentication with a Token",
            MethodKind::Federated,
        ),
    );
    r.push(
        entry(
            "github",
            "Github Authentication with a Personal Access Token (PAT)",
            MethodKind::Pat,
        ),
    );
    r.push(entry("gitlab", "Gitlab OpenID Connect Authentication", MethodKind::Federated));
    r
}

/// The protocol of the first entry of `t` named `name`.
pub open spec fn lookup(
    t: Seq<(Seq<char>, Seq<char>, MethodKind)>,
    name: Seq<char>,
) -> Option<MethodKind>
    decreases t.len(),
{
    if t.len() == 0 {
        None
    } else if t[0].0 == name {
        Some(t[0].2)
    } else {
        lookup(t.drop_first(), name)
    }
}

pub open spec fn method_kind(name: Seq<char>) -> Option<MethodKind> {
    lookup(registered_methods(), name)
}

/// Whether two strings hold the same characters.
pub fn same_text(a: &str, b: &str) -> (r: bool)
    ensures
        r == (a@ == b@),
{
    let n = a.unicode_len();
    if n != b.unicode_len() {
        return false;
    }
    let mut i: usize = 0;
    while i < n
        invariant
            n == a@.len(),
            n == b@.len(),
            0 <= i <= n,
            forall|j: int| 0 <= j < i ==> a@[j] == b@[j],
        decreases n - i,
    {
        if a.get_char(i) != b.get_char(i) {
            return false;
        }
        i += 1;
    }
    assert(a@ =~= b@);
    true
}

/// The protocol of the registered method called `name`, if there is one.
pub fn find_method(name: &str) -> (r: Option<MethodKind>)
    ensures
        r == method_kind(name@),
{
    let t = method_table();
    let ghost st = registered_methods();
    let n = t.len();
    let mut i: usize = 0;
    assert(st.subrange(0, n as int) =~= st);
    while i < n
        invariant
            n == st.len(),
            t@.len() == n,
            0 <= i <= n,
            st == registered_methods(),
            forall|k: int| 0 <= k < n ==> entry_view(#[trigger] t@[k]) == st[k],
            lookup(st, name@) == lookup(st.subrange(i as int, n as int), name@),
        decreases n - i,
    {
        assert(entry_view(t@[i as int]) == st[i as int]);
        assert(st.subrange(i as int, n as int).drop_first() =~= st.subrange(i + 1, n as int));
        if same_text(t[i].name.as_str(), name) {
            return Some(t[i].kind);
        }
        i += 1;
    }
    None
}

/// An authenticated session with a registry target.
pub struct Session {
    pub method: String,
    pub target: String,
    pub token: String,
}

/// The exchange a login request asks for.
pub enum LoginAction {
    /// Exchange a personal access token for a session bound to `target`.
    ExchangePat { target: String, token: String },
    /// Resolve a private key from the environment and authenticate to `target`.
    ResolveSshKey { target: String },
    /// Run the named provider's federated token exchange for `target`.
    Federate { provider: String, target: String },
}

pub enum AuthError {
    /// No method of this name is registered.
    UnknownMethod(String),
    /// The named method needs a credential and none was given.
    MissingCredential(String),
    /// No private key could be resolved for the named target.
    KeyUnavailable(String),
    /// The exchange with the named provider or target failed: (who, reason).
    ProviderFailure(String, String),
}

/// Dispatches a login request on the method's name: it checks what the
/// method needs and says which exchange to perform. No session exists until
/// `complete_login` accepts the exchange's outcome.
pub fn login(method: &str, target: &str, password: Option<String>) -> (r: Result<
    LoginAction,
    AuthError,
>)
    ensures
        match method_kind(method@) {
            None => r matches Err(AuthError::UnknownMethod(m)) && m@ == method@,
            Some(MethodKind::Pat) => match password {
                None => r matches Err(AuthError::MissingCredential(m)) && m@ == method@,
                Some(p) => r matches Ok(LoginAction::ExchangePat { target: t, token })
                    && t@ == target@ && token == p,
            },
            Some(MethodKind::Ssh) => r matches Ok(LoginAction::ResolveSshKey { target: t })
                && t@ == target@,
            Some(MethodKind::Federated) => r matches Ok(
                LoginAction::Federate { provider, target: t },
            ) && provider@ == method@ && t@ == target@,
        },
{
    match find_method(method) {
        None => Err(AuthError::UnknownMethod(String::from_str(method))),
        Some(MethodKind::Pat) => match password {
            None => Err(AuthError::MissingCredential(String::from_str(method))),
            Some(p) => Ok(LoginAction::ExchangePat { target: String::from_str(target), token: p }),
        },
        Some(MethodKind::Ssh) => Ok(LoginAction::ResolveSshKey { target: String::from_str(target) }),
        Some(MethodKind::Federated) => Ok(
            LoginAction::Federate {
                provider: String::from_str(method),
                target: String::from_str(target),
            },
        ),
    }
}

/// The target a login action is bound to.
pub open spec fn action_target(a: LoginAction) -> Seq<char> {
    match a {
        LoginAction::ExchangePat { target, .. } => target@,
        LoginAction::ResolveSshKey { target } => target@,
        LoginAction::Federate { target, .. } => target@,
    }
}

/// Turns the outcome of the exchange that `action` asked for into a session
/// (`Ok` with the obtained token) or a typed failure (`Err` with a reason).
pub fn complete_login(action: &LoginAction, outcome: Result<String, String>) -> (r: Result<
    Session,
    AuthError,
>)
    ensures
        match outcome {
            Ok(token) => r matches Ok(s) && s.token == token && s.target@ == action_target(
                *action,
            ) && match *action {
                LoginAction::ExchangePat { .. } => s.method@ == "github"@,
                LoginAction::ResolveSshKey { .. } => s.method@ == "ssh"@,
                LoginAction::Federate { provider, .. } => s.method@ == provider@,
            },
            Err(reason) => match *action {
                LoginAction::ResolveSshKey { target } => r matches Err(
                    AuthError::KeyUnavailable(t),
                ) && t@ == target@,
                LoginAction::ExchangePat { target, .. } => r matches Err(
                    AuthError::ProviderFailure(who, why),
                ) && who@ == target@ && why == reason,
                LoginAction::Federate { provider, .. } => r matches Err(
                    AuthError::ProviderFailure(who, why),
                ) && who@ == provider@ && why == reason,
            },
        },
{
    match action {
        LoginAction::ExchangePat { target, .. } => match outcome {
            Ok(token) => Ok(
                Session { method: String::from_str("github"), target: target.clone(), token },
            ),
            Err(why) => Err(AuthError::ProviderFailure(target.clone(), why)),
        },
        LoginAction::ResolveSshKey { target } => match outcome {
            Ok(token) => Ok(
                Session { method: String::from_str("ssh"), target: target.clone(), token },
            ),
            Err(_) => Err(AuthError::KeyUnavailable(target.clone())),
        },
        LoginAction::Federate { provider, target } => match outcome {
            Ok(token) => Ok(Session { method: provider.clone(), target: target.clone(), token }),
            Err(why) => Err(AuthError::ProviderFailure(provider.clone(), why)),
        },
    }
}


/// The line that presents one method in a listing.
pub open spec fn method_line(name: Seq<char>, description: Seq<char>) -> Seq<char> {
    " - "@ + name + ": "@ + description + "\n"@
}

/// The lines presenting the first `n` entries of `t`.
pub open spec fn method_lines(t: Seq<(Seq<char>, Seq<char>, MethodKind)>, n: nat) -> Seq<char>
    decreases n,
{
    if n == 0 || n > t.len() {
        Seq::empty()
    } else {
        method_lines(t, (n - 1) as nat) + method_line(t[n - 1].0, t[n - 1].1)
    }
}

/// The text of an unknown-method failure: it names the rejected method and
/// lists every registered method with its description.
pub open spec fn unknown_method_text(name: Seq<char>) -> Seq<char> {
    "Authentication method '"@ + name + "' is not valid.\n\nOnly existing methods are:\n"@
        + method_lines(registered_methods(), registered_methods().len())
}

/// Whether `t` occurs in `s`.
pub open spec fn contains(s: Seq<char>, t: Seq<char>) -> bool {
    exists|i: int| 0 <= i && i + t.len() <= s.len() && #[trigger] s.subrange(i, i + t.len()) == t
}

/// The listing of every registered method, one line each.
pub fn method_listing() -> (r: String)
    ensures
        r@ == method_lines(registered_methods(), registered_methods().len()),
{
    let t = method_table();
    let ghost st = registered_methods();
    let n = t.len();
    let mut r = String::new();
    let mut i: usize = 0;
    while i < n
        invariant
            n == st.len(),
            t@.len() == n,
            0 <= i <= n,
            st == registered_methods(),
            forall|k: int| 0 <= k < n ==> entry_view(#[trigger] t@[k]) == st[k],
            r@ == method_lines(st, i as nat),
        decreases n - i,
    {
        assert(entry_view(t@[i as int]) == st[i as int]);
        r.append(" - ");
        r.append(t[i].name.as_str());
        r.append(": ");
        r.append(t[i].description.as_str());
        r.append("\n");
        i += 1;
    }
    r
}

/// The text that describes a login failure: it names the method, target
/// or provider, and for an unknown method lists every registered method.
pub open spec fn auth_message(e: AuthError) -> Seq<char> {
    match e {
        AuthError::UnknownMethod(m) => unknown_method_text(m@),
        AuthError::MissingCredential(m) => "a credential is required by authentication method: "@
            + m@,
        AuthError::KeyUnavailable(t) => "no private key could be resolved for: "@ + t@,
        AuthError::ProviderFailure(who, why) => "authentication with "@ + who@ + " failed: "@
            + why@,
    }
}

impl AuthError {
    /// A human-readable description of the failure.
    pub fn message(&self) -> (r: String)
        ensures
            r@ == auth_message(*self),
    {
        match self {
            AuthError::UnknownMethod(m) => {
                let mut r = String::from_str("Authentication method '");
                r.append(m.as_str());
                r.append("' is not valid.\n\nOnly existing methods are:\n");
                let listing = method_listing();
                r.append(listing.as_str());
                r
            },
            AuthError::MissingCredential(m) => String::from_str(
                "a credential is required by authentication method: ",
            ).concat(m.as_str()),
            AuthError::KeyUnavailable(t) => String::from_str(
                "no private key could be resolved for: ",
            ).concat(t.as_str()),
            AuthError::ProviderFailure(who, why) => {
                let mut r = String::from_str("authentication with ");
                r.append(who.as_str());
                r.append(" failed: ");
                r.append(why.as_str());
                r
            },
        }
    }
}

proof fn lemma_contains_in_left(a: Seq<char>, b: Seq<char>, t: Seq<char>)
    requires
        contains(a, t),
    ensures
        contains(a + b, t),
{
    let i = choose|i: int| 0 <= i && i + t.len() <= a.len() && #[trigger] a.subrange(i, i + t.len()) == t;
    assert((a + b).subrange(i, i + t.len()) =~= a.subrange(i, i + t.len()));
}

proof fn lemma_contains_in_right(a: Seq<char>, b: Seq<char>, t: Seq<char>)
    requires
        contains(b, t),
    ensures
        contains(a + b, t),
{
    let i = choose|i: int| 0 <= i && i + t.len() <= b.len() && #[trigger] b.subrange(i, i + t.len()) == t;
    assert((a + b).subrange(a.len() + i, a.len() + i + t.len()) =~= b.subrange(i, i + t.len()));
}

proof fn lemma_contains_self(t: Seq<char>)
    ensures
        contains(t, t),
{
    let z: int = 0;
    assert(t.subrange(z, z + t.len()) =~= t);
}

proof fn lemma_lines_contain_names(t: Seq<(Seq<char>, Seq<char>, MethodKind)>, n: nat, k: int)
    requires
        n <= t.len(),
        0 <= k < n,
    ensures
        contains(method_lines(t, n), t[k].0),
    decreases n,
{
    let prev = method_lines(t, (n - 1) as nat);
    let (name, description) = (t[n - 1].0, t[n - 1].1);
    if k == n - 1 {
        lemma_contains_self(name);
        lemma_contains_in_right(" - "@, name, name);
        lemma_contains_in_left(" - "@ + name, ": "@, name);
        lemma_contains_in_left(" - "@ + name + ": "@, description, name);
        lemma_contains_in_left(" - "@ + name + ": "@ + description, "\n"@, name);
        lemma_contains_in_right(prev, method_line(name, description), name);
    } else {
        lemma_lines_contain_names(t, (n - 1) as nat, k);
        lemma_contains_in_left(prev, method_line(name, description), t[k].0);
    }
}

/// The text of an unknown-method failure names every registered method.
pub proof fn lemma_unknown_method_lists_all(name: Seq<char>)
    ensures
        forall|k: int|
            0 <= k < registered_methods().len() ==> contains(
                #[trigger] unknown_method_text(name),
                registered_methods()[k].0,
            ),
{
    let t = registered_methods();
    let head = "Authentication method '"@ + name + "' is not valid.\n\nOnly existing methods are:\n"@;
    assert forall|k: int| 0 <= k < t.len() implies contains(
        #[trigger] unknown_method_text(name),
        t[k].0,
    ) by {
        lemma_lines_contain_names(t, t.len(), k);
        lemma_contains_in_right(head, method_lines(t, t.len()), t[k].0);
    }
}

/// A name that no registered method carries is rejected as unknown by
/// `login`, and the failure's text lists every registered method name.
pub proof fn lemma_unknown_method(name: Seq<char>)
    requires
        forall|k: int| 0 <= k < registered_methods().len() ==> registered_methods()[k].0 != name,
    ensures
        method_kind(name) is None,
        forall|k: int|
            0 <= k < registered_methods().len() ==> contains(
                #[trigger] unknown_method_text(name),
                registered_methods()[k].0,
            ),
{
    let t = registered_methods();
    let t1 = t.drop_first();
    let t2 = t1.drop_first();
    let t3 = t2.drop_first();
    let t4 = t3.drop_first();
    assert(t[0].0 != name);
    assert(t1[0] == t[1] && t2[0] == t[2] && t3[0] == t[3]);
    assert(t1[0].0 != name && t2[0].0 != name && t3[0].0 != name);
    assert(t4.len() == 0);
    assert(lookup(t4, name) is None);
    assert(lookup(t3, name) is None);
    assert(lookup(t2, name) is None);
    assert(lookup(t1, name) is None);
    lemma_unknown_method_lists_all(name);
}

/// The `github` method takes a personal access token, so `login` with it
/// and no credential fails with `MissingCredential`.
pub proof fn lemma_github_needs_credential()
    ensures
        method_kind("github"@) == Some(MethodKind::Pat),
{
    reveal_strlit("ssh");
    reveal_strlit("github_oidc");
    reveal_strlit("github");
    let t = registered_methods();
    let t1 = t.drop_first();
    let t2 = t1.drop_first();
    assert(t[0].0 == "ssh"@);
    assert(t[1].0 == "github_oidc"@);
    assert(t[2].0 == "github"@);
    assert("ssh"@.len() == 3 && "github"@.len() == 6 && "github_oidc"@.len() == 11);
    assert(t[0].0 != "github"@);
    assert(t[1].0 != "github"@);
    assert(t1[0] == t[1] && t2[0] == t[2]);
    assert(lookup(t2, "github"@) == Some(MethodKind::Pat));
    assert(lookup(t1, "github"@) == Some(MethodKind::Pat));
}

} // verus!
