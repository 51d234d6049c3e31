//! Session-scoped run state: the settings handed in by the configuration
//! collaborator, the backend-selection rule, the run-wide cache of the
//! privilege-escalation secret, and the ledger of packages found missing.

use vstd::prelude::*;
use vstd::string::StringExecFns;

use crate::text::str_eq;

verus! {

/// The settings a diagnostic run works from; immutable for its duration.
pub struct DiagnosticSettings {
    pub target_host: Option<String>,
    pub target_port: Option<u16>,
    pub username: Option<String>,
    pub target_interface: String,
    pub skip_confirmation: bool,
}

/// The execution context the stages' commands run through.
#[derive(Debug, Clone, Copy, PartialEq, Eq, Structural)]
pub enum Backend {
    /// Spawn OS processes on this machine.
    Local,
    /// Run commands inside an authenticated secure-shell session.
    Remote,
}

/// A loopback host name or address.
pub open spec fn is_loopback(host: Seq<char>) -> bool {
    host == "localhost"@ || host == "127.0.0.1"@
}

pub open spec fn opt_host_view(host: &Option<String>) -> Option<Seq<char>> {
    match host {
        Some(h) => Some(h@),
        None => None,
    }
}

/// The backend-selection rule: remote exactly when a host is configured
/// and it is neither empty nor a loopback name or address.
pub open spec fn backend_of(host: Option<Seq<char>>) -> Backend {
    match host {
        Some(h) => if h.len() == 0 || is_loopback(h) {
            Backend::Local
        } else {
            Backend::Remote
        },
        None => Backend::Local,
    }
}

/// Select the execution backend from the configured host.
pub fn select_backend(settings: &DiagnosticSettings) -> (r: Backend)
    ensures
        r == backend_of(opt_host_view(&settings.target_host)),
{
    match &settings.target_host {
        None => Backend::Local,
        Some(h) => {
            if h.as_str().is_empty() || str_eq(h.as_str(), "localhost") || str_eq(
                h.as_str(),
                "127.0.0.1",
            ) {
                Backend::Local
            } else {
                Backend::Remote
            }
        },
    }
}

/// The port a remote session connects to: the configured one, or 22.
pub fn effective_port(settings: &DiagnosticSettings) -> (r: u16)
    ensures
        r == match settings.target_port {
            Some(p) => p,
            None => 22u16,
        },
{
    match settings.target_port {
        Some(p) => p,
        None => 22,
    }
}

/// The run-wide cache of the privilege-escalation secret.  It is filled
/// at most once per run — `store` demands an empty cache — and once
/// filled it hands every later privileged command the same secret back.
pub struct SecretCache {
    secret: Option<String>,
}

impl SecretCache {
    /// A secret has been resolved and cached.
    pub closed spec fn is_cached(&self) -> bool {
        self.secret is Some
    }

    /// The cached secret.
    pub closed spec fn stored_secret(&self) -> Seq<char> {
        self.secret->Some_0@
    }

    /// The resolution prompt must fire before the next privileged
    /// command exactly when nothing is cached yet.
    pub open spec fn must_prompt(&self) -> bool {
        !self.is_cached()
    }

    pub fn new() -> (r: Self)
        ensures
            !r.is_cached(),
    {
        SecretCache { secret: None }
    }

    /// Whether the secret still has to be prompted for.
    pub fn needs_prompt(&self) -> (r: bool)
        ensures
            r == self.must_prompt(),
    {
        match &self.secret {
            Some(_) => false,
            None => true,
        }
    }

    /// Resolve the secret for one privileged command.  The caller prompts
    /// exactly when the cache says so and hands the prompted text in;
    /// thereafter the cache is filled, so in any one run the prompt fires
    /// at most once and every command sees the same secret.
    pub fn resolve(&mut self, prompted: Option<String>) -> (r: &String)
        requires
            prompted is Some <==> old(self).must_prompt(),
        ensures
            final(self).is_cached(),
            r@ == final(self).stored_secret(),
            old(self).is_cached() ==> final(self).stored_secret() == old(self).stored_secret(),
            !old(self).is_cached() ==> final(self).stored_secret() == prompted->Some_0@,
    {
        if let Some(p) = prompted {
            self.secret = Some(p);
        }
        match &self.secret {
            Some(s) => s,
            None => {
                proof {
                    assert(false);
                }
                unreached()
            },
        }
    }
}

/// A remote command needing elevated privilege, with the cached secret
/// piped into the escalation prefix on its standard input — the secret is
/// echoed into the pipeline, never passed as a command-line argument of
/// the privileged program itself.
pub open spec fn piped_secret_of(secret: Seq<char>, command: Seq<char>) -> Seq<char> {
    "echo "@ + secret + " | "@ + command
}

/// Build a privileged remote command line with the secret piped in.
pub fn privileged_command(secret: &str, command: &str) -> (r: String)
    ensures
        r@ == piped_secret_of(secret@, command@),
{
    String::from_str("echo ").concat(secret).concat(" | ").concat(command)
}

/// One secret resolution, as `SecretCache::resolve` contracts it: the
/// caller prompts exactly when the cache is empty, and afterwards the
/// cache holds the secret that every later privileged command reuses.
pub open spec fn resolve_step(
    pre: SecretCache,
    prompted: Option<Seq<char>>,
    post: SecretCache,
) -> bool {
    &&& (prompted is Some <==> !pre.is_cached())
    &&& post.is_cached()
    &&& (pre.is_cached() ==> post.stored_secret() == pre.stored_secret())
    &&& (!pre.is_cached() ==> post.stored_secret() == prompted->Some_0)
}

/// How many of the resolutions prompted.
pub open spec fn prompt_count(prompts: Seq<Option<Seq<char>>>) -> int
    decreases prompts.len(),
{
    if prompts.len() == 0 {
        0
    } else {
        prompt_count(prompts.drop_last()) + if prompts.last() is Some {
            1int
        } else {
            0int
        }
    }
}

/// Credential reuse: across any run — any chain of secret resolutions,
/// one per privileged command — the resolution prompt fires at most
/// once, and never at all when a secret was already cached at the start.
pub proof fn lemma_prompt_at_most_once(caches: Seq<SecretCache>, prompts: Seq<Option<Seq<char>>>)
    requires
        caches.len() == prompts.len() + 1,
        forall|i: int|
            0 <= i < prompts.len() ==> resolve_step(caches[i], prompts[i], caches[i + 1]),
    ensures
        prompt_count(prompts) <= 1,
        caches[0].is_cached() ==> prompt_count(prompts) == 0,
    decreases prompts.len(),
{
    if prompts.len() > 0 {
        let shorter = prompts.drop_last();
        assert(resolve_step(
            caches[prompts.len() - 1],
            prompts.last(),
            caches[prompts.len() as int],
        ));
        if prompts.len() > 1 {
            // the last resolution's starting cache came out of the one
            // before it, so it is filled and the last prompt is `None`
            assert(resolve_step(
                caches[prompts.len() - 2],
                prompts[prompts.len() - 2],
                caches[prompts.len() - 1],
            ));
            assert(caches[prompts.len() - 1].is_cached());
            assert(prompts.last() is None);
        }
        assert forall|i: int|
            0 <= i < shorter.len() implies resolve_step(
            caches.drop_last()[i],
            shorter[i],
            caches.drop_last()[i + 1],
        ) by {
            assert(resolve_step(caches[i], prompts[i], caches[i + 1]));
        }
        lemma_prompt_at_most_once(caches.drop_last(), shorter);
    }
}

/// The run-scoped, append-only record of packages the audit stage found
/// missing; later stages consult it to decide whether they can run.
pub struct MissingPackageLedger {
    missing: Vec<String>,
}

impl MissingPackageLedger {
    /// The package names recorded so far, in recording order.
    pub closed spec fn recorded(&self) -> Seq<Seq<char>> {
        self.missing.deep_view()
    }

    pub fn new() -> (r: Self)
        ensures
            r.recorded() == Seq::<Seq<char>>::empty(),
    {
        let r = MissingPackageLedger { missing: Vec::new() };
        proof {
            assert(r.recorded() =~= Seq::<Seq<char>>::empty());
        }
        r
    }

    /// Record the names found missing.  Append-only: everything already
    /// recorded stays.
    pub fn record(&mut self, packages: &Vec<String>)
        ensures
            final(self).recorded() == old(self).recorded() + packages.deep_view(),
    {
        let n = packages.len();
        let mut i: usize = 0;
        while i < n
            invariant
                i <= n,
                n == packages.len(),
                self.recorded() == old(self).recorded() + packages.deep_view().take(i as int),
            decreases n - i,
        {
            let ghost prev = self.recorded();
            self.missing.push(packages[i].clone());
            proof {
                assert(self.recorded() =~= prev.push(packages.deep_view()[i as int]));
                assert(packages.deep_view()[i as int] == packages@[i as int]@);
                assert(self.recorded() =~= old(self).recorded() + packages.deep_view().take(
                    i + 1,
                ));
            }
            i += 1;
        }
        proof {
            assert(packages.deep_view().take(n as int) =~= packages.deep_view());
        }
    }

    /// Whether a package name was recorded missing.
    pub fn has(&self, name: &str) -> (r: bool)
        ensures
            r == crate::packages::list_has(self.recorded(), name@),
    {
        crate::packages::contains_name(&self.missing, name)
    }
}

} // verus!
