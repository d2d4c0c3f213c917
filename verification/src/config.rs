//! The sensitive configuration model.
//!
//! Configuration values are built by the caller with exactly the fields it
//! chooses to specify. An omitted credential field means "ask the backend to
//! prompt" — a third state, never an empty-string substitute. Secret-bearing
//! fields support irreversible in-memory clearing ([`OsKeyRingConfig::zeroize`]),
//! and every rendering redacts them.

use vstd::prelude::*;
use vstd::string::StringExecFns;

verus! {

/// Every byte of `s` has been overwritten with zero.
pub open spec fn spec_all_zero(s: Seq<u8>) -> bool {
    forall|i: int| 0 <= i < s.len() ==> s[i] == 0u8
}

/// The mask a rendering shows in place of a credential: a fixed masked
/// token when the credential is present, `None` when it was omitted. The
/// rendering depends only on whether the credential is present, never on
/// its bytes.
pub open spec fn spec_masked(present: bool) -> Seq<char> {
    if present {
        "Some(\"*********\")"@
    } else {
        "None"@
    }
}

/// Overwrites every byte of `v` with zero, in place, keeping the length.
fn zero_bytes(v: &mut Vec<u8>)
    ensures
        final(v)@.len() == old(v)@.len(),
        spec_all_zero(final(v)@),
{
    let mut i: usize = 0;
    while i < v.len()
        invariant
            i <= v@.len(),
            v@.len() == old(v)@.len(),
            forall|j: int| 0 <= j < i ==> v@[j] == 0u8,
        decreases v@.len() - i,
    {
        v[i] = 0u8;
        i = i + 1;
    }
}

/// Copies a byte string.
fn copy_bytes(v: &Vec<u8>) -> (r: Vec<u8>)
    ensures
        r@ == v@,
{
    let mut r: Vec<u8> = Vec::new();
    let mut i: usize = 0;
    while i < v.len()
        invariant
            i <= v@.len(),
            r@ == v@.subrange(0, i as int),
        decreases v@.len() - i,
    {
        r.push(v[i]);
        proof {
            assert(r@ =~= v@.subrange(0, i + 1 as int));
        }
        i = i + 1;
    }
    proof {
        assert(r@ =~= v@);
    }
    r
}

/// Compares two byte strings byte for byte.
fn bytes_eq(a: &Vec<u8>, b: &Vec<u8>) -> (r: bool)
    ensures
        r == (a@ == b@),
{
    if a.len() != b.len() {
        return false;
    }
    let mut i: usize = 0;
    while i < a.len()
        invariant
            a@.len() == b@.len(),
            i <= a@.len(),
            forall|j: int| 0 <= j < i ==> a@[j] == b@[j],
        decreases a@.len() - i,
    {
        if a[i] != b[i] {
            return false;
        }
        i = i + 1;
    }
    proof {
        assert(a@ =~= b@);
    }
    true
}

/// What a backend must do to obtain one credential for a connection
/// attempt.
pub enum CredentialSource {
    /// The caller omitted the credential: the backend must ask for it
    /// through its own prompting mechanism. Never stands for an empty
    /// credential.
    Prompt,
    /// The caller supplied these exact bytes; the backend uses them as
    /// given.
    Supplied(Vec<u8>),
}

/// Configuration for connecting to the OS keyring, which may itself be
/// backed by a hardware enclave.
///
/// The username and password are secrets: renderings mask them, and
/// [`OsKeyRingConfig::zeroize`] overwrites their bytes in place once they
/// are no longer needed — callers must invoke it on every exit path from
/// the scope that owns the value, whether the connection attempt succeeded
/// or failed.
#[derive(Eq)]
pub struct OsKeyRingConfig {
    /// Path to the keyring. If `None`, the default OS keyring is used.
    path: Option<String>,
    /// The username to use for logging in. If `None`, the user will be
    /// prompted.
    username: Option<Vec<u8>>,
    /// The password to use for logging in. If `None`, the user will be
    /// prompted.
    password: Option<Vec<u8>>,
}

impl OsKeyRingConfig {
    /// The keyring path, if one was specified.
    pub closed spec fn spec_path(self) -> Option<Seq<char>> {
        match self.path {
            Some(p) => Some(p@),
            None => None,
        }
    }

    /// The username bytes, if a username was specified.
    pub closed spec fn spec_username(self) -> Option<Seq<u8>> {
        match self.username {
            Some(u) => Some(u@),
            None => None,
        }
    }

    /// The password bytes, if a password was specified.
    pub closed spec fn spec_password(self) -> Option<Seq<u8>> {
        match self.password {
            Some(p) => Some(p@),
            None => None,
        }
    }

    /// The rendering of this configuration. It is a function of the path
    /// and of which credentials are present alone: no secret byte reaches
    /// it.
    pub open spec fn spec_rendered(self) -> Seq<char> {
        "OsKeyRingConfig (path: "@ + (match self.spec_path() {
            Some(p) => "Some(\""@ + p + "\")"@,
            None => "None"@,
        }) + ", username: "@ + spec_masked(self.spec_username() is Some) + ", password: "@
            + spec_masked(self.spec_password() is Some) + ")"@
    }

    /// Builds a configuration from exactly the fields the caller chooses to
    /// specify. An omitted field signals "prompt the user or use a backend
    /// default", never an empty value.
    pub fn new(path: Option<String>, username: Option<Vec<u8>>, password: Option<Vec<u8>>) -> (r:
        Self)
        ensures
            r.spec_path() == (match path {
                Some(q) => Some::<Seq<char>>(q@),
                None => None,
            }),
            r.spec_username() == (match username {
                Some(v) => Some::<Seq<u8>>(v@),
                None => None,
            }),
            r.spec_password() == (match password {
                Some(v) => Some::<Seq<u8>>(v@),
                None => None,
            }),
    {
        OsKeyRingConfig { path, username, password }
    }

    /// The keyring path, if one was specified.
    pub fn path(&self) -> (r: &Option<String>)
        ensures
            self.spec_path() == (match r {
                Some(p) => Some::<Seq<char>>(p@),
                None => None,
            }),
    {
        &self.path
    }

    /// The username bytes, if a username was specified.
    pub fn username(&self) -> (r: &Option<Vec<u8>>)
        ensures
            self.spec_username() == (match r {
                Some(u) => Some::<Seq<u8>>(u@),
                None => None,
            }),
    {
        &self.username
    }

    /// The password bytes, if a password was specified.
    pub fn password(&self) -> (r: &Option<Vec<u8>>)
        ensures
            self.spec_password() == (match r {
                Some(u) => Some::<Seq<u8>>(u@),
                None => None,
            }),
    {
        &self.password
    }

    /// How a backend must obtain the username: a supplied username is used
    /// byte for byte; an omitted one must be requested through the
    /// backend's own prompting mechanism, never treated as empty.
    pub fn username_source(&self) -> (r: CredentialSource)
        ensures
            match self.spec_username() {
                None => r is Prompt,
                Some(u) => r matches CredentialSource::Supplied(b) && b@ == u,
            },
    {
        match &self.username {
            Some(u) => CredentialSource::Supplied(copy_bytes(u)),
            None => CredentialSource::Prompt,
        }
    }

    /// How a backend must obtain the password: a supplied password is used
    /// byte for byte; an omitted one must be requested through the
    /// backend's own prompting mechanism, never treated as empty.
    pub fn password_source(&self) -> (r: CredentialSource)
        ensures
            match self.spec_password() {
                None => r is Prompt,
                Some(u) => r matches CredentialSource::Supplied(b) && b@ == u,
            },
    {
        match &self.password {
            Some(p) => CredentialSource::Supplied(copy_bytes(p)),
            None => CredentialSource::Prompt,
        }
    }

    /// Irreversibly scrubs the secrets: every byte of the username and the
    /// password is overwritten with zero, in place. The path is not a
    /// secret and is kept.
    pub fn zeroize(&mut self)
        ensures
            spec_scrubbed(*old(self), *final(self)),
    {
        let username = self.username.take();
        match username {
            Some(mut u) => {
                zero_bytes(&mut u);
                self.username = Some(u);
            },
            None => {},
        }
        let password = self.password.take();
        match password {
            Some(mut p) => {
                zero_bytes(&mut p);
                self.password = Some(p);
            },
            None => {},
        }
    }

    /// Renders the configuration with the username and password masked:
    /// the result is a function of the path and of which credentials are
    /// present alone, so no rendering can contain a secret byte.
    pub fn render(&self) -> (r: String)
        ensures
            r@ == self.spec_rendered(),
    {
        let mut r = "OsKeyRingConfig (path: ".to_owned();
        match &self.path {
            Some(p) => {
                r.append("Some(\"");
                r.append(p.as_str());
                r.append("\")");
            },
            None => r.append("None"),
        }
        r.append(", username: ");
        match &self.username {
            Some(_) => r.append("Some(\"*********\")"),
            None => r.append("None"),
        }
        r.append(", password: ");
        match &self.password {
            Some(_) => r.append("Some(\"*********\")"),
            None => r.append("None"),
        }
        r.append(")");
        r
    }
}

impl Clone for OsKeyRingConfig {
    /// Cloning copies the fields exactly; it exposes no secret.
    fn clone(&self) -> (r: Self)
        ensures
            r.spec_path() == self.spec_path(),
            r.spec_username() == self.spec_username(),
            r.spec_password() == self.spec_password(),
    {
        let path = match &self.path {
            Some(p) => Some(p.clone()),
            None => None,
        };
        let username = match &self.username {
            Some(u) => Some(copy_bytes(u)),
            None => None,
        };
        let password = match &self.password {
            Some(p) => Some(copy_bytes(p)),
            None => None,
        };
        OsKeyRingConfig { path, username, password }
    }
}

impl PartialEq for OsKeyRingConfig {
    /// Two configurations are equal when their paths and their credentials
    /// agree field for field. Comparing exposes no secret.
    fn eq(&self, other: &Self) -> (r: bool) {
        let path_eq = match (&self.path, &other.path) {
            (Some(a), Some(b)) => *a == *b,
            (None, None) => true,
            _ => false,
        };
        let username_eq = match (&self.username, &other.username) {
            (Some(a), Some(b)) => bytes_eq(a, b),
            (None, None) => true,
            _ => false,
        };
        let password_eq = match (&self.password, &other.password) {
            (Some(a), Some(b)) => bytes_eq(a, b),
            (None, None) => true,
            _ => false,
        };
        path_eq && username_eq && password_eq
    }
}

impl vstd::std_specs::cmp::PartialEqSpecImpl for OsKeyRingConfig {
    open spec fn obeys_eq_spec() -> bool {
        true
    }

    open spec fn eq_spec(&self, other: &Self) -> bool {
        &&& self.spec_path() == other.spec_path()
        &&& self.spec_username() == other.spec_username()
        &&& self.spec_password() == other.spec_password()
    }
}

/// The result of scrubbing `pre` into `post`: the path is kept, an omitted
/// credential stays omitted, and a present credential keeps its length with
/// every byte overwritten by zero.
pub open spec fn spec_scrubbed(pre: OsKeyRingConfig, post: OsKeyRingConfig) -> bool {
    &&& post.spec_path() == pre.spec_path()
    &&& match pre.spec_username() {
        None => post.spec_username() is None,
        Some(u) => post.spec_username() matches Some(z) && z.len() == u.len() && spec_all_zero(z),
    }
    &&& match pre.spec_password() {
        None => post.spec_password() is None,
        Some(p) => post.spec_password() matches Some(z) && z.len() == p.len() && spec_all_zero(z),
    }
}

/// Law: a rendering of an `OsKeyRingConfig` exposes no secret. Two
/// configurations that agree on the path and on which credentials are
/// present render identically, whatever their secret bytes hold.
pub proof fn lemma_render_hides_secrets(a: OsKeyRingConfig, b: OsKeyRingConfig)
    requires
        a.spec_path() == b.spec_path(),
        a.spec_username() is Some <==> b.spec_username() is Some,
        a.spec_password() is Some <==> b.spec_password() is Some,
    ensures
        a.spec_rendered() == b.spec_rendered(),
{
}

/// Configuration options for connecting to secure enclaves.
///
/// Each enclave has its own unique configuration requirements, wrapped by
/// this closed variant type so callers can stay generic over backends.
/// Exactly one variant is active per connection attempt. Enclaves are meant
/// for secure handling of keys; some also support further crypto
/// primitives. Attestations are not supported.
pub enum EnclaveConfig {
    /// Connect to an instance of the OS keyring.
    OsKeyRing(OsKeyRingConfig),
    /// Connect to a hardware security module; the backend supplies its own
    /// detail type.
    HardwareModule,
}

impl EnclaveConfig {
    /// The rendering of this configuration; the payload is rendered with
    /// its secrets masked.
    pub open spec fn spec_rendered(self) -> Seq<char> {
        match self {
            EnclaveConfig::OsKeyRing(c) => "EnclaveConfig ("@ + c.spec_rendered() + ")"@,
            EnclaveConfig::HardwareModule => "EnclaveConfig (HardwareModule)"@,
        }
    }

    /// Renders the configuration with every secret masked.
    pub fn render(&self) -> (r: String)
        ensures
            r@ == self.spec_rendered(),
    {
        match self {
            EnclaveConfig::OsKeyRing(c) => {
                let inner = c.render();
                "EnclaveConfig (".to_owned().concat(inner.as_str()).concat(")")
            },
            EnclaveConfig::HardwareModule => "EnclaveConfig (HardwareModule)".to_owned(),
        }
    }

    /// Irreversibly scrubs every secret the configuration holds, in place.
    /// Callers must invoke this on every exit path — success or failure of
    /// a connection attempt — once the value is no longer needed.
    pub fn zeroize(&mut self)
        ensures
            (*old(self)) matches EnclaveConfig::OsKeyRing(pre) ==> ((*final (self))
                matches EnclaveConfig::OsKeyRing(post) && spec_scrubbed(pre, post)),
            (*old(self)) is HardwareModule ==> (*final (self)) is HardwareModule,
    {
        let mut taken = EnclaveConfig::HardwareModule;
        core::mem::swap(self, &mut taken);
        match taken {
            EnclaveConfig::OsKeyRing(mut c) => {
                c.zeroize();
                *self = EnclaveConfig::OsKeyRing(c);
            },
            EnclaveConfig::HardwareModule => {
                *self = EnclaveConfig::HardwareModule;
            },
        }
    }
}

} // verus!
