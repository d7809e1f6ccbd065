//! Layered configuration resolution.
//!
//! A runtime configuration is resolved once at startup from four layers,
//! later layers overriding earlier ones: compiled-in defaults, an optional
//! configuration file, optional environment values, and optional
//! command-line values. Reading the file, the environment and the command
//! line is I/O and happens outside this crate; this module receives the
//! values each layer produced and performs the merge.
//!
//! It also decides the TLS material bootstrap: whether missing certificate
//! or key files call for generating a fresh self-signed pair, a hard
//! failure, or nothing at all.

use vstd::prelude::*;

verus! {

/// Immutable snapshot of the listener runtime parameters. Once a listener
/// group is started with a `Config`, the snapshot never changes.
pub struct Config {
    /// Path of the TLS certificate file, as text.
    pub cert: String,
    /// Path of the TLS private-key file, as text.
    pub key: String,
    /// Address the TLS listener binds, as `host:port` text.
    pub tls_listen_address: String,
}

/// Mathematical model of a `Config`: the three fields as character sequences.
pub struct ConfigView {
    pub cert: Seq<char>,
    pub key: Seq<char>,
    pub tls_listen_address: Seq<char>,
}

impl View for Config {
    type V = ConfigView;

    open spec fn view(&self) -> ConfigView {
        ConfigView {
            cert: self.cert@,
            key: self.key@,
            tls_listen_address: self.tls_listen_address@,
        }
    }
}

/// Compiled-in default certificate path.
pub open spec fn default_cert() -> Seq<char> {
    "cert.pem"@
}

/// Compiled-in default private-key path.
pub open spec fn default_key() -> Seq<char> {
    "key.pem"@
}

/// Compiled-in default TLS listen address.
pub open spec fn default_tls_listen_address() -> Seq<char> {
    "0.0.0.0:5061"@
}

/// The defaults as a whole configuration.
pub open spec fn spec_default_config() -> ConfigView {
    ConfigView {
        cert: default_cert(),
        key: default_key(),
        tls_listen_address: default_tls_listen_address(),
    }
}

impl Default for Config {
    /// The hard defaults: the final resolution layer, which always succeeds.
    fn default() -> (r: Self)
        ensures
            r@ == spec_default_config(),
    {
        Config {
            cert: String::from_str("cert.pem"),
            key: String::from_str("key.pem"),
            tls_listen_address: String::from_str("0.0.0.0:5061"),
        }
    }
}

/// One layer of overrides: each field either absent (keep the value the
/// earlier layers produced) or present (replace it).
pub open spec fn spec_override(base: Seq<char>, over: Option<Seq<char>>) -> Seq<char> {
    match over {
        Option::Some(v) => v,
        Option::None => base,
    }
}

/// The environment layer applied to a configuration.
pub open spec fn spec_config_from_env(
    base: ConfigView,
    cert: Option<Seq<char>>,
    key: Option<Seq<char>>,
    tls_listen_address: Option<Seq<char>>,
) -> ConfigView {
    ConfigView {
        cert: spec_override(base.cert, cert),
        key: spec_override(base.key, key),
        tls_listen_address: spec_override(base.tls_listen_address, tls_listen_address),
    }
}

/// The command-line layer applied to a configuration. The command line
/// supplies the three TLS values together or not at all.
pub open spec fn spec_config_from_cli(base: ConfigView, cli: Option<ConfigView>) -> ConfigView {
    match cli {
        Option::Some(c) => c,
        Option::None => base,
    }
}

/// Full resolution: defaults, then the file, then the environment, then the
/// command line, each layer overriding the one before it.
pub open spec fn spec_resolve(
    file: Option<ConfigView>,
    env_cert: Option<Seq<char>>,
    env_key: Option<Seq<char>>,
    env_tls_listen_address: Option<Seq<char>>,
    cli: Option<ConfigView>,
) -> ConfigView {
    let base = match file {
        Option::Some(f) => f,
        Option::None => spec_default_config(),
    };
    spec_config_from_cli(
        spec_config_from_env(base, env_cert, env_key, env_tls_listen_address),
        cli,
    )
}

/// View of an optional string, for stating contracts over optional layers.
pub open spec fn opt_view(o: Option<String>) -> Option<Seq<char>> {
    match o {
        Option::Some(s) => Option::Some(s@),
        Option::None => Option::None,
    }
}

/// View of an optional configuration.
pub open spec fn opt_config_view(o: Option<Config>) -> Option<ConfigView> {
    match o {
        Option::Some(c) => Option::Some(c@),
        Option::None => Option::None,
    }
}

/// Applies the environment layer: a value found in the environment replaces
/// the one the earlier layers produced, a missing one keeps it.
pub fn config_from_env(
    config: Config,
    cert: Option<String>,
    key: Option<String>,
    tls_listen_address: Option<String>,
) -> (r: Config)
    ensures
        r@ == spec_config_from_env(config@, opt_view(cert), opt_view(key), opt_view(tls_listen_address)),
{
    let cert = match cert {
        Some(v) => v,
        None => config.cert,
    };
    let key = match key {
        Some(v) => v,
        None => config.key,
    };
    let tls_listen_address = match tls_listen_address {
        Some(v) => v,
        None => config.tls_listen_address,
    };
    Config { cert, key, tls_listen_address }
}

/// Applies the command-line layer: the command line either supplies the
/// whole TLS triple or leaves the configuration as it was.
pub fn config_from_cli(config: Config, cli: Option<Config>) -> (r: Config)
    ensures
        r@ == spec_config_from_cli(config@, opt_config_view(cli)),
{
    match cli {
        Some(c) => c,
        None => config,
    }
}

/// Resolves the runtime configuration from what each layer produced.
/// Never fails: with nothing supplied the hard defaults come out.
pub fn resolve(
    file: Option<Config>,
    env_cert: Option<String>,
    env_key: Option<String>,
    env_tls_listen_address: Option<String>,
    cli: Option<Config>,
) -> (r: Config)
    ensures
        r@ == spec_resolve(
            opt_config_view(file),
            opt_view(env_cert),
            opt_view(env_key),
            opt_view(env_tls_listen_address),
            opt_config_view(cli),
        ),
{
    let base = match file {
        Some(f) => f,
        None => Config::default(),
    };
    let with_env = config_from_env(base, env_cert, env_key, env_tls_listen_address);
    config_from_cli(with_env, cli)
}

/// With no file, environment or command-line input, resolution yields
/// exactly the compiled-in defaults.
pub proof fn lemma_resolve_defaults()
    ensures
        spec_resolve(Option::None, Option::None, Option::None, Option::None, Option::None)
            == spec_default_config(),
{
}

/// With only an environment override for the listen address, the resolved
/// address is the environment value and certificate and key stay default.
pub proof fn lemma_resolve_env_address_only(addr: Seq<char>)
    ensures
        spec_resolve(Option::None, Option::None, Option::None, Option::Some(addr), Option::None)
            == (ConfigView {
            cert: default_cert(),
            key: default_key(),
            tls_listen_address: addr,
        }),
{
}

/// How listener startup treats the TLS material on disk: everything in
/// place, certificate missing (offer to generate a fresh pair), or key
/// missing while the certificate is present (file corruption, hard failure).
#[derive(Debug, PartialEq, Eq, Structural)]
pub enum TlsBootstrapAction {
    Proceed,
    OfferGenerate,
    FailMissingKey,
}

/// What the bootstrap does for a given state of the TLS files.
pub open spec fn spec_tls_bootstrap_action(cert_exists: bool, key_exists: bool) -> TlsBootstrapAction {
    if !cert_exists {
        TlsBootstrapAction::OfferGenerate
    } else if !key_exists {
        TlsBootstrapAction::FailMissingKey
    } else {
        TlsBootstrapAction::Proceed
    }
}

/// Decides the TLS bootstrap from whether the resolved certificate and key
/// files exist. A missing certificate is a first run and may be generated on
/// consent; a missing key beside a present certificate is never regenerated
/// silently.
pub fn tls_bootstrap_action(cert_exists: bool, key_exists: bool) -> (a: TlsBootstrapAction)
    ensures
        a == spec_tls_bootstrap_action(cert_exists, key_exists),
{
    if !cert_exists {
        TlsBootstrapAction::OfferGenerate
    } else if !key_exists {
        TlsBootstrapAction::FailMissingKey
    } else {
        TlsBootstrapAction::Proceed
    }
}

/// An operator's answer to the generation prompt.
#[derive(Debug, PartialEq, Eq, Structural)]
pub enum Consent {
    Yes,
    No,
    Invalid,
}

/// ASCII whitespace, as trimmed from a prompt answer.
pub open spec fn is_space(b: u8) -> bool {
    b == 32 || b == 9 || b == 10 || b == 13
}

/// ASCII lower-casing of one byte.
pub open spec fn lower_byte(b: u8) -> u8 {
    if 65 <= b && b <= 90 {
        (b + 32) as u8
    } else {
        b
    }
}

/// Index of the first non-whitespace byte at or after `i`, or the length.
pub open spec fn first_mark(s: Seq<u8>, i: int) -> int
    decreases s.len() - i,
{
    if i < 0 || i >= s.len() {
        s.len() as int
    } else if is_space(s[i]) {
        first_mark(s, i + 1)
    } else {
        i
    }
}

/// One past the last non-whitespace byte before `i`, or zero.
pub open spec fn last_mark(s: Seq<u8>, i: int) -> int
    decreases i,
{
    if i <= 0 || i > s.len() {
        0
    } else if is_space(s[i - 1]) {
        last_mark(s, i - 1)
    } else {
        i
    }
}

/// The answer with surrounding whitespace removed and letters lower-cased.
pub open spec fn normalized(s: Seq<u8>) -> Seq<u8> {
    let lo = first_mark(s, 0);
    let hi = last_mark(s, s.len() as int);
    if lo <= hi {
        s.subrange(lo, hi).map_values(|b: u8| lower_byte(b))
    } else {
        Seq::empty()
    }
}

/// The consent an answer expresses: `y`/`yes`, `n`/`no`, anything else is
/// invalid, all after trimming and lower-casing.
pub open spec fn spec_consent(s: Seq<u8>) -> Consent {
    let t = normalized(s);
    if t == seq![121u8] || t == seq![121u8, 101u8, 115u8] {
        Consent::Yes
    } else if t == seq![110u8] || t == seq![110u8, 111u8] {
        Consent::No
    } else {
        Consent::Invalid
    }
}

proof fn lemma_first_mark_from(s: Seq<u8>, k: int, i: int)
    requires
        0 <= k <= i <= s.len(),
        forall|j: int| k <= j < i ==> is_space(s[j]),
        i == s.len() || !is_space(s[i]),
    ensures
        first_mark(s, k) == i,
    decreases i - k,
{
    if k < i {
        lemma_first_mark_from(s, k + 1, i);
    }
}

proof fn lemma_last_mark_from(s: Seq<u8>, i: int, k: int)
    requires
        0 <= i <= k <= s.len(),
        forall|j: int| i <= j < k ==> is_space(s[j]),
        i == 0 || !is_space(s[i - 1]),
    ensures
        last_mark(s, k) == i,
    decreases k - i,
{
    if i < k {
        lemma_last_mark_from(s, i, k - 1);
    }
}

fn byte_is_space(b: u8) -> (r: bool)
    ensures
        r == is_space(b),
{
    b == 32 || b == 9 || b == 10 || b == 13
}

fn byte_lower(b: u8) -> (r: u8)
    ensures
        r == lower_byte(b),
{
    if 65 <= b && b <= 90 {
        b + 32
    } else {
        b
    }
}

/// Classifies a raw prompt answer line as consent, refusal or invalid input.
pub fn parse_consent(answer: &Vec<u8>) -> (c: Consent)
    ensures
        c == spec_consent(answer@),
{
    let ghost s = answer@;
    let n = answer.len();
    let mut lo: usize = 0;
    while lo < n && byte_is_space(answer[lo])
        invariant
            0 <= lo <= n,
            n == s.len(),
            s == answer@,
            forall|j: int| 0 <= j < lo ==> is_space(s[j]),
        decreases n - lo,
    {
        lo = lo + 1;
    }
    proof {
        lemma_first_mark_from(s, 0, lo as int);
    }
    let mut hi: usize = n;
    while hi > lo && byte_is_space(answer[hi - 1])
        invariant
            lo <= hi <= n,
            n == s.len(),
            s == answer@,
            forall|j: int| hi <= j < n ==> is_space(s[j]),
        decreases hi,
    {
        hi = hi - 1;
    }
    if lo == n {
        // Nothing but whitespace: the normalized answer is empty.
        proof {
            lemma_last_mark_from(s, 0, s.len() as int);
            assert(normalized(s).len() == 0);
            assert(normalized(s) != seq![121u8]);
            assert(normalized(s) != seq![121u8, 101u8, 115u8]);
            assert(normalized(s) != seq![110u8]);
            assert(normalized(s) != seq![110u8, 111u8]);
        }
        return Consent::Invalid;
    }
    proof {
        assert(!is_space(s[lo as int]));
        assert(hi > lo);
        lemma_last_mark_from(s, hi as int, s.len() as int);
        assert(normalized(s) =~= s.subrange(lo as int, hi as int).map_values(
            |b: u8| lower_byte(b),
        ));
    }
    let ghost t = normalized(s);
    let len = hi - lo;
    if len == 1 {
        let b0 = byte_lower(answer[lo]);
        proof {
            assert(t.len() == 1 && t[0] == lower_byte(s[lo as int]));
        }
        if b0 == 121u8 {
            proof {
                assert(t =~= seq![121u8]);
            }
            Consent::Yes
        } else if b0 == 110u8 {
            proof {
                assert(t =~= seq![110u8]);
            }
            Consent::No
        } else {
            Consent::Invalid
        }
    } else if len == 2 {
        let b0 = byte_lower(answer[lo]);
        let b1 = byte_lower(answer[lo + 1]);
        proof {
            assert(t.len() == 2 && t[0] == lower_byte(s[lo as int]) && t[1] == lower_byte(
                s[lo as int + 1],
            ));
        }
        if b0 == 110u8 && b1 == 111u8 {
            proof {
                assert(t =~= seq![110u8, 111u8]);
            }
            Consent::No
        } else {
            Consent::Invalid
        }
    } else if len == 3 {
        let b0 = byte_lower(answer[lo]);
        let b1 = byte_lower(answer[lo + 1]);
        let b2 = byte_lower(answer[lo + 2]);
        proof {
            assert(t.len() == 3 && t[0] == lower_byte(s[lo as int]) && t[1] == lower_byte(
                s[lo as int + 1],
            ) && t[2] == lower_byte(s[lo as int + 2]));
        }
        if b0 == 121u8 && b1 == 101u8 && b2 == 115u8 {
            proof {
                assert(t =~= seq![121u8, 101u8, 115u8]);
            }
            Consent::Yes
        } else {
            Consent::Invalid
        }
    } else {
        Consent::Invalid
    }
}

/// What became of an attempt to bootstrap fresh TLS material.
pub enum BootstrapOutcome {
    /// Consent given; a fresh self-signed certificate and private key,
    /// both serialized as PEM, ready to be written to disk.
    Generated(String, String),
    /// The operator declined; TLS startup is to be aborted.
    Refused,
    /// The answer was neither consent nor refusal; TLS startup is aborted.
    InvalidInput,
    /// Consent given but generation failed.
    GenerationFailed,
}

/// Relies on rcgen::generate_simple_self_signed: generates a self-signed
/// certificate and key pair for the given DNS name and serializes both as
/// PEM. The material is freshly random, so nothing is stated of it.
#[verifier::external_body]
fn generate_self_signed_pem(name: &str) -> Option<(String, String)> {
    match rcgen::generate_simple_self_signed(vec![name.to_string()]) {
        Ok(rcgen::CertifiedKey { cert, signing_key }) => {
            Some((cert.pem(), signing_key.serialize_pem()))
        },
        Err(_) => None,
    }
}

/// Acts on the operator's answer to the generation prompt: on consent,
/// generates a fresh self-signed certificate and key pair for `localhost`;
/// on refusal or invalid input, reports that instead. Writing the files and
/// reading the answer happen at the caller's edge.
pub fn create_tls_cert_and_key(answer: &Vec<u8>) -> (r: BootstrapOutcome)
    ensures
        spec_consent(answer@) == Consent::Yes ==> (r is Generated || r is GenerationFailed),
        spec_consent(answer@) == Consent::No ==> r is Refused,
        spec_consent(answer@) == Consent::Invalid ==> r is InvalidInput,
{
    match parse_consent(answer) {
        Consent::Yes => match generate_self_signed_pem("localhost") {
            Some((cert_pem, key_pem)) => BootstrapOutcome::Generated(cert_pem, key_pem),
            None => BootstrapOutcome::GenerationFailed,
        },
        Consent::No => BootstrapOutcome::Refused,
        Consent::Invalid => BootstrapOutcome::InvalidInput,
    }
}

/// Resolution is idempotent: feeding a resolved configuration back in as
/// the file layer, with no further overrides, returns it unchanged.
pub proof fn lemma_resolve_idempotent(
    file: Option<ConfigView>,
    env_cert: Option<Seq<char>>,
    env_key: Option<Seq<char>>,
    env_tls_listen_address: Option<Seq<char>>,
    cli: Option<ConfigView>,
)
    ensures
        spec_resolve(
            Option::Some(
                spec_resolve(file, env_cert, env_key, env_tls_listen_address, cli),
            ),
            Option::None,
            Option::None,
            Option::None,
            Option::None,
        ) == spec_resolve(file, env_cert, env_key, env_tls_listen_address, cli),
{
}

} // verus!
