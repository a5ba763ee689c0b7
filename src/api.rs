//! The fluent server builder: each setter consumes the builder and returns it
//! with exactly the fields it targets overwritten.

use vstd::prelude::*;
use vstd::string::StringExecFns;

verus! {

/// What a builder holds, as values.
pub struct ApiView {
    pub cert_path: Seq<char>,
    pub key_path: Seq<char>,
    pub db_path: Seq<char>,
    pub addr: Seq<char>,
    pub port: u16,
    pub per_second: u64,
    pub burst_size: u32,
}

/// One setter call of the builder, as a value.
pub enum Setting {
    Certs(Seq<char>, Seq<char>),
    AuthDb(Seq<char>),
    RateLimit(u64, u32),
    Bind(Seq<char>, u16),
}

/// The builder's contents after one setter call.
pub open spec fn apply(v: ApiView, s: Setting) -> ApiView {
    match s {
        Setting::Certs(cert, key) => ApiView { cert_path: cert, key_path: key, ..v },
        Setting::AuthDb(path) => ApiView { db_path: path, ..v },
        Setting::RateLimit(per_second, burst_size) => ApiView { per_second, burst_size, ..v },
        Setting::Bind(addr, port) => ApiView { addr, port, ..v },
    }
}

/// The builder's contents after a sequence of setter calls, in order.
pub open spec fn apply_all(v: ApiView, settings: Seq<Setting>) -> ApiView
    decreases settings.len(),
{
    if settings.len() == 0 {
        v
    } else {
        apply_all(apply(v, settings[0]), settings.drop_first())
    }
}

proof fn lemma_unrelated_settings_keep_certs(v: ApiView, settings: Seq<Setting>)
    requires
        forall|i: int| 0 <= i < settings.len() ==> !(#[trigger] settings[i] is Certs),
    ensures
        apply_all(v, settings).cert_path == v.cert_path,
        apply_all(v, settings).key_path == v.key_path,
    decreases settings.len(),
{
    if settings.len() > 0 {
        let rest = settings.drop_first();
        assert forall|i: int| 0 <= i < rest.len() implies !(#[trigger] rest[i] is Certs) by {
            assert(rest[i] == settings[i + 1]);
        }
        lemma_unrelated_settings_keep_certs(apply(v, settings[0]), rest);
    }
}

/// Setting the certificate and key paths and reading them back gives exactly
/// the paths set, whatever setter calls came before, and whatever calls of
/// the other setters come after.
pub proof fn lemma_certs_read_back(
    v: ApiView,
    before: Seq<Setting>,
    cert: Seq<char>,
    key: Seq<char>,
    after: Seq<Setting>,
)
    requires
        forall|i: int| 0 <= i < after.len() ==> !(#[trigger] after[i] is Certs),
    ensures
        apply_all(apply(apply_all(v, before), Setting::Certs(cert, key)), after).cert_path == cert,
        apply_all(apply(apply_all(v, before), Setting::Certs(cert, key)), after).key_path == key,
{
    lemma_unrelated_settings_keep_certs(apply(apply_all(v, before), Setting::Certs(cert, key)), after);
}

/// The contents of a fresh builder.
pub open spec fn default_view() -> ApiView {
    ApiView {
        cert_path: "certs/cert.pem"@,
        key_path: "certs/key.pem"@,
        db_path: "users.db"@,
        addr: "127.0.0.1"@,
        port: 8443,
        per_second: 3,
        burst_size: 20,
    }
}

/// The decimal digit `d`, for `d < 10`.
pub open spec fn digit_char(d: nat) -> char {
    seq!['0', '1', '2', '3', '4', '5', '6', '7', '8', '9'][d as int]
}

/// The decimal rendering of `n`, with no leading zeros.
pub open spec fn decimal(n: nat) -> Seq<char>
    decreases n,
{
    if n < 10 {
        seq![digit_char(n)]
    } else {
        decimal(n / 10) + seq![digit_char(n % 10)]
    }
}

/// `host:port`, the address a listener binds.
pub open spec fn bind_address(addr: Seq<char>, port: u16) -> Seq<char> {
    addr + seq![':'] + decimal(port as nat)
}

fn digit_str(d: u16) -> (r: &'static str)
    requires
        d < 10,
    ensures
        r@ == seq![digit_char(d as nat)],
{
    proof {
        reveal_strlit("0");
        reveal_strlit("1");
        reveal_strlit("2");
        reveal_strlit("3");
        reveal_strlit("4");
        reveal_strlit("5");
        reveal_strlit("6");
        reveal_strlit("7");
        reveal_strlit("8");
        reveal_strlit("9");
    }
    match d {
        0 => "0",
        1 => "1",
        2 => "2",
        3 => "3",
        4 => "4",
        5 => "5",
        6 => "6",
        7 => "7",
        8 => "8",
        _ => "9",
    }
}

fn push_decimal(s: &mut String, n: u16)
    ensures
        final(s)@ == old(s)@ + decimal(n as nat),
    decreases n,
{
    if n >= 10 {
        push_decimal(s, n / 10);
    }
    s.append(digit_str(n % 10));
    proof {
        if n >= 10 {
            assert(decimal(n as nat) == decimal((n / 10) as nat) + seq![digit_char((n % 10) as nat)]);
        }
    }
}

/// Configuration of a TLS-terminated HTTP server: certificate and key
/// paths, the path of the user database, the bind address and the rate limit.
pub struct Api {
    cert_path: String,
    key_path: String,
    db_path: String,
    addr: String,
    port: u16,
    rate_limit: (u64, u32),
}

impl View for Api {
    type V = ApiView;

    closed spec fn view(&self) -> ApiView {
        ApiView {
            cert_path: self.cert_path@,
            key_path: self.key_path@,
            db_path: self.db_path@,
            addr: self.addr@,
            port: self.port,
            per_second: self.rate_limit.0,
            burst_size: self.rate_limit.1,
        }
    }
}

impl Api {
    /// A builder with the default settings: `certs/cert.pem`, `certs/key.pem`,
    /// `users.db`, `127.0.0.1:8443`, and 3 tokens a second with a burst of 20.
    pub fn new() -> (r: Api)
        ensures
            r@ == default_view(),
    {
        Api {
            cert_path: String::from_str("certs/cert.pem"),
            key_path: String::from_str("certs/key.pem"),
            db_path: String::from_str("users.db"),
            addr: String::from_str("127.0.0.1"),
            port: 8443,
            rate_limit: (3, 20),
        }
    }

    /// Sets the certificate and key paths.
    pub fn certs(self, cert: &str, key: &str) -> (r: Api)
        ensures
            r@ == apply(self@, Setting::Certs(cert@, key@)),
    {
        Api { cert_path: String::from_str(cert), key_path: String::from_str(key), ..self }
    }

    /// Sets the path of the user database.
    pub fn auth_db(self, path: &str) -> (r: Api)
        ensures
            r@ == apply(self@, Setting::AuthDb(path@)),
    {
        Api { db_path: String::from_str(path), ..self }
    }

    /// Sets the rate limit: tokens refilled per second, and bucket capacity.
    pub fn rate_limit(self, per_second: u64, burst_size: u32) -> (r: Api)
        ensures
            r@ == apply(self@, Setting::RateLimit(per_second, burst_size)),
    {
        Api { rate_limit: (per_second, burst_size), ..self }
    }

    /// Sets the address and port to bind.
    pub fn bind(self, addr: &str, port: u16) -> (r: Api)
        ensures
            r@ == apply(self@, Setting::Bind(addr@, port)),
    {
        Api { addr: String::from_str(addr), port, ..self }
    }

    pub fn get_cert_path(&self) -> (r: &str)
        ensures
            r@ == self@.cert_path,
    {
        self.cert_path.as_str()
    }

    pub fn get_key_path(&self) -> (r: &str)
        ensures
            r@ == self@.key_path,
    {
        self.key_path.as_str()
    }

    pub fn get_db_path(&self) -> (r: &str)
        ensures
            r@ == self@.db_path,
    {
        self.db_path.as_str()
    }

    pub fn get_addr(&self) -> (r: &str)
        ensures
            r@ == self@.addr,
    {
        self.addr.as_str()
    }

    pub fn get_port(&self) -> (r: u16)
        ensures
            r == self@.port,
    {
        self.port
    }

    pub fn get_rate_limit(&self) -> (r: (u64, u32))
        ensures
            r == (self@.per_second, self@.burst_size),
    {
        self.rate_limit
    }

    /// The address to bind, as `host:port`.
    pub fn get_bind_addr(&self) -> (r: String)
        ensures
            r@ == bind_address(self@.addr, self@.port),
    {
        let mut s = self.addr.clone();
        s.append(":");
        proof {
            reveal_strlit(":");
        }
        push_decimal(&mut s, self.port);
        s
    }

    pub fn get_rate_limit_per_second(&self) -> (r: u64)
        ensures
            r == self@.per_second,
    {
        self.rate_limit.0
    }

    pub fn get_rate_limit_burst_size(&self) -> (r: u32)
        ensures
            r == self@.burst_size,
    {
        self.rate_limit.1
    }
}

} // verus!
