use vstd::prelude::*;

verus! {

/// An optional text as a mathematical value.
pub open spec fn opt_view(o: Option<String>) -> Option<Seq<char>> {
    match o {
        Some(s) => Some(s@),
        None => None,
    }
}

// ---------------------------------------------------------------------
// Connection options

/// How to reach and authenticate with a KoutenDB cluster.
#[derive(Debug, Clone, PartialEq, Eq)]
pub struct ConnectOptions {
    pub peers: String,
    pub username: Option<String>,
    pub password: Option<String>,
    pub auth_token: Option<String>,
    pub secret_key: Option<String>,
    pub galaxy: Option<String>,
    pub tls: bool,
    pub tls_ca_file: Option<String>,
    pub tls_server_name: Option<String>,
    pub tls_insecure_skip_verify: bool,
}

/// What a `ConnectOptions` holds, as a mathematical value.
pub struct ConnectOptionsView {
    pub peers: Seq<char>,
    pub username: Option<Seq<char>>,
    pub password: Option<Seq<char>>,
    pub auth_token: Option<Seq<char>>,
    pub secret_key: Option<Seq<char>>,
    pub galaxy: Option<Seq<char>>,
    pub tls: bool,
    pub tls_ca_file: Option<Seq<char>>,
    pub tls_server_name: Option<Seq<char>>,
    pub tls_insecure_skip_verify: bool,
}

impl View for ConnectOptions {
    type V = ConnectOptionsView;

    open spec fn view(&self) -> ConnectOptionsView {
        ConnectOptionsView {
            peers: self.peers@,
            username: opt_view(self.username),
            password: opt_view(self.password),
            auth_token: opt_view(self.auth_token),
            secret_key: opt_view(self.secret_key),
            galaxy: opt_view(self.galaxy),
            tls: self.tls,
            tls_ca_file: opt_view(self.tls_ca_file),
            tls_server_name: opt_view(self.tls_server_name),
            tls_insecure_skip_verify: self.tls_insecure_skip_verify,
        }
    }
}

/// The options of a connection to `peers`, with nothing else set: no
/// credentials, no galaxy, TLS off and certificate verification on.
pub open spec fn plain_options(peers: Seq<char>) -> ConnectOptionsView {
    ConnectOptionsView {
        peers,
        username: None,
        password: None,
        auth_token: None,
        secret_key: None,
        galaxy: None,
        tls: false,
        tls_ca_file: None,
        tls_server_name: None,
        tls_insecure_skip_verify: false,
    }
}

/// One call of a builder method of `ConnectOptions`.
pub enum ConnectStep {
    Username(Seq<char>),
    Password(Seq<char>),
    AuthToken(Seq<char>),
    SecretKey(Seq<char>),
    Galaxy(Seq<char>),
    Tls,
    TlsCaFile(Seq<char>),
    TlsServerName(Seq<char>),
    DangerAcceptInvalidCerts,
}

/// What one builder call makes of the options.
pub open spec fn apply_step(o: ConnectOptionsView, step: ConnectStep) -> ConnectOptionsView {
    match step {
        ConnectStep::Username(v) => ConnectOptionsView { username: Some(v), ..o },
        ConnectStep::Password(v) => ConnectOptionsView { password: Some(v), ..o },
        ConnectStep::AuthToken(v) => ConnectOptionsView { auth_token: Some(v), ..o },
        ConnectStep::SecretKey(v) => ConnectOptionsView { secret_key: Some(v), ..o },
        ConnectStep::Galaxy(v) => ConnectOptionsView { galaxy: Some(v), ..o },
        ConnectStep::Tls => ConnectOptionsView { tls: true, ..o },
        ConnectStep::TlsCaFile(v) => ConnectOptionsView { tls_ca_file: Some(v), tls: true, ..o },
        ConnectStep::TlsServerName(v) => ConnectOptionsView {
            tls_server_name: Some(v),
            tls: true,
            ..o
        },
        ConnectStep::DangerAcceptInvalidCerts => ConnectOptionsView {
            tls_insecure_skip_verify: true,
            tls: true,
            ..o
        },
    }
}

/// What a chain of builder calls makes of the options, first call first.
pub open spec fn apply_steps(o: ConnectOptionsView, steps: Seq<ConnectStep>) -> ConnectOptionsView
    decreases steps.len(),
{
    if steps.len() == 0 {
        o
    } else {
        apply_step(apply_steps(o, steps.drop_last()), steps.last())
    }
}

/// The builder call turns TLS on.
pub open spec fn enables_tls(step: ConnectStep) -> bool {
    match step {
        ConnectStep::Tls => true,
        ConnectStep::TlsCaFile(_) => true,
        ConnectStep::TlsServerName(_) => true,
        ConnectStep::DangerAcceptInvalidCerts => true,
        _ => false,
    }
}

impl Default for ConnectOptions {
    fn default() -> (o: ConnectOptions)
        ensures
            o@ == plain_options(Seq::<char>::empty()),
    {
        ConnectOptions {
            peers: String::new(),
            username: None,
            password: None,
            auth_token: None,
            secret_key: None,
            galaxy: None,
            tls: false,
            tls_ca_file: None,
            tls_server_name: None,
            tls_insecure_skip_verify: false,
        }
    }
}

impl ConnectOptions {
    /// Options for a connection to `peers`, with nothing else set.
    pub fn new(peers: &str) -> (o: ConnectOptions)
        ensures
            o@ == plain_options(peers@),
    {
        ConnectOptions { peers: peers.to_owned(), ..ConnectOptions::default() }
    }

    /// Sets the user name.
    pub fn username(self, value: &str) -> (o: ConnectOptions)
        ensures
            o@ == apply_step(self@, ConnectStep::Username(value@)),
    {
        ConnectOptions { username: Some(value.to_owned()), ..self }
    }

    /// Sets the password.
    pub fn password(self, value: &str) -> (o: ConnectOptions)
        ensures
            o@ == apply_step(self@, ConnectStep::Password(value@)),
    {
        ConnectOptions { password: Some(value.to_owned()), ..self }
    }

    /// Sets the authentication token.
    pub fn auth_token(self, value: &str) -> (o: ConnectOptions)
        ensures
            o@ == apply_step(self@, ConnectStep::AuthToken(value@)),
    {
        ConnectOptions { auth_token: Some(value.to_owned()), ..self }
    }

    /// Sets the shared secret key.
    pub fn secret_key(self, value: &str) -> (o: ConnectOptions)
        ensures
            o@ == apply_step(self@, ConnectStep::SecretKey(value@)),
    {
        ConnectOptions { secret_key: Some(value.to_owned()), ..self }
    }

    /// Sets the galaxy.
    pub fn galaxy(self, value: &str) -> (o: ConnectOptions)
        ensures
            o@ == apply_step(self@, ConnectStep::Galaxy(value@)),
    {
        ConnectOptions { galaxy: Some(value.to_owned()), ..self }
    }

    /// Enables TLS. Requires a KoutenDB core built with `-d:ssl`.
    pub fn tls(self) -> (o: ConnectOptions)
        ensures
            o@ == apply_step(self@, ConnectStep::Tls),
    {
        ConnectOptions { tls: true, ..self }
    }

    /// Verifies the server against a CA or self-signed certificate PEM, and
    /// enables TLS. Certificate verification stays as it was.
    pub fn tls_ca_file(self, value: &str) -> (o: ConnectOptions)
        ensures
            o@ == apply_step(self@, ConnectStep::TlsCaFile(value@)),
    {
        ConnectOptions { tls_ca_file: Some(value.to_owned()), tls: true, ..self }
    }

    /// Overrides the host name used for verification and SNI, and enables
    /// TLS. Certificate verification stays as it was.
    pub fn tls_server_name(self, value: &str) -> (o: ConnectOptions)
        ensures
            o@ == apply_step(self@, ConnectStep::TlsServerName(value@)),
    {
        ConnectOptions { tls_server_name: Some(value.to_owned()), tls: true, ..self }
    }

    /// Disables certificate verification entirely, and enables TLS.
    ///
    /// This accepts any certificate, which makes the connection trivially
    /// impersonable: encrypted but unauthenticated. Intended only for local
    /// smoke tests; never enable it against a production server. To reach a
    /// server with a self-signed certificate while keeping verification on,
    /// use `tls_ca_file` instead.
    pub fn danger_accept_invalid_certs(self) -> (o: ConnectOptions)
        ensures
            o@ == apply_step(self@, ConnectStep::DangerAcceptInvalidCerts),
    {
        ConnectOptions { tls_insecure_skip_verify: true, tls: true, ..self }
    }
}

/// The call into the core that connecting with given options makes.
#[derive(Debug, Clone)]
pub enum ConnectCall {
    /// An authenticated connection without TLS.
    Auth {
        peers: String,
        username: Option<String>,
        password: Option<String>,
        auth_token: Option<String>,
        secret_key: Option<String>,
        galaxy: Option<String>,
    },
    /// An authenticated connection over TLS.
    AuthTls {
        peers: String,
        username: Option<String>,
        password: Option<String>,
        auth_token: Option<String>,
        secret_key: Option<String>,
        galaxy: Option<String>,
        tls_ca_file: Option<String>,
        tls_server_name: Option<String>,
        tls_insecure_skip_verify: bool,
    },
}

impl ConnectOptions {
    /// The call that connecting with these options makes: without TLS when
    /// TLS is off (the TLS settings are then not used), and otherwise over
    /// TLS with the CA file, server name and verification setting as they
    /// are; the peers, credentials and galaxy are handed on in both cases.
    pub fn connect_call(&self) -> (c: ConnectCall)
        ensures
            !self.tls ==> (c matches ConnectCall::Auth {
                peers,
                username,
                password,
                auth_token,
                secret_key,
                galaxy,
            } && peers@ == self.peers@ && opt_view(username) == opt_view(self.username)
                && opt_view(password) == opt_view(self.password) && opt_view(auth_token)
                == opt_view(self.auth_token) && opt_view(secret_key) == opt_view(
                self.secret_key,
            ) && opt_view(galaxy) == opt_view(self.galaxy)),
            self.tls ==> (c matches ConnectCall::AuthTls {
                peers,
                username,
                password,
                auth_token,
                secret_key,
                galaxy,
                tls_ca_file,
                tls_server_name,
                tls_insecure_skip_verify,
            } && peers@ == self.peers@ && opt_view(username) == opt_view(self.username)
                && opt_view(password) == opt_view(self.password) && opt_view(auth_token)
                == opt_view(self.auth_token) && opt_view(secret_key) == opt_view(
                self.secret_key,
            ) && opt_view(galaxy) == opt_view(self.galaxy) && opt_view(tls_ca_file)
                == opt_view(self.tls_ca_file) && opt_view(tls_server_name) == opt_view(
                self.tls_server_name,
            ) && tls_insecure_skip_verify == self.tls_insecure_skip_verify),
    {
        if !self.tls {
            ConnectCall::Auth {
                peers: self.peers.clone(),
                username: self.username.clone(),
                password: self.password.clone(),
                auth_token: self.auth_token.clone(),
                secret_key: self.secret_key.clone(),
                galaxy: self.galaxy.clone(),
            }
        } else {
            ConnectCall::AuthTls {
                peers: self.peers.clone(),
                username: self.username.clone(),
                password: self.password.clone(),
                auth_token: self.auth_token.clone(),
                secret_key: self.secret_key.clone(),
                galaxy: self.galaxy.clone(),
                tls_ca_file: self.tls_ca_file.clone(),
                tls_server_name: self.tls_server_name.clone(),
                tls_insecure_skip_verify: self.tls_insecure_skip_verify,
            }
        }
    }
}

/// Whatever builder calls follow, the peers stay those the options were
/// made with; TLS is on exactly when it was on before or some call turned
/// it on; and certificate verification is off exactly when it was off
/// before or some call was `danger_accept_invalid_certs`. In particular
/// `tls_ca_file` and `tls_server_name` never turn verification off, and no
/// builder ever turns TLS off.
pub proof fn builder_chain_tls(o: ConnectOptionsView, steps: Seq<ConnectStep>)
    ensures
        apply_steps(o, steps).peers == o.peers,
        apply_steps(o, steps).tls <==> (o.tls || exists|i: int|
            0 <= i < steps.len() && enables_tls(#[trigger] steps[i])),
        apply_steps(o, steps).tls_insecure_skip_verify <==> (o.tls_insecure_skip_verify
            || exists|i: int|
            0 <= i < steps.len() && #[trigger] steps[i] == ConnectStep::DangerAcceptInvalidCerts),
    decreases steps.len(),
{
    if steps.len() > 0 {
        let init = steps.drop_last();
        builder_chain_tls(o, init);
        let last = steps.len() - 1;
        assert(steps[last] == steps.last());
        assert forall|i: int| 0 <= i < init.len() implies init[i] == #[trigger] steps[i] by {}
        if exists|i: int| 0 <= i < init.len() && enables_tls(#[trigger] init[i]) {
            let i = choose|i: int| 0 <= i < init.len() && enables_tls(#[trigger] init[i]);
            assert(steps[i] == init[i]);
        }
        if exists|i: int| 0 <= i < steps.len() && enables_tls(#[trigger] steps[i]) {
            let i = choose|i: int| 0 <= i < steps.len() && enables_tls(#[trigger] steps[i]);
            if i < last {
                assert(init[i] == steps[i]);
            }
        }
        if exists|i: int|
            0 <= i < init.len() && #[trigger] init[i] == ConnectStep::DangerAcceptInvalidCerts {
            let i = choose|i: int|
                0 <= i < init.len() && #[trigger] init[i] == ConnectStep::DangerAcceptInvalidCerts;
            assert(steps[i] == init[i]);
        }
        if exists|i: int|
            0 <= i < steps.len() && #[trigger] steps[i] == ConnectStep::DangerAcceptInvalidCerts {
            let i = choose|i: int|
                0 <= i < steps.len() && #[trigger] steps[i]
                    == ConnectStep::DangerAcceptInvalidCerts;
            if i < last {
                assert(init[i] == steps[i]);
            }
        }
    }
}

/// Each builder call sets only its own field: the peers never change, the
/// credential, galaxy, CA file and server name fields take the given value
/// from their own builder and are left alone by every other one, TLS is
/// turned on by `tls`, `tls_ca_file`, `tls_server_name` and
/// `danger_accept_invalid_certs` and left alone otherwise, and verification
/// is turned off by `danger_accept_invalid_certs` alone.
pub proof fn builder_step_frame(o: ConnectOptionsView, step: ConnectStep)
    ensures
        apply_step(o, step).peers == o.peers,
        apply_step(o, step).username == (if let ConnectStep::Username(x) = step {
            Some(x)
        } else {
            o.username
        }),
        apply_step(o, step).password == (if let ConnectStep::Password(x) = step {
            Some(x)
        } else {
            o.password
        }),
        apply_step(o, step).auth_token == (if let ConnectStep::AuthToken(x) = step {
            Some(x)
        } else {
            o.auth_token
        }),
        apply_step(o, step).secret_key == (if let ConnectStep::SecretKey(x) = step {
            Some(x)
        } else {
            o.secret_key
        }),
        apply_step(o, step).galaxy == (if let ConnectStep::Galaxy(x) = step {
            Some(x)
        } else {
            o.galaxy
        }),
        apply_step(o, step).tls_ca_file == (if let ConnectStep::TlsCaFile(x) = step {
            Some(x)
        } else {
            o.tls_ca_file
        }),
        apply_step(o, step).tls_server_name == (if let ConnectStep::TlsServerName(x) = step {
            Some(x)
        } else {
            o.tls_server_name
        }),
        apply_step(o, step).tls == (o.tls || step is Tls || step is TlsCaFile || step is TlsServerName
            || step is DangerAcceptInvalidCerts),
        apply_step(o, step).tls_insecure_skip_verify == (o.tls_insecure_skip_verify
            || step is DangerAcceptInvalidCerts),
{
}

/// After a chain of builder calls, a credential, galaxy, CA file or server
/// name field is untouched unless a call of its own builder was made, and
/// any value it holds was either there before or given to its own builder.
/// In particular a user name never becomes the galaxy, nor any field
/// another's value.
pub proof fn builder_chain_fields(o: ConnectOptionsView, steps: Seq<ConnectStep>)
    ensures
        (forall|i: int| 0 <= i < steps.len() ==> !(#[trigger] steps[i] is Username)) ==> apply_steps(o, steps).username == o.username,
        apply_steps(o, steps).username matches Some(x) ==> o.username == Some(x) || exists|i: int|
            0 <= i < steps.len() && #[trigger] steps[i] == ConnectStep::Username(x),
        (forall|i: int| 0 <= i < steps.len() ==> !(#[trigger] steps[i] is Password)) ==> apply_steps(o, steps).password == o.password,
        apply_steps(o, steps).password matches Some(x) ==> o.password == Some(x) || exists|i: int|
            0 <= i < steps.len() && #[trigger] steps[i] == ConnectStep::Password(x),
        (forall|i: int| 0 <= i < steps.len() ==> !(#[trigger] steps[i] is AuthToken)) ==> apply_steps(o, steps).auth_token == o.auth_token,
        apply_steps(o, steps).auth_token matches Some(x) ==> o.auth_token == Some(x) || exists|i: int|
            0 <= i < steps.len() && #[trigger] steps[i] == ConnectStep::AuthToken(x),
        (forall|i: int| 0 <= i < steps.len() ==> !(#[trigger] steps[i] is SecretKey)) ==> apply_steps(o, steps).secret_key == o.secret_key,
        apply_steps(o, steps).secret_key matches Some(x) ==> o.secret_key == Some(x) || exists|i: int|
            0 <= i < steps.len() && #[trigger] steps[i] == ConnectStep::SecretKey(x),
        (forall|i: int| 0 <= i < steps.len() ==> !(#[trigger] steps[i] is Galaxy)) ==> apply_steps(o, steps).galaxy == o.galaxy,
        apply_steps(o, steps).galaxy matches Some(x) ==> o.galaxy == Some(x) || exists|i: int|
            0 <= i < steps.len() && #[trigger] steps[i] == ConnectStep::Galaxy(x),
        (forall|i: int| 0 <= i < steps.len() ==> !(#[trigger] steps[i] is TlsCaFile)) ==> apply_steps(o, steps).tls_ca_file == o.tls_ca_file,
        apply_steps(o, steps).tls_ca_file matches Some(x) ==> o.tls_ca_file == Some(x) || exists|i: int|
            0 <= i < steps.len() && #[trigger] steps[i] == ConnectStep::TlsCaFile(x),
        (forall|i: int| 0 <= i < steps.len() ==> !(#[trigger] steps[i] is TlsServerName)) ==> apply_steps(o, steps).tls_server_name == o.tls_server_name,
        apply_steps(o, steps).tls_server_name matches Some(x) ==> o.tls_server_name == Some(x) || exists|i: int|
            0 <= i < steps.len() && #[trigger] steps[i] == ConnectStep::TlsServerName(x),
    decreases steps.len(),
{
    if steps.len() > 0 {
        let init = steps.drop_last();
        builder_chain_fields(o, init);
        builder_step_frame(apply_steps(o, init), steps.last());
        let last = steps.len() - 1;
        assert(steps[last] == steps.last());
        assert forall|i: int| 0 <= i < init.len() implies init[i] == #[trigger] steps[i] by {}
        if apply_steps(o, steps).username is Some && apply_steps(o, init).username == apply_steps(o, steps).username && o.username != apply_steps(o, steps).username {
            let x = apply_steps(o, steps).username->0;
            let i = choose|i: int| 0 <= i < init.len() && #[trigger] init[i] == ConnectStep::Username(x);
            assert(steps[i] == init[i]);
        }
        if apply_steps(o, steps).password is Some && apply_steps(o, init).password == apply_steps(o, steps).password && o.password != apply_steps(o, steps).password {
            let x = apply_steps(o, steps).password->0;
            let i = choose|i: int| 0 <= i < init.len() && #[trigger] init[i] == ConnectStep::Password(x);
            assert(steps[i] == init[i]);
        }
        if apply_steps(o, steps).auth_token is Some && apply_steps(o, init).auth_token == apply_steps(o, steps).auth_token && o.auth_token != apply_steps(o, steps).auth_token {
            let x = apply_steps(o, steps).auth_token->0;
            let i = choose|i: int| 0 <= i < init.len() && #[trigger] init[i] == ConnectStep::AuthToken(x);
            assert(steps[i] == init[i]);
        }
        if apply_steps(o, steps).secret_key is Some && apply_steps(o, init).secret_key == apply_steps(o, steps).secret_key && o.secret_key != apply_steps(o, steps).secret_key {
            let x = apply_steps(o, steps).secret_key->0;
            let i = choose|i: int| 0 <= i < init.len() && #[trigger] init[i] == ConnectStep::SecretKey(x);
            assert(steps[i] == init[i]);
        }
        if apply_steps(o, steps).galaxy is Some && apply_steps(o, init).galaxy == apply_steps(o, steps).galaxy && o.galaxy != apply_steps(o, steps).galaxy {
            let x = apply_steps(o, steps).galaxy->0;
            let i = choose|i: int| 0 <= i < init.len() && #[trigger] init[i] == ConnectStep::Galaxy(x);
            assert(steps[i] == init[i]);
        }
        if apply_steps(o, steps).tls_ca_file is Some && apply_steps(o, init).tls_ca_file == apply_steps(o, steps).tls_ca_file && o.tls_ca_file != apply_steps(o, steps).tls_ca_file {
            let x = apply_steps(o, steps).tls_ca_file->0;
            let i = choose|i: int| 0 <= i < init.len() && #[trigger] init[i] == ConnectStep::TlsCaFile(x);
            assert(steps[i] == init[i]);
        }
        if apply_steps(o, steps).tls_server_name is Some && apply_steps(o, init).tls_server_name == apply_steps(o, steps).tls_server_name && o.tls_server_name != apply_steps(o, steps).tls_server_name {
            let x = apply_steps(o, steps).tls_server_name->0;
            let i = choose|i: int| 0 <= i < init.len() && #[trigger] init[i] == ConnectStep::TlsServerName(x);
            assert(steps[i] == init[i]);
        }
    }
}

// ---------------------------------------------------------------------
// Retrieval options

/// What a vector retrieval looks at and how much it returns.
#[derive(Debug, Clone, PartialEq, Eq)]
pub struct RetrieveOptions {
    pub ring: Option<String>,
    pub budget: i32,
    pub top_rings: i32,
    pub focus: i32,
}

impl Default for RetrieveOptions {
    fn default() -> (o: RetrieveOptions)
        ensures
            o.ring is None,
            o.budget == 8,
            o.top_rings == 0,
            o.focus == 0,
    {
        RetrieveOptions { ring: None, budget: 8, top_rings: 0, focus: 0 }
    }
}

impl RetrieveOptions {
    /// The default options: every ring, a budget of 8, no ring limit and
    /// no focus.
    pub fn new() -> (o: RetrieveOptions)
        ensures
            o.ring is None,
            o.budget == 8,
            o.top_rings == 0,
            o.focus == 0,
    {
        RetrieveOptions::default()
    }

    /// Restricts the retrieval to one ring.
    pub fn ring(self, value: &str) -> (o: RetrieveOptions)
        ensures
            opt_view(o.ring) == Some(value@),
            o.budget == self.budget,
            o.top_rings == self.top_rings,
            o.focus == self.focus,
    {
        RetrieveOptions { ring: Some(value.to_owned()), ..self }
    }

    /// Sets the budget.
    pub fn budget(self, value: i32) -> (o: RetrieveOptions)
        ensures
            opt_view(o.ring) == opt_view(self.ring),
            o.budget == value,
            o.top_rings == self.top_rings,
            o.focus == self.focus,
    {
        RetrieveOptions { budget: value, ..self }
    }

    /// Sets how many rings are looked at.
    pub fn top_rings(self, value: i32) -> (o: RetrieveOptions)
        ensures
            opt_view(o.ring) == opt_view(self.ring),
            o.budget == self.budget,
            o.top_rings == value,
            o.focus == self.focus,
    {
        RetrieveOptions { top_rings: value, ..self }
    }

    /// Sets the focus.
    pub fn focus(self, value: i32) -> (o: RetrieveOptions)
        ensures
            opt_view(o.ring) == opt_view(self.ring),
            o.budget == self.budget,
            o.top_rings == self.top_rings,
            o.focus == value,
    {
        RetrieveOptions { focus: value, ..self }
    }
}

// ---------------------------------------------------------------------
// Ring reading options

/// How a page of a ring is read: filter, projection, paging and order.
#[derive(Debug, Clone, PartialEq, Eq)]
pub struct ReadRingOptions {
    pub filter_json: Option<String>,
    pub selection: Option<String>,
    pub limit: i32,
    pub cursor: Option<String>,
    pub pagination: bool,
    pub page: i32,
    pub page_limit: i32,
    pub sort_field: Option<String>,
    pub sort_desc: bool,
}

/// What a `ReadRingOptions` holds, as a mathematical value.
pub struct ReadRingOptionsView {
    pub filter_json: Option<Seq<char>>,
    pub selection: Option<Seq<char>>,
    pub limit: i32,
    pub cursor: Option<Seq<char>>,
    pub pagination: bool,
    pub page: i32,
    pub page_limit: i32,
    pub sort_field: Option<Seq<char>>,
    pub sort_desc: bool,
}

impl View for ReadRingOptions {
    type V = ReadRingOptionsView;

    open spec fn view(&self) -> ReadRingOptionsView {
        ReadRingOptionsView {
            filter_json: opt_view(self.filter_json),
            selection: opt_view(self.selection),
            limit: self.limit,
            cursor: opt_view(self.cursor),
            pagination: self.pagination,
            page: self.page,
            page_limit: self.page_limit,
            sort_field: opt_view(self.sort_field),
            sort_desc: self.sort_desc,
        }
    }
}

/// The default way to read a ring: no filter or projection, up to 100
/// items, no cursor, no pagination (page 1 of 20 items when it is turned
/// on), and no sort field, newest first.
pub open spec fn default_read_ring() -> ReadRingOptionsView {
    ReadRingOptionsView {
        filter_json: None,
        selection: None,
        limit: 100,
        cursor: None,
        pagination: false,
        page: 1,
        page_limit: 20,
        sort_field: None,
        sort_desc: true,
    }
}

impl Default for ReadRingOptions {
    fn default() -> (o: ReadRingOptions)
        ensures
            o@ == default_read_ring(),
    {
        ReadRingOptions {
            filter_json: None,
            selection: None,
            limit: 100,
            cursor: None,
            pagination: false,
            page: 1,
            page_limit: 20,
            sort_field: None,
            sort_desc: true,
        }
    }
}

impl ReadRingOptions {
    /// The default way to read a ring.
    pub fn new() -> (o: ReadRingOptions)
        ensures
            o@ == default_read_ring(),
    {
        ReadRingOptions::default()
    }

    /// Keeps only the items that match a JSON filter.
    pub fn filter_json(self, value: &str) -> (o: ReadRingOptions)
        ensures
            o@ == (ReadRingOptionsView { filter_json: Some(value@), ..self@ }),
    {
        ReadRingOptions { filter_json: Some(value.to_owned()), ..self }
    }

    /// Projects each item through a selection.
    pub fn selection(self, value: &str) -> (o: ReadRingOptions)
        ensures
            o@ == (ReadRingOptionsView { selection: Some(value@), ..self@ }),
    {
        ReadRingOptions { selection: Some(value.to_owned()), ..self }
    }

    /// Sets the largest number of items.
    pub fn limit(self, value: i32) -> (o: ReadRingOptions)
        ensures
            o@ == (ReadRingOptionsView { limit: value, ..self@ }),
    {
        ReadRingOptions { limit: value, ..self }
    }

    /// Continues from a cursor.
    pub fn cursor(self, value: &str) -> (o: ReadRingOptions)
        ensures
            o@ == (ReadRingOptionsView { cursor: Some(value@), ..self@ }),
    {
        ReadRingOptions { cursor: Some(value.to_owned()), ..self }
    }

    /// Turns pagination on or off.
    pub fn pagination(self, value: bool) -> (o: ReadRingOptions)
        ensures
            o@ == (ReadRingOptionsView { pagination: value, ..self@ }),
    {
        ReadRingOptions { pagination: value, ..self }
    }

    /// Sets the page.
    pub fn page(self, value: i32) -> (o: ReadRingOptions)
        ensures
            o@ == (ReadRingOptionsView { page: value, ..self@ }),
    {
        ReadRingOptions { page: value, ..self }
    }

    /// Sets the number of items of a page.
    pub fn page_limit(self, value: i32) -> (o: ReadRingOptions)
        ensures
            o@ == (ReadRingOptionsView { page_limit: value, ..self@ }),
    {
        ReadRingOptions { page_limit: value, ..self }
    }

    /// Sorts by a field, smallest first.
    pub fn sort(self, field: &str) -> (o: ReadRingOptions)
        ensures
            o@ == (ReadRingOptionsView { sort_field: Some(field@), sort_desc: false, ..self@ }),
    {
        ReadRingOptions { sort_field: Some(field.to_owned()), sort_desc: false, ..self }
    }

    /// Sorts by a field, largest first.
    pub fn rsort(self, field: &str) -> (o: ReadRingOptions)
        ensures
            o@ == (ReadRingOptionsView { sort_field: Some(field@), sort_desc: true, ..self@ }),
    {
        ReadRingOptions { sort_field: Some(field.to_owned()), sort_desc: true, ..self }
    }
}

} // verus!
