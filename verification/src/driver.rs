//! The broker driver's parameter map, behind a verified facade.
//!
//! The driver (rdkafka) is configured through a string-keyed parameter
//! map that lives in the outside crate. This module states what the
//! map's operations do and proves that a session installs exactly the
//! parameters its configuration calls for: the bootstrap endpoint, the
//! delivery and socket timeouts, and the SASL/SCRAM-SHA-256 parameters
//! only when the session authenticates.

use vstd::prelude::*;
use crate::config::SessionConfig;
use crate::config::SessionConfigView;

verus! {

#[verifier::external_type_specification]
#[verifier::external_body]
pub struct ExClientConfig(rdkafka::config::ClientConfig);

/// The parameters installed in a driver configuration, as a map from
/// parameter name to value.
pub uninterp spec fn config_entries(c: rdkafka::config::ClientConfig) -> Map<
    Seq<char>,
    Seq<char>,
>;

/// Relies on rdkafka's `ClientConfig::new`: the configuration starts
/// with an empty parameter map.
#[verifier::external_body]
fn new_client_config() -> (c: rdkafka::config::ClientConfig)
    ensures
        config_entries(c).is_empty(),
{
    rdkafka::config::ClientConfig::new()
}

/// Relies on rdkafka's `ClientConfig::set`: installs one parameter,
/// overriding any existing value under the same name.
#[verifier::external_body]
fn set_entry(c: &mut rdkafka::config::ClientConfig, key: &str, value: &str)
    ensures
        config_entries(*final(c)) == config_entries(*old(c)).insert(key@, value@),
{
    c.set(key, value);
}

/// Relies on rdkafka's `ClientConfig::get`: returns the installed value
/// under the parameter name, if any.
#[verifier::external_body]
fn get_entry<'a>(c: &'a rdkafka::config::ClientConfig, key: &str) -> (r: Option<&'a str>)
    ensures
        r is Some <==> config_entries(*c).contains_key(key@),
        r is Some ==> r->Some_0@ == config_entries(*c)[key@],
{
    c.get(key)
}

/// The parameters a session installs in the driver: the bootstrap
/// endpoint and the two timeouts always; the SASL parameters only when
/// the session authenticates.
pub open spec fn spec_driver_entries(c: SessionConfigView) -> Map<Seq<char>, Seq<char>> {
    let base = Map::<Seq<char>, Seq<char>>::empty().insert(
        "bootstrap.servers"@,
        c.endpoint,
    ).insert("message.timeout.ms"@, "5000"@).insert("socket.timeout.ms"@, "3000"@);
    match c.credentials {
        None => base,
        Some(cr) => base.insert("security.protocol"@, "SASL_PLAINTEXT"@).insert(
            "sasl.mechanisms"@,
            "SCRAM-SHA-256"@,
        ).insert("sasl.username"@, cr.username).insert("sasl.password"@, cr.password),
    }
}

/// All seven parameter names are distinct from one another.
proof fn lemma_driver_keys_distinct()
    ensures
        "bootstrap.servers"@ != "message.timeout.ms"@,
        "bootstrap.servers"@ != "socket.timeout.ms"@,
        "bootstrap.servers"@ != "security.protocol"@,
        "bootstrap.servers"@ != "sasl.mechanisms"@,
        "bootstrap.servers"@ != "sasl.username"@,
        "bootstrap.servers"@ != "sasl.password"@,
        "message.timeout.ms"@ != "socket.timeout.ms"@,
        "message.timeout.ms"@ != "security.protocol"@,
        "message.timeout.ms"@ != "sasl.mechanisms"@,
        "message.timeout.ms"@ != "sasl.username"@,
        "message.timeout.ms"@ != "sasl.password"@,
        "socket.timeout.ms"@ != "security.protocol"@,
        "socket.timeout.ms"@ != "sasl.mechanisms"@,
        "socket.timeout.ms"@ != "sasl.username"@,
        "socket.timeout.ms"@ != "sasl.password"@,
        "security.protocol"@ != "sasl.mechanisms"@,
        "security.protocol"@ != "sasl.username"@,
        "security.protocol"@ != "sasl.password"@,
        "sasl.mechanisms"@ != "sasl.username"@,
        "sasl.mechanisms"@ != "sasl.password"@,
        "sasl.username"@ != "sasl.password"@,
{
    reveal_strlit("bootstrap.servers");
    reveal_strlit("message.timeout.ms");
    reveal_strlit("socket.timeout.ms");
    reveal_strlit("security.protocol");
    reveal_strlit("sasl.mechanisms");
    reveal_strlit("sasl.username");
    reveal_strlit("sasl.password");
    assert("bootstrap.servers"@[0] != "message.timeout.ms"@[0]);
    assert("bootstrap.servers"@[0] != "socket.timeout.ms"@[0]);
    assert("bootstrap.servers"@[0] != "security.protocol"@[0]);
    assert("bootstrap.servers"@[0] != "sasl.mechanisms"@[0]);
    assert("bootstrap.servers"@[0] != "sasl.username"@[0]);
    assert("bootstrap.servers"@[0] != "sasl.password"@[0]);
    assert("message.timeout.ms"@[0] != "socket.timeout.ms"@[0]);
    assert("message.timeout.ms"@[0] != "security.protocol"@[0]);
    assert("message.timeout.ms"@[0] != "sasl.mechanisms"@[0]);
    assert("message.timeout.ms"@[0] != "sasl.username"@[0]);
    assert("message.timeout.ms"@[0] != "sasl.password"@[0]);
    assert("socket.timeout.ms"@[1] != "security.protocol"@[1]);
    assert("socket.timeout.ms"@[1] != "sasl.mechanisms"@[1]);
    assert("socket.timeout.ms"@[1] != "sasl.username"@[1]);
    assert("socket.timeout.ms"@[1] != "sasl.password"@[1]);
    assert("security.protocol"@[1] != "sasl.mechanisms"@[1]);
    assert("security.protocol"@[1] != "sasl.username"@[1]);
    assert("security.protocol"@[1] != "sasl.password"@[1]);
    assert("sasl.mechanisms"@[5] != "sasl.username"@[5]);
    assert("sasl.mechanisms"@[5] != "sasl.password"@[5]);
    assert("sasl.username"@[5] != "sasl.password"@[5]);
}

/// Law: the driver sees exactly what the session was configured with —
/// the endpoint under the bootstrap parameter, the fixed timeouts, and,
/// when the session authenticates, the SCRAM-SHA-256 parameters with the
/// session's credentials.
pub proof fn lemma_driver_entry_values(c: SessionConfigView)
    ensures
        spec_driver_entries(c).contains_key("bootstrap.servers"@),
        spec_driver_entries(c).contains_key("message.timeout.ms"@),
        spec_driver_entries(c).contains_key("socket.timeout.ms"@),
        spec_driver_entries(c)["bootstrap.servers"@] == c.endpoint,
        spec_driver_entries(c)["message.timeout.ms"@] == "5000"@,
        spec_driver_entries(c)["socket.timeout.ms"@] == "3000"@,
        c.sasl_enabled() ==> spec_driver_entries(c)["security.protocol"@] == "SASL_PLAINTEXT"@,
        c.sasl_enabled() ==> spec_driver_entries(c)["sasl.mechanisms"@] == "SCRAM-SHA-256"@,
        c.sasl_enabled() ==> spec_driver_entries(c)["sasl.username"@]
            == c.credentials->Some_0.username,
        c.sasl_enabled() ==> spec_driver_entries(c)["sasl.password"@]
            == c.credentials->Some_0.password,
{
    lemma_driver_keys_distinct();
}

/// One decimal digit as its character.
pub open spec fn decimal_digit(n: nat) -> char {
    if n == 0 {
        '0'
    } else if n == 1 {
        '1'
    } else if n == 2 {
        '2'
    } else if n == 3 {
        '3'
    } else if n == 4 {
        '4'
    } else if n == 5 {
        '5'
    } else if n == 6 {
        '6'
    } else if n == 7 {
        '7'
    } else if n == 8 {
        '8'
    } else {
        '9'
    }
}

/// The decimal rendering of a number, most significant digit first.
pub open spec fn decimal_digits(n: nat) -> Seq<char>
    decreases n,
{
    if n < 10 {
        seq![decimal_digit(n)]
    } else {
        decimal_digits(n / 10).push(decimal_digit(n % 10))
    }
}

/// Law: the timeout parameters installed in the driver are exactly the
/// decimal renderings of the session's timeout constants — the wire
/// configuration and the delivery contract cannot drift apart.
pub proof fn lemma_timeouts_render_contract_constants(c: SessionConfigView)
    ensures
        spec_driver_entries(c)["message.timeout.ms"@] == decimal_digits(
            crate::DELIVERY_TIMEOUT_MS as nat,
        ),
        spec_driver_entries(c)["socket.timeout.ms"@] == decimal_digits(
            crate::SOCKET_TIMEOUT_MS as nat,
        ),
{
    lemma_driver_entry_values(c);
    reveal_strlit("5000");
    reveal_strlit("3000");
    assert(decimal_digits(5nat) =~= seq!['5']);
    assert(decimal_digits(50nat) =~= seq!['5', '0']);
    assert(decimal_digits(500nat) =~= seq!['5', '0', '0']);
    assert(decimal_digits(5000nat) =~= seq!['5', '0', '0', '0']);
    assert("5000"@ =~= decimal_digits(5000nat));
    assert(decimal_digits(3nat) =~= seq!['3']);
    assert(decimal_digits(30nat) =~= seq!['3', '0']);
    assert(decimal_digits(300nat) =~= seq!['3', '0', '0']);
    assert(decimal_digits(3000nat) =~= seq!['3', '0', '0', '0']);
    assert("3000"@ =~= decimal_digits(3000nat));
}

/// Law: a session that does not authenticate installs none of the SASL
/// parameters in the driver — partial credentials leave the wire
/// configuration entirely unauthenticated.
pub proof fn lemma_unauthenticated_session_installs_no_sasl(c: SessionConfigView)
    requires
        !c.sasl_enabled(),
    ensures
        !spec_driver_entries(c).contains_key("security.protocol"@),
        !spec_driver_entries(c).contains_key("sasl.mechanisms"@),
        !spec_driver_entries(c).contains_key("sasl.username"@),
        !spec_driver_entries(c).contains_key("sasl.password"@),
{
    lemma_driver_keys_distinct();
}

/// A driver configuration built from one session, viewed as the map of
/// installed parameters.
pub struct DriverConfig {
    inner: rdkafka::config::ClientConfig,
}

impl View for DriverConfig {
    type V = Map<Seq<char>, Seq<char>>;

    closed spec fn view(&self) -> Map<Seq<char>, Seq<char>> {
        config_entries(self.inner)
    }
}

impl DriverConfig {
    /// Installs exactly the parameters the session's configuration calls
    /// for, and nothing else.
    pub fn from_session(cfg: &SessionConfig) -> (d: DriverConfig)
        ensures
            d@ == spec_driver_entries(cfg@),
    {
        let mut c = new_client_config();
        set_entry(&mut c, "bootstrap.servers", cfg.endpoint());
        set_entry(&mut c, "message.timeout.ms", "5000");
        set_entry(&mut c, "socket.timeout.ms", "3000");
        match cfg.credentials() {
            None => {},
            Some(cr) => {
                set_entry(&mut c, "security.protocol", "SASL_PLAINTEXT");
                set_entry(&mut c, "sasl.mechanisms", "SCRAM-SHA-256");
                set_entry(&mut c, "sasl.username", cr.username.as_str());
                set_entry(&mut c, "sasl.password", cr.password.as_str());
            },
        }
        proof {
            assert(config_entries(c) =~= spec_driver_entries(cfg@));
        }
        DriverConfig { inner: c }
    }

    /// The installed value under a parameter name, if any.
    pub fn setting<'a>(&'a self, key: &str) -> (r: Option<&'a str>)
        ensures
            r is Some <==> self@.contains_key(key@),
            r is Some ==> r->Some_0@ == self@[key@],
    {
        get_entry(&self.inner, key)
    }

    /// Hands the parameter map over so the process can create the driver
    /// from it.
    pub fn into_client_config(self) -> (c: rdkafka::config::ClientConfig)
        ensures
            config_entries(c) == self@,
    {
        self.inner
    }
}

} // verus!
