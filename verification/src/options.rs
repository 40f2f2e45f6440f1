//! The slice of client configuration that feeds construction: the endpoint
//! list, the fields that fall back to ambient defaults, and the test-only
//! heartbeat override. Construction variants adapt the endpoint list to the
//! topology before the client is built.

use vstd::prelude::*;

verus! {

/// A configuration error found before any test body executes.
#[derive(Clone, Copy, Debug, PartialEq, Eq, Structural)]
pub enum ConfigError {
    /// A construction variant demanding multiple routing endpoints was given
    /// fewer than two.
    InsufficientEndpoints,
}

/// Client configuration, reduced to what construction reads: the routing
/// endpoints, two fields that merging fills from ambient defaults, and the
/// test-only heartbeat-frequency override (in milliseconds).
#[derive(Debug)]
pub struct ClientOptions {
    /// Routing endpoints the client connects to.
    pub hosts: Vec<String>,
    /// Credential used to authenticate, when one is set.
    pub credential: Option<String>,
    /// Name of the replica set, when one is set.
    pub repl_set_name: Option<String>,
    /// Test-only heartbeat-frequency override, in milliseconds.
    pub heartbeat_freq_test: Option<u64>,
}

/// A copy of `names`, element for element.
fn clone_string_vec(names: &Vec<String>) -> (r: Vec<String>)
    ensures
        r@ == names@,
{
    let mut out: Vec<String> = Vec::new();
    let n = names.len();
    let mut i: usize = 0;
    while i < n
        invariant
            n == names@.len(),
            i <= n,
            out@ == names@.take(i as int),
        decreases n - i,
    {
        out.push(names[i].clone());
        proof {
            assert(names@.take(i + 1).drop_last() =~= names@.take(i as int));
            assert(names@.take(i + 1).last() == names@[i as int]);
            assert(out@ =~= names@.take(i + 1));
        }
        i += 1;
    }
    proof {
        assert(names@.take(n as int) =~= names@);
    }
    out
}

/// A copy of an optional string.
fn clone_opt_string(o: &Option<String>) -> (r: Option<String>)
    ensures
        r == *o,
{
    match o {
        Some(s) => Some(s.clone()),
        None => None,
    }
}

impl Clone for ClientOptions {
    fn clone(&self) -> (res: Self)
        ensures
            res.hosts@ == self.hosts@,
            res.credential == self.credential,
            res.repl_set_name == self.repl_set_name,
            res.heartbeat_freq_test == self.heartbeat_freq_test,
    {
        ClientOptions {
            hosts: clone_string_vec(&self.hosts),
            credential: clone_opt_string(&self.credential),
            repl_set_name: clone_opt_string(&self.repl_set_name),
            heartbeat_freq_test: self.heartbeat_freq_test,
        }
    }
}

/// An endpoint list truncated to at most one entry.
pub open spec fn truncated_to_one(hosts: Seq<String>) -> Seq<String> {
    if hosts.len() <= 1 {
        hosts
    } else {
        hosts.take(1)
    }
}

impl ClientOptions {
    /// Fills each unset field from `defaults`; an empty endpoint list is
    /// likewise taken from `defaults`. Fields that are set take precedence.
    pub fn merge(&mut self, defaults: &ClientOptions)
        ensures
            final(self).hosts@ == if old(self).hosts@.len() == 0 {
                defaults.hosts@
            } else {
                old(self).hosts@
            },
            final(self).credential == if old(self).credential is None {
                defaults.credential
            } else {
                old(self).credential
            },
            final(self).repl_set_name == if old(self).repl_set_name is None {
                defaults.repl_set_name
            } else {
                old(self).repl_set_name
            },
            final(self).heartbeat_freq_test == old(self).heartbeat_freq_test,
    {
        if self.hosts.len() == 0 {
            self.hosts = clone_string_vec(&defaults.hosts);
        }
        if self.credential.is_none() {
            self.credential = clone_opt_string(&defaults.credential);
        }
        if self.repl_set_name.is_none() {
            self.repl_set_name = clone_opt_string(&defaults.repl_set_name);
        }
    }
}

/// The options a client is constructed with when extra test settings are
/// given: explicitly supplied options take precedence, unset fields fall back
/// to `defaults`, the test-only heartbeat override is injected, and on a
/// sharded deployment the endpoint list is truncated to one entry unless the
/// caller explicitly asked for several.
pub fn additional_client_options(
    options: Option<ClientOptions>,
    defaults: &ClientOptions,
    heartbeat_freq: Option<u64>,
    is_sharded: bool,
    use_multiple_mongoses: Option<bool>,
) -> (r: ClientOptions)
    ensures
        ({
            let base_hosts = match options {
                Some(o) => if o.hosts@.len() == 0 {
                    defaults.hosts@
                } else {
                    o.hosts@
                },
                None => defaults.hosts@,
            };
            &&& r.hosts@ == if is_sharded && use_multiple_mongoses != Some(true) {
                truncated_to_one(base_hosts)
            } else {
                base_hosts
            }
            &&& r.credential == match options {
                Some(o) => if o.credential is None {
                    defaults.credential
                } else {
                    o.credential
                },
                None => defaults.credential,
            }
            &&& r.repl_set_name == match options {
                Some(o) => if o.repl_set_name is None {
                    defaults.repl_set_name
                } else {
                    o.repl_set_name
                },
                None => defaults.repl_set_name,
            }
            &&& r.heartbeat_freq_test == heartbeat_freq
        }),
{
    let mut resolved: ClientOptions = match options {
        Some(mut o) => {
            o.merge(defaults);
            o
        },
        None => defaults.clone(),
    };
    resolved.heartbeat_freq_test = heartbeat_freq;
    let wants_multiple: bool = match use_multiple_mongoses {
        Some(b) => b,
        None => false,
    };
    if is_sharded && !wants_multiple {
        if resolved.hosts.len() > 1 {
            resolved.hosts.truncate(1);
        }
    }
    resolved
}

/// Adapts an endpoint list to an explicit request about multiple routing
/// endpoints: a demand for several fails fast when fewer than two are
/// available, a demand for one truncates the list, and no request leaves the
/// options untouched.
pub fn apply_mongos_requirement(
    options: ClientOptions,
    use_multiple_mongoses: Option<bool>,
) -> (r: Result<ClientOptions, ConfigError>)
    ensures
        match use_multiple_mongoses {
            Some(true) => if options.hosts@.len() <= 1 {
                r matches Err(e) && e == ConfigError::InsufficientEndpoints
            } else {
                r matches Ok(o) && o == options
            },
            Some(false) => r matches Ok(o) && o == ClientOptions {
                hosts: o.hosts,
                ..options
            } && o.hosts@ == truncated_to_one(options.hosts@),
            None => r matches Ok(o) && o == options,
        },
{
    match use_multiple_mongoses {
        Some(true) => {
            if options.hosts.len() <= 1 {
                Err(ConfigError::InsufficientEndpoints)
            } else {
                Ok(options)
            }
        },
        Some(false) => {
            let mut truncated = options;
            if truncated.hosts.len() > 1 {
                truncated.hosts.truncate(1);
            }
            Ok(truncated)
        },
        None => Ok(options),
    }
}

} // verus!
