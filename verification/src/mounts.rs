//! Mount planning: the bind mounts and environment variables derived
//! from the home directory, the edition, and an optional proxy address.

use vstd::prelude::*;
use crate::errors::Error;

verus! {

/// One bind mount: a host path made visible at a fixed container path.
pub struct Bind {
    pub host: String,
    pub container: String,
}

/// Host side of the plugins bind.
pub open spec fn plugins_host(home: Seq<char>) -> Seq<char> {
    home + "/plugins"@
}

/// Container side of the plugins bind.
pub open spec fn plugins_target() -> Seq<char> {
    "/var/lib/grafana/plugins"@
}

/// Host side of the main configuration file bind.
pub open spec fn config_host(home: Seq<char>) -> Seq<char> {
    home + "/.grafana/grafana.ini"@
}

/// Container side of the main configuration file bind.
pub open spec fn config_target() -> Seq<char> {
    "/etc/grafana/grafana.ini"@
}

/// Host side of the provisioning directory bind.
pub open spec fn provisioning_host(home: Seq<char>) -> Seq<char> {
    home + "/.grafana/provisioning"@
}

/// Container side of the provisioning directory bind.
pub open spec fn provisioning_target() -> Seq<char> {
    "/etc/grafana/provisioning"@
}

/// Host side of the license bind: the one part of the plan that depends
/// on the edition.
pub open spec fn license_host(home: Seq<char>, enterprise: bool) -> Seq<char> {
    home + (if enterprise {
        "/.grafana/ent-license.jwt"@
    } else {
        "/.grafana/license.jwt"@
    })
}

/// Container side of the license bind.
pub open spec fn license_target() -> Seq<char> {
    "/var/lib/grafana/license.jwt"@
}

/// The license-path environment entry, fixed for both editions.
pub open spec fn license_env() -> Seq<char> {
    "GF_ENTERPRISE_LICENSE_PATH=/var/lib/grafana/license.jwt"@
}

/// The terminal-type hint, for colored log output.
pub open spec fn term_env() -> Seq<char> {
    "TERM=xterm-256color"@
}

/// The bind mounts and environment variables of one start operation,
/// recomputed on every start and never persisted.
pub struct MountPlan {
    pub plugins: Bind,
    pub config: Bind,
    pub provisioning: Bind,
    pub license: Bind,
    pub env: Vec<String>,
}

/// The argument form a bind is handed to the runtime in.
pub open spec fn bind_arg_spec(host: Seq<char>, container: Seq<char>) -> Seq<char> {
    host + ":"@ + container
}

impl Bind {
    /// Renders the bind as the `host:container` argument.
    pub fn arg(&self) -> (r: String)
        ensures
            r@ == bind_arg_spec(self.host@, self.container@),
    {
        self.host.clone().concat(":").concat(self.container.as_str())
    }
}

/// Turns the home directory the environment reported into a usable path,
/// failing when the environment provides none.
pub fn resolve_home(home: Option<String>) -> (r: Result<String, Error>)
    ensures
        home matches Some(h) ==> (r matches Ok(p) && p@ == h@),
        home is None ==> (r matches Err(e) && e is HomeDirectoryUnresolved),
{
    match home {
        Some(h) => Ok(h),
        None => Err(Error::HomeDirectoryUnresolved),
    }
}

/// What it means for a plan to be the one derived from a home
/// directory, an edition, and an optional proxy address.
pub open spec fn plan_is_for(
    plan: MountPlan,
    home: Seq<char>,
    enterprise: bool,
    proxy: Option<Seq<char>>,
) -> bool {
    &&& plan.plugins.host@ == plugins_host(home)
    &&& plan.plugins.container@ == plugins_target()
    &&& plan.config.host@ == config_host(home)
    &&& plan.config.container@ == config_target()
    &&& plan.provisioning.host@ == provisioning_host(home)
    &&& plan.provisioning.container@ == provisioning_target()
    &&& plan.license.host@ == license_host(home, enterprise)
    &&& plan.license.container@ == license_target()
    &&& plan.env@.len() == (if proxy is Some {
        4int
    } else {
        2int
    })
    &&& plan.env@[0]@ == license_env()
    &&& plan.env@[1]@ == term_env()
    &&& (proxy matches Some(p) ==> plan.env@[2]@ == "HTTP_PROXY="@ + p && plan.env@[3]@
        == "HTTPS_PROXY="@ + p)
}

/// Computes the four bind mounts and the environment variables from the
/// home directory and edition; a supplied proxy address appends the two
/// proxy entries.
pub fn plan_mounts(home: &str, enterprise: bool, proxy: Option<&str>) -> (plan: MountPlan)
    ensures
        plan_is_for(plan, home@, enterprise, proxy.deep_view()),
{
    let plugins = Bind {
        host: String::from_str(home).concat("/plugins"),
        container: String::from_str("/var/lib/grafana/plugins"),
    };
    let config = Bind {
        host: String::from_str(home).concat("/.grafana/grafana.ini"),
        container: String::from_str("/etc/grafana/grafana.ini"),
    };
    let provisioning = Bind {
        host: String::from_str(home).concat("/.grafana/provisioning"),
        container: String::from_str("/etc/grafana/provisioning"),
    };
    let license = Bind {
        host: if enterprise {
            String::from_str(home).concat("/.grafana/ent-license.jwt")
        } else {
            String::from_str(home).concat("/.grafana/license.jwt")
        },
        container: String::from_str("/var/lib/grafana/license.jwt"),
    };
    let mut env: Vec<String> = Vec::new();
    env.push(String::from_str("GF_ENTERPRISE_LICENSE_PATH=/var/lib/grafana/license.jwt"));
    env.push(String::from_str("TERM=xterm-256color"));
    match proxy {
        Some(p) => {
            env.push(String::from_str("HTTP_PROXY=").concat(p));
            env.push(String::from_str("HTTPS_PROXY=").concat(p));
        },
        None => {},
    }
    MountPlan { plugins, config, provisioning, license, env }
}

/// `suffix` is the tail of `s`.
pub open spec fn ends_with(s: Seq<char>, suffix: Seq<char>) -> bool {
    suffix.len() <= s.len() && s.subrange(s.len() - suffix.len(), s.len() as int) == suffix
}

/// A bind argument always ends with its container-side path.
pub proof fn lemma_bind_arg_ends_with_target(host: Seq<char>, container: Seq<char>)
    ensures
        ends_with(bind_arg_spec(host, container), container),
{
    reveal_strlit(":");
    let s = bind_arg_spec(host, container);
    assert(s.len() == host.len() + 1 + container.len());
    assert(s.subrange(s.len() - container.len(), s.len() as int) =~= container);
}

/// Whatever the home directory, every bind argument of the plan ends
/// with its fixed container-side target, and the license bind host is
/// the one host path that differs between the editions; the plugins,
/// configuration and provisioning paths do not mention the edition at
/// all.
pub proof fn lemma_mount_plan_round_trip(home: Seq<char>)
    ensures
        ends_with(bind_arg_spec(plugins_host(home), plugins_target()), plugins_target()),
        ends_with(bind_arg_spec(config_host(home), config_target()), config_target()),
        ends_with(
            bind_arg_spec(provisioning_host(home), provisioning_target()),
            provisioning_target(),
        ),
        ends_with(
            bind_arg_spec(license_host(home, true), license_target()),
            license_target(),
        ),
        ends_with(
            bind_arg_spec(license_host(home, false), license_target()),
            license_target(),
        ),
        license_host(home, true) != license_host(home, false),
{
    lemma_bind_arg_ends_with_target(plugins_host(home), plugins_target());
    lemma_bind_arg_ends_with_target(config_host(home), config_target());
    lemma_bind_arg_ends_with_target(provisioning_host(home), provisioning_target());
    lemma_bind_arg_ends_with_target(license_host(home, true), license_target());
    lemma_bind_arg_ends_with_target(license_host(home, false), license_target());
    reveal_strlit("/.grafana/ent-license.jwt");
    reveal_strlit("/.grafana/license.jwt");
    assert(license_host(home, true).len() == home.len() + 25);
    assert(license_host(home, false).len() == home.len() + 21);
}

} // verus!
