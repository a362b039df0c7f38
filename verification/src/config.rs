//! Per-link configuration and the credential precedence rule.

use vstd::prelude::*;

verus! {

/// The configuration fields a link may carry. Fields left `None` fall back
/// to the process environment. `queue_name`, `create_queue_if_missing` and
/// `message_auto_delete` are accepted but not enforced by the routing logic.
pub struct LinkSettings {
    pub region: Option<String>,
    pub access_key_id: Option<String>,
    pub secret_access_key: Option<String>,
    pub queue_name: Option<String>,
    pub create_queue_if_missing: Option<bool>,
    pub message_auto_delete: Option<bool>,
}

impl Default for LinkSettings {
    /// A link that carries no configuration of its own.
    fn default() -> (r: Self)
        ensures
            r.region is None,
            r.access_key_id is None,
            r.secret_access_key is None,
            r.queue_name is None,
            r.create_queue_if_missing is None,
            r.message_auto_delete is None,
    {
        LinkSettings {
            region: None,
            access_key_id: None,
            secret_access_key: None,
            queue_name: None,
            create_queue_if_missing: None,
            message_auto_delete: None,
        }
    }
}

/// Credential material the embedding process read from its environment.
pub struct EnvSettings {
    pub region: Option<String>,
    pub access_key_id: Option<String>,
    pub secret_access_key: Option<String>,
}

/// The plain values a connection is built from once precedence is applied.
pub struct ResolvedSettings {
    pub region: String,
    pub access_key_id: String,
    pub secret_access_key: String,
}

/// The precedence rule for one field: the per-link value wins over the
/// environment; a field absent from both becomes empty.
pub open spec fn chosen_value(link: Option<String>, env: Option<String>) -> Seq<char> {
    match link {
        Some(v) => v@,
        None => match env {
            Some(v) => v@,
            None => Seq::<char>::empty(),
        },
    }
}

fn first_present(link: &Option<String>, env: &Option<String>) -> (r: String)
    ensures
        r@ == chosen_value(*link, *env),
{
    match link {
        Some(v) => v.clone(),
        None => match env {
            Some(v) => v.clone(),
            None => String::new(),
        },
    }
}

/// Applies the documented precedence rule to every connection field:
/// per-link configuration wins over the process environment. A value absent
/// from both is left empty; the backend then surfaces an authentication
/// failure on the connection's first use rather than at link time.
pub fn resolve_settings(link: &LinkSettings, env: &EnvSettings) -> (r: ResolvedSettings)
    ensures
        r.region@ == chosen_value(link.region, env.region),
        r.access_key_id@ == chosen_value(link.access_key_id, env.access_key_id),
        r.secret_access_key@ == chosen_value(link.secret_access_key, env.secret_access_key),
{
    ResolvedSettings {
        region: first_present(&link.region, &env.region),
        access_key_id: first_present(&link.access_key_id, &env.access_key_id),
        secret_access_key: first_present(&link.secret_access_key, &env.secret_access_key),
    }
}

} // verus!
