//! The identity attached to the tagged socket.
//!
//! An identity is the `{sandbox engine, app id, instance id}` triple handed
//! to the display server during the handshake. It is supplied once at
//! startup; when the socket is inherited, missing fields may be derived from
//! the descriptor's unit name.

use vstd::prelude::*;
use crate::name::{stripped_name, marker_free, first_marker};

verus! {

/// The `{sandbox engine, app id, instance id}` triple of one run.
///
/// The strings are opaque to this daemon: the display server defines their
/// meaning. The triple is immutable once constructed.
#[derive(Debug)]
pub struct Identity {
    pub sandbox_engine: String,
    pub app_id: String,
    pub instance_id: String,
}

/// The view of an optional string.
pub open spec fn opt_chars(o: Option<String>) -> Option<Seq<char>> {
    match o {
        Some(s) => Some(s@),
        None => None,
    }
}

/// The app id and instance id that a run derives from its inputs: explicit
/// values win; missing ones are read out of the unit name, stripped of its
/// `.socket` suffixes and split at the first `@`. `None` when a field is
/// missing and the name provides no split.
pub open spec fn derived_ids(
    app_id: Option<Seq<char>>,
    instance_id: Option<Seq<char>>,
    unit_name: Seq<char>,
) -> Option<(Seq<char>, Seq<char>)> {
    if app_id is Some && instance_id is Some {
        Some((app_id->0, instance_id->0))
    } else {
        let t = stripped_name(unit_name);
        if marker_free(t) {
            None
        } else {
            Some(
                (
                    if app_id is Some {
                        app_id->0
                    } else {
                        t.take(first_marker(t))
                    },
                    if instance_id is Some {
                        instance_id->0
                    } else {
                        t.skip(first_marker(t) + 1)
                    },
                ),
            )
        }
    }
}

/// Build the identity of an inherited-socket run.
///
/// Explicit identity values are used as given; absent ones are derived from
/// the unit name. Fails exactly when a field is absent and the name cannot
/// be split at an `@`.
pub fn derive_identity(
    sandbox_engine: String,
    app_id: Option<String>,
    instance_id: Option<String>,
    unit_name: &str,
) -> (r: Option<Identity>)
    ensures
        r is Some <==> derived_ids(opt_chars(app_id), opt_chars(instance_id), unit_name@) is Some,
        r matches Some(id) ==> {
            &&& id.sandbox_engine@ == sandbox_engine@
            &&& Some((id.app_id@, id.instance_id@)) == derived_ids(
                opt_chars(app_id),
                opt_chars(instance_id),
                unit_name@,
            )
        },
{
    match (app_id, instance_id) {
        (Some(app), Some(instance)) => Some(
            Identity { sandbox_engine, app_id: app, instance_id: instance },
        ),
        (app, instance) => {
            let stripped = crate::name::strip_socket_suffixes(unit_name);
            match crate::name::split_at_marker(stripped.as_str()) {
                Some(parts) => {
                    let app_id = match app {
                        Some(a) => a,
                        None => parts.0,
                    };
                    let instance_id = match instance {
                        Some(i) => i,
                        None => parts.1,
                    };
                    Some(Identity { sandbox_engine, app_id, instance_id })
                },
                None => None,
            }
        },
    }
}

} // verus!
