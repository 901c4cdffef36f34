//! Where the service writes its log file.
use vstd::prelude::*;

verus! {

broadcast use vstd::string::group_string_axioms;

/// What `Path::parent` returns for a path, as text, with the path rules of
/// the platform this library is built for.
pub uninterp spec fn path_parent(p: Seq<char>) -> Option<Seq<char>>;

/// What `Path::join` returns for a base path and a child, as text, with the
/// path rules of the platform this library is built for.
pub uninterp spec fn path_join(base: Seq<char>, child: Seq<char>) -> Seq<char>;

/// The parent directory of a path (`Path::parent`); for a given build it
/// depends on the path text alone (no file system access).
#[verifier::external_body]
fn parent_of(p: &str) -> (r: Option<String>)
    ensures
        match path_parent(p@) {
            Some(q) => r matches Some(s) && s@ == q,
            None => r is None,
        },
{
    std::path::Path::new(p).parent().map(|q| q.to_string_lossy().into_owned())
}

/// A child path under a base path (`Path::join`); for a given build it
/// depends on the two texts alone (no file system access).
#[verifier::external_body]
fn join_path(base: &str, child: &str) -> (r: String)
    ensures
        r@ == path_join(base@, child@),
{
    std::path::Path::new(base).join(child).to_string_lossy().into_owned()
}

/// The log directory: `logs` next to the explicit config file; else next
/// to the default config file; else `logs` in the working directory.
pub open spec fn service_log_dir(explicit: Option<Seq<char>>, default_cfg: Option<Seq<char>>) -> Seq<char> {
    if explicit is Some && path_parent(explicit->0) is Some {
        path_join(path_parent(explicit->0)->0, "logs"@)
    } else if default_cfg is Some && path_parent(default_cfg->0) is Some {
        path_join(path_parent(default_cfg->0)->0, "logs"@)
    } else {
        "logs"@
    }
}

/// The directory for the service's log file (see `service_log_dir`);
/// `default_config_path` is the default config location when it is known.
pub fn resolve_service_log_dir(explicit_config_path: Option<&str>, default_config_path: Option<&str>) -> (r: String)
    ensures
        r@ == service_log_dir(
            match explicit_config_path {
                Some(s) => Some(s@),
                None => None,
            },
            match default_config_path {
                Some(s) => Some(s@),
                None => None,
            },
        ),
{
    if let Some(cfg) = explicit_config_path {
        if let Some(parent) = parent_of(cfg) {
            return join_path(parent.as_str(), "logs");
        }
    }
    if let Some(cfg) = default_config_path {
        if let Some(parent) = parent_of(cfg) {
            return join_path(parent.as_str(), "logs");
        }
    }
    "logs".to_owned()
}

} // verus!
