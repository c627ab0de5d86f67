//! What the commands have in common.

use vstd::prelude::*;

use crate::paths::has_extension;
#[allow(unused_imports)]
use crate::paths::extension;

verus! {

/// The options that every command takes.
#[derive(Clone, Debug)]
pub struct Opt {
    pub manifest_path: Option<String>,
}

/// The name of a manifest in TOML.
pub const TOML: &'static str = "Pipitor.toml";

/// The name of a manifest in JSON.
pub const JSON: &'static str = "Pipitor.json";

/// Why a file could not be accessed.
#[derive(Debug)]
pub enum AccessError<E> {
    NotFound(E),
    Other(E),
}

/// A format of manifests.
#[derive(Copy, Clone, Debug, PartialEq, Eq, Structural)]
pub enum Format {
    Json,
    Toml,
}

impl Opt {
    /// Tries to access the manifest: at the path that was given, or else under either of the names
    /// of manifests, the second one only where there is no file of the first. Returns what came of
    /// it, and the path.
    pub fn search_manifest<F, T, E>(&self, f: F) -> (r: Result<(T, &str), AccessError<E>>) where
        F: Fn(&str) -> Result<T, AccessError<E>>,

        requires
            forall|path: &str| f.requires((path,)),
        ensures
            match (self.manifest_path, r) {
                (Some(path), Ok((t, found))) => found@ == path@ && f.ensures((found,), Ok(t)),
                (Some(path), Err(e)) => exists|tried: &str| #[trigger]
                    f.ensures((tried,), Err(e)) && tried@ == path@,
                (None, Ok((t, found))) => {
                    ||| found@ == TOML@ && f.ensures((TOML,), Ok(t))
                    ||| found@ == JSON@ && f.ensures((JSON,), Ok(t)) && exists|e: E| #[trigger]
                        f.ensures((TOML,), Err(AccessError::NotFound(e)))
                },
                (None, Err(e)) => {
                    ||| e is Other && f.ensures((TOML,), Err(e))
                    ||| f.ensures((JSON,), Err(e)) && exists|e: E| #[trigger]
                        f.ensures((TOML,), Err(AccessError::NotFound(e)))
                },
            },
    {
        if let Some(path) = &self.manifest_path {
            let path = path.as_str();
            match f(path) {
                Ok(t) => Ok((t, path)),
                Err(e) => Err(e),
            }
        } else {
            match f(TOML) {
                Ok(t) => Ok((t, TOML)),
                Err(AccessError::NotFound(e)) => match f(JSON) {
                    Ok(t) => Ok((t, JSON)),
                    Err(e) => Err(e),
                },
                Err(AccessError::Other(e)) => Err(AccessError::Other(e)),
            }
        }
    }
}

/// Returns the format of a manifest, by its extension.
pub fn manifest_format(path: &str) -> (r: Format)
    ensures
        r == (if extension(path@) == Some("json"@) {
            Format::Json
        } else {
            Format::Toml
        }),
{
    if has_extension(path, "json") {
        Format::Json
    } else {
        Format::Toml
    }
}

} // verus!
