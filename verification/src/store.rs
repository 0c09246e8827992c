//! Location of the per-user configuration files.
//!
//! The configuration directory itself comes from the `directories` crate
//! and depends on the environment; the library only appends file names to
//! it. Creating the directory and reading or writing the files is I/O and
//! belongs to the surrounding binary.

use vstd::prelude::*;

verus! {

/// Relies on `directories::ProjectDirs`: the per-user configuration
/// directory of this application, an environment-dependent value, absent
/// when the environment defines no home directory.
#[verifier::external_body]
fn project_config_dir() -> (r: Option<String>)
{
    directories::ProjectDirs::from("com", "Jabczyk", "Clic").map(
        |dirs| dirs.config_dir().to_string_lossy().into_owned(),
    )
}

/// Appends `filename` to the directory path `base`.
pub fn join_path(base: &str, filename: &str) -> (r: String)
    ensures
        r@ == base@ + "/"@ + filename@,
{
    let mut r = base.to_owned();
    r.append("/");
    r.append(filename);
    r
}

/// The full path of the named file inside the per-user configuration
/// directory, or `None` when the environment defines no such directory.
pub fn get_config_path(filename: &str) -> (r: Option<String>)
    ensures
        r matches Some(p) ==> exists|base: Seq<char>| p@ == base + "/"@ + filename@,
{
    match project_config_dir() {
        Some(base) => {
            let p = join_path(base.as_str(), filename);
            proof {
                assert(p@ == base@ + "/"@ + filename@);
            }
            Some(p)
        },
        None => None,
    }
}

} // verus!
