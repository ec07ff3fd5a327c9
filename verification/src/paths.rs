//! Resolution of the backing file's path: the platform's configuration
//! directory, then `<name>.yaml` inside it.

use vstd::prelude::*;
use vstd::string::StringExecFns;

use crate::error::Error;

verus! {

/// The backing file path for a configuration name under a directory.
pub open spec fn config_path_text(dir: Seq<char>, name: Seq<char>) -> Seq<char> {
    dir + "/"@ + name + ".yaml"@
}

/// What looking up the platform configuration directory can come to.
enum DirLookup {
    /// The platform offers no configuration directory.
    Missing,
    /// The directory's path is not valid unicode text.
    NotUnicode,
    /// The directory's path.
    Found(String),
}

/// Relies on `dirs::config_dir`: the platform's configuration directory, if
/// the platform defines one. The outcome depends on the environment, so
/// nothing is promised of it.
#[verifier::external_body]
fn platform_config_dir() -> (r: DirLookup) {
    match dirs::config_dir() {
        None => DirLookup::Missing,
        Some(p) => match p.to_str() {
            None => DirLookup::NotUnicode,
            Some(s) => DirLookup::Found(s.to_owned()),
        },
    }
}

/// The path of the backing file for a configuration name: the platform's
/// configuration directory, then `<name>.yaml` inside it. Fails with
/// `Error::Path` where the platform offers no such directory, and with
/// `Error::Other` where that directory's path is not unicode text.
pub fn resolve_path(name: &str) -> (r: Result<String, Error>)
    ensures
        r matches Ok(p) ==> exists|d: Seq<char>| p@ == config_path_text(d, name@),
        r matches Err(e) ==> e is Path || e is Other,
{
    match platform_config_dir() {
        DirLookup::Missing => Err(Error::Path("couldn't get config path".to_owned())),
        DirLookup::NotUnicode => Err(
            Error::Other("config path is not valid unicode".to_owned()),
        ),
        DirLookup::Found(dir) => {
            let ghost d: Seq<char> = dir@;
            let p = dir.concat("/").concat(name).concat(".yaml");
            proof {
                assert(p@ =~= config_path_text(d, name@));
            }
            Ok(p)
        },
    }
}

} // verus!
