//! Holding a configuration value together with the path it lives at.
//!
//! Any type implementing [`DefaultConfig`] can sit in a [`ConfigHolder`].
//! The holder computes the file path under the base directory and falls
//! back to the type's default when nothing was stored on disk.  Reading
//! and writing the file itself — and asking the environment for the home
//! directory — is file I/O and lives in the surrounding binary, which
//! hands the outcome in as plain values.

use vstd::prelude::*;
use vstd::string::StringExecFns;

verus! {

/// A default configuration defined by the consumer, given the directory
/// the configuration files live in.
pub trait DefaultConfig: Sized {
    /// The configuration to use when none is stored yet.
    fn default(path: &str) -> Self;
}

/// A configuration value of type `T` and the path of its file.
#[derive(Debug, Clone)]
pub struct ConfigHolder<T> {
    pub path: String,
    pub config: T,
}

impl<T: DefaultConfig> ConfigHolder<T> {
    /// Initialize the holder for the file `<base_path>/<file_name>.toml`.
    /// `stored` is the configuration parsed from that file when it existed
    /// and was nonempty; otherwise the consumer's default is used.
    pub fn new(base_path: &str, file_name: &str, stored: Option<T>) -> (r: ConfigHolder<T>)
        ensures
            r.path@ == base_path@ + "/"@ + file_name@ + ".toml"@,
            stored matches Some(c) ==> r.config == c,
    {
        let mut path = base_path.to_owned();
        path.append("/");
        path.append(file_name);
        path.append(".toml");
        let config = match stored {
            Some(c) => c,
            None => T::default(base_path),
        };
        ConfigHolder { path, config }
    }

    /// The directory all configuration files live in, under the user's
    /// home directory.
    pub fn get_base_path(home: &str) -> (r: String)
        ensures
            r@ == home@ + "/.config/j1407b"@,
    {
        home.to_owned().concat("/.config/j1407b")
    }
}

} // verus!
