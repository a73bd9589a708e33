//! The daemon's configuration: where images and containers live, and which
//! registry to pull from.

use vstd::prelude::*;
use vstd::string::StringExecFns;

use crate::config::DefaultConfig;

verus! {

/// The image registry the daemon pulls from.
#[derive(Debug)]
pub struct Registry {
    pub url: String,
    pub token: String,
    pub https: bool,
}

/// The daemon's settings.
#[derive(Debug)]
pub struct Config {
    pub images_dir: String,
    pub containers_dir: String,
    pub registry: Registry,
}

impl Registry {
    /// The registry's full URL: its host behind the scheme the `https`
    /// switch selects.
    pub fn get_url(&self) -> (r: String)
        ensures
            self.https ==> r@ == "https://"@ + self.url@,
            !self.https ==> r@ == "http://"@ + self.url@,
    {
        if self.https {
            "https://".to_owned().concat(self.url.as_str())
        } else {
            "http://".to_owned().concat(self.url.as_str())
        }
    }
}

impl DefaultConfig for Config {
    fn default(path: &str) -> Self {
        Config {
            images_dir: path.to_owned().concat("/images"),
            containers_dir: path.to_owned().concat("/containers"),
            registry: Registry {
                url: "hub.docker.com".to_owned(),
                token: "".to_owned(),
                https: true,
            },
        }
    }
}

} // verus!
