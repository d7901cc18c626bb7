//! The server's settings.
use vstd::prelude::*;

verus! {

/// Where the server listens, how it keeps sessions and where it finds its files.
#[derive(Clone)]
pub struct Config {
    pub host: String,
    pub port: u16,
    pub force_recreate_db: bool,
    /// How long a session lasts, in minutes.
    pub session_exp: i64,
    pub static_path: String,
    pub log_level: String,
    pub logging_template: String,
    pub mimetypes_path: String,
}

impl Config {
    /// The default settings, with the static-file directory and the MIME
    /// table file at the given paths. The defaults name `./static` and
    /// `/etc/mime.types`, resolved to canonical paths; resolving them reads
    /// the file system, which is left to the caller.
    pub fn with_paths(static_path: String, mimetypes_path: String) -> (c: Config)
        ensures
            c.host@ == "0.0.0.0"@,
            c.port == 8080,
            !c.force_recreate_db,
            c.session_exp == 60,
            c.static_path == static_path,
            c.log_level@ == "INFO"@,
            c.logging_template@ == "%r %s %a"@,
            c.mimetypes_path == mimetypes_path,
    {
        Config {
            host: String::from_str("0.0.0.0"),
            port: 8080,
            force_recreate_db: false,
            session_exp: 60,
            static_path,
            log_level: String::from_str("INFO"),
            logging_template: String::from_str("%r %s %a"),
            mimetypes_path,
        }
    }
}

} // verus!
