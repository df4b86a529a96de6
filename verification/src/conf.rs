//! The server's configuration as plain values. Reading and writing the file
//! is the caller's part.

use crate::ports::DEFAULT_MAIN_PORT;
use vstd::prelude::*;

verus! {

/// What the configuration file holds.
#[derive(Debug)]
pub struct TangoConfig {
    version: u8,
    database_url: String,
    rendezvous_port: i32,
    http_addr: String,
    admin_default_username: String,
    admin_default_password: String,
}

/// A configuration by its contents.
pub struct ConfigView {
    pub version: u8,
    pub database_url: Seq<char>,
    pub rendezvous_port: i32,
    pub http_addr: Seq<char>,
    pub admin_default_username: Seq<char>,
    pub admin_default_password: Seq<char>,
}

impl View for TangoConfig {
    type V = ConfigView;

    closed spec fn view(&self) -> ConfigView {
        ConfigView {
            version: self.version,
            database_url: self.database_url@,
            rendezvous_port: self.rendezvous_port,
            http_addr: self.http_addr@,
            admin_default_username: self.admin_default_username@,
            admin_default_password: self.admin_default_password@,
        }
    }
}

/// What a field that the file leaves out is taken to be: version 0, no
/// database, the main port 21116, no address for the web interface, and
/// the administrator `admin` with the password `tango`.
pub open spec fn default_config() -> ConfigView {
    ConfigView {
        version: 0,
        database_url: ""@,
        rendezvous_port: DEFAULT_MAIN_PORT,
        http_addr: ""@,
        admin_default_username: "admin"@,
        admin_default_password: "tango"@,
    }
}

impl TangoConfig {
    /// A configuration with these contents.
    pub fn new(
        version: u8,
        database_url: String,
        rendezvous_port: i32,
        http_addr: String,
        admin_default_username: String,
        admin_default_password: String,
    ) -> (r: Self)
        ensures
            r@ == (ConfigView {
                version,
                database_url: database_url@,
                rendezvous_port,
                http_addr: http_addr@,
                admin_default_username: admin_default_username@,
                admin_default_password: admin_default_password@,
            }),
    {
        TangoConfig {
            version,
            database_url,
            rendezvous_port,
            http_addr,
            admin_default_username,
            admin_default_password,
        }
    }

    /// The version of the document.
    pub fn version(&self) -> (v: u8)
        ensures
            v == self@.version,
    {
        self.version
    }

    /// Where the durable store is.
    pub fn database_url(&self) -> (s: &str)
        ensures
            s@ == self@.database_url,
    {
        self.database_url.as_str()
    }

    /// The main port of the rendezvous server.
    pub fn rendezvous_port(&self) -> (p: i32)
        ensures
            p == self@.rendezvous_port,
    {
        self.rendezvous_port
    }

    /// Where the web interface listens.
    pub fn http_addr(&self) -> (s: &str)
        ensures
            s@ == self@.http_addr,
    {
        self.http_addr.as_str()
    }

    /// The name of the administrator that a fresh installation gets.
    pub fn admin_default_username(&self) -> (s: &str)
        ensures
            s@ == self@.admin_default_username,
    {
        self.admin_default_username.as_str()
    }

    /// The password of the administrator that a fresh installation gets.
    pub fn admin_default_password(&self) -> (s: &str)
        ensures
            s@ == self@.admin_default_password,
    {
        self.admin_default_password.as_str()
    }
}

impl Default for TangoConfig {
    fn default() -> (r: Self)
        ensures
            r@ == default_config(),
    {
        TangoConfig {
            version: 0,
            database_url: "".to_owned(),
            rendezvous_port: DEFAULT_MAIN_PORT,
            http_addr: "".to_owned(),
            admin_default_username: "admin".to_owned(),
            admin_default_password: "tango".to_owned(),
        }
    }
}

} // verus!
