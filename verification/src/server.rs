//! The core server: its configuration and the checks it runs before it
//! accepts connections.

use vstd::prelude::*;
use vstd::string::StringExecFns;

verus! {

/// What the server needs to know before it starts.
#[derive(Clone, Debug)]
pub struct Config {
    /// The address to bind the server to.
    pub bind: String,
    /// Message of the day, shown to the client when it connects.
    pub motd: String,
    /// The maximum number of players displayed in the server list.
    pub show_max_players: u32,
    /// If true, only online-mode clients may connect.
    pub online_mode: bool,
}

impl Config {
    /// Whether the configuration may be used: a bind address exists and
    /// at least one player can be shown.
    pub open spec fn spec_valid(&self) -> bool {
        self.bind@.len() >= 1 && self.show_max_players >= 1
    }

    /// Checks the configuration, reporting the first broken rule.
    pub fn validate(&self) -> (r: Result<(), &'static str>)
        ensures
            r is Ok <==> self.spec_valid(),
            self.bind@.len() < 1 ==> r == Err::<(), &'static str>(
                "The bind address must not be empty",
            ),
            self.bind@.len() >= 1 && self.show_max_players < 1 ==> r == Err::<(), &'static str>(
                "The maximum number of players must be greater than 0",
            ),
    {
        if self.bind.as_str().is_empty() {
            return Err("The bind address must not be empty");
        }
        if self.show_max_players < 1 {
            return Err("The maximum number of players must be greater than 0");
        }
        Ok(())
    }
}

impl Default for Config {
    /// A local default: bind everywhere on the conventional port, with a
    /// friendly message and offline logins allowed.
    fn default() -> (r: Self)
        ensures
            r.bind@ == "0.0.0.0:25565"@,
            r.motd@ == "<orange>An Archipel Core server"@,
            r.show_max_players == 500,
            !r.online_mode,
    {
        Config {
            bind: String::from_str("0.0.0.0:25565"),
            motd: String::from_str("<orange>An Archipel Core server"),
            show_max_players: 500,
            online_mode: false,
        }
    }
}

/// The core server itself.
pub struct CoreServer {}

impl CoreServer {
    /// A server that has not started yet.
    pub fn new() -> Self {
        CoreServer {  }
    }

    /// Boots the server: loads the configuration and checks it. The
    /// default configuration always passes.
    pub fn start(&mut self) -> (r: Result<(), &'static str>)
        ensures
            r is Ok,
    {
        let config = Config::default();
        proof {
            reveal_strlit("0.0.0.0:25565");
        }
        config.validate()
    }
}

} // verus!
