//! What a client is configured with: how it introduces itself to the
//! server and where the two ends are.

use vstd::prelude::*;

verus! {

/// The configuration of a client. The two addresses are kept as text, in
/// the form `host:port`.
#[derive(Debug)]
pub struct ACCDConfig {
    pub debug_sleep_time: u64,
    pub protocol_version: u8,
    pub display_name: String,
    pub connection_psw: String,
    pub update_interval: i32,
    pub command_psw: String,
    pub bind_addr: String,
    pub destination_addr: String,
}

/// The mathematical value of an [`ACCDConfig`].
pub struct ConfigView {
    pub debug_sleep_time: u64,
    pub protocol_version: u8,
    pub display_name: Seq<char>,
    pub connection_psw: Seq<char>,
    pub update_interval: i32,
    pub command_psw: Seq<char>,
    pub bind_addr: Seq<char>,
    pub destination_addr: Seq<char>,
}

impl View for ACCDConfig {
    type V = ConfigView;

    open spec fn view(&self) -> ConfigView {
        ConfigView {
            debug_sleep_time: self.debug_sleep_time,
            protocol_version: self.protocol_version,
            display_name: self.display_name@,
            connection_psw: self.connection_psw@,
            update_interval: self.update_interval,
            command_psw: self.command_psw@,
            bind_addr: self.bind_addr@,
            destination_addr: self.destination_addr@,
        }
    }
}

/// The configuration of a client that was told nothing: protocol version
/// 4, an update every 250 ms, a server on the same machine.
pub open spec fn default_config() -> ConfigView {
    ConfigView {
        debug_sleep_time: 300,
        protocol_version: 4,
        display_name: "Your name"@,
        connection_psw: "asd"@,
        update_interval: 250,
        command_psw: ""@,
        bind_addr: "0.0.0.0:3400"@,
        destination_addr: "127.0.0.1:9000"@,
    }
}

impl ACCDConfig {
    /// A configuration with the given values.
    pub fn new(
        protocol_version: u8,
        display_name: String,
        connection_psw: String,
        update_interval: i32,
        command_psw: String,
        bind_addr: String,
        destination_addr: String,
    ) -> (config: ACCDConfig)
        ensures
            config@ == (ConfigView {
                debug_sleep_time: 300,
                protocol_version,
                display_name: display_name@,
                connection_psw: connection_psw@,
                update_interval,
                command_psw: command_psw@,
                bind_addr: bind_addr@,
                destination_addr: destination_addr@,
            }),
    {
        ACCDConfig {
            debug_sleep_time: 300,
            protocol_version,
            display_name,
            connection_psw,
            update_interval,
            command_psw,
            bind_addr,
            destination_addr,
        }
    }
}

impl Clone for ACCDConfig {
    fn clone(&self) -> (copy: Self)
        ensures
            copy@ == self@,
    {
        ACCDConfig {
            debug_sleep_time: self.debug_sleep_time,
            protocol_version: self.protocol_version,
            display_name: self.display_name.clone(),
            connection_psw: self.connection_psw.clone(),
            update_interval: self.update_interval,
            command_psw: self.command_psw.clone(),
            bind_addr: self.bind_addr.clone(),
            destination_addr: self.destination_addr.clone(),
        }
    }
}

impl Default for ACCDConfig {
    fn default() -> (config: Self)
        ensures
            config@ == default_config(),
    {
        ACCDConfig {
            debug_sleep_time: 300,
            protocol_version: 4,
            display_name: "Your name".to_owned(),
            connection_psw: "asd".to_owned(),
            update_interval: 250,
            command_psw: "".to_owned(),
            bind_addr: "0.0.0.0:3400".to_owned(),
            destination_addr: "127.0.0.1:9000".to_owned(),
        }
    }
}

} // verus!
