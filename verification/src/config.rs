use vstd::prelude::*;

use crate::domains;
use crate::lists;
use crate::members;
use crate::messages;

verus! {

/// The connection settings plus the pinned entry of each resource kind.
pub struct Config {
    pub username: String,
    pub password: String,
    pub protocol: String,
    pub host: String,
    pub port: i32,
    pub domain: Option<domains::Entry>,
    pub list: Option<lists::Entry>,
    pub member: Option<members::Entry>,
    pub message: Option<messages::Entry>,
}

impl Clone for Config {
    fn clone(&self) -> (r: Self)
        ensures
            r == *self,
    {
        Config {
            username: self.username.clone(),
            password: self.password.clone(),
            protocol: self.protocol.clone(),
            host: self.host.clone(),
            port: self.port,
            domain: match &self.domain {
                Some(e) => Some(e.clone()),
                None => None,
            },
            list: match &self.list {
                Some(e) => Some(e.clone()),
                None => None,
            },
            member: match &self.member {
                Some(e) => Some(e.clone()),
                None => None,
            },
            message: match &self.message {
                Some(e) => Some(e.clone()),
                None => None,
            },
        }
    }
}

impl Config {
    /// The built-in defaults used until flags or a saved record override them.
    pub fn new() -> (c: Config)
        ensures
            c.username@ == "restadmin"@,
            c.password@ == "restpass"@,
            c.protocol@ == "http"@,
            c.host@ == "localhost"@,
            c.port == 8001,
            c.domain is None,
            c.list is None,
            c.member is None,
            c.message is None,
    {
        Config {
            username: String::from_str("restadmin"),
            password: String::from_str("restpass"),
            protocol: String::from_str("http"),
            host: String::from_str("localhost"),
            port: 8001,
            domain: None,
            list: None,
            member: None,
            message: None,
        }
    }

    pub fn set_username(&mut self, username: String)
        ensures
            *final(self) == (Config { username, ..*old(self) }),
    {
        self.username = username;
    }

    pub fn username(&self) -> (r: &String)
        ensures
            r == self.username,
    {
        &self.username
    }

    pub fn set_password(&mut self, password: String)
        ensures
            *final(self) == (Config { password, ..*old(self) }),
    {
        self.password = password;
    }

    pub fn password(&self) -> (r: &String)
        ensures
            r == self.password,
    {
        &self.password
    }

    pub fn set_protocol(&mut self, protocol: String)
        ensures
            *final(self) == (Config { protocol, ..*old(self) }),
    {
        self.protocol = protocol;
    }

    pub fn protocol(&self) -> (r: &String)
        ensures
            r == self.protocol,
    {
        &self.protocol
    }

    pub fn set_host(&mut self, host: String)
        ensures
            *final(self) == (Config { host, ..*old(self) }),
    {
        self.host = host;
    }

    pub fn host(&self) -> (r: &String)
        ensures
            r == self.host,
    {
        &self.host
    }

    pub fn set_port(&mut self, port: i32)
        ensures
            *final(self) == (Config { port, ..*old(self) }),
    {
        self.port = port;
    }

    pub fn port(&self) -> (r: i32)
        ensures
            r == self.port,
    {
        self.port
    }

    pub fn set_domain(&mut self, domain: Option<domains::Entry>)
        ensures
            *final(self) == (Config { domain, ..*old(self) }),
    {
        self.domain = domain;
    }

    pub fn domain(&self) -> (r: &Option<domains::Entry>)
        ensures
            r == self.domain,
    {
        &self.domain
    }

    pub fn set_list(&mut self, list: Option<lists::Entry>)
        ensures
            *final(self) == (Config { list, ..*old(self) }),
    {
        self.list = list;
    }

    pub fn list(&self) -> (r: &Option<lists::Entry>)
        ensures
            r == self.list,
    {
        &self.list
    }

    pub fn set_member(&mut self, member: Option<members::Entry>)
        ensures
            *final(self) == (Config { member, ..*old(self) }),
    {
        self.member = member;
    }

    pub fn member(&self) -> (r: &Option<members::Entry>)
        ensures
            r == self.member,
    {
        &self.member
    }

    pub fn set_message(&mut self, message: Option<messages::Entry>)
        ensures
            *final(self) == (Config { message, ..*old(self) }),
    {
        self.message = message;
    }

    pub fn message(&self) -> (r: &Option<messages::Entry>)
        ensures
            r == self.message,
    {
        &self.message
    }
}

} // verus!
