//! How a client finds and claims its session.

use crate::protocol::DEFAULT_SOCKET_PATH;
use vstd::prelude::*;

verus! {

/// Builder-style configuration for establishing a connection.  Paths are
/// kept as text.
#[derive(Debug, Clone, PartialEq, Eq)]
pub struct TabClientConfig {
    socket_path: String,
    token: String,
    render_node: Option<String>,
}

/// A configuration as mathematical data.
pub struct ConfigView {
    pub socket_path: Seq<char>,
    pub token: Seq<char>,
    pub render_node: Option<Seq<char>>,
}

impl View for TabClientConfig {
    type V = ConfigView;

    closed spec fn view(&self) -> ConfigView {
        ConfigView {
            socket_path: self.socket_path@,
            token: self.token@,
            render_node: match self.render_node {
                Some(p) => Some(p@),
                None => None,
            },
        }
    }
}

impl TabClientConfig {
    /// The configuration of a client that claims its session with `token`
    /// at the default socket.
    pub fn new(token: &str) -> (r: TabClientConfig)
        ensures
            r@ == (ConfigView {
                socket_path: DEFAULT_SOCKET_PATH@,
                token: token@,
                render_node: None,
            }),
    {
        TabClientConfig {
            socket_path: DEFAULT_SOCKET_PATH.to_owned(),
            token: token.to_owned(),
            render_node: None,
        }
    }

    /// The same configuration with another socket.
    pub fn socket_path(self, path: &str) -> (r: TabClientConfig)
        ensures
            r@ == (ConfigView { socket_path: path@, ..self@ }),
    {
        let mut this = self;
        this.socket_path = path.to_owned();
        this
    }

    /// The same configuration with a render node.
    pub fn render_node(self, path: &str) -> (r: TabClientConfig)
        ensures
            r@ == (ConfigView { render_node: Some(path@), ..self@ }),
    {
        let mut this = self;
        this.render_node = Some(path.to_owned());
        this
    }

    pub fn token(&self) -> (r: &str)
        ensures
            r@ == self@.token,
    {
        self.token.as_str()
    }

    pub fn socket_path_ref(&self) -> (r: &str)
        ensures
            r@ == self@.socket_path,
    {
        self.socket_path.as_str()
    }

    pub fn render_node_path(&self) -> (r: Option<&str>)
        ensures
            match r {
                Some(p) => self@.render_node == Some(p@),
                None => self@.render_node is None,
            },
    {
        match &self.render_node {
            Some(p) => Some(p.as_str()),
            None => None,
        }
    }
}

} // verus!
