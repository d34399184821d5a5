//! The client of the metadata service and its builder.

use vstd::prelude::*;

verus! {

/// The cluster and the member that a client speaks for.
pub type Id = (u64, u64);

/// What can go wrong in the client.
#[derive(Clone, Debug, PartialEq, Eq)]
pub enum Error {
    /// The part `name` of the client is not enabled.
    NotStarted { name: String },
    /// The client is not in a state for the call.
    IllegalGrpcClientState { err_msg: String },
}

pub type Result<T> = core::result::Result<T, Error>;

/// How channels to the service are set up; times are in milliseconds.
#[derive(Clone, Copy, Debug, PartialEq, Eq)]
pub struct ChannelConfig {
    pub timeout: Option<u64>,
    pub connect_timeout: Option<u64>,
    pub tcp_nodelay: bool,
}

impl Default for ChannelConfig {
    fn default() -> (config: ChannelConfig)
        ensures
            config == (ChannelConfig { timeout: None, connect_timeout: None, tcp_nodelay: true }),
    {
        ChannelConfig { timeout: None, connect_timeout: None, tcp_nodelay: true }
    }
}

/// Hands out channels to the service.
#[derive(Clone, Copy, Debug, PartialEq, Eq)]
pub struct ChannelManager {
    pub config: ChannelConfig,
}

impl ChannelManager {
    /// A manager with the default configuration.
    pub fn new() -> (m: ChannelManager)
        ensures
            m.config == (ChannelConfig { timeout: None, connect_timeout: None, tcp_nodelay: true }),
    {
        ChannelManager { config: ChannelConfig::default() }
    }

    /// A manager with the configuration `config`.
    pub fn with_config(config: ChannelConfig) -> (m: ChannelManager)
        ensures
            m.config == config,
    {
        ChannelManager { config }
    }

    pub fn config(&self) -> (c: &ChannelConfig)
        ensures
            *c == self.config,
    {
        &self.config
    }
}

/// The parts that the client is made of.
#[derive(Clone, Copy, Debug, PartialEq, Eq)]
pub enum Role {
    Heartbeat,
    Router,
    Store,
}

/// One part of the client: it speaks to the peers it was started with.
#[derive(Debug, PartialEq, Eq)]
pub struct Client {
    pub role: Role,
    pub id: Id,
    pub channel_manager: ChannelManager,
    /// The peers; empty until the part is started.
    pub peers: Vec<String>,
}

pub type HeartbeatClient = Client;

pub type RouterClient = Client;

pub type StoreClient = Client;

fn copy_urls(urls: &Vec<String>) -> (copy: Vec<String>)
    ensures
        copy@ == urls@,
{
    let mut copy: Vec<String> = Vec::new();
    let mut i: usize = 0;
    while i < urls.len()
        invariant
            i <= urls@.len(),
            copy@ == urls@.take(i as int),
        decreases urls@.len() - i,
    {
        copy.push(urls[i].clone());
        proof {
            assert(urls@.take(i + 1) =~= urls@.take(i as int).push(urls@[i as int]));
        }
        i += 1;
    }
    proof {
        assert(urls@.take(urls@.len() as int) =~= urls@);
    }
    copy
}

impl Client {
    /// A part that is not started.
    pub fn new(role: Role, id: Id, channel_manager: ChannelManager) -> (c: Client)
        ensures
            c.role == role,
            c.id == id,
            c.channel_manager == channel_manager,
            c.peers@.len() == 0,
    {
        Client { role, id, channel_manager, peers: Vec::new() }
    }

    /// Whether the part was started.
    pub fn is_started(&self) -> (b: bool)
        ensures
            b == (self.peers@.len() > 0),
    {
        self.peers.len() > 0
    }

    /// Starts the part with the peers `urls`. Fails, and changes nothing, if
    /// the part is started already or if there are no peers.
    pub fn start(&mut self, urls: &Vec<String>) -> (r: Result<()>)
        ensures
            final(self).role == old(self).role,
            final(self).id == old(self).id,
            final(self).channel_manager == old(self).channel_manager,
            match r {
                Ok(()) => old(self).peers@.len() == 0 && urls@.len() > 0 && final(self).peers@
                    == urls@,
                Err(e) => (old(self).peers@.len() > 0 || urls@.len() == 0) && e
                    is IllegalGrpcClientState && final(self).peers == old(self).peers,
            },
    {
        if self.peers.len() > 0 {
            return Err(
                Error::IllegalGrpcClientState { err_msg: String::from_str("The client already started") },
            );
        }
        if urls.len() == 0 {
            return Err(Error::IllegalGrpcClientState { err_msg: String::from_str("Empty peers") });
        }
        self.peers = copy_urls(urls);
        Ok(())
    }

    /// A copy of the part.
    pub fn duplicate(&self) -> (c: Client)
        ensures
            c.role == self.role,
            c.id == self.id,
            c.channel_manager == self.channel_manager,
            c.peers@ == self.peers@,
    {
        Client {
            role: self.role,
            id: self.id,
            channel_manager: self.channel_manager,
            peers: copy_urls(&self.peers),
        }
    }
}

/// Builds a client of the metadata service with the parts that are enabled.
#[derive(Clone, Copy, Debug, PartialEq, Eq)]
pub struct MetaClientBuilder {
    pub id: Id,
    pub enable_heartbeat: bool,
    pub enable_router: bool,
    pub enable_store: bool,
    pub channel_manager: Option<ChannelManager>,
}

impl MetaClientBuilder {
    /// A builder with no part enabled.
    pub fn new(cluster_id: u64, member_id: u64) -> (b: MetaClientBuilder)
        ensures
            b == (MetaClientBuilder {
                id: (cluster_id, member_id),
                enable_heartbeat: false,
                enable_router: false,
                enable_store: false,
                channel_manager: None,
            }),
    {
        MetaClientBuilder {
            id: (cluster_id, member_id),
            enable_heartbeat: false,
            enable_router: false,
            enable_store: false,
            channel_manager: None,
        }
    }

    pub fn enable_heartbeat(self) -> (b: MetaClientBuilder)
        ensures
            b == (MetaClientBuilder { enable_heartbeat: true, ..self }),
    {
        MetaClientBuilder { enable_heartbeat: true, ..self }
    }

    pub fn enable_router(self) -> (b: MetaClientBuilder)
        ensures
            b == (MetaClientBuilder { enable_router: true, ..self }),
    {
        MetaClientBuilder { enable_router: true, ..self }
    }

    pub fn enable_store(self) -> (b: MetaClientBuilder)
        ensures
            b == (MetaClientBuilder { enable_store: true, ..self }),
    {
        MetaClientBuilder { enable_store: true, ..self }
    }

    pub fn channel_manager(self, channel_manager: ChannelManager) -> (b: MetaClientBuilder)
        ensures
            b == (MetaClientBuilder { channel_manager: Some(channel_manager), ..self }),
    {
        MetaClientBuilder { channel_manager: Some(channel_manager), ..self }
    }

    /// Whether a part is enabled.
    pub open spec fn any_enabled(self) -> bool {
        self.enable_heartbeat || self.enable_router || self.enable_store
    }

    /// The client with the enabled parts, none of them started, on the
    /// channel manager of the builder, or on a default one. At least one
    /// part must be enabled.
    pub fn build(self) -> (client: MetaClient)
        requires
            self.any_enabled(),
        ensures
            client.id == self.id,
            client.channel_manager.config == match self.channel_manager {
                Some(m) => m.config,
                None => ChannelConfig { timeout: None, connect_timeout: None, tcp_nodelay: true },
            },
            client.heartbeat is Some == self.enable_heartbeat,
            client.router is Some == self.enable_router,
            client.store is Some == self.enable_store,
            client.heartbeat matches Some(c) ==> c.role == Role::Heartbeat && c.id == self.id
                && c.peers@.len() == 0 && c.channel_manager == client.channel_manager,
            client.router matches Some(c) ==> c.role == Role::Router && c.id == self.id
                && c.peers@.len() == 0 && c.channel_manager == client.channel_manager,
            client.store matches Some(c) ==> c.role == Role::Store && c.id == self.id
                && c.peers@.len() == 0 && c.channel_manager == client.channel_manager,
    {
        let mut client = match self.channel_manager {
            Some(mgr) => MetaClient::with_channel_manager(self.id, mgr),
            None => MetaClient::new(self.id),
        };
        let mgr = client.channel_manager;
        if self.enable_heartbeat {
            client.heartbeat = Some(Client::new(Role::Heartbeat, self.id, mgr));
        }
        if self.enable_router {
            client.router = Some(Client::new(Role::Router, self.id, mgr));
        }
        if self.enable_store {
            client.store = Some(Client::new(Role::Store, self.id, mgr));
        }
        client
    }

    /// The client with the enabled parts, or nothing if no part is enabled.
    pub fn try_build(self) -> (client: Option<MetaClient>)
        ensures
            client is Some == self.any_enabled(),
            client matches Some(c) ==> c.id == self.id && (c.heartbeat is Some
                == self.enable_heartbeat) && (c.router is Some == self.enable_router) && (c.store
                is Some == self.enable_store),
    {
        if self.enable_heartbeat || self.enable_router || self.enable_store {
            Some(self.build())
        } else {
            None
        }
    }
}

/// The client of the metadata service.
#[derive(Debug, PartialEq, Eq)]
pub struct MetaClient {
    pub id: Id,
    pub channel_manager: ChannelManager,
    pub heartbeat: Option<HeartbeatClient>,
    pub router: Option<RouterClient>,
    pub store: Option<StoreClient>,
}

/// Whether the part `part`, if it is enabled, can be started with `urls`:
/// it is not started yet, and there are peers.
pub open spec fn can_start(part: Option<Client>, urls: Seq<String>) -> bool {
    part matches Some(c) ==> c.peers@.len() == 0 && urls.len() > 0
}

/// Whether `after` is what starting makes of the part `before`: if it is
/// enabled, is reached and can be started, it has the peers `urls`;
/// otherwise it is as before.
pub open spec fn is_started_from(
    after: Option<Client>,
    before: Option<Client>,
    urls: Seq<String>,
    reached: bool,
) -> bool {
    match before {
        Some(b) => after matches Some(a) && a.role == b.role && a.id == b.id && a.channel_manager
            == b.channel_manager && if reached && can_start(before, urls) {
            a.peers@ == urls
        } else {
            a.peers == b.peers
        },
        None => after is None,
    }
}

fn not_started(name: &str) -> (e: Error)
    ensures
        e matches Error::NotStarted { name: n } && n@ == name@,
{
    Error::NotStarted { name: String::from_str(name) }
}

impl MetaClient {
    /// A client without parts, on a default channel manager.
    pub fn new(id: Id) -> (c: MetaClient)
        ensures
            c.id == id,
            c.channel_manager.config == (ChannelConfig {
                timeout: None,
                connect_timeout: None,
                tcp_nodelay: true,
            }),
            c.heartbeat is None,
            c.router is None,
            c.store is None,
    {
        MetaClient {
            id,
            channel_manager: ChannelManager::new(),
            heartbeat: None,
            router: None,
            store: None,
        }
    }

    /// A client without parts, on the channel manager `channel_manager`.
    pub fn with_channel_manager(id: Id, channel_manager: ChannelManager) -> (c: MetaClient)
        ensures
            c == (MetaClient { id, channel_manager, heartbeat: None, router: None, store: None }),
    {
        MetaClient { id, channel_manager, heartbeat: None, router: None, store: None }
    }

    /// Starts every part that is enabled with the peers `urls`, the
    /// heartbeat first, then the router, then the store, and stops at the
    /// first part that fails; the parts before it stay started.
    pub fn start(&mut self, urls: &Vec<String>) -> (r: Result<()>)
        ensures
            final(self).id == old(self).id,
            final(self).channel_manager == old(self).channel_manager,
            r is Ok <==> can_start(old(self).heartbeat, urls@) && can_start(
                old(self).router,
                urls@,
            ) && can_start(old(self).store, urls@),
            r is Err ==> r->Err_0 is IllegalGrpcClientState,
            is_started_from(final(self).heartbeat, old(self).heartbeat, urls@, true),
            is_started_from(
                final(self).router,
                old(self).router,
                urls@,
                can_start(old(self).heartbeat, urls@),
            ),
            is_started_from(
                final(self).store,
                old(self).store,
                urls@,
                can_start(old(self).heartbeat, urls@) && can_start(old(self).router, urls@),
            ),
    {
        match &mut self.heartbeat {
            Some(client) => {
                match client.start(urls) {
                    Ok(()) => {},
                    Err(e) => {
                        return Err(e);
                    },
                }
            },
            None => {},
        }
        match &mut self.router {
            Some(client) => {
                match client.start(urls) {
                    Ok(()) => {},
                    Err(e) => {
                        return Err(e);
                    },
                }
            },
            None => {},
        }
        match &mut self.store {
            Some(client) => {
                match client.start(urls) {
                    Ok(()) => {},
                    Err(e) => {
                        return Err(e);
                    },
                }
            },
            None => {},
        }
        Ok(())
    }

    /// The heartbeat part, if it is enabled.
    pub fn heartbeat_client(&self) -> (r: Result<HeartbeatClient>)
        ensures
            match r {
                Ok(c) => self.heartbeat matches Some(h) && c.role == h.role && c.id == h.id
                    && c.channel_manager == h.channel_manager && c.peers@ == h.peers@,
                Err(e) => self.heartbeat is None && (e matches Error::NotStarted { name } && name@
                    == "heartbeat_client"@),
            },
    {
        match &self.heartbeat {
            Some(c) => Ok(c.duplicate()),
            None => Err(not_started("heartbeat_client")),
        }
    }

    /// The router part, if it is enabled.
    pub fn router_client(&self) -> (r: Result<RouterClient>)
        ensures
            match r {
                Ok(c) => self.router matches Some(h) && c.role == h.role && c.id == h.id
                    && c.channel_manager == h.channel_manager && c.peers@ == h.peers@,
                Err(e) => self.router is None && (e matches Error::NotStarted { name } && name@
                    == "router_client"@),
            },
    {
        match &self.router {
            Some(c) => Ok(c.duplicate()),
            None => Err(not_started("router_client")),
        }
    }

    /// The store part, if it is enabled.
    pub fn store_client(&self) -> (r: Result<StoreClient>)
        ensures
            match r {
                Ok(c) => self.store matches Some(h) && c.role == h.role && c.id == h.id
                    && c.channel_manager == h.channel_manager && c.peers@ == h.peers@,
                Err(e) => self.store is None && (e matches Error::NotStarted { name } && name@
                    == "store_client"@),
            },
    {
        match &self.store {
            Some(c) => Ok(c.duplicate()),
            None => Err(not_started("store_client")),
        }
    }

    pub fn channel_config(&self) -> (c: &ChannelConfig)
        ensures
            *c == self.channel_manager.config,
    {
        self.channel_manager.config()
    }

    pub fn id(&self) -> (id: Id)
        ensures
            id == self.id,
    {
        self.id
    }
}

} // verus!
