use vstd::prelude::*;
use vstd::string::*;
use crate::config::{ClientConfig, Config};
use crate::error::ClientError;
use crate::registry::{catalog, kind_name, lemma_catalog_entries_owned, LOCALAI_NAME, OPENAI_NAME};
use crate::text::{split_text, str_eq, views_of, words};

verus! {

/// Whether the model selected in `config` names the backend kind `kind` and
/// points at a backend entry of that kind.
pub open spec fn selects(config: Config, kind: Seq<char>) -> bool {
    let i = config.model_info.index as int;
    &&& config.model_info.client@ == kind
    &&& i < config.clients@.len()
    &&& kind_name(config.clients@[i]) == kind
}

/// Whether some registered backend kind takes the model selected in `config`.
pub open spec fn selects_registered(config: Config) -> bool {
    selects(config, OPENAI_NAME@) || selects(config, LOCALAI_NAME@)
}

/// The reply that the dry-run mode gives to `content`: the content itself.
pub open spec fn echo(content: Seq<char>) -> Seq<char> {
    content
}

/// What a single exchange does first.
#[derive(Debug)]
pub enum MessageStep {
    /// The dry-run mode answers at once with this reply.
    Reply(String),
    /// The backend must be asked.
    Fetch,
}

/// What a streaming exchange does first.
#[derive(Debug)]
pub enum StreamStep {
    /// The dry-run mode delivers these chunks, in order, then completes.
    Simulate(Vec<String>),
    /// The backend must be asked, through the cancellable bridge.
    Fetch,
}

/// A client of the backend that the selected model belongs to, over one
/// snapshot of the configuration.
#[derive(Debug)]
pub struct Client {
    config: Config,
}

/// The dry-run reply to `content`.
pub fn echo_messages(content: &str) -> (r: String)
    ensures
        r@ == echo(content@),
{
    String::from_str(content)
}

/// The probe of one backend kind: does the selected model belong to it?
fn probe(config: &Config, kind: &str) -> (r: bool)
    ensures
        r == selects(*config, kind@),
{
    let i = config.model_info.index;
    if !str_eq(config.model_info.client.as_str(), kind) || i >= config.clients.len() {
        return false;
    }
    str_eq(config.clients[i].name(), kind)
}

/// Builds the client of the backend that the selected model belongs to,
/// trying the registered kinds in registry order. Where none takes it, the
/// error names the selected backend identifier and its list position.
pub fn init_client(config: Config) -> (r: Result<Client, ClientError>)
    ensures
        r is Ok <==> selects_registered(config),
        r matches Ok(c) ==> c.spec_config() == config,
        r matches Err(e) ==> (e matches ClientError::UnknownClient { client, index } && client@
            == config.model_info.client@ && index == config.model_info.index),
{
    if probe(&config, OPENAI_NAME) || probe(&config, LOCALAI_NAME) {
        Ok(Client { config })
    } else {
        Err(
            ClientError::UnknownClient {
                client: config.model_info.client.clone(),
                index: config.model_info.index,
            },
        )
    }
}

impl Client {
    pub closed spec fn spec_config(&self) -> Config {
        self.config
    }

    /// A client exists only for a model that a registered backend takes.
    #[verifier::type_invariant]
    spec fn inv(&self) -> bool {
        selects_registered(self.config)
    }

    /// The identifier of the backend kind that this client talks to: the
    /// kind of the selected model, which is a registered one.
    pub fn kind(&self) -> (r: &str)
        ensures
            r@ == self.spec_config().model_info.client@,
            r@ == OPENAI_NAME@ || r@ == LOCALAI_NAME@,
            selects(self.spec_config(), r@),
    {
        proof {
            use_type_invariant(self);
        }
        self.config.model_info.client.as_str()
    }

    /// The configuration snapshot that this client was built from.
    pub fn get_config(&self) -> (r: &Config)
        ensures
            *r == self.spec_config(),
    {
        &self.config
    }

    /// The first step of a single exchange: in dry-run mode the echo of
    /// `content`, with no backend call; otherwise a call of the backend.
    pub fn send_message(&self, content: &str) -> (r: MessageStep)
        ensures
            self.spec_config().dry_run ==> (r matches MessageStep::Reply(s) && s@ == echo(content@)),
            !self.spec_config().dry_run ==> r is Fetch,
    {
        if self.config.dry_run {
            MessageStep::Reply(echo_messages(content))
        } else {
            MessageStep::Fetch
        }
    }

    /// The first step of a streaming exchange: in dry-run mode the echo of
    /// each word of `content`, in order, with no backend call; otherwise a
    /// call of the backend.
    pub fn send_message_streaming(&self, content: &str) -> (r: StreamStep)
        ensures
            self.spec_config().dry_run ==> (r matches StreamStep::Simulate(v) && views_of(v@)
                == words(echo(content@))),
            !self.spec_config().dry_run ==> r is Fetch,
    {
        if self.config.dry_run {
            let echoed = echo_messages(content);
            StreamStep::Simulate(split_text(echoed.as_str()))
        } else {
            StreamStep::Fetch
        }
    }
}

/// The outcome of a single exchange with the backend: a failure keeps the
/// backend's message and is marked as a failed fetch.
pub fn finish_message(fetched: Result<String, String>) -> (r: Result<String, ClientError>)
    ensures
        fetched matches Ok(s) ==> r == Ok::<String, ClientError>(s),
        fetched matches Err(c) ==> r == Err::<String, ClientError>(
            ClientError::Fetch { stream: false, cause: c },
        ),
{
    match fetched {
        Ok(s) => Ok(s),
        Err(cause) => Err(ClientError::Fetch { stream: false, cause }),
    }
}

/// A model picked from the catalog of a configuration belongs to a
/// registered backend of that configuration: selecting it lets a client be
/// built.
pub proof fn lemma_listed_model_selects_backend(config: Config, k: int)
    requires
        0 <= k < catalog(config.clients@).len(),
        config.model_info@ == catalog(config.clients@)[k],
    ensures
        selects_registered(config),
{
    lemma_catalog_entries_owned(config.clients@);
    let i = config.model_info.index as int;
    assert(catalog(config.clients@)[k].3 == i);
    match config.clients@[i] {
        ClientConfig::OpenAI(_) => assert(selects(config, OPENAI_NAME@)),
        ClientConfig::LocalAI(_) => assert(selects(config, LOCALAI_NAME@)),
    }
}

} // verus!
