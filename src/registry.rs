use vstd::prelude::*;
use vstd::string::*;
use crate::config::{
    ClientConfig, Config, DEFAULT_MODEL_MAX_TOKENS, DEFAULT_MODEL_NAME, ModelEntry, OpenAIConfig,
};
use crate::error::ClientError;
use crate::model::{ModelInfo, model_views};
use crate::text::str_eq;

verus! {

/// The identifier of the OpenAI-compatible backend kind.
pub const OPENAI_NAME: &'static str = "openai";

/// The identifier of the LocalAI-compatible backend kind.
pub const LOCALAI_NAME: &'static str = "localai";

/// A configuration entry, ready to paste, for an OpenAI-compatible backend.
pub const OPENAI_TEMPLATE: &'static str = "- type: openai\n  api_key: sk-xxx\n  organization_id:\n  proxy:\n  connect_timeout: 10\n";

/// A configuration entry, ready to paste, for a LocalAI-compatible backend.
pub const LOCALAI_TEMPLATE: &'static str = "- type: localai\n  url: http://localhost:8080\n  api_key:\n  proxy:\n  connect_timeout: 10\n  models:\n    - name: llama2\n      max_tokens: 4096\n";

/// The identifier of the backend kind that a configuration entry selects.
pub open spec fn kind_name(c: ClientConfig) -> Seq<char> {
    match c {
        ClientConfig::OpenAI(_) => OPENAI_NAME@,
        ClientConfig::LocalAI(_) => LOCALAI_NAME@,
    }
}

/// The catalog entries of one backend at position `index` of the list.
pub open spec fn backend_models(c: ClientConfig, index: nat) -> Seq<(Seq<char>, Seq<char>, nat, nat)> {
    c.spec_models().map_values(|e: ModelEntry| (kind_name(c), e.name@, e.max_tokens as nat, index))
}

/// The models of all configured backends: backend order first, then the
/// order of each backend's own models.
pub open spec fn catalog(cs: Seq<ClientConfig>) -> Seq<(Seq<char>, Seq<char>, nat, nat)>
    decreases cs.len(),
{
    if cs.len() == 0 {
        seq![]
    } else {
        catalog(cs.drop_last()) + backend_models(cs.last(), (cs.len() - 1) as nat)
    }
}

impl ClientConfig {
    /// The identifier of the backend kind that this entry selects.
    pub fn name(&self) -> (r: &'static str)
        ensures
            r@ == kind_name(*self),
    {
        match self {
            ClientConfig::OpenAI(_) => OPENAI_NAME,
            ClientConfig::LocalAI(_) => LOCALAI_NAME,
        }
    }

    /// The models of this backend, tagged with its position `index` in the
    /// configured backend list.
    pub fn list_models(&self, index: usize) -> (r: Vec<ModelInfo>)
        ensures
            model_views(r@) == backend_models(*self, index as nat),
    {
        let kind = self.name();
        let models = self.models();
        let mut out: Vec<ModelInfo> = Vec::new();
        let mut j: usize = 0;
        while j < models.len()
            invariant
                kind@ == kind_name(*self),
                models@ == self.spec_models(),
                j <= models@.len(),
                model_views(out@) =~= backend_models(*self, index as nat).subrange(0, j as int),
            decreases models@.len() - j,
        {
            let m = ModelInfo::new(kind, models[j].name.as_str(), models[j].max_tokens, index);
            let ghost before = out@;
            out.push(m);
            assert(model_views(out@) =~= model_views(before).push(m@));
            assert(backend_models(*self, index as nat).subrange(0, j + 1) =~= backend_models(
                *self,
                index as nat,
            ).subrange(0, j as int).push(m@));
            j = j + 1;
        }
        out
    }
}

/// The identifiers of all registered backend kinds, in registry order.
pub fn all_clients() -> (r: Vec<&'static str>)
    ensures
        r@.len() == 2,
        r@[0]@ == OPENAI_NAME@,
        r@[1]@ == LOCALAI_NAME@,
{
    vec![OPENAI_NAME, LOCALAI_NAME]
}

/// A configuration template for the backend kind named `client`.
pub fn create_client_config(client: &str) -> (r: Result<String, ClientError>)
    ensures
        client@ == OPENAI_NAME@ ==> (r matches Ok(s) && s@ == OPENAI_TEMPLATE@),
        client@ == LOCALAI_NAME@ ==> (r matches Ok(s) && s@ == LOCALAI_TEMPLATE@),
        (client@ != OPENAI_NAME@ && client@ != LOCALAI_NAME@) ==> (r matches Err(
            ClientError::UnknownKind(k),
        ) && k@ == client@),
{
    proof {
        reveal_strlit("openai");
        reveal_strlit("localai");
    }
    assert(OPENAI_NAME@[0] != LOCALAI_NAME@[0]);
    if str_eq(client, OPENAI_NAME) {
        Ok(String::from_str(OPENAI_TEMPLATE))
    } else if str_eq(client, LOCALAI_NAME) {
        Ok(String::from_str(LOCALAI_TEMPLATE))
    } else {
        Err(ClientError::UnknownKind(String::from_str(client)))
    }
}

/// The models of all configured backends, each tagged with the position of
/// its backend in `config.clients`.
pub fn list_models(config: &Config) -> (r: Vec<ModelInfo>)
    ensures
        model_views(r@) == catalog(config.clients@),
{
    let cs = &config.clients;
    let mut out: Vec<ModelInfo> = Vec::new();
    let mut i: usize = 0;
    assert(cs@.subrange(0, 0) =~= seq![]);
    while i < cs.len()
        invariant
            i <= cs@.len(),
            model_views(out@) =~= catalog(cs@.subrange(0, i as int)),
        decreases cs@.len() - i,
    {
        let mut ms = cs[i].list_models(i);
        let ghost before = out@;
        out.append(&mut ms);
        assert(cs@.subrange(0, i + 1).drop_last() =~= cs@.subrange(0, i as int));
        assert(model_views(out@) =~= model_views(before) + backend_models(cs@[i as int], i as nat));
        i = i + 1;
    }
    assert(cs@.subrange(0, cs@.len() as int) =~= cs@);
    out
}

/// Where the models of the backend at position `i` begin in the catalog.
pub open spec fn catalog_offset(cs: Seq<ClientConfig>, i: int) -> int {
    catalog(cs.subrange(0, i)).len() as int
}

proof fn lemma_catalog_prefix(cs: Seq<ClientConfig>, m: int)
    requires
        0 <= m <= cs.len(),
    ensures
        catalog_offset(cs, m) <= catalog(cs).len(),
        catalog(cs).subrange(0, catalog_offset(cs, m)) == catalog(cs.subrange(0, m)),
    decreases cs.len(),
{
    if m == cs.len() {
        assert(cs.subrange(0, m) =~= cs);
        assert(catalog(cs).subrange(0, catalog_offset(cs, m)) =~= catalog(cs));
    } else {
        let dl = cs.drop_last();
        lemma_catalog_prefix(dl, m);
        assert(dl.subrange(0, m) =~= cs.subrange(0, m));
        assert(catalog(cs).subrange(0, catalog_offset(cs, m)) =~= catalog(dl).subrange(
            0,
            catalog_offset(dl, m),
        ));
    }
}

/// The catalog lists each configured backend's models together, backends in
/// configured order and each backend's models in its own order, every entry
/// tagged with the kind and the position of the backend that offers it.
pub proof fn lemma_catalog_layout(cs: Seq<ClientConfig>)
    ensures
        catalog(cs).len() == catalog_offset(cs, cs.len() as int),
        forall|i: int| 0 <= i < cs.len() ==> #[trigger] catalog_offset(cs, i + 1) == catalog_offset(cs, i)
            + cs[i].spec_models().len(),
        forall|i: int, j: int|
            0 <= i < cs.len() && 0 <= j < cs[i].spec_models().len() ==> #[trigger] catalog(cs)[catalog_offset(
                cs,
                i,
            ) + j] == (
                kind_name(cs[i]),
                #[trigger] cs[i].spec_models()[j].name@,
                cs[i].spec_models()[j].max_tokens as nat,
                i as nat,
            ),
{
    assert(cs.subrange(0, cs.len() as int) =~= cs);
    assert forall|i: int| 0 <= i < cs.len() implies #[trigger] catalog_offset(cs, i + 1) == catalog_offset(cs, i)
        + cs[i].spec_models().len() by {
        assert(cs.subrange(0, i + 1).drop_last() =~= cs.subrange(0, i));
    }
    assert forall|i: int, j: int|
        0 <= i < cs.len() && 0 <= j < cs[i].spec_models().len() implies #[trigger] catalog(cs)[catalog_offset(
            cs,
            i,
        ) + j] == (
            kind_name(cs[i]),
            #[trigger] cs[i].spec_models()[j].name@,
            cs[i].spec_models()[j].max_tokens as nat,
            i as nat,
        ) by {
        let pre = cs.subrange(0, i + 1);
        assert(pre.drop_last() =~= cs.subrange(0, i));
        assert(pre.last() == cs[i]);
        lemma_catalog_prefix(cs, i + 1);
        let k = catalog_offset(cs, i) + j;
        assert(catalog(pre)[k] == backend_models(cs[i], i as nat)[j]);
        assert(catalog(cs).subrange(0, catalog_offset(cs, i + 1))[k] == catalog(cs)[k]);
    }
}

impl Default for ModelInfo {
    /// The first model of an OpenAI-compatible backend with the default
    /// configuration, at the first position of the list.
    fn default() -> (r: Self)
        ensures
            r@ == (OPENAI_NAME@, DEFAULT_MODEL_NAME@, DEFAULT_MODEL_MAX_TOKENS as nat, 0nat),
    {
        let c = ClientConfig::OpenAI(OpenAIConfig::default());
        let mut ms = c.list_models(0);
        assert(c.spec_models().len() == 4);
        assert(backend_models(c, 0)[0] == (OPENAI_NAME@, DEFAULT_MODEL_NAME@, DEFAULT_MODEL_MAX_TOKENS as nat, 0nat));
        assert(model_views(ms@).len() == ms@.len());
        assert(model_views(ms@)[0] == ms@[0]@);
        ms.swap_remove(0)
    }
}

/// Every catalog entry is tagged with the position of a configured backend
/// of the entry's own kind.
pub proof fn lemma_catalog_entries_owned(cs: Seq<ClientConfig>)
    ensures
        forall|k: int|
            0 <= k < catalog(cs).len() ==> #[trigger] catalog(cs)[k].3 < cs.len() && kind_name(
                cs[catalog(cs)[k].3 as int],
            ) == catalog(cs)[k].0,
    decreases cs.len(),
{
    if cs.len() > 0 {
        let dl = cs.drop_last();
        lemma_catalog_entries_owned(dl);
        assert forall|k: int| 0 <= k < catalog(cs).len() implies #[trigger] catalog(cs)[k].3 < cs.len()
            && kind_name(cs[catalog(cs)[k].3 as int]) == catalog(cs)[k].0 by {
            if k < catalog(dl).len() {
                assert(catalog(cs)[k] == catalog(dl)[k]);
                assert(dl[catalog(dl)[k].3 as int] == cs[catalog(dl)[k].3 as int]);
            } else {
                let j = k - catalog(dl).len();
                assert(catalog(cs)[k] == backend_models(cs.last(), (cs.len() - 1) as nat)[j]);
            }
        }
    }
}

} // verus!
