use vstd::prelude::*;
use vstd::string::*;

verus! {

/// One model offered by one configured backend.
///
/// `index` is the position of the owning backend entry in the configured
/// backend list, not a global model identifier.
#[derive(Debug, Clone)]
pub struct ModelInfo {
    pub client: String,
    pub name: String,
    pub max_tokens: usize,
    pub index: usize,
}

impl View for ModelInfo {
    type V = (Seq<char>, Seq<char>, nat, nat);

    open spec fn view(&self) -> Self::V {
        (self.client@, self.name@, self.max_tokens as nat, self.index as nat)
    }
}

pub open spec fn model_views(v: Seq<ModelInfo>) -> Seq<(Seq<char>, Seq<char>, nat, nat)> {
    v.map_values(|m: ModelInfo| m@)
}

/// The text `client:name` that identifies a model to the user.
pub open spec fn qualified_name(client: Seq<char>, name: Seq<char>) -> Seq<char> {
    client + seq![':'] + name
}

impl ModelInfo {
    pub fn new(client: &str, name: &str, max_tokens: usize, index: usize) -> (r: Self)
        ensures
            r.client@ == client@,
            r.name@ == name@,
            r.max_tokens == max_tokens,
            r.index == index,
    {
        ModelInfo {
            client: String::from_str(client),
            name: String::from_str(name),
            max_tokens,
            index,
        }
    }

    pub fn stringify(&self) -> (r: String)
        ensures
            r@ == qualified_name(self.client@, self.name@),
    {
        let mut r = self.client.clone();
        r.append(":");
        r.append(self.name.as_str());
        proof {
            reveal_strlit(":");
        }
        assert(r@ =~= qualified_name(self.client@, self.name@));
        r
    }
}

} // verus!
