//! The catalogue of model providers, and the rules for choosing a model and
//! storing its API key.

use vstd::prelude::*;
use vstd::string::StringExecFns;

use crate::node_runtime::prefixed;
use crate::text::{chars_of, push_str, str_eq, string_of, trim, trim_chars, trimmed};
use crate::version::{split_chars, split_on};

verus! {

pub struct ModelInfo {
    pub id: String,
    pub display_name: String,
    pub is_default: bool,
}

pub struct ProviderInfo {
    pub id: String,
    pub display_name: String,
    pub requires_api_key: bool,
    pub env_var: Option<String>,
    pub models: Vec<ModelInfo>,
}

/// The provider and model currently chosen, and whether a key is stored.
pub struct LlmConfigState {
    pub selected_provider: Option<String>,
    pub selected_model: Option<String>,
    pub has_api_key: bool,
}

pub open spec fn provider_ids() -> Seq<Seq<char>> {
    seq!["anthropic"@, "openai"@, "ollama"@]
}

pub open spec fn model_is(m: ModelInfo, id: Seq<char>, name: Seq<char>, is_default: bool) -> bool {
    m.id@ == id && m.display_name@ == name && m.is_default == is_default
}

/// Entry `k` of the catalogue.
pub open spec fn provider_row(p: ProviderInfo, k: int) -> bool {
    if k == 0 {
        &&& p.id@ == "anthropic"@
        &&& p.display_name@ == "Anthropic"@
        &&& p.requires_api_key
        &&& p.env_var matches Some(e) && e@ == "ANTHROPIC_API_KEY"@
        &&& p.models.len() == 0
    } else if k == 1 {
        &&& p.id@ == "openai"@
        &&& p.display_name@ == "OpenAI"@
        &&& p.requires_api_key
        &&& p.env_var matches Some(e) && e@ == "OPENAI_API_KEY"@
        &&& p.models.len() == 2
        &&& model_is(p.models[0], "openai/gpt-4o"@, "GPT-4o"@, true)
        &&& model_is(p.models[1], "openai/gpt-4o-mini"@, "GPT-4o Mini"@, false)
    } else {
        &&& p.id@ == "ollama"@
        &&& p.display_name@ == "Ollama"@
        &&& !p.requires_api_key
        &&& p.env_var is None
        &&& p.models.len() == 2
        &&& model_is(p.models[0], "ollama/llama3.2"@, "Llama 3.2"@, true)
        &&& model_is(p.models[1], "ollama/mistral"@, "Mistral"@, false)
    }
}

fn model(id: &str, name: &str, is_default: bool) -> (r: ModelInfo)
    ensures
        model_is(r, id@, name@, is_default),
{
    ModelInfo { id: String::from_str(id), display_name: String::from_str(name), is_default }
}

/// The providers on offer, each with its models, the default first.
pub fn providers() -> (r: Vec<ProviderInfo>)
    ensures
        r.len() == 3,
        forall|k: int| 0 <= k < 3 ==> provider_row(#[trigger] r[k], k),
{
    let mut r: Vec<ProviderInfo> = Vec::new();
    r.push(
        ProviderInfo {
            id: String::from_str("anthropic"),
            display_name: String::from_str("Anthropic"),
            requires_api_key: true,
            env_var: Some(String::from_str("ANTHROPIC_API_KEY")),
            models: Vec::new(),
        },
    );
    r.push(
        ProviderInfo {
            id: String::from_str("openai"),
            display_name: String::from_str("OpenAI"),
            requires_api_key: true,
            env_var: Some(String::from_str("OPENAI_API_KEY")),
            models: vec![
                model("openai/gpt-4o", "GPT-4o", true),
                model("openai/gpt-4o-mini", "GPT-4o Mini", false),
            ],
        },
    );
    r.push(
        ProviderInfo {
            id: String::from_str("ollama"),
            display_name: String::from_str("Ollama"),
            requires_api_key: false,
            env_var: None,
            models: vec![
                model("ollama/llama3.2", "Llama 3.2", true),
                model("ollama/mistral", "Mistral", false),
            ],
        },
    );
    r
}

/// The catalogue's providers are told apart by their ids.
pub proof fn lemma_provider_ids_distinct()
    ensures
        forall|i: int, j: int|
            0 <= i < j < 3 ==> #[trigger] provider_ids()[i] != #[trigger] provider_ids()[j],
{
    reveal_strlit("anthropic");
    reveal_strlit("openai");
    reveal_strlit("ollama");
    assert("anthropic"@[0] != "openai"@[0]);
    assert("anthropic"@[0] != "ollama"@[0]);
    assert("openai"@[1] != "ollama"@[1]);
}

/// The catalogue entry with id `provider`.
pub fn provider_by_id(provider: &str) -> (r: Option<ProviderInfo>)
    ensures
        r is Some == provider_ids().contains(provider@),
        r matches Some(p) ==> exists|k: int| 0 <= k < 3 && provider_ids()[k] == provider@ && provider_row(p, k),
{
    let mut all = providers();
    let ghost snapshot = all@;
    proof {
        lemma_provider_ids_distinct();
    }
    let mut k: usize = 0;
    while k < 3
        invariant
            k <= 3,
            all@ == snapshot,
            all.len() == 3,
            forall|j: int| 0 <= j < 3 ==> provider_row(#[trigger] snapshot[j], j),
            forall|j: int| 0 <= j < k ==> provider_ids()[j] != provider@,
        decreases 3 - k,
    {
        assert(provider_row(snapshot[k as int], k as int));
        assert(all[k as int].id@ == provider_ids()[k as int]);
        if str_eq(all[k].id.as_str(), provider) {
            let p = all.remove(k);
            return Some(p);
        }
        k = k + 1;
    }
    assert(!provider_ids().contains(provider@)) by {
        if provider_ids().contains(provider@) {
            let w = choose|w: int| 0 <= w < 3 && provider_ids()[w] == provider@;
        }
    }
    None
}

/// Whether one of `models` has the id `model`.
pub open spec fn offers(models: Seq<ModelInfo>, model: Seq<char>) -> bool {
    exists|i: int| 0 <= i < models.len() && (#[trigger] models[i]).id@ == model
}

/// The model ids that entry `k` of the catalogue offers, in order.
pub open spec fn row_models(k: int) -> Seq<Seq<char>> {
    if k == 0 {
        Seq::<Seq<char>>::empty()
    } else if k == 1 {
        seq!["openai/gpt-4o"@, "openai/gpt-4o-mini"@]
    } else {
        seq!["ollama/llama3.2"@, "ollama/mistral"@]
    }
}

/// Whether the catalogue has a provider `provider` that offers `model`.
pub open spec fn catalogue_offers(provider: Seq<char>, model: Seq<char>) -> bool {
    exists|k: int| 0 <= k < 3 && provider_ids()[k] == provider && #[trigger] row_models(k).contains(model)
}

proof fn lemma_row_models(p: ProviderInfo, k: int)
    requires
        0 <= k < 3,
        provider_row(p, k),
    ensures
        p.models.len() == row_models(k).len(),
        forall|j: int| 0 <= j < p.models.len() ==> (#[trigger] p.models@[j]).id@ == row_models(k)[j],
{
}

/// Checks a choice of provider and model: it is accepted exactly where the
/// provider exists and offers the model.
pub fn check_llm_selection(provider: &str, model: &str) -> (r: Result<ProviderInfo, String>)
    ensures
        r is Ok <==> catalogue_offers(provider@, model@),
        r matches Ok(p) ==> p.id@ == provider@ && offers(p.models@, model@),
        !provider_ids().contains(provider@) ==> (r matches Err(m) && m@ == "unknown provider: "@
            + provider@),
        provider_ids().contains(provider@) && r is Err ==> (r matches Err(m) && m@ == "model "@
            + model@ + " is not valid for provider "@ + provider@),
{
    let info = match provider_by_id(provider) {
        Some(p) => p,
        None => {
            return Err(prefixed("unknown provider: ", provider));
        },
    };
    let ghost k0 = choose|k: int| 0 <= k < 3 && provider_ids()[k] == provider@ && provider_row(info, k);
    proof {
        assert(info.id@ == provider_ids()[k0]);
        lemma_row_models(info, k0);
        lemma_provider_ids_distinct();
    }
    let mut i: usize = 0;
    while i < info.models.len()
        invariant
            i <= info.models.len(),
            info.id@ == provider@,
            provider_ids().contains(provider@),
            0 <= k0 < 3,
            provider_ids()[k0] == provider@,
            info.models.len() == row_models(k0).len(),
            forall|j: int| 0 <= j < info.models.len() ==> (#[trigger] info.models@[j]).id@ == row_models(k0)[j],
            forall|j: int| 0 <= j < i ==> (#[trigger] info.models@[j]).id@ != model@,
        decreases info.models.len() - i,
    {
        if str_eq(info.models[i].id.as_str(), model) {
            assert(info.models@[i as int].id@ == model@);
            assert(row_models(k0)[i as int] == model@);
            assert(row_models(k0).contains(model@));
            return Ok(info);
        }
        i = i + 1;
    }
    proof {
        lemma_provider_ids_distinct();
        assert(!row_models(k0).contains(model@)) by {
            if row_models(k0).contains(model@) {
                let w = choose|w: int| 0 <= w < row_models(k0).len() && row_models(k0)[w] == model@;
                assert(info.models@[w].id@ == model@);
            }
        }
        assert forall|k: int| 0 <= k < 3 && provider_ids()[k] == provider@ implies !#[trigger] row_models(k).contains(model@) by {
            assert(k == k0);
        }
    }
    let mut m: Vec<char> = Vec::new();
    push_str(&mut m, "model ");
    push_str(&mut m, model);
    push_str(&mut m, " is not valid for provider ");
    push_str(&mut m, provider);
    Err(string_of(m.as_slice()))
}

/// The key to store for a chosen provider: none where the provider needs
/// no key or no non-blank key was given; else its variable name and the
/// trimmed key. A provider that needs a key but names no variable is refused.
pub fn api_key_entry(info: &ProviderInfo, api_key: Option<String>) -> (r: Result<
    Option<(String, String)>,
    String,
>)
    ensures
        !info.requires_api_key ==> r == Ok::<Option<(String, String)>, String>(None),
        info.requires_api_key && info.env_var is None ==> (r matches Err(m) && m@ == "provider "@
            + info.id@ + " missing env var metadata"@),
        info.requires_api_key && info.env_var is Some ==> (r matches Ok(e) && (match api_key {
            Some(k) => if trim(k@).len() > 0 {
                e matches Some(pair) && pair.0@ == info.env_var->0@ && pair.1@ == trim(k@)
            } else {
                e is None
            },
            None => e is None,
        })),
{
    if !info.requires_api_key {
        return Ok(None);
    }
    let env_name = match &info.env_var {
        Some(e) => e.clone(),
        None => {
            let mut m: Vec<char> = Vec::new();
            push_str(&mut m, "provider ");
            push_str(&mut m, info.id.as_str());
            push_str(&mut m, " missing env var metadata");
            return Err(string_of(m.as_slice()));
        },
    };
    match api_key {
        Some(k) => {
            let t = trimmed(k.as_str());
            if t.as_str().unicode_len() == 0 {
                Ok(None)
            } else {
                Ok(Some((env_name, t)))
            }
        },
        None => Ok(None),
    }
}

/// The value stored under `name` among `keys`, the first such pair.
pub open spec fn key_value(keys: Seq<(String, String)>, name: Seq<char>) -> Option<Seq<char>>
    decreases keys.len(),
{
    if keys.len() == 0 {
        None
    } else if keys[0].0@ == name {
        Some(keys[0].1@)
    } else {
        key_value(keys.drop_first(), name)
    }
}

fn lookup_key(keys: &Vec<(String, String)>, name: &str) -> (r: Option<String>)
    ensures
        r matches Some(v) ==> key_value(keys@, name@) == Some(v@),
        r is None ==> key_value(keys@, name@) is None,
{
    let mut i: usize = 0;
    assert(keys@.subrange(0, keys@.len() as int) =~= keys@);
    while i < keys.len()
        invariant
            i <= keys.len(),
            key_value(keys@, name@) == key_value(keys@.subrange(i as int, keys@.len() as int), name@),
        decreases keys.len() - i,
    {
        let ghost cur = keys@.subrange(i as int, keys@.len() as int);
        assert(cur.drop_first() =~= keys@.subrange(i + 1, keys@.len() as int));
        assert(cur[0] == keys@[i as int]);
        if str_eq(keys[i].0.as_str(), name) {
            return Some(keys[i].1.clone());
        }
        i = i + 1;
    }
    None
}

/// The provider part of a model id: what precedes its first `/`.
pub open spec fn provider_of(model: Seq<char>) -> Seq<char> {
    split_on(model, '/')[0]
}

/// Whether a key is stored for the provider of `model`: the provider is in
/// the catalogue, names a variable, and a non-blank value is stored under it.
pub open spec fn key_stored(model: Seq<char>, keys: Seq<(String, String)>) -> bool {
    exists|k: int|
        0 <= k < 3 && #[trigger] provider_ids()[k] == provider_of(model) && k != 2 && (
        key_value(keys, if k == 0 { "ANTHROPIC_API_KEY"@ } else { "OPENAI_API_KEY"@ }) matches Some(v)
            && trim(v).len() > 0)
}

/// The configuration state: the model named in the tool's configuration,
/// its provider, and whether a key is stored for that provider.
pub fn llm_config_state(selected_model: Option<String>, keys: &Vec<(String, String)>) -> (r: LlmConfigState)
    ensures
        r.selected_model == selected_model,
        selected_model is None ==> r.selected_provider is None && !r.has_api_key,
        selected_model matches Some(m) ==> (r.selected_provider matches Some(p) && p@ == provider_of(
            m@,
        )) && r.has_api_key == key_stored(m@, keys@),
{
    let (selected_provider, has_api_key) = match &selected_model {
        Some(m) => {
            let chars = chars_of(m.as_str());
            let pieces = split_chars(&chars, '/');
            proof {
                crate::version::lemma_split_nonempty(chars@, '/');
            }
            let p = string_of(pieces[0].as_slice());
            let has = match provider_by_id(p.as_str()) {
                Some(info) => {
                    proof {
                        lemma_provider_ids_distinct();
                    }
                    match &info.env_var {
                        Some(env) => match lookup_key(keys, env.as_str()) {
                            Some(v) => trim_chars(&chars_of(v.as_str())).len() > 0,
                            None => false,
                        },
                        None => false,
                    }
                },
                None => false,
            };
            (Some(p), has)
        },
        None => (None, false),
    };
    LlmConfigState { selected_provider, selected_model, has_api_key }
}

} // verus!
