//! Resolving which provider and model a call will use.
//!
//! The provider table is kept in listing order. A request names a provider
//! and a model, or leaves them to the active settings; where that does not
//! resolve, the usable providers are tried in order, those on this machine
//! first where the caller prefers them.

use base64::Engine;
use vstd::prelude::*;
use vstd::string::StringSliceAdditionalSpecFns;
use crate::agents::{
    AiProviderInfo, AiRuntimeSelection, AiSettingsSnapshot, AiSettingsUpdate, ProviderRow,
};
use crate::errors::EngineError;
use crate::keyed::{Keyed, find_row, holds_key, lemma_holds_key_has_position, position_of};
use crate::store::Settings;
use crate::text::{
    Trim, chars_of, clone_text, contains_text, str_eq, string_of_range, trim_range, trimmed,
    views,
};

verus! {

/// The Base64 text (standard alphabet, padded) of a run of bytes.
pub uninterp spec fn base64_text(bytes: Seq<u8>) -> Seq<char>;

/// The bytes that a Base64 text (standard alphabet, padded) stands for;
/// `None` where the text is not valid.
pub uninterp spec fn base64_bytes(text: Seq<char>) -> Option<Seq<u8>>;

/// `Engine::encode` of `base64::engine::general_purpose::STANDARD`. The crate
/// panics where the length of the text would not fit `usize`; such inputs are
/// left out.
#[verifier::external_body]
fn base64_encode(bytes: &[u8]) -> (text: String)
    requires
        (bytes@.len() / 3 + 1) * 4 <= usize::MAX,
    ensures
        text@ == base64_text(bytes@),
{
    base64::engine::general_purpose::STANDARD.encode(bytes)
}

/// `Engine::decode` of `base64::engine::general_purpose::STANDARD`; `None`
/// where the crate reports the text as invalid.
#[verifier::external_body]
fn base64_decode(text: &str) -> (bytes: Option<Vec<u8>>)
    ensures
        bytes is Some <==> base64_bytes(text@) is Some,
        bytes is Some ==> bytes.unwrap()@ == base64_bytes(text@).unwrap(),
{
    match base64::engine::general_purpose::STANDARD.decode(text) {
        Ok(bytes) => Some(bytes),
        Err(_) => None,
    }
}

/// `String::from_utf8`: the string whose bytes are `bytes`, `None` where
/// they are not valid UTF-8.
#[verifier::external_body]
fn text_of_utf8(bytes: Vec<u8>) -> (text: Option<String>)
    ensures
        text is Some <==> vstd::utf8::valid_utf8(bytes@),
        text is Some ==> vstd::utf8::encode_utf8(text.unwrap()@) == bytes@,
{
    match String::from_utf8(bytes) {
        Ok(text) => Some(text),
        Err(_) => None,
    }
}

/// The secret that a stored credential stands for: none where nothing is
/// stored, an error where what is stored cannot be read.
pub open spec fn secret_of(credential: Option<String>) -> Result<Option<Seq<char>>, EngineError> {
    match credential {
        None => Ok(None),
        Some(stored) => match base64_bytes(stored@) {
            None => Err(EngineError::StoreFailure),
            Some(bytes) => if vstd::utf8::valid_utf8(bytes) {
                Ok(Some(vstd::utf8::decode_utf8(bytes)))
            } else {
                Err(EngineError::StoreFailure)
            },
        },
    }
}

/// Reads the secret of a stored credential.
pub fn load_secret(credential: &Option<String>) -> (secret: Result<Option<String>, EngineError>)
    ensures
        secret is Ok <==> secret_of(*credential) is Ok,
        secret is Err ==> secret->Err_0 == EngineError::StoreFailure,
        secret is Ok ==> (secret.unwrap() is Some <==> secret_of(*credential).unwrap() is Some),
        secret is Ok && secret.unwrap() is Some ==> secret.unwrap().unwrap()@ == secret_of(
            *credential,
        ).unwrap().unwrap(),
{
    match credential {
        None => Ok(None),
        Some(stored) => match base64_decode(stored.as_str()) {
            None => Err(EngineError::StoreFailure),
            Some(bytes) => {
                match text_of_utf8(bytes) {
                    Some(text) => {
                        proof {
                            vstd::utf8::encode_utf8_decode_utf8(text@);
                        }
                        Ok(Some(text))
                    },
                    None => Err(EngineError::StoreFailure),
                }
            },
        },
    }
}

/// Lists the providers, in table order.
pub fn list_providers(providers: &Vec<ProviderRow>) -> (listed: Vec<AiProviderInfo>)
    ensures
        listed.len() == providers.len(),
        forall|i: int| 0 <= i < listed.len() ==> (#[trigger] providers[i]).listed_as(listed[i]),
{
    let mut listed: Vec<AiProviderInfo> = Vec::new();
    let mut i: usize = 0;
    while i < providers.len()
        invariant
            i <= providers.len(),
            listed.len() == i,
            forall|k: int| 0 <= k < i ==> (#[trigger] providers[k]).listed_as(listed[k]),
        decreases providers.len() - i,
    {
        listed.push(providers[i].to_info());
        i += 1;
    }
    listed
}

/// The provider a request is for: the one it names, else the active one.
pub open spec fn wanted_provider(settings: Settings, provider_override: Option<String>) -> Option<
    String,
> {
    match provider_override {
        Some(id) => Some(id),
        None => settings.active_provider_id,
    }
}

/// The model a request asks for, before it is held against the provider's
/// list: the one it names, else the active one, else the provider's default,
/// else the first the provider lists.
pub open spec fn wanted_model(
    row: ProviderRow,
    settings: Settings,
    model_override: Option<String>,
) -> Option<String> {
    match model_override {
        Some(model) => Some(model),
        None => match settings.active_model {
            Some(model) => Some(model),
            None => match row.default_model {
                Some(model) => Some(model),
                None => if row.models@.len() > 0 {
                    Some(row.models@[0])
                } else {
                    None
                },
            },
        },
    }
}

/// The model a request resolves to: the wanted one where the provider lists
/// it or lists nothing, else the first the provider lists.
pub open spec fn resolved_model(
    row: ProviderRow,
    settings: Settings,
    model_override: Option<String>,
) -> Option<String> {
    match wanted_model(row, settings, model_override) {
        Some(model) => if row.models@.len() > 0 && !views(row.models@).contains(model@) {
            Some(row.models@[0])
        } else {
            Some(model)
        },
        None => None,
    }
}

/// Why a request does not resolve, if it does not.
pub open spec fn resolve_failure(
    providers: Seq<ProviderRow>,
    settings: Settings,
    provider_override: Option<String>,
    model_override: Option<String>,
) -> Option<EngineError> {
    match wanted_provider(settings, provider_override) {
        None => Some(EngineError::NoProviderConfigured),
        Some(id) => if !holds_key(providers, id@) {
            Some(EngineError::NotFound)
        } else {
            let row = providers[position_of(providers, id@)];
            if resolved_model(row, settings, model_override) is None {
                Some(EngineError::NoProviderConfigured)
            } else if secret_of(row.credential) is Err {
                Some(EngineError::StoreFailure)
            } else {
                None
            }
        },
    }
}

/// Whether `selection` is what a request for the provider `row` resolves to.
pub open spec fn is_selection_of(
    selection: AiRuntimeSelection,
    row: ProviderRow,
    settings: Settings,
    model_override: Option<String>,
) -> bool {
    &&& row.listed_as(selection.provider)
    &&& Some(selection.model) == resolved_model(row, settings, model_override)
    &&& secret_of(row.credential) is Ok
    &&& selection.secret is Some <==> secret_of(row.credential).unwrap() is Some
    &&& selection.secret is Some ==> selection.secret.unwrap()@ == secret_of(
        row.credential,
    ).unwrap().unwrap()
}

/// Resolves the provider, model and secret of a request, without fallback.
pub fn resolve_runtime(
    providers: &Vec<ProviderRow>,
    settings: &Settings,
    provider_override: Option<String>,
    model_override: Option<String>,
) -> (selection: Result<AiRuntimeSelection, EngineError>)
    ensures
        selection is Err <==> resolve_failure(
            providers@,
            *settings,
            provider_override,
            model_override,
        ) is Some,
        selection is Err ==> Some(selection->Err_0) == resolve_failure(
            providers@,
            *settings,
            provider_override,
            model_override,
        ),
        selection is Ok ==> is_selection_of(
            selection.unwrap(),
            providers@[position_of(
                providers@,
                wanted_provider(*settings, provider_override).unwrap()@,
            )],
            *settings,
            model_override,
        ),
{
    let provider_id = match provider_override {
        Some(id) => id,
        None => match &settings.active_provider_id {
            Some(id) => id.clone(),
            None => {
                return Err(EngineError::NoProviderConfigured);
            },
        },
    };
    let at = match find_row(providers, provider_id.as_str()) {
        Some(at) => at,
        None => {
            return Err(EngineError::NotFound);
        },
    };
    let row = &providers[at];
    let wanted = match model_override {
        Some(model) => Some(model),
        None => match &settings.active_model {
            Some(model) => Some(model.clone()),
            None => match &row.default_model {
                Some(model) => Some(model.clone()),
                None => if row.models.len() > 0 {
                    Some(row.models[0].clone())
                } else {
                    None
                },
            },
        },
    };
    let model = match wanted {
        Some(model) => if row.models.len() > 0 && !contains_text(&row.models, &model) {
            row.models[0].clone()
        } else {
            model
        },
        None => {
            return Err(EngineError::NoProviderConfigured);
        },
    };
    let secret = match load_secret(&row.credential) {
        Ok(secret) => secret,
        Err(error) => {
            return Err(error);
        },
    };
    Ok(AiRuntimeSelection { provider: row.to_info(), model, secret })
}

/// Whether the provider at `position` can stand in for the one a request
/// named: it is usable, it is not the provider the request named, and it
/// resolves.
pub open spec fn can_stand_in(
    providers: Seq<ProviderRow>,
    settings: Settings,
    provider_override: Option<String>,
    model_override: Option<String>,
    position: int,
) -> bool {
    let row = providers[position];
    &&& row.usable()
    &&& provider_override is Some ==> provider_override.unwrap()@ != row.id@
    &&& resolve_failure(providers, settings, Some(row.id), model_override) is None
}

/// Whether the provider at `q` is looked at before the one at `p`: in table
/// order, but with local providers first where `local_first` holds.
pub open spec fn tried_before(providers: Seq<ProviderRow>, local_first: bool, q: int, p: int) -> bool {
    if local_first && providers[q].is_local() != providers[p].is_local() {
        providers[q].is_local()
    } else {
        q < p
    }
}

/// Whether no usable provider that is looked at before the one at `position`
/// has the same identifier.
pub open spec fn leads_its_id(providers: Seq<ProviderRow>, local_first: bool, position: int) -> bool {
    forall|q: int|
        0 <= q < providers.len() && #[trigger] tried_before(providers, local_first, q, position)
            && providers[q].usable() ==> providers[q].id@ != providers[position].id@
}

/// Whether the provider at `position` is an alternative for a request: it can
/// stand in for the provider the request named, and its identifier was not
/// seen before, so that no identifier is tried twice.
pub open spec fn is_alternative(
    providers: Seq<ProviderRow>,
    settings: Settings,
    provider_override: Option<String>,
    model_override: Option<String>,
    local_first: bool,
    position: int,
) -> bool {
    &&& can_stand_in(providers, settings, provider_override, model_override, position)
    &&& leads_its_id(providers, local_first, position)
}

/// The positions below `upto` of the alternatives for a request, in table
/// order; with `local` given, local providers come first and only those that
/// are (or are not) local are listed.
pub open spec fn alternatives_upto(
    providers: Seq<ProviderRow>,
    settings: Settings,
    provider_override: Option<String>,
    model_override: Option<String>,
    local: Option<bool>,
    upto: int,
) -> Seq<int>
    decreases upto,
{
    if upto <= 0 {
        Seq::empty()
    } else {
        let before = alternatives_upto(
            providers,
            settings,
            provider_override,
            model_override,
            local,
            upto - 1,
        );
        if is_alternative(
            providers,
            settings,
            provider_override,
            model_override,
            local is Some,
            upto - 1,
        ) && (local is None || providers[upto - 1].is_local() == local.unwrap()) {
            before.push(upto - 1)
        } else {
            before
        }
    }
}

/// The positions of the alternatives for a request, in the order in which
/// they are tried: table order, local providers first where preferred.
pub open spec fn alternative_positions(
    providers: Seq<ProviderRow>,
    settings: Settings,
    provider_override: Option<String>,
    model_override: Option<String>,
    prefer_local: bool,
) -> Seq<int> {
    let n = providers.len() as int;
    if prefer_local {
        alternatives_upto(providers, settings, provider_override, model_override, Some(true), n)
            + alternatives_upto(
            providers,
            settings,
            provider_override,
            model_override,
            Some(false),
            n,
        )
    } else {
        alternatives_upto(providers, settings, provider_override, model_override, None, n)
    }
}

/// Whether `list` holds, ascending, positions below `upto` of alternatives of
/// the class `local`.
pub open spec fn lists_class(
    list: Seq<int>,
    providers: Seq<ProviderRow>,
    settings: Settings,
    provider_override: Option<String>,
    model_override: Option<String>,
    local: Option<bool>,
    upto: int,
) -> bool {
    &&& forall|k: int|
        0 <= k < list.len() ==> {
            let p = #[trigger] list[k];
            &&& 0 <= p < upto
            &&& is_alternative(
                providers,
                settings,
                provider_override,
                model_override,
                local is Some,
                p,
            )
            &&& local is Some ==> providers[p].is_local() == local.unwrap()
        }
    &&& forall|j: int, k: int| 0 <= j < k < list.len() ==> #[trigger] list[j] < #[trigger] list[k]
}

/// The positions listed for one class are alternatives of that class, and
/// they ascend.
pub proof fn lemma_alternatives_upto(
    providers: Seq<ProviderRow>,
    settings: Settings,
    provider_override: Option<String>,
    model_override: Option<String>,
    local: Option<bool>,
    upto: int,
)
    ensures
        lists_class(
            alternatives_upto(providers, settings, provider_override, model_override, local, upto),
            providers,
            settings,
            provider_override,
            model_override,
            local,
            upto,
        ),
    decreases upto,
{
    if upto > 0 {
        lemma_alternatives_upto(
            providers,
            settings,
            provider_override,
            model_override,
            local,
            upto - 1,
        );
        let before = alternatives_upto(
            providers,
            settings,
            provider_override,
            model_override,
            local,
            upto - 1,
        );
        let list = alternatives_upto(
            providers,
            settings,
            provider_override,
            model_override,
            local,
            upto,
        );
        assert forall|k: int| 0 <= k < list.len() implies {
            let p = #[trigger] list[k];
            &&& 0 <= p < upto
            &&& is_alternative(
                providers,
                settings,
                provider_override,
                model_override,
                local is Some,
                p,
            )
            &&& local is Some ==> providers[p].is_local() == local.unwrap()
        } by {
            if k < before.len() {
                assert(list[k] == before[k]);
            }
        }
        assert forall|j: int, k: int| 0 <= j < k < list.len() implies #[trigger] list[j]
            < #[trigger] list[k] by {
            assert(list[j] == before[j]);
            if k < before.len() {
                assert(list[k] == before[k]);
            }
        }
    }
}

/// No identifier is tried twice: two alternatives for a request, at different
/// places of the list, have different identifiers.
pub proof fn lemma_alternatives_distinct(
    providers: Seq<ProviderRow>,
    settings: Settings,
    provider_override: Option<String>,
    model_override: Option<String>,
    prefer_local: bool,
    a: int,
    b: int,
)
    requires
        0 <= a < b < alternative_positions(
            providers,
            settings,
            provider_override,
            model_override,
            prefer_local,
        ).len(),
    ensures
        ({
            let positions = alternative_positions(
                providers,
                settings,
                provider_override,
                model_override,
                prefer_local,
            );
            &&& 0 <= positions[a] < providers.len()
            &&& 0 <= positions[b] < providers.len()
            &&& providers[positions[a]].id@ != providers[positions[b]].id@
        }),
{
    let n = providers.len() as int;
    let positions = alternative_positions(
        providers,
        settings,
        provider_override,
        model_override,
        prefer_local,
    );
    if prefer_local {
        lemma_alternatives_upto(
            providers,
            settings,
            provider_override,
            model_override,
            Some(true),
            n,
        );
        lemma_alternatives_upto(
            providers,
            settings,
            provider_override,
            model_override,
            Some(false),
            n,
        );
    } else {
        lemma_alternatives_upto(providers, settings, provider_override, model_override, None, n);
    }
    let locals = alternatives_upto(
        providers,
        settings,
        provider_override,
        model_override,
        Some(true),
        n,
    );
    if prefer_local && a < locals.len() {
        assert(positions[a] == locals[a]);
    }
    if prefer_local && b < locals.len() {
        assert(positions[b] == locals[b]);
    }
    assert(tried_before(providers, prefer_local, positions[a], positions[b]));
}

/// Whether `selections` are what the providers at `positions` resolve to.
pub open spec fn selections_match(
    selections: Seq<AiRuntimeSelection>,
    positions: Seq<int>,
    providers: Seq<ProviderRow>,
    settings: Settings,
    model_override: Option<String>,
) -> bool {
    &&& selections.len() == positions.len()
    &&& forall|k: int| 0 <= k < positions.len() ==> 0 <= #[trigger] positions[k] < providers.len()
    &&& forall|k: int|
        0 <= k < selections.len() ==> is_selection_of(
            #[trigger] selections[k],
            row_named_at(providers, positions[k]),
            settings,
            model_override,
        )
}

/// The row that the identifier of the row at `position` names: the row
/// itself, in a table whose identifiers are all different.
pub open spec fn row_named_at(providers: Seq<ProviderRow>, position: int) -> ProviderRow {
    providers[position_of(providers, providers[position].id@)]
}

/// Whether the provider at `q` has been looked at once the providers of the
/// class `local` below `upto` have been; the other class, where there is one,
/// has been looked at wholly if it is the local one and not at all otherwise.
pub open spec fn looked_at(providers: Seq<ProviderRow>, local: Option<bool>, upto: int, q: int) -> bool {
    match local {
        None => q < upto,
        Some(wanted) => if providers[q].is_local() == wanted {
            q < upto
        } else {
            !wanted
        },
    }
}

/// Whether `seen` holds the identifier of every provider looked at so far
/// that can stand in for the one the request named.
pub open spec fn seen_covers(
    seen: Seq<Seq<char>>,
    providers: Seq<ProviderRow>,
    settings: Settings,
    provider_override: Option<String>,
    model_override: Option<String>,
    local: Option<bool>,
    upto: int,
) -> bool {
    forall|q: int|
        0 <= q < providers.len() && #[trigger] looked_at(providers, local, upto, q) && can_stand_in(
            providers,
            settings,
            provider_override,
            model_override,
            q,
        ) ==> seen.contains(providers[q].id@)
}

/// Whether a usable provider looked at so far has the identifier `id`.
pub open spec fn met_usable(providers: Seq<ProviderRow>, local: Option<bool>, upto: int, id: Seq<char>) -> bool {
    exists|q: int|
        0 <= q < providers.len() && #[trigger] looked_at(providers, local, upto, q)
            && providers[q].usable() && providers[q].id@ == id
}

/// Whether every identifier in `seen` is that of a usable provider looked at
/// so far.
pub open spec fn seen_founded(
    seen: Seq<Seq<char>>,
    providers: Seq<ProviderRow>,
    local: Option<bool>,
    upto: int,
) -> bool {
    forall|k: int| 0 <= k < seen.len() ==> met_usable(providers, local, upto, #[trigger] seen[k])
}

/// Appends to `found` the alternatives of one locality class, in table order,
/// and to `seen` their identifiers.
fn collect_class(
    found: &mut Vec<AiRuntimeSelection>,
    seen: &mut Vec<String>,
    providers: &Vec<ProviderRow>,
    settings: &Settings,
    provider_override: &Option<String>,
    model_override: &Option<String>,
    local: Option<bool>,
    Ghost(head): Ghost<Seq<int>>,
)
    requires
        selections_match(old(found)@, head, providers@, *settings, *model_override),
        seen_covers(
            views(old(seen)@),
            providers@,
            *settings,
            *provider_override,
            *model_override,
            local,
            0,
        ),
        seen_founded(views(old(seen)@), providers@, local, 0),
    ensures
        selections_match(
            final(found)@,
            head + alternatives_upto(
                providers@,
                *settings,
                *provider_override,
                *model_override,
                local,
                providers.len() as int,
            ),
            providers@,
            *settings,
            *model_override,
        ),
        seen_covers(
            views(final(seen)@),
            providers@,
            *settings,
            *provider_override,
            *model_override,
            local,
            providers.len() as int,
        ),
        seen_founded(views(final(seen)@), providers@, local, providers.len() as int),
{
    let mut i: usize = 0;
    while i < providers.len()
        invariant
            i <= providers.len(),
            selections_match(
                found@,
                head + alternatives_upto(
                    providers@,
                    *settings,
                    *provider_override,
                    *model_override,
                    local,
                    i as int,
                ),
                providers@,
                *settings,
                *model_override,
            ),
            seen_covers(
                views(seen@),
                providers@,
                *settings,
                *provider_override,
                *model_override,
                local,
                i as int,
            ),
            seen_founded(views(seen@), providers@, local, i as int),
        decreases providers.len() - i,
    {
        let row = &providers[i];
        let ghost positions = head + alternatives_upto(
            providers@,
            *settings,
            *provider_override,
            *model_override,
            local,
            i as int,
        );
        let ghost seen_before = views(seen@);
        let in_class = match local {
            Some(wanted) => str_eq(row.kind.as_str(), "local") == wanted,
            None => true,
        };
        let usable = !row.requires_api_key || row.credential.is_some();
        let named = match provider_override {
            Some(id) => str_eq(id.as_str(), row.id.as_str()),
            None => false,
        };
        if in_class && usable && !named {
            if contains_text(seen, &row.id) {
                proof {
                    let k = choose|k: int| 0 <= k < seen_before.len() && seen_before[k] == row.id@;
                    let q = choose|q: int|
                        0 <= q < providers.len() && #[trigger] looked_at(
                            providers@,
                            local,
                            i as int,
                            q,
                        ) && providers@[q].usable() && providers@[q].id@ == row.id@;
                    assert(tried_before(providers@, local is Some, q, i as int));
                }
            } else {
                match resolve_runtime(
                    providers,
                    settings,
                    Some(row.id.clone()),
                    clone_text(model_override),
                ) {
                    Ok(selection) => {
                        proof {
                            assert forall|q: int|
                                0 <= q < providers.len() && #[trigger] tried_before(
                                    providers@,
                                    local is Some,
                                    q,
                                    i as int,
                                ) && providers@[q].usable() implies providers@[q].id@
                                != row.id@ by {
                                if providers@[q].id@ == row.id@ {
                                    assert(looked_at(providers@, local, i as int, q));
                                }
                            }
                            assert(head + alternatives_upto(
                                providers@,
                                *settings,
                                *provider_override,
                                *model_override,
                                local,
                                i + 1,
                            ) == positions.push(i as int));
                        }
                        found.push(selection);
                        seen.push(row.id.clone());
                    },
                    Err(_) => {},
                }
            }
        }
        proof {
            let after = views(seen@);
            assert forall|x: Seq<char>| seen_before.contains(x) implies after.contains(x) by {
                let k = choose|k: int| 0 <= k < seen_before.len() && seen_before[k] == x;
                assert(after[k] == x);
            }
            assert forall|q: int|
                0 <= q < providers.len() && #[trigger] looked_at(providers@, local, i + 1, q)
                    && can_stand_in(
                    providers@,
                    *settings,
                    *provider_override,
                    *model_override,
                    q,
                ) implies after.contains(providers@[q].id@) by {
                if q == i as int && !looked_at(providers@, local, i as int, q) {
                    if after.len() > seen_before.len() {
                        assert(after[after.len() - 1] == row.id@);
                    }
                } else {
                    assert(looked_at(providers@, local, i as int, q));
                }
            }
            assert forall|k: int| 0 <= k < after.len() implies met_usable(
                providers@,
                local,
                i + 1,
                #[trigger] after[k],
            ) by {
                if k < seen_before.len() {
                    assert(met_usable(providers@, local, i as int, seen_before[k]));
                    let q = choose|q: int|
                        0 <= q < providers.len() && #[trigger] looked_at(
                            providers@,
                            local,
                            i as int,
                            q,
                        ) && providers@[q].usable() && providers@[q].id@ == after[k];
                    assert(looked_at(providers@, local, i + 1, q));
                } else {
                    assert(looked_at(providers@, local, i + 1, i as int));
                }
            }
        }
        i += 1;
    }
}

/// Collects the providers that can stand in for the one a request names, in
/// the order in which they are to be tried: table order, local providers
/// first where preferred. No identifier is listed twice.
pub fn collect_alternative_runtimes(
    providers: &Vec<ProviderRow>,
    settings: &Settings,
    provider_override: &Option<String>,
    model_override: &Option<String>,
    prefer_local: bool,
) -> (attempts: Vec<AiRuntimeSelection>)
    ensures
        selections_match(
            attempts@,
            alternative_positions(
                providers@,
                *settings,
                *provider_override,
                *model_override,
                prefer_local,
            ),
            providers@,
            *settings,
            *model_override,
        ),
{
    let mut attempts: Vec<AiRuntimeSelection> = Vec::new();
    let mut seen: Vec<String> = Vec::new();
    if prefer_local {
        collect_class(
            &mut attempts,
            &mut seen,
            providers,
            settings,
            provider_override,
            model_override,
            Some(true),
            Ghost(Seq::empty()),
        );
        let ghost locals = alternatives_upto(
            providers@,
            *settings,
            *provider_override,
            *model_override,
            Some(true),
            providers.len() as int,
        );
        proof {
            let ids = views(seen@);
            assert forall|q: int|
                0 <= q < providers.len() && #[trigger] looked_at(providers@, Some(false), 0, q)
                    && can_stand_in(
                    providers@,
                    *settings,
                    *provider_override,
                    *model_override,
                    q,
                ) implies ids.contains(providers@[q].id@) by {
                assert(looked_at(providers@, Some(true), providers.len() as int, q));
            }
            assert forall|k: int| 0 <= k < ids.len() implies met_usable(
                providers@,
                Some(false),
                0,
                #[trigger] ids[k],
            ) by {
                let q = choose|q: int|
                    0 <= q < providers.len() && #[trigger] looked_at(
                        providers@,
                        Some(true),
                        providers.len() as int,
                        q,
                    ) && providers@[q].usable() && providers@[q].id@ == ids[k];
                assert(looked_at(providers@, Some(false), 0, q));
            }
        }
        collect_class(
            &mut attempts,
            &mut seen,
            providers,
            settings,
            provider_override,
            model_override,
            Some(false),
            Ghost(locals),
        );
    } else {
        collect_class(
            &mut attempts,
            &mut seen,
            providers,
            settings,
            provider_override,
            model_override,
            None,
            Ghost(Seq::empty()),
        );
    }
    attempts
}

/// The position of the provider that a request resolves to with fallback:
/// the provider it names or the active one where that resolves, else the
/// first alternative; `None` where there is none.
pub open spec fn fallback_position(
    providers: Seq<ProviderRow>,
    settings: Settings,
    provider_override: Option<String>,
    model_override: Option<String>,
    prefer_local: bool,
) -> Option<int> {
    if resolve_failure(providers, settings, provider_override, model_override) is None {
        Some(position_of(providers, wanted_provider(settings, provider_override).unwrap()@))
    } else {
        let alternatives = alternative_positions(
            providers,
            settings,
            provider_override,
            model_override,
            prefer_local,
        );
        if alternatives.len() > 0 {
            Some(alternatives[0])
        } else {
            None
        }
    }
}

/// Resolves a request; where it does not resolve as it stands, the first
/// alternative takes its place. Fails where no provider can be used.
pub fn resolve_with_fallback(
    providers: &Vec<ProviderRow>,
    settings: &Settings,
    provider_override: Option<String>,
    model_override: Option<String>,
    prefer_local: bool,
) -> (selection: Result<AiRuntimeSelection, EngineError>)
    ensures
        selection is Ok <==> fallback_position(
            providers@,
            *settings,
            provider_override,
            model_override,
            prefer_local,
        ) is Some,
        selection is Err ==> selection->Err_0 == EngineError::NoProviderConfigured,
        selection is Ok ==> is_selection_of(
            selection.unwrap(),
            row_named_at(
                providers@,
                fallback_position(
                    providers@,
                    *settings,
                    provider_override,
                    model_override,
                    prefer_local,
                ).unwrap(),
            ),
            *settings,
            model_override,
        ),
{
    let first = resolve_runtime(
        providers,
        settings,
        clone_text(&provider_override),
        clone_text(&model_override),
    );
    match first {
        Ok(selection) => {
            proof {
                let id = wanted_provider(*settings, provider_override).unwrap();
                lemma_holds_key_has_position(providers@, id@);
            }
            return Ok(selection);
        },
        Err(_) => {},
    }
    let mut attempts = collect_alternative_runtimes(
        providers,
        settings,
        &provider_override,
        &model_override,
        prefer_local,
    );
    if attempts.len() > 0 {
        let selection = attempts.swap_remove(0);
        Ok(selection)
    } else {
        Err(EngineError::NoProviderConfigured)
    }
}

/// Whether `snapshot` shows the active settings and the listing of the
/// active provider.
pub open spec fn is_snapshot(
    snapshot: AiSettingsSnapshot,
    providers: Seq<ProviderRow>,
    settings: Settings,
) -> bool {
    &&& snapshot.active_provider_id == settings.active_provider_id
    &&& snapshot.active_model == settings.active_model
    &&& snapshot.provider is Some <==> settings.active_provider_id is Some
    &&& snapshot.provider is Some ==> providers[position_of(
        providers,
        settings.active_provider_id.unwrap()@,
    )].listed_as(snapshot.provider.unwrap())
}

/// Reads the active provider and model. Fails where the active provider is
/// not in the table.
pub fn get_settings(providers: &Vec<ProviderRow>, settings: &Settings) -> (snapshot: Result<
    AiSettingsSnapshot,
    EngineError,
>)
    ensures
        snapshot is Err <==> settings.active_provider_id is Some && !holds_key(
            providers@,
            settings.active_provider_id.unwrap()@,
        ),
        snapshot is Err ==> snapshot->Err_0 == EngineError::NotFound,
        snapshot is Ok ==> is_snapshot(snapshot.unwrap(), providers@, *settings),
{
    let provider = match &settings.active_provider_id {
        Some(id) => match find_row(providers, id.as_str()) {
            Some(at) => Some(providers[at].to_info()),
            None => {
                return Err(EngineError::NotFound);
            },
        },
        None => None,
    };
    Ok(
        AiSettingsSnapshot {
            active_provider_id: clone_text(&settings.active_provider_id),
            active_model: clone_text(&settings.active_model),
            provider,
        },
    )
}

/// The key that is stored when `api_key` is given: none for a blank key, else
/// the Base64 text of the key without the whitespace at its ends.
pub open spec fn credential_for(api_key: Seq<char>) -> Option<Seq<char>> {
    let key = trimmed(api_key, Trim::Whitespace);
    if key.len() == 0 {
        None
    } else {
        Some(base64_text(vstd::utf8::encode_utf8(key)))
    }
}

/// Whether a key is short enough for its Base64 text to be written.
pub open spec fn key_fits(api_key: Seq<char>) -> bool {
    (vstd::utf8::encode_utf8(trimmed(api_key, Trim::Whitespace)).len() / 3 + 1) * 4 <= usize::MAX
}

/// Whether `after` is the row `before` once `update` was applied to it.
pub open spec fn is_updated_provider(
    before: ProviderRow,
    after: ProviderRow,
    update: AiSettingsUpdate,
) -> bool {
    &&& after.id == before.id
    &&& after.kind == before.kind
    &&& after.display_name == before.display_name
    &&& after.description == before.description
    &&& after.default_model == before.default_model
    &&& after.models@ == before.models@
    &&& after.capability_tags@ == before.capability_tags@
    &&& after.requires_api_key == before.requires_api_key
    &&& after.base_url == (match update.base_url {
        Some(url) => Some(url),
        None => before.base_url,
    })
    &&& match update.api_key {
        None => after.credential == before.credential,
        Some(key) => match credential_for(key@) {
            None => after.credential is None,
            Some(text) => after.credential is Some && after.credential.unwrap()@ == text,
        },
    }
}

/// The model that becomes active with `update`: the one it names, else the
/// provider's default.
pub open spec fn activated_model(before: ProviderRow, update: AiSettingsUpdate) -> Option<String> {
    match update.model {
        Some(model) => Some(model),
        None => before.default_model,
    }
}

/// Makes a provider the active one and stores what `update` brings for it:
/// its base URL and its API key. A blank key removes the stored one.
///
/// Fails, changing nothing, where the provider is unknown or the key is too
/// long to be stored.
pub fn update_settings(
    providers: &mut Vec<ProviderRow>,
    settings: &mut Settings,
    update: AiSettingsUpdate,
) -> (snapshot: Result<AiSettingsSnapshot, EngineError>)
    ensures
        snapshot is Ok <==> holds_key(old(providers)@, update.provider_id@) && (update.api_key
            is Some ==> key_fits(update.api_key.unwrap()@)),
        !holds_key(old(providers)@, update.provider_id@) ==> snapshot is Err && snapshot->Err_0
            == EngineError::NotFound,
        holds_key(old(providers)@, update.provider_id@) && update.api_key is Some && !key_fits(
            update.api_key.unwrap()@,
        ) ==> snapshot is Err && snapshot->Err_0 == EngineError::StoreFailure,
        snapshot is Err ==> final(providers)@ == old(providers)@ && *final(settings) == *old(settings),
        snapshot is Ok ==> {
            let at = position_of(old(providers)@, update.provider_id@);
            &&& holds_key(old(providers)@, update.provider_id@)
            &&& final(providers)@.len() == old(providers)@.len()
            &&& forall|j: int|
                0 <= j < old(providers)@.len() && j != at ==> #[trigger] final(providers)@[j] == old(providers)@[j]
            &&& is_updated_provider(old(providers)@[at], final(providers)@[at], update)
            &&& final(settings).active_provider_id == Some(update.provider_id)
            &&& final(settings).active_model == activated_model(old(providers)@[at], update)
            &&& final(settings).warn_ratio == old(settings).warn_ratio
            &&& final(settings).force_ratio == old(settings).force_ratio
            &&& final(settings).summarizer_model == old(settings).summarizer_model
            &&& snapshot.unwrap().active_provider_id == final(settings).active_provider_id
            &&& snapshot.unwrap().active_model == final(settings).active_model
            &&& snapshot.unwrap().provider is Some
            &&& final(providers)@[at].listed_as(snapshot.unwrap().provider.unwrap())
        },
{
    let at = match find_row(providers, update.provider_id.as_str()) {
        Some(at) => at,
        None => {
            return Err(EngineError::NotFound);
        },
    };
    let credential: Option<Option<String>> = match &update.api_key {
        Some(key) => {
            let chars = chars_of(key.as_str());
            let (a, b) = trim_range(&chars, 0, chars.len(), Trim::Whitespace);
            assert(chars@.subrange(0, chars@.len() as int) == chars@);
            if a == b {
                Some(None)
            } else {
                let trimmed_key = string_of_range(&chars, a, b);
                let bytes = trimmed_key.as_str().as_bytes();
                if bytes.len() / 3 >= usize::MAX / 4 {
                    return Err(EngineError::StoreFailure);
                }
                Some(Some(base64_encode(bytes)))
            }
        },
        None => None,
    };
    let model = match &update.model {
        Some(model) => Some(model.clone()),
        None => clone_text(&providers[at].default_model),
    };
    match &update.base_url {
        Some(url) => {
            providers[at].base_url = Some(url.clone());
        },
        None => {},
    }
    match credential {
        Some(stored) => {
            providers[at].credential = stored;
        },
        None => {},
    }
    settings.active_provider_id = Some(update.provider_id.clone());
    settings.active_model = model;
    let info = providers[at].to_info();
    Ok(
        AiSettingsSnapshot {
            active_provider_id: clone_text(&settings.active_provider_id),
            active_model: clone_text(&settings.active_model),
            provider: Some(info),
        },
    )
}

/// What is known of a provider before anything is stored for it.
#[derive(Debug)]
pub struct ProviderSeed {
    pub id: String,
    pub kind: String,
    pub display_name: String,
    pub description: Option<String>,
    pub base_url: Option<String>,
    pub default_model: String,
    pub models: Vec<String>,
    pub capability_tags: Vec<String>,
    pub requires_api_key: bool,
}

/// The row that a seed makes, with the credential `credential`.
pub open spec fn seeded_row(seed: ProviderSeed, credential: Option<String>) -> ProviderRow {
    ProviderRow {
        id: seed.id,
        kind: seed.kind,
        display_name: seed.display_name,
        description: seed.description,
        base_url: seed.base_url,
        default_model: Some(seed.default_model),
        models: seed.models,
        capability_tags: seed.capability_tags,
        requires_api_key: seed.requires_api_key,
        credential,
    }
}

/// The provider table once a seed was applied: the row of the seed's
/// provider takes the seed's values and keeps its credential, or is appended
/// where the provider is new.
pub open spec fn with_seed(rows: Seq<ProviderRow>, seed: ProviderSeed) -> Seq<ProviderRow> {
    if holds_key(rows, seed.id@) {
        let at = position_of(rows, seed.id@);
        rows.update(at, seeded_row(seed, rows[at].credential))
    } else {
        rows.push(seeded_row(seed, None))
    }
}

/// The provider table once the seeds were applied, one after the other.
pub open spec fn with_seeds(rows: Seq<ProviderRow>, seeds: Seq<ProviderSeed>) -> Seq<ProviderRow>
    decreases seeds.len(),
{
    if seeds.len() == 0 {
        rows
    } else {
        with_seed(with_seeds(rows, seeds.drop_last()), seeds.last())
    }
}

/// Applies one seed to the provider table.
fn apply_seed(providers: &mut Vec<ProviderRow>, seed: ProviderSeed)
    ensures
        final(providers)@ == with_seed(old(providers)@, seed),
{
    match find_row(providers, seed.id.as_str()) {
        Some(at) => {
            let credential = match &providers[at].credential {
                Some(stored) => Some(stored.clone()),
                None => None,
            };
            providers.set(
                at,
                ProviderRow {
                    id: seed.id,
                    kind: seed.kind,
                    display_name: seed.display_name,
                    description: seed.description,
                    base_url: seed.base_url,
                    default_model: Some(seed.default_model),
                    models: seed.models,
                    capability_tags: seed.capability_tags,
                    requires_api_key: seed.requires_api_key,
                    credential,
                },
            );
        },
        None => {
            providers.push(
                ProviderRow {
                    id: seed.id,
                    kind: seed.kind,
                    display_name: seed.display_name,
                    description: seed.description,
                    base_url: seed.base_url,
                    default_model: Some(seed.default_model),
                    models: seed.models,
                    capability_tags: seed.capability_tags,
                    requires_api_key: seed.requires_api_key,
                    credential: None,
                },
            );
        },
    }
}

/// Brings the provider table up to the seeds and makes the first seed the
/// active provider where none is active.
///
/// Fails, changing nothing, where there is neither a seed nor an active
/// provider.
pub fn seed_defaults(
    providers: &mut Vec<ProviderRow>,
    settings: &mut Settings,
    seeds: Vec<ProviderSeed>,
) -> (result: Result<(), EngineError>)
    ensures
        result is Err <==> seeds@.len() == 0 && old(settings).active_provider_id is None,
        result is Err ==> result->Err_0 == EngineError::NoProviderConfigured && final(providers)@
            == old(providers)@ && *final(settings) == *old(settings),
        result is Ok ==> final(providers)@ == with_seeds(old(providers)@, seeds@),
        result is Ok && old(settings).active_provider_id is Some ==> *final(settings) == *old(
            settings,
        ),
        result is Ok && old(settings).active_provider_id is None ==> *final(settings) == (Settings {
            active_provider_id: Some(seeds@[0].id),
            active_model: Some(seeds@[0].default_model),
            ..*old(settings)
        }),
{
    if seeds.len() == 0 {
        if settings.active_provider_id.is_none() {
            return Err(EngineError::NoProviderConfigured);
        }
        return Ok(());
    }
    if settings.active_provider_id.is_none() {
        settings.active_provider_id = Some(seeds[0].id.clone());
        settings.active_model = Some(seeds[0].default_model.clone());
    }
    let ghost all = seeds@;
    let ghost start = providers@;
    for seed in it: seeds
        invariant
            it.seq() == all,
            providers@ == with_seeds(start, all.take(it.index())),
    {
        proof {
            assert(all.take(it.index() + 1).drop_last() == all.take(it.index()));
        }
        apply_seed(providers, seed);
    }
    assert(all.take(all.len() as int) == all);
    Ok(())
}

} // verus!
