//! The cleanup models and the order in which they are preferred.

use vstd::prelude::*;

use crate::text::same_text;

verus! {

/// Whether `id` is among `ids`.
pub open spec fn lists(ids: Seq<String>, id: Seq<char>) -> bool {
    exists|i: int| 0 <= i < ids.len() && #[trigger] ids[i]@ == id
}

/// The cleanup model that setup and the worker use, given the ids of the models
/// on disk.
pub open spec fn worker_model(on_disk: Seq<String>) -> Option<Seq<char>> {
    if lists(on_disk, "gemma4-e2b"@) {
        Some("gemma4-e2b"@)
    } else if lists(on_disk, "gemma4-e4b"@) {
        Some("gemma4-e4b"@)
    } else if lists(on_disk, "qwen25-1.5b"@) {
        Some("qwen25-1.5b"@)
    } else if lists(on_disk, "qwen25-3b"@) {
        Some("qwen25-3b"@)
    } else {
        None
    }
}

/// The cleanup model that the settings turn to when the chosen one is missing,
/// given the ids of the models on disk.
pub open spec fn substitute_model(on_disk: Seq<String>) -> Option<Seq<char>> {
    if lists(on_disk, "qwen25-1.5b"@) {
        Some("qwen25-1.5b"@)
    } else if lists(on_disk, "qwen25-3b"@) {
        Some("qwen25-3b"@)
    } else if lists(on_disk, "gemma4-e2b"@) {
        Some("gemma4-e2b"@)
    } else if lists(on_disk, "gemma4-e4b"@) {
        Some("gemma4-e4b"@)
    } else {
        None
    }
}

/// Whether `id` is among `ids`.
pub fn lists_model(ids: &Vec<String>, id: &str) -> (r: bool)
    ensures
        r == lists(ids@, id@),
{
    for i in 0..ids.len()
        invariant
            forall|j: int| 0 <= j < i ==> #[trigger] ids@[j]@ != id@,
    {
        if same_text(ids[i].as_str(), id) {
            return true;
        }
    }
    false
}

/// The ids of the cleanup models.
pub fn cleanup_models() -> (r: [&'static str; 4])
    ensures
        r@.map_values(|id: &str| id@) == seq![
            "gemma4-e2b"@,
            "gemma4-e4b"@,
            "qwen25-1.5b"@,
            "qwen25-3b"@,
        ],
{
    ["gemma4-e2b", "gemma4-e4b", "qwen25-1.5b", "qwen25-3b"]
}

/// The cleanup model for the worker, given the ids of the models on disk.
pub fn pick_worker_model(on_disk: &Vec<String>) -> (r: Option<&'static str>)
    ensures
        match r {
            Some(id) => worker_model(on_disk@) == Some(id@),
            None => worker_model(on_disk@) is None,
        },
{
    if lists_model(on_disk, "gemma4-e2b") {
        Some("gemma4-e2b")
    } else if lists_model(on_disk, "gemma4-e4b") {
        Some("gemma4-e4b")
    } else if lists_model(on_disk, "qwen25-1.5b") {
        Some("qwen25-1.5b")
    } else if lists_model(on_disk, "qwen25-3b") {
        Some("qwen25-3b")
    } else {
        None
    }
}

/// The cleanup model that the settings turn to, given the ids of the models on disk.
pub fn pick_substitute(on_disk: &Vec<String>) -> (r: Option<&'static str>)
    ensures
        match r {
            Some(id) => substitute_model(on_disk@) == Some(id@),
            None => substitute_model(on_disk@) is None,
        },
{
    if lists_model(on_disk, "qwen25-1.5b") {
        Some("qwen25-1.5b")
    } else if lists_model(on_disk, "qwen25-3b") {
        Some("qwen25-3b")
    } else if lists_model(on_disk, "gemma4-e2b") {
        Some("gemma4-e2b")
    } else if lists_model(on_disk, "gemma4-e4b") {
        Some("gemma4-e4b")
    } else {
        None
    }
}

/// The settings and the worker agree on whether there is a cleanup model, and a
/// model that either picks is on disk.
pub proof fn law_picks_are_on_disk(on_disk: Seq<String>)
    ensures
        worker_model(on_disk) is Some <==> substitute_model(on_disk) is Some,
        worker_model(on_disk) matches Some(id) ==> lists(on_disk, id),
        substitute_model(on_disk) matches Some(id) ==> lists(on_disk, id),
{
}

/// A model is listed exactly if its id is one of the list.
pub proof fn law_lists(ids: Seq<String>, id: String)
    ensures
        lists(ids, id@) <==> exists|i: int| 0 <= i < ids.len() && (#[trigger] ids[i])@ =~= id@,
        lists(ids.push(id), id@),
{
    assert(ids.push(id)[ids.len() as int]@ == id@);
}

/// The worker takes a Gemma model if one is on disk, the smaller before the larger, then
/// a Qwen model, the smaller before the larger, and no other model.
pub proof fn law_worker_prefers_gemma(on_disk: Seq<String>)
    ensures
        lists(on_disk, "gemma4-e2b"@) ==> worker_model(on_disk) == Some("gemma4-e2b"@),
        !lists(on_disk, "gemma4-e2b"@) && lists(on_disk, "gemma4-e4b"@) ==> worker_model(on_disk)
            == Some("gemma4-e4b"@),
        !lists(on_disk, "gemma4-e2b"@) && !lists(on_disk, "gemma4-e4b"@) && lists(
            on_disk,
            "qwen25-1.5b"@,
        ) ==> worker_model(on_disk) == Some("qwen25-1.5b"@),
        !lists(on_disk, "gemma4-e2b"@) && !lists(on_disk, "gemma4-e4b"@) && !lists(
            on_disk,
            "qwen25-1.5b"@,
        ) && lists(on_disk, "qwen25-3b"@) ==> worker_model(on_disk) == Some("qwen25-3b"@),
        worker_model(on_disk) is None <==> !lists(on_disk, "gemma4-e2b"@) && !lists(
            on_disk,
            "gemma4-e4b"@,
        ) && !lists(on_disk, "qwen25-1.5b"@) && !lists(on_disk, "qwen25-3b"@),
{
}

/// The settings turn to a Qwen model if one is on disk, the smaller before the larger,
/// then to a Gemma model, the smaller before the larger, and to no other model.
pub proof fn law_settings_prefer_qwen(on_disk: Seq<String>)
    ensures
        lists(on_disk, "qwen25-1.5b"@) ==> substitute_model(on_disk) == Some("qwen25-1.5b"@),
        !lists(on_disk, "qwen25-1.5b"@) && lists(on_disk, "qwen25-3b"@) ==> substitute_model(
            on_disk,
        ) == Some("qwen25-3b"@),
        !lists(on_disk, "qwen25-1.5b"@) && !lists(on_disk, "qwen25-3b"@) && lists(
            on_disk,
            "gemma4-e2b"@,
        ) ==> substitute_model(on_disk) == Some("gemma4-e2b"@),
        !lists(on_disk, "qwen25-1.5b"@) && !lists(on_disk, "qwen25-3b"@) && !lists(
            on_disk,
            "gemma4-e2b"@,
        ) && lists(on_disk, "gemma4-e4b"@) ==> substitute_model(on_disk) == Some("gemma4-e4b"@),
        substitute_model(on_disk) is None <==> !lists(on_disk, "gemma4-e2b"@) && !lists(
            on_disk,
            "gemma4-e4b"@,
        ) && !lists(on_disk, "qwen25-1.5b"@) && !lists(on_disk, "qwen25-3b"@),
{
}

/// What is picked is a model that is on disk: none only if none of the four is, and any
/// Gemma model before any Qwen model for the worker, the other way round for the settings.
pub proof fn law_picks(
    on_disk: &Vec<String>,
    worker: Option<&'static str>,
    substitute: Option<&'static str>,
)
    requires
        call_ensures(pick_worker_model, (on_disk,), worker),
        call_ensures(pick_substitute, (on_disk,), substitute),
    ensures
        worker is Some <==> substitute is Some,
        worker matches Some(id) ==> lists(on_disk@, id@),
        substitute matches Some(id) ==> lists(on_disk@, id@),
        lists(on_disk@, "gemma4-e2b"@) || lists(on_disk@, "gemma4-e4b"@) ==> (
        worker matches Some(id) && (id@ == "gemma4-e2b"@ || id@ == "gemma4-e4b"@)),
        lists(on_disk@, "qwen25-1.5b"@) || lists(on_disk@, "qwen25-3b"@) ==> (
        substitute matches Some(id) && (id@ == "qwen25-1.5b"@ || id@ == "qwen25-3b"@)),
{
}

} // verus!
