//! Searches of the local knowledge base and the RAG pipeline.
use vstd::prelude::*;

use crate::intent::{outcome, Failure, Intent, TranslateError, Translation, TranslationView};
use crate::json::{
    json_object_insert, json_object_new, json_object_text, json_text, key_less,
    lemma_two_entry_text, no_entries, string_text, JsonArg, JsonScalar,
};
use crate::security::PermissionLevel;
use crate::text::{cat, decimal, owned};
use crate::translate::package::{curl_post_json, post_json};

verus! {

/// The JSON text of an object with a string `query` and one integer entry.
pub open spec fn query_json(query: Seq<char>, key: Seq<char>, n: nat) -> Seq<char> {
    json_text(no_entries().insert("query"@, JsonScalar::Str(query)).insert(key, JsonScalar::UInt(n)))
}

/// The requests that `translate_knowledge` handles.
pub open spec fn is_knowledge_intent(intent: &Intent) -> bool {
    intent is KnowledgeSearch || intent is RagQuery
}

/// The outcome that `translate_knowledge` gives; the source filter of a search is not
/// passed on.
pub open spec fn translate_knowledge_spec(intent: &Intent) -> Result<TranslationView, Failure> {
    match intent {
        Intent::KnowledgeSearch { query, .. } => Ok(
            curl_post_json(
                "http://127.0.0.1:8090/v1/knowledge/search"@,
                query_json(query@, "limit"@, 10),
                "Search knowledge base for: "@ + query@,
                PermissionLevel::Safe,
                "Searches the local knowledge base index"@,
            ),
        ),
        Intent::RagQuery { query } => Ok(
            curl_post_json(
                "http://127.0.0.1:8090/v1/rag/query"@,
                query_json(query@, "top_k"@, 5),
                "RAG query: "@ + query@,
                PermissionLevel::Safe,
                "Retrieves context-augmented results from the RAG pipeline"@,
            ),
        ),
        _ => Err(Failure::NotForThisTranslator { family: "knowledge"@ }),
    }
}

fn query_text(query: &String, key: &str, n: u64) -> (s: String)
    ensures
        s@ == query_json(query@, key@, n as nat),
{
    let mut m = json_object_new();
    json_object_insert(&mut m, "query", JsonArg::Str(query.clone()));
    json_object_insert(&mut m, key, JsonArg::UInt(n));
    json_object_text(&m)
}

/// Translates a knowledge request into a JSON request to the local daemon.
pub fn translate_knowledge(intent: &Intent) -> (r: Result<Translation, TranslateError>)
    requires
        is_knowledge_intent(intent),
    ensures
        outcome(r) == translate_knowledge_spec(intent),
{
    match intent {
        Intent::KnowledgeSearch { query, .. } => {
            let body = query_text(query, "limit", 10);
            let d = cat("Search knowledge base for: ", query.as_str());
            Ok(post_json("http://127.0.0.1:8090/v1/knowledge/search", body, d,
                PermissionLevel::Safe, "Searches the local knowledge base index"))
        },
        Intent::RagQuery { query } => {
            let body = query_text(query, "top_k", 5);
            let d = cat("RAG query: ", query.as_str());
            Ok(post_json("http://127.0.0.1:8090/v1/rag/query", body, d, PermissionLevel::Safe,
                "Retrieves context-augmented results from the RAG pipeline"))
        },
        _ => Err(TranslateError::NotForThisTranslator { family: owned("knowledge") }),
    }
}

/// The bodies that the knowledge requests post: a search sends `{"limit":10,"query":…}`
/// and a RAG query `{"query":…,"top_k":5}`, keys in that order, the query always one
/// JSON string.
pub proof fn law_knowledge_bodies(query: Seq<char>)
    ensures
        query_json(query, "limit"@, 10) == seq!['{'] + string_text("limit"@) + seq![':']
            + decimal(10) + seq![','] + string_text("query"@) + seq![':'] + string_text(query)
            + seq!['}'],
        query_json(query, "top_k"@, 5) == seq!['{'] + string_text("query"@) + seq![':']
            + string_text(query) + seq![','] + string_text("top_k"@) + seq![':'] + decimal(5)
            + seq!['}'],
{
    reveal_strlit("limit");
    reveal_strlit("query");
    reveal_strlit("top_k");
    let q = JsonScalar::Str(query);
    assert(key_less("limit"@, "query"@));
    assert(no_entries().insert("query"@, q).insert("limit"@, JsonScalar::UInt(10)) =~= no_entries()
        .insert("limit"@, JsonScalar::UInt(10)).insert("query"@, q));
    lemma_two_entry_text("limit"@, JsonScalar::UInt(10), "query"@, q);
    assert(key_less("query"@, "top_k"@));
    lemma_two_entry_text("query"@, q, "top_k"@, JsonScalar::UInt(5));
}

/// Where each knowledge request goes and what it sends: a search POSTs the query with
/// a limit of ten results to the knowledge index, a RAG query POSTs it with the five
/// best passages asked for to the RAG pipeline. Both are safe.
pub proof fn law_knowledge_requests(intent: &Intent)
    requires
        is_knowledge_intent(intent),
    ensures
        translate_knowledge_spec(intent) matches Ok(t) && t.command == "curl"@
            && t.permission == PermissionLevel::Safe,
        intent matches Intent::KnowledgeSearch { query, .. } ==> (translate_knowledge_spec(intent) matches Ok(t)
            && t.args == seq!["-s"@, "-X"@, "POST"@, "http://127.0.0.1:8090/v1/knowledge/search"@, "-H"@, "Content-Type: application/json"@, "-d"@, json_text(Map::empty().insert("query"@, JsonScalar::Str(query@)).insert("limit"@, JsonScalar::UInt(10)))]),
        intent matches Intent::RagQuery { query } ==> (translate_knowledge_spec(intent) matches Ok(t)
            && t.args == seq!["-s"@, "-X"@, "POST"@, "http://127.0.0.1:8090/v1/rag/query"@, "-H"@, "Content-Type: application/json"@, "-d"@, json_text(Map::empty().insert("query"@, JsonScalar::Str(query@)).insert("top_k"@, JsonScalar::UInt(5)))]),
{
}

} // verus!
