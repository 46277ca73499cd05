//! Run-time behaviour of the generated `BuildModule` entry point: decode two
//! JSON payloads, invoke the worker on success, and report a decode failure
//! through an `"ERROR: "`-prefixed reply.

use vstd::prelude::*;
use vstd::string::*;

verus! {

/// The prefix that every decode-failure reply carries.
pub open spec fn error_prefix() -> Seq<char> {
    "ERROR: "@
}

/// Builds the reply sent across the boundary when a payload fails to decode:
/// the fixed prefix followed by the decoder's own description.
pub fn format_error(msg: &str) -> (r: String)
    ensures
        r@ == error_prefix() + msg@,
{
    let mut out = String::from_str("ERROR: ");
    out.append(msg);
    out
}

/// Every decode-failure reply begins with the literal text `ERROR: `,
/// whatever description follows it.
pub proof fn lemma_error_reply_prefixed(msg: Seq<char>)
    ensures
        (error_prefix() + msg).len() >= 7,
        (error_prefix() + msg).subrange(0, 7) == "ERROR: "@,
{
    reveal_strlit("ERROR: ");
    assert((error_prefix() + msg).subrange(0, 7) =~= "ERROR: "@);
}

/// The dispatch policy of the generated entry point, after both payloads have
/// been decoded: the first decode failure is reported as an `ERROR: `-prefixed
/// reply and the worker is left uninvoked; when both payloads decoded, the
/// reply is exactly what the worker returned for them.
pub fn respond<M, R, F: FnOnce(M, R) -> String>(
    module: Result<M, String>,
    recipe: Result<R, String>,
    worker: F,
) -> (out: String)
    requires
        module matches Ok(m) ==> (recipe matches Ok(r) ==> call_requires(worker, (m, r))),
    ensures
        module matches Err(e) ==> out@ == error_prefix() + e@,
        recipe matches Err(e) ==> (module is Ok ==> out@ == error_prefix() + e@),
        module matches Ok(m) ==> (recipe matches Ok(r) ==> call_ensures(worker, (m, r), out)),
        module is Err || recipe is Err ==> out@.len() >= 7 && out@.subrange(0, 7) == "ERROR: "@,
{
    match module {
        Err(e) => {
            proof {
                lemma_error_reply_prefixed(e@);
            }
            format_error(e.as_str())
        },
        Ok(m) => match recipe {
            Err(e) => {
                proof {
                    lemma_error_reply_prefixed(e@);
                }
                format_error(e.as_str())
            },
            Ok(r) => worker(m, r),
        },
    }
}

#[verifier::external_type_specification]
#[verifier::external_body]
pub struct ExValue(serde_json::Value);

/// The verdict of the JSON decoder on a document: `None` when the document is
/// accepted, and otherwise the description of the failure. The decoder's
/// verdict and its description depend on the characters of the document alone.
pub uninterp spec fn json_verdict(s: Seq<char>) -> Option<Seq<char>>;

/// Relies on `serde_json::from_str::<serde_json::Value>`: it accepts exactly
/// the syntactically valid JSON documents, deterministically in the input
/// characters, and on a rejected document its error carries a description.
#[verifier::external_body]
fn parse_json_value(s: &str) -> (r: Result<serde_json::Value, String>)
    ensures
        r is Ok <==> json_verdict(s@) is None,
        r matches Err(m) ==> json_verdict(s@) == Some(m@),
{
    match serde_json::from_str::<serde_json::Value>(s) {
        Ok(v) => Ok(v),
        Err(e) => Err(e.to_string()),
    }
}

/// The whole run-time path of the generated entry point, on payloads already
/// read back as text: decode the module payload and the recipe payload as
/// JSON, and dispatch as [`respond`] does. The generated code instantiates
/// the same policy at the plugin's own configuration and recipe types; here
/// the decoded values are JSON documents.
pub fn build_module<F: FnOnce(serde_json::Value, serde_json::Value) -> String>(
    module_payload: &str,
    recipe_payload: &str,
    worker: F,
) -> (out: String)
    requires
        forall|m: serde_json::Value, r: serde_json::Value| call_requires(worker, (m, r)),
    ensures
        json_verdict(module_payload@) matches Some(e) ==> out@ == error_prefix() + e,
        json_verdict(recipe_payload@) matches Some(e) ==> (json_verdict(module_payload@) is None
            ==> out@ == error_prefix() + e),
        json_verdict(module_payload@) is None && json_verdict(recipe_payload@) is None
            ==> exists|m: serde_json::Value, r: serde_json::Value|
            call_ensures(worker, (m, r), out),
        json_verdict(module_payload@) is Some || json_verdict(recipe_payload@) is Some
            ==> out@.len() >= 7 && out@.subrange(0, 7) == "ERROR: "@,
{
    let module = parse_json_value(module_payload);
    let recipe = parse_json_value(recipe_payload);
    proof {
        if module is Ok && recipe is Ok {
            assert(call_requires(worker, (module->Ok_0, recipe->Ok_0)));
        }
    }
    respond(module, recipe, worker)
}

} // verus!
