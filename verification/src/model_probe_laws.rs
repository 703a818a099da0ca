//! What holds of probing one model, for every model, key and response.
use vstd::prelude::*;

use crate::json::{JsonNumberView, JsonView};
use crate::json_laws::law_field_is_found;
use crate::model_probe::{
    completions_url, header_view, key_header, minimal_completion, model_outcome, model_request,
    ModelProbeReply, ModelProbeRequest,
};
use crate::text::decimal;
use crate::text_laws::law_end_trimmed;

verus! {

/// The document that a model probe posts asks exactly the model that is probed, character for
/// character, for one token, with one message of the user.
pub proof fn law_probe_asks_the_model(model: Seq<char>)
    ensures
        ({
            let body = minimal_completion(model);
            &&& body matches JsonView::Object(fields) && fields.len() == 4
            &&& body.at("model"@) == JsonView::Str(model)
            &&& body.at("max_tokens"@) == JsonView::Number(JsonNumberView::PosInt(1))
            &&& body.at("temperature"@) == JsonView::Number(JsonNumberView::Float("0.0"@))
            &&& body.at("messages"@) matches JsonView::Array(messages)
            &&& messages.len() == 1
            &&& messages[0] matches JsonView::Object(parts) && parts.len() == 2
            &&& messages[0].at("role"@) == JsonView::Str("user"@)
            &&& messages[0].at("content"@) == JsonView::Str("Hi"@)
        }),
{
    reveal_strlit("model");
    reveal_strlit("max_tokens");
    reveal_strlit("messages");
    reveal_strlit("temperature");
    reveal_strlit("role");
    reveal_strlit("content");
    let body = minimal_completion(model);
    let fields = body->Object_0;
    assert("max_tokens"@.len() == 10 && "messages"@.len() == 8 && "model"@.len() == 5);
    assert("temperature"@.len() == 11 && "role"@.len() == 4 && "content"@.len() == 7);
    law_field_is_found(fields, "max_tokens"@, 0);
    law_field_is_found(fields, "messages"@, 1);
    law_field_is_found(fields, "model"@, 2);
    law_field_is_found(fields, "temperature"@, 3);
    let message = body.at("messages"@)->Array_0[0];
    law_field_is_found(message->Object_0, "content"@, 0);
    law_field_is_found(message->Object_0, "role"@, 1);
}

/// Probing two different models posts two different documents.
pub proof fn law_models_are_told_apart(one: Seq<char>, other: Seq<char>)
    requires
        one != other,
    ensures
        minimal_completion(one) != minimal_completion(other),
{
    law_probe_asks_the_model(one);
    law_probe_asks_the_model(other);
}

/// The document and the place are those of the probed model and the given base URL, whoever the
/// provider is and whether there is a key or not.
pub proof fn law_request_is_for_the_model(
    lower: Seq<char>,
    base_url: Seq<char>,
    model: Seq<char>,
    api_key: Option<&str>,
)
    ensures
        model_request(lower, base_url, model, api_key).body.at("model"@) == JsonView::Str(model),
        model_request(lower, base_url, model, api_key).body == minimal_completion(model),
        model_request(lower, base_url, model, api_key).url == completions_url(base_url),
{
    law_probe_asks_the_model(model);
}

/// Completion requests go below the base URL, whose slashes at the end, however many, make no
/// difference and of which nothing else is lost.
pub proof fn law_completions_below_base(base: Seq<char>, slashes: Seq<char>)
    requires
        base.len() == 0 || base.last() != '/',
        forall|i: int| 0 <= i < slashes.len() ==> slashes[i] == '/',
    ensures
        completions_url(base + slashes) == base + "/chat/completions"@,
{
    law_end_trimmed(base, '/', slashes);
}

/// There is a header exactly where there is a key. It carries the whole key: as it is for
/// Gemini, and after `Bearer` for any other provider.
pub proof fn law_key_is_carried(
    lower: Seq<char>,
    base_url: Seq<char>,
    model: Seq<char>,
    key: &str,
)
    ensures
        model_request(lower, base_url, model, None).header is None,
        model_request(lower, base_url, model, Some(key)).header == Some(key_header(lower, key@)),
        lower == "gemini"@ ==> key_header(lower, key@) == ("x-goog-api-key"@, key@),
        lower != "gemini"@ ==> key_header(lower, key@) == ("Authorization"@, "Bearer "@ + key@),
{
}

/// Different keys give different headers.
pub proof fn law_keys_are_told_apart(lower: Seq<char>, one: Seq<char>, other: Seq<char>)
    requires
        one != other,
    ensures
        key_header(lower, one) != key_header(lower, other),
{
    if lower != "gemini"@ {
        let bearer = "Bearer "@;
        assert((bearer + one).skip(bearer.len() as int) =~= one);
        assert((bearer + other).skip(bearer.len() as int) =~= other);
    }
}

/// A response tells of a responsive model exactly where its status is a success; the latency is
/// then the time that passed, which is cut only where it does not fit.
pub proof fn law_success_tells_the_latency(status: u16, elapsed_ms: u128, excerpt: String)
    ensures
        ({
            let outcome = model_outcome(ModelProbeReply::Response { status, elapsed_ms, excerpt });
            &&& outcome is Ok <==> 200 <= status <= 299
            &&& outcome is Ok ==> outcome->Ok_0 == elapsed_ms as u64
            &&& outcome is Ok && elapsed_ms <= u64::MAX ==> outcome->Ok_0 == elapsed_ms
            &&& outcome is Err ==> outcome->Err_0 == "HTTP "@ + decimal(status as nat) + ": "@
                + excerpt@
        }),
{
}

/// A request that got no response fails with its message, and a client that could not be built
/// with a note before the message.
pub proof fn law_failure_tells_why(message: String)
    ensures
        model_outcome(ModelProbeReply::Failed(message)) == Err::<u64, Seq<char>>(message@),
        model_outcome(ModelProbeReply::ClientFailed(message)) == Err::<u64, Seq<char>>(
            "HTTP client error: "@ + message@,
        ),
{
}

/// A request stands for what it holds.
pub proof fn law_request_stands_for_itself(request: ModelProbeRequest, name: String, value: String)
    ensures
        request@.url == request.url@,
        request@.body == request.body@,
        request@.header == header_view(request.header),
        header_view(None) is None,
        header_view(Some((name, value))) == Some((name@, value@)),
{
}

} // verus!
