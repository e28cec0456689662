//! From an outcome to the response that reports it.
//!
//! Every response has a status code and a JSON body. A success carries the
//! engine's result under `data`; everything else carries an `errors` array
//! with one entry. All of them carry the provenance block under `meta`.
//! An entry for a failure has an identifier of its own, new for every
//! response, so that a reported failure can be found again in the logs
//! whatever the transport knows of the request.

use crate::json::{
    data_body_frame, error_frame, errors_body_frame, frame_data_body, frame_error,
    frame_errors_body, json_string, quote, texts_of,
};
use crate::meta::{
    meta_json, optional_json_string, ResponseMeta, ResponseMetaModel, VersionInfo,
    VersionInfoModel,
};
use crate::outcome::{detail_of, optional_text, status_of, Outcome, OutcomeModel};
use crate::text::{decimal_text, status_text};
use vstd::prelude::*;

verus! {

/// One of the sixteen lower-case hexadecimal digits.
pub open spec fn is_hex_digit(c: char) -> bool {
    ('0' <= c && c <= '9') || ('a' <= c && c <= 'f')
}

/// The shape of an error identifier: 36 characters, hexadecimal digits in
/// groups of 8, 4, 4, 4 and 12 with a hyphen between the groups, the third
/// group beginning with `4`.
pub open spec fn is_error_id(id: Seq<char>) -> bool {
    &&& id.len() == 36
    &&& id[8] == '-'
    &&& id[13] == '-'
    &&& id[18] == '-'
    &&& id[23] == '-'
    &&& id[14] == '4'
    &&& forall|i: int|
        0 <= i < 36 && i != 8 && i != 13 && i != 18 && i != 23 ==> is_hex_digit(#[trigger] id[i])
}

/// A new identifier for an error entry.
///
/// Trusted: wraps `uuid::Uuid::new_v4` and hands the identifier back in its
/// `Display` form, which is the hyphenated lower-case one. The bits are
/// random, so only the shape is stated. `new_v4` panics if the operating
/// system cannot supply random bytes.
#[verifier::external_body]
pub(crate) fn fresh_error_id() -> (id: String)
    ensures
        is_error_id(id@),
{
    uuid::Uuid::new_v4().to_string()
}

/// One entry of a response's `errors` array.
#[derive(Debug)]
pub struct ErrorEnvelope {
    pub id: Option<String>,
    pub status: String,
    pub detail: String,
}

/// The mathematical value of an [`ErrorEnvelope`].
pub struct ErrorEnvelopeModel {
    pub id: Option<Seq<char>>,
    pub status: Seq<char>,
    pub detail: Seq<char>,
}

impl View for ErrorEnvelope {
    type V = ErrorEnvelopeModel;

    open spec fn view(&self) -> ErrorEnvelopeModel {
        ErrorEnvelopeModel {
            id: optional_text(self.id),
            status: self.status@,
            detail: self.detail@,
        }
    }
}

/// The entry that reports `outcome`, if it is reported by one. A success
/// has none; the absence of a result has one without an identifier; every
/// failure has one with the identifier `error_id`. The status is the
/// response's status code in decimal.
pub open spec fn envelope_of(outcome: OutcomeModel, error_id: Seq<char>) -> Option<
    ErrorEnvelopeModel,
> {
    match detail_of(outcome) {
        None => None,
        Some(detail) => Some(
            ErrorEnvelopeModel {
                id: if outcome is NoResultAvailable {
                    None
                } else {
                    Some(error_id)
                },
                status: decimal_text(status_of(outcome) as nat),
                detail,
            },
        ),
    }
}

/// The JSON text of an entry.
pub open spec fn envelope_json(envelope: ErrorEnvelopeModel) -> Seq<char> {
    error_frame(
        optional_json_string(envelope.id),
        json_string(envelope.status),
        json_string(envelope.detail),
    )
}

/// The JSON body of the response to `outcome`.
pub open spec fn body_of(outcome: OutcomeModel, meta: ResponseMetaModel, error_id: Seq<char>) -> Seq<
    char,
> {
    match outcome {
        OutcomeModel::Success(data) => data_body_frame(data, meta_json(meta)),
        _ => errors_body_frame(
            seq![envelope_json(envelope_of(outcome, error_id)->0)],
            meta_json(meta),
        ),
    }
}

/// The media type of every response body.
pub open spec fn json_media_type() -> Seq<char> {
    "application/json"@
}

/// A response, ready for the transport.
#[derive(Debug)]
pub struct HttpResponse {
    pub status: u16,
    pub content_type: String,
    pub body: String,
}

/// The mathematical value of an [`HttpResponse`].
pub struct HttpResponseModel {
    pub status: u16,
    pub content_type: Seq<char>,
    pub body: Seq<char>,
}

impl View for HttpResponse {
    type V = HttpResponseModel;

    open spec fn view(&self) -> HttpResponseModel {
        HttpResponseModel {
            status: self.status,
            content_type: self.content_type@,
            body: self.body@,
        }
    }
}

/// The response to `outcome` for the request `correlation_id`, with
/// `error_id` as the identifier of its error entry if it has one.
pub open spec fn response_of(
    versions: VersionInfoModel,
    outcome: OutcomeModel,
    correlation_id: Option<Seq<char>>,
    error_id: Seq<char>,
) -> HttpResponseModel {
    HttpResponseModel {
        status: status_of(outcome),
        content_type: json_media_type(),
        body: body_of(outcome, ResponseMetaModel { versions, correlation_id }, error_id),
    }
}

impl ErrorEnvelope {
    /// The entry that reports an `outcome` other than a success.
    fn for_unsuccessful(outcome: &Outcome, error_id: &str) -> (envelope: ErrorEnvelope)
        requires
            !(outcome@ is Success),
        ensures
            Some(envelope@) == envelope_of(outcome@, error_id@),
    {
        let class = outcome.classify();
        let id = match outcome {
            Outcome::NoResultAvailable => None,
            _ => Some(error_id.to_owned()),
        };
        ErrorEnvelope { id, status: status_text(class.status), detail: class.detail.unwrap() }
    }

    /// The entry that reports `outcome`, if it is reported by one.
    pub fn for_outcome(outcome: &Outcome, error_id: &str) -> (envelope: Option<ErrorEnvelope>)
        ensures
            match envelope {
                Some(e) => Some(e@),
                None => None,
            } == envelope_of(outcome@, error_id@),
    {
        match outcome {
            Outcome::Success(_) => None,
            _ => Some(ErrorEnvelope::for_unsuccessful(outcome, error_id)),
        }
    }

    /// This entry as JSON text.
    pub fn to_json(&self) -> (text: String)
        ensures
            text@ == envelope_json(self@),
    {
        let id = match &self.id {
            Some(i) => Some(quote(i.as_str())),
            None => None,
        };
        let status = quote(self.status.as_str());
        let detail = quote(self.detail.as_str());
        let id_slice = match &id {
            Some(i) => Some(i.as_str()),
            None => None,
        };
        frame_error(id_slice, status.as_str(), detail.as_str())
    }
}

/// Builds responses, all with the same versions in their provenance block.
#[derive(Debug)]
pub struct ResponseBuilder {
    versions: VersionInfo,
}

impl View for ResponseBuilder {
    type V = VersionInfoModel;

    closed spec fn view(&self) -> VersionInfoModel {
        self.versions@
    }
}

impl ResponseBuilder {
    pub fn new(versions: VersionInfo) -> (builder: ResponseBuilder)
        ensures
            builder@ == versions@,
    {
        ResponseBuilder { versions }
    }

    /// The response to `outcome` for the request `correlation_id`, with a
    /// new identifier in its error entry if it has one.
    pub fn build_response(&self, outcome: &Outcome, correlation_id: Option<String>) -> (response:
        HttpResponse)
        ensures
            exists|error_id: Seq<char>| #[trigger]
                is_error_id(error_id) && response@ == response_of(
                    self@,
                    outcome@,
                    optional_text(correlation_id),
                    error_id,
                ),
    {
        let error_id = fresh_error_id();
        self.build_response_with_id(outcome, correlation_id, error_id.as_str())
    }

    /// The response to `outcome` for the request `correlation_id`, with
    /// `error_id` as the identifier of its error entry if it has one.
    pub fn build_response_with_id(
        &self,
        outcome: &Outcome,
        correlation_id: Option<String>,
        error_id: &str,
    ) -> (response: HttpResponse)
        ensures
            response@ == response_of(
                self@,
                outcome@,
                optional_text(correlation_id),
                error_id@,
            ),
    {
        let meta = ResponseMeta::with_request_id(&self.versions, correlation_id).to_json();
        let body = match outcome {
            Outcome::Success(data) => frame_data_body(data.as_str(), meta.as_str()),
            _ => {
                let envelope = ErrorEnvelope::for_unsuccessful(outcome, error_id);
                let mut entries: Vec<String> = Vec::new();
                entries.push(envelope.to_json());
                assert(texts_of(entries@) =~= seq![envelope_json(envelope@)]);
                frame_errors_body(&entries, meta.as_str())
            },
        };
        HttpResponse {
            status: outcome.status(),
            content_type: "application/json".to_string(),
            body,
        }
    }
}

/// The response is a function of the outcome, the request identifier and
/// the error identifier, and it depends on the error identifier as little
/// as it can: the status code never does and the body of a success or of
/// a missing result does not either, while two failure bodies for the
/// same outcome and request differ in the value of the `id` member alone.
pub proof fn lemma_response_varies_with_error_id_only(
    versions: VersionInfoModel,
    outcome: OutcomeModel,
    correlation_id: Option<Seq<char>>,
    one_id: Seq<char>,
    other_id: Seq<char>,
)
    ensures
        response_of(versions, outcome, correlation_id, one_id).status == response_of(
            versions,
            outcome,
            correlation_id,
            other_id,
        ).status,
        response_of(versions, outcome, correlation_id, one_id).content_type == response_of(
            versions,
            outcome,
            correlation_id,
            other_id,
        ).content_type,
        outcome is Success || outcome is NoResultAvailable ==> response_of(
            versions,
            outcome,
            correlation_id,
            one_id,
        ) == response_of(versions, outcome, correlation_id, other_id),
        !(outcome is Success || outcome is NoResultAvailable) ==> exists|
            before: Seq<char>,
            after: Seq<char>,
        |
            #![trigger before + json_string(one_id) + after]
            response_of(versions, outcome, correlation_id, one_id).body == before + json_string(
                one_id,
            ) + after && response_of(versions, outcome, correlation_id, other_id).body == before
                + json_string(other_id) + after,
{
    if !(outcome is Success || outcome is NoResultAvailable) {
        let meta = meta_json(ResponseMetaModel { versions, correlation_id });
        let status = json_string(decimal_text(status_of(outcome) as nat));
        let detail = json_string(detail_of(outcome)->0);
        let before = "{\"errors\":["@ + "{\"id\":"@;
        let after = ",\"status\":"@ + status + ",\"detail\":"@ + detail + "}"@ + "],\"meta\":"@
            + meta + "}"@;
        assert(response_of(versions, outcome, correlation_id, one_id).body =~= before
            + json_string(one_id) + after);
        assert(response_of(versions, outcome, correlation_id, other_id).body =~= before
            + json_string(other_id) + after);
    }
}

} // verus!
