//! JSON text: string literals, and the frames of the response documents.
//!
//! String literals are left to `serde_json`, which knows what has to be
//! escaped and how. The documents themselves are a handful of fixed frames,
//! put together here from parts that are JSON text already; each frame says
//! exactly which text it yields.

use vstd::prelude::*;

verus! {

#[verifier::external_type_specification]
#[verifier::external_body]
pub struct ExJsonError(serde_json::Error);

/// The JSON string literal for `text`: the text between double quotes, with
/// quotes, backslashes and control characters escaped, as `serde_json`
/// writes it.
pub uninterp spec fn json_string(text: Seq<char>) -> Seq<char>;

/// Serialises `text` as a JSON string literal.
///
/// Trusted: wraps `serde_json::to_string` on a string slice. A string slice
/// is serialised by writing its literal into a byte vector; neither step has
/// a way to fail, so the result is always `Ok`. The literal is a function of
/// the text alone; [`json_string`] is the name of that function.
#[verifier::external_body]
pub(crate) fn encode_string(text: &str) -> (r: Result<String, serde_json::Error>)
    ensures
        r is Ok,
        r matches Ok(literal) ==> literal@ == json_string(text@),
{
    serde_json::to_string(text)
}

/// The JSON string literal for `text`.
pub fn quote(text: &str) -> (literal: String)
    ensures
        literal@ == json_string(text@),
{
    encode_string(text).unwrap()
}

/// An object member that is written only when it has a value: `lead`, then
/// the value.
pub open spec fn optional_member(lead: Seq<char>, value: Option<Seq<char>>) -> Seq<char> {
    match value {
        Some(v) => lead + v,
        None => Seq::empty(),
    }
}

/// The metadata object. Each argument is the JSON text of a member's value;
/// the two optional members are left out when they have none.
pub open spec fn meta_frame(
    engine_version: Seq<char>,
    engine_version_date: Seq<char>,
    profile_version: Seq<char>,
    profile_version_date: Seq<char>,
    software_version: Option<Seq<char>>,
    correlation_id: Option<Seq<char>>,
) -> Seq<char> {
    "{\"hem_version\":"@ + engine_version + ",\"hem_version_date\":"@ + engine_version_date
        + ",\"fhs_version\":"@ + profile_version + ",\"fhs_version_date\":"@ + profile_version_date
        + optional_member(",\"software_version\":"@, software_version) + optional_member(
        ",\"ecaas_request_id\":"@,
        correlation_id,
    ) + "}"@
}

/// One entry of the `errors` array. Each argument is the JSON text of a
/// member's value; an entry without an identifier has no `id` member.
pub open spec fn error_frame(id: Option<Seq<char>>, status: Seq<char>, detail: Seq<char>) -> Seq<
    char,
> {
    match id {
        Some(i) => "{\"id\":"@ + i + ",\"status\":"@ + status + ",\"detail\":"@ + detail + "}"@,
        None => "{\"status\":"@ + status + ",\"detail\":"@ + detail + "}"@,
    }
}

/// `items` with a comma between each two.
pub open spec fn comma_separated(items: Seq<Seq<char>>) -> Seq<char>
    decreases items.len(),
{
    if items.len() == 0 {
        Seq::empty()
    } else if items.len() == 1 {
        items[0]
    } else {
        comma_separated(items.drop_last()) + ","@ + items.last()
    }
}

/// The body of a response that reports errors.
pub open spec fn errors_body_frame(entries: Seq<Seq<char>>, meta: Seq<char>) -> Seq<char> {
    "{\"errors\":["@ + comma_separated(entries) + "],\"meta\":"@ + meta + "}"@
}

/// The body of a response that carries a result.
pub open spec fn data_body_frame(data: Seq<char>, meta: Seq<char>) -> Seq<char> {
    "{\"data\":"@ + data + ",\"meta\":"@ + meta + "}"@
}

/// The views of a list of strings.
pub open spec fn texts_of(items: Seq<String>) -> Seq<Seq<char>> {
    items.map_values(|s: String| s@)
}

fn push_optional_member(out: &mut String, lead: &str, value: Option<&str>)
    ensures
        final(out)@ == old(out)@ + optional_member(lead@, optional_slice(value)),
{
    match value {
        Some(v) => {
            out.append(lead);
            out.append(v);
        },
        None => {},
    }
}

/// The view of an optional string slice.
pub open spec fn optional_slice(text: Option<&str>) -> Option<Seq<char>> {
    match text {
        Some(t) => Some(t@),
        None => None,
    }
}

/// Writes the metadata object from the JSON text of its members' values.
pub fn frame_meta(
    engine_version: &str,
    engine_version_date: &str,
    profile_version: &str,
    profile_version_date: &str,
    software_version: Option<&str>,
    correlation_id: Option<&str>,
) -> (text: String)
    ensures
        text@ == meta_frame(
            engine_version@,
            engine_version_date@,
            profile_version@,
            profile_version_date@,
            optional_slice(software_version),
            optional_slice(correlation_id),
        ),
{
    let mut text = "{\"hem_version\":".to_string();
    text.append(engine_version);
    text.append(",\"hem_version_date\":");
    text.append(engine_version_date);
    text.append(",\"fhs_version\":");
    text.append(profile_version);
    text.append(",\"fhs_version_date\":");
    text.append(profile_version_date);
    push_optional_member(&mut text, ",\"software_version\":", software_version);
    push_optional_member(&mut text, ",\"ecaas_request_id\":", correlation_id);
    text.append("}");
    text
}

/// Writes one entry of the `errors` array from the JSON text of its
/// members' values.
pub fn frame_error(id: Option<&str>, status: &str, detail: &str) -> (text: String)
    ensures
        text@ == error_frame(optional_slice(id), status@, detail@),
{
    let mut text = match id {
        Some(i) => {
            let mut with_id = "{\"id\":".to_string();
            with_id.append(i);
            with_id.append(",\"status\":");
            with_id
        },
        None => "{\"status\":".to_string(),
    };
    text.append(status);
    text.append(",\"detail\":");
    text.append(detail);
    text.append("}");
    text
}

/// Writes the body of a response that reports `entries`, each of them an
/// entry already written, in their order.
pub fn frame_errors_body(entries: &Vec<String>, meta: &str) -> (text: String)
    ensures
        text@ == errors_body_frame(texts_of(entries@), meta@),
{
    let mut text = "{\"errors\":[".to_string();
    let ghost lead = text@;
    let mut i: usize = 0;
    while i < entries.len()
        invariant
            0 <= i <= entries.len(),
            lead == "{\"errors\":["@,
            text@ == lead + comma_separated(texts_of(entries@).take(i as int)),
        decreases entries.len() - i,
    {
        let ghost done = texts_of(entries@).take(i as int);
        let ghost next = texts_of(entries@).take(i + 1);
        assert(next.drop_last() =~= done);
        assert(next.last() == entries@[i as int]@);
        if i > 0 {
            text.append(",");
        }
        text.append(entries[i].as_str());
        i += 1;
    }
    assert(texts_of(entries@).take(i as int) =~= texts_of(entries@));
    text.append("],\"meta\":");
    text.append(meta);
    text.append("}");
    text
}

/// Writes the body of a response that carries the result `data`.
pub fn frame_data_body(data: &str, meta: &str) -> (text: String)
    ensures
        text@ == data_body_frame(data@, meta@),
{
    let mut text = "{\"data\":".to_string();
    text.append(data);
    text.append(",\"meta\":");
    text.append(meta);
    text.append("}");
    text
}

} // verus!
