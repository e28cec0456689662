//! The provenance block that every response carries: which engine build and
//! which compliance profile produced the result, or failed to, and under
//! which request identifier.

use crate::json::{frame_meta, json_string, meta_frame, optional_slice, quote};
use crate::outcome::optional_text;
use vstd::prelude::*;

verus! {

/// The calendar date that `text` denotes when read as year, month and day
/// with hyphens between them, written back the way `chrono` displays a date
/// (`YYYY-MM-DD` for the years 0 to 9999); `None` where `text` denotes no
/// date.
pub uninterp spec fn iso_date(text: Seq<char>) -> Option<Seq<char>>;

/// Reads `text` as a date and writes the date back in its displayed form.
///
/// Trusted: wraps `chrono::NaiveDate::parse_from_str` with the format
/// `%Y-%m-%d`; a date that parses is handed back through its `Display`
/// form. The result is a function of the text alone; [`iso_date`] is the
/// name of that function.
#[verifier::external_body]
pub(crate) fn canonical_date(text: &str) -> (date: Option<String>)
    ensures
        optional_text(date) == iso_date(text@),
{
    match chrono::NaiveDate::parse_from_str(text, "%Y-%m-%d") {
        Ok(date) => Some(date.to_string()),
        Err(_) => None,
    }
}

/// Whether `text` is a date in canonical form: what some text reads as.
pub open spec fn is_canonical_date(text: Seq<char>) -> bool {
    exists|source: Seq<char>| #[trigger] iso_date(source) == Some(text)
}

/// The versions that a process answers with: fixed when it starts, read
/// only afterwards.
#[derive(Debug)]
pub struct VersionInfo {
    engine_version: String,
    engine_version_date: String,
    profile_version: String,
    profile_version_date: String,
    software_version: Option<String>,
}

/// The mathematical value of a [`VersionInfo`].
pub struct VersionInfoModel {
    pub engine_version: Seq<char>,
    pub engine_version_date: Seq<char>,
    pub profile_version: Seq<char>,
    pub profile_version_date: Seq<char>,
    pub software_version: Option<Seq<char>>,
}

impl View for VersionInfo {
    type V = VersionInfoModel;

    closed spec fn view(&self) -> VersionInfoModel {
        VersionInfoModel {
            engine_version: self.engine_version@,
            engine_version_date: self.engine_version_date@,
            profile_version: self.profile_version@,
            profile_version_date: self.profile_version_date@,
            software_version: optional_text(self.software_version),
        }
    }
}

impl VersionInfoModel {
    /// Both release dates are dates in canonical form.
    pub open spec fn well_formed(self) -> bool {
        is_canonical_date(self.engine_version_date) && is_canonical_date(self.profile_version_date)
    }
}

/// The versions that [`VersionInfo::new`] makes of its arguments, if both
/// release dates are dates.
pub open spec fn versions_of(
    engine_version: Seq<char>,
    engine_version_date: Seq<char>,
    profile_version: Seq<char>,
    profile_version_date: Seq<char>,
    software_version: Option<Seq<char>>,
) -> Option<VersionInfoModel> {
    match (iso_date(engine_version_date), iso_date(profile_version_date)) {
        (Some(engine_date), Some(profile_date)) => Some(
            VersionInfoModel {
                engine_version,
                engine_version_date: engine_date,
                profile_version,
                profile_version_date: profile_date,
                software_version,
            },
        ),
        _ => None,
    }
}

impl VersionInfo {
    #[verifier::type_invariant]
    closed spec fn dates_are_canonical(self) -> bool {
        self@.well_formed()
    }

    /// The versions of the engine and of the compliance profile, each with
    /// its release date, and the version of the software build if known.
    /// `None` if a release date is not a date.
    pub fn new(
        engine_version: &str,
        engine_version_date: &str,
        profile_version: &str,
        profile_version_date: &str,
        software_version: Option<String>,
    ) -> (versions: Option<VersionInfo>)
        ensures
            versions is Some <==> iso_date(engine_version_date@) is Some && iso_date(
                profile_version_date@,
            ) is Some,
            versions matches Some(v) ==> v@.well_formed(),
            match versions {
                Some(v) => Some(v@),
                None => None,
            } == versions_of(
                engine_version@,
                engine_version_date@,
                profile_version@,
                profile_version_date@,
                optional_text(software_version),
            ),
    {
        match canonical_date(engine_version_date) {
            Some(engine_date) => match canonical_date(profile_version_date) {
                Some(profile_date) => Some(
                    VersionInfo {
                        engine_version: engine_version.to_owned(),
                        engine_version_date: engine_date,
                        profile_version: profile_version.to_owned(),
                        profile_version_date: profile_date,
                        software_version,
                    },
                ),
                None => None,
            },
            None => None,
        }
    }
}

/// The provenance block of one response.
#[derive(Debug)]
pub struct ResponseMeta<'a> {
    versions: &'a VersionInfo,
    correlation_id: Option<String>,
}

/// The mathematical value of a [`ResponseMeta`].
pub struct ResponseMetaModel {
    pub versions: VersionInfoModel,
    pub correlation_id: Option<Seq<char>>,
}

impl<'a> View for ResponseMeta<'a> {
    type V = ResponseMetaModel;

    closed spec fn view(&self) -> ResponseMetaModel {
        ResponseMetaModel {
            versions: self.versions@,
            correlation_id: optional_text(self.correlation_id),
        }
    }
}

/// The JSON string literal for an optional text.
pub open spec fn optional_json_string(text: Option<Seq<char>>) -> Option<Seq<char>> {
    match text {
        Some(t) => Some(json_string(t)),
        None => None,
    }
}

/// The JSON text of a provenance block: the four versions and dates always,
/// the software version and the request identifier where there is one.
pub open spec fn meta_json(meta: ResponseMetaModel) -> Seq<char> {
    meta_frame(
        json_string(meta.versions.engine_version),
        json_string(meta.versions.engine_version_date),
        json_string(meta.versions.profile_version),
        json_string(meta.versions.profile_version_date),
        optional_json_string(meta.versions.software_version),
        optional_json_string(meta.correlation_id),
    )
}

/// The JSON string literal for an optional text.
fn quote_optional(text: &Option<String>) -> (literal: Option<String>)
    ensures
        optional_text(literal) == optional_json_string(optional_text(*text)),
{
    match text {
        Some(t) => Some(quote(t.as_str())),
        None => None,
    }
}

/// An optional string, borrowed.
fn as_optional_slice(text: &Option<String>) -> (slice: Option<&str>)
    ensures
        optional_slice(slice) == optional_text(*text),
{
    match text {
        Some(t) => Some(t.as_str()),
        None => None,
    }
}

impl<'a> ResponseMeta<'a> {
    /// The provenance block without a request identifier.
    pub fn new(versions: &'a VersionInfo) -> (meta: ResponseMeta<'a>)
        ensures
            meta@ == (ResponseMetaModel { versions: versions@, correlation_id: None }),
            meta@.versions.well_formed(),
    {
        proof {
            use_type_invariant(versions);
        }
        ResponseMeta { versions, correlation_id: None }
    }

    /// The provenance block for the request `request_id`.
    pub fn with_request_id(versions: &'a VersionInfo, request_id: Option<String>) -> (meta:
        ResponseMeta<'a>)
        ensures
            meta@ == (ResponseMetaModel {
                versions: versions@,
                correlation_id: optional_text(request_id),
            }),
            meta@.versions.well_formed(),
    {
        proof {
            use_type_invariant(versions);
        }
        ResponseMeta { versions, correlation_id: request_id }
    }

    /// This block as JSON text.
    pub fn to_json(&self) -> (text: String)
        ensures
            text@ == meta_json(self@),
    {
        let engine_version = quote(self.versions.engine_version.as_str());
        let engine_version_date = quote(self.versions.engine_version_date.as_str());
        let profile_version = quote(self.versions.profile_version.as_str());
        let profile_version_date = quote(self.versions.profile_version_date.as_str());
        let software_version = quote_optional(&self.versions.software_version);
        let correlation_id = quote_optional(&self.correlation_id);
        frame_meta(
            engine_version.as_str(),
            engine_version_date.as_str(),
            profile_version.as_str(),
            profile_version_date.as_str(),
            as_optional_slice(&software_version),
            as_optional_slice(&correlation_id),
        )
    }
}

} // verus!
