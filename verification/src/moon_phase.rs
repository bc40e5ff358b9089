//! The phase of the moon, as the naval observatory's service reports it.

use crate::calendar::{format_date_time, formatted_date_time, is_calendar_date, text_of};
use serde_json::Value;
use vstd::prelude::*;

verus! {

/// The error of `serde_json`: opaque, carried through to the caller.
#[verifier::external_type_specification]
#[verifier::external_body]
pub struct ExJsonError(serde_json::Error);

/// The address of the service, as a `strftime` pattern for the date asked for.
pub const USNO_URL_PATTERN: &'static str =
    "https://api.usno.navy.mil/moon/phase?date=%m/%d/%Y&nump=1";

/// One of the four principal phases of the moon.
#[derive(Clone, Copy, Debug, PartialEq, Eq, Structural)]
pub enum MoonPhase {
    New,
    FirstQuarter,
    Full,
    LastQuarter,
}

/// The phase that the service calls `name`, if it is one of the four.
pub open spec fn phase_named(name: Seq<char>) -> Option<MoonPhase> {
    if name == "New Moon"@ {
        Some(MoonPhase::New)
    } else if name == "First Quarter"@ {
        Some(MoonPhase::FirstQuarter)
    } else if name == "Full Moon"@ {
        Some(MoonPhase::Full)
    } else if name == "Last Quarter"@ {
        Some(MoonPhase::LastQuarter)
    } else {
        None
    }
}

impl MoonPhase {
    /// The phase that the service calls `name`.
    pub fn from_name(name: &str) -> (r: Option<MoonPhase>)
        ensures
            r == phase_named(name@),
    {
        if name.eq("New Moon") {
            Some(MoonPhase::New)
        } else if name.eq("First Quarter") {
            Some(MoonPhase::FirstQuarter)
        } else if name.eq("Full Moon") {
            Some(MoonPhase::Full)
        } else if name.eq("Last Quarter") {
            Some(MoonPhase::LastQuarter)
        } else {
            None
        }
    }
}

/// The phase field of a document was missing, not a text, or not the name of
/// a phase; `found` is the text that stood there, if any.
#[derive(Debug)]
pub struct PhaseError {
    pub found: Option<String>,
}

impl View for PhaseError {
    type V = Option<Seq<char>>;

    open spec fn view(&self) -> Option<Seq<char>> {
        text_of(self.found)
    }
}

/// The characters of an optional string slice.
pub open spec fn slice_text_of(text: Option<&str>) -> Option<Seq<char>> {
    match text {
        Some(t) => Some(t@),
        None => None,
    }
}

/// What `{:?}` writes for a string slice: the text in double quotes, with
/// the escapes of the standard library.
pub uninterp spec fn debug_quoted(text: Seq<char>) -> Seq<char>;

/// A string slice as `{:?}` writes it.
///
/// Calls the `Debug` formatting of `str`. Trusted: the result depends on the
/// text alone.
#[verifier::external_body]
fn quote_for_debug(text: &str) -> (r: String)
    ensures
        r@ == debug_quoted(text@),
{
    format!("{:?}", text)
}

/// What a [`PhaseError`] says: the four names that were expected, and what
/// was found, written as `{:?}` writes an `Option`.
pub open spec fn phase_error_text(found: Option<Seq<char>>) -> Seq<char> {
    "Expected one of `New Moon`, `First Quarter`, `Full Moon`, or `Last Quarter`, got "@
        + match found {
        Some(text) => "Some("@ + debug_quoted(text) + ")"@,
        None => "None"@,
    }
}

impl PhaseError {
    pub fn new(s: Option<&str>) -> (r: PhaseError)
        ensures
            r@ == slice_text_of(s),
    {
        match s {
            Some(text) => PhaseError { found: Some(String::from_str(text)) },
            None => PhaseError { found: None },
        }
    }

    /// The error as a sentence.
    pub fn message(&self) -> (r: String)
        ensures
            r@ == phase_error_text(self@),
    {
        let mut r = String::from_str(
            "Expected one of `New Moon`, `First Quarter`, `Full Moon`, or `Last Quarter`, got ",
        );
        match &self.found {
            Some(text) => {
                let quoted = quote_for_debug(text.as_str());
                r.append("Some(");
                r.append(quoted.as_str());
                r.append(")");
                assert(r@ =~= phase_error_text(self@));
            },
            None => {
                r.append("None");
            },
        }
        r
    }
}

/// Why a document gave no phase.
#[derive(Debug)]
pub enum MoonDataError {
    /// The document is not JSON; the parser's error says where.
    Json(serde_json::Error),
    /// The document is JSON and its phase field names no phase.
    Phase(PhaseError),
}

/// The phase that a phase field stands for, or what was found instead.
pub open spec fn phase_of_field(found: Option<Seq<char>>) -> Result<MoonPhase, Option<Seq<char>>> {
    match found {
        Some(name) => match phase_named(name) {
            Some(phase) => Ok(phase),
            None => Err(found),
        },
        None => Err(found),
    }
}

/// The phase that a phase field stands for: one of the four names gives its
/// phase, anything else an error that holds what was found.
pub fn phase_from_field(found: Option<&str>) -> (r: Result<MoonPhase, PhaseError>)
    ensures
        match phase_of_field(slice_text_of(found)) {
            Ok(phase) => r == Ok::<MoonPhase, PhaseError>(phase),
            Err(text) => r is Err && r->Err_0@ == text,
        },
{
    match found {
        Some(name) => match MoonPhase::from_name(name) {
            Some(phase) => Ok(phase),
            None => Err(PhaseError::new(found)),
        },
        None => Err(PhaseError::new(found)),
    }
}

/// What a JSON document holds under `[outer][index][inner]`: `None` where
/// the text is not JSON, `Some(None)` where it is and no string stands at
/// that place, and the string otherwise.
pub uninterp spec fn json_text_at(text: Seq<char>, outer: Seq<char>, index: int, inner: Seq<char>)
    -> Option<Option<Seq<char>>>;

/// Parses a JSON document and reads the string at `[outer][index][inner]`.
///
/// Calls `serde_json::from_str` for a `Value`, the indexing of `Value` by a
/// key and by a position, and `Value::as_str`. Trusted: the outcome depends
/// on the four arguments alone.
#[verifier::external_body]
fn read_json_text(text: &str, outer: &str, index: usize, inner: &str) -> (r: Result<
    Option<String>,
    serde_json::Error,
>)
    ensures
        match r {
            Ok(found) => json_text_at(text@, outer@, index as int, inner@) == Some(text_of(found)),
            Err(_) => json_text_at(text@, outer@, index as int, inner@) is None,
        },
{
    let data: Value = serde_json::from_str(text)?;
    Ok(data[outer][index][inner].as_str().map(String::from))
}

/// The phase that a document of the service reports: the phase named by the
/// `phase` field of the first entry of `phasedata`.
///
/// A text that is not JSON gives the parser's error; a document without
/// that field, or with a text there that names no phase, a [`PhaseError`].
pub fn process_moon_data(moon_json: &str) -> (r: Result<MoonPhase, MoonDataError>)
    ensures
        match json_text_at(moon_json@, "phasedata"@, 0, "phase"@) {
            None => r matches Err(MoonDataError::Json(_)),
            Some(found) => match phase_of_field(found) {
                Ok(phase) => r matches Ok(p) && p == phase,
                Err(text) => r matches Err(MoonDataError::Phase(e)) && e@ == text,
            },
        },
{
    match read_json_text(moon_json, "phasedata", 0, "phase") {
        Err(e) => Err(MoonDataError::Json(e)),
        Ok(found) => {
            let field: Option<&str> = match &found {
                Some(text) => Some(text.as_str()),
                None => None,
            };
            match phase_from_field(field) {
                Ok(phase) => Ok(phase),
                Err(e) => Err(MoonDataError::Phase(e)),
            }
        },
    }
}

/// The address at which the service reports the phase for a date: the date
/// written into [`USNO_URL_PATTERN`]. There is none for a date that does not
/// exist.
pub fn usno_url(year: i32, month: u32, day: u32) -> (r: Option<String>)
    ensures
        text_of(r) == formatted_date_time(
            year as int,
            month as int,
            day as int,
            0,
            0,
            0,
            USNO_URL_PATTERN@,
        ),
        r is Some ==> is_calendar_date(year as int, month as int, day as int),
{
    format_date_time(year, month, day, 0, 0, 0, USNO_URL_PATTERN)
}

} // verus!
