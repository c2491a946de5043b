//! Declarations of the outside date/time and identifier types that travel
//! through row conversion, and the trusted renderings of them. Each rendering
//! is a pure function of its argument; its result is given a name that the
//! codec's contracts speak of.

use vstd::prelude::*;

verus! {

#[verifier::external_type_specification]
#[verifier::external_body]
pub struct ExNaiveDateTime(chrono::NaiveDateTime);

#[verifier::external_type_specification]
#[verifier::external_body]
pub struct ExNaiveDate(chrono::NaiveDate);

#[verifier::external_type_specification]
#[verifier::external_body]
pub struct ExUuid(uuid::Uuid);

/// The canonical textual rendering of a timestamp without zone, as chrono's
/// `Display` for `NaiveDateTime` produces it.
pub uninterp spec fn timestamp_text(t: chrono::NaiveDateTime) -> Seq<char>;

/// The RFC 3339 rendering, with zone offset, of the UTC timestamp whose
/// instant `t` holds.
pub uninterp spec fn timestamptz_text(t: chrono::NaiveDateTime) -> Seq<char>;

/// The `YYYY-MM-DD` rendering of a date, as chrono's `Display` for
/// `NaiveDate` produces it.
pub uninterp spec fn date_text(d: chrono::NaiveDate) -> Seq<char>;

/// The canonical hyphenated textual form of a unique identifier.
pub uninterp spec fn uuid_text(u: uuid::Uuid) -> Seq<char>;

/// Relies on chrono's `Display` impl for `NaiveDateTime`: a canonical
/// rendering with no zone suffix, determined by the timestamp alone.
#[verifier::external_body]
pub(crate) fn render_timestamp(t: &chrono::NaiveDateTime) -> (r: String)
    ensures
        r@ == timestamp_text(*t),
{
    t.to_string()
}

/// Relies on `chrono::DateTime::to_rfc3339` at the fixed UTC zone (reached
/// through `NaiveDateTime::and_utc`): an RFC 3339 rendering with zone offset,
/// determined by the instant alone.
#[verifier::external_body]
pub(crate) fn render_timestamptz(t: &chrono::NaiveDateTime) -> (r: String)
    ensures
        r@ == timestamptz_text(*t),
{
    t.and_utc().to_rfc3339()
}

/// Relies on chrono's `Display` impl for `NaiveDate`: the `YYYY-MM-DD`
/// rendering, determined by the date alone.
#[verifier::external_body]
pub(crate) fn render_date(d: &chrono::NaiveDate) -> (r: String)
    ensures
        r@ == date_text(*d),
{
    d.to_string()
}

/// Relies on uuid's `Display` impl for `Uuid`: the canonical hyphenated
/// lowercase form, determined by the identifier's bytes alone.
#[verifier::external_body]
pub(crate) fn render_uuid(u: &uuid::Uuid) -> (r: String)
    ensures
        r@ == uuid_text(*u),
{
    u.to_string()
}

} // verus!
