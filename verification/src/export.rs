//! The export formats: the analytics as CSV and the chart as PNG bytes.

use crate::analytics::{
    build_analytics_for_period, counters_fit, is_period_tally, AnalyticsData, HOURS,
};
use crate::period::{lemma_normalize_period_is_idempotent, normalize_period, normalized_period};
use crate::state::AppState;
use crate::text::{
    decimal_digits, has_prefix, push_decimal, push_two_digits, starts_with, two_digits,
};
use base64::Engine;
use vstd::prelude::*;

verus! {

/// Fewest records that an export is made of.
pub const MIN_EXPORT_RECORDS: u32 = 5;

/// Why an export was not made.
#[derive(Debug)]
pub enum ExportError {
    /// The period holds fewer records than an export needs.
    NotEnoughData,
    /// The image does not start with the marker of a base64 PNG data URI.
    InvalidPayload,
    /// The image is not valid base64; the text says why.
    DecodeFailed(String),
    /// No directory could be found to export to.
    NoExportDir,
    /// The file could not be written; the text says why.
    WriteFailed(String),
}

/// The text that stands for an [`ExportError`].
pub open spec fn error_text(error: ExportError) -> Seq<char> {
    match error {
        ExportError::NotEnoughData => "NOT_ENOUGH_DATA:"@ + decimal_digits(
            MIN_EXPORT_RECORDS as nat,
        ),
        ExportError::InvalidPayload => "invalid png payload"@,
        ExportError::DecodeFailed(why) => "decode failed: "@ + why@,
        ExportError::NoExportDir => "cannot resolve export directory"@,
        ExportError::WriteFailed(why) => "write failed: "@ + why@,
    }
}

impl ExportError {
    /// The error as the text that is handed to the user interface.
    pub fn message(&self) -> (text: String)
        ensures
            text@ == error_text(*self),
    {
        match self {
            ExportError::NotEnoughData => {
                let mut text = "NOT_ENOUGH_DATA:".to_owned();
                push_decimal(&mut text, MIN_EXPORT_RECORDS as u64);
                text
            },
            ExportError::InvalidPayload => "invalid png payload".to_owned(),
            ExportError::DecodeFailed(why) => "decode failed: ".to_owned().concat(why.as_str()),
            ExportError::NoExportDir => "cannot resolve export directory".to_owned(),
            ExportError::WriteFailed(why) => "write failed: ".to_owned().concat(why.as_str()),
        }
    }
}

/// The first line of the CSV.
pub open spec fn csv_header() -> Seq<char> {
    "hour,sedentary_sessions,standup_sessions"@
}

/// The line of one hour of the day: the hour on two places, then the two counts.
pub open spec fn csv_hour_row(hour: nat, sedentary: nat, standup: nat) -> Seq<char> {
    two_digits(hour) + ":00,"@ + decimal_digits(sedentary) + ","@ + decimal_digits(standup)
}

/// The line of the session totals.
pub open spec fn csv_totals_row(sedentary: nat, standup: nat) -> Seq<char> {
    "totals,"@ + decimal_digits(sedentary) + ","@ + decimal_digits(standup)
}

/// The line of the minutes sat: whole minutes, the rest dropped.
pub open spec fn csv_minutes_row(total_sitting_secs: nat) -> Seq<char> {
    "total_sitting_minutes,"@ + decimal_digits(total_sitting_secs / 60) + ","@
}

/// The lines of the CSV: the header, one line for each of the 24 hours, and two lines
/// of totals.
pub open spec fn csv_lines(data: AnalyticsData) -> Seq<Seq<char>> {
    seq![csv_header()] + Seq::new(
        HOURS as nat,
        |h: int|
            csv_hour_row(
                h as nat,
                data.hourly_sedentary@[h] as nat,
                data.hourly_standup@[h] as nat,
            ),
    ) + seq![
        csv_totals_row(data.sedentary_sessions as nat, data.standup_sessions as nat),
        csv_minutes_row(data.total_sitting_secs as nat),
    ]
}

/// The lines put together, with a line feed between each two.
pub open spec fn joined_lines(lines: Seq<Seq<char>>) -> Seq<char>
    decreases lines.len(),
{
    if lines.len() == 0 {
        Seq::empty()
    } else if lines.len() == 1 {
        lines[0]
    } else {
        joined_lines(lines.drop_last()) + seq!['\n'] + lines.last()
    }
}

/// The text of each string of a list.
pub open spec fn texts_of(rows: Seq<String>) -> Seq<Seq<char>> {
    Seq::new(rows.len(), |i: int| rows[i]@)
}

/// The lines of the CSV for `data`, one string each.
pub fn csv_rows(data: &AnalyticsData) -> (rows: Vec<String>)
    requires
        data.wf(),
    ensures
        texts_of(rows@) == csv_lines(*data),
        rows@.len() == HOURS + 3,
{
    let mut rows: Vec<String> = Vec::new();
    rows.push("hour,sedentary_sessions,standup_sessions".to_owned());
    let mut hour: usize = 0;
    while hour < HOURS
        invariant
            hour <= HOURS,
            data.wf(),
            rows@.len() == hour + 1,
            rows@[0]@ == csv_header(),
            forall|h: int|
                0 <= h < hour ==> (#[trigger] rows@[h + 1])@ == csv_hour_row(
                    h as nat,
                    data.hourly_sedentary@[h] as nat,
                    data.hourly_standup@[h] as nat,
                ),
        decreases HOURS - hour,
    {
        let mut row = String::new();
        push_two_digits(&mut row, hour as u64);
        row.append(":00,");
        push_decimal(&mut row, data.hourly_sedentary[hour] as u64);
        row.append(",");
        push_decimal(&mut row, data.hourly_standup[hour] as u64);
        assert(row@ =~= csv_hour_row(
            hour as nat,
            data.hourly_sedentary@[hour as int] as nat,
            data.hourly_standup@[hour as int] as nat,
        ));
        rows.push(row);
        hour += 1;
    }
    let mut totals = "totals,".to_owned();
    push_decimal(&mut totals, data.sedentary_sessions as u64);
    totals.append(",");
    push_decimal(&mut totals, data.standup_sessions as u64);
    assert(totals@ =~= csv_totals_row(
        data.sedentary_sessions as nat,
        data.standup_sessions as nat,
    ));
    rows.push(totals);
    let mut minutes = "total_sitting_minutes,".to_owned();
    push_decimal(&mut minutes, data.total_sitting_secs / 60);
    minutes.append(",");
    assert(minutes@ =~= csv_minutes_row(data.total_sitting_secs as nat));
    rows.push(minutes);
    proof {
        let lines = csv_lines(*data);
        assert(lines.len() == HOURS + 3);
        assert forall|k: int| 0 <= k < lines.len() implies texts_of(rows@)[k] == lines[k] by {
            if 1 <= k <= HOURS {
                let h = k - 1;
                assert(rows@[h + 1]@ == csv_hour_row(
                    h as nat,
                    data.hourly_sedentary@[h] as nat,
                    data.hourly_standup@[h] as nat,
                ));
            }
        }
        assert(texts_of(rows@) =~= lines);
    }
    rows
}

/// Puts lines together, with a line feed between each two and none at the end.
pub fn join_lines(rows: &Vec<String>) -> (text: String)
    ensures
        text@ == joined_lines(texts_of(rows@)),
{
    let mut text = String::new();
    let n = rows.len();
    let mut i: usize = 0;
    let ghost lines = texts_of(rows@);
    while i < n
        invariant
            i <= n,
            n == rows@.len(),
            lines == texts_of(rows@),
            text@ == joined_lines(lines.take(i as int)),
        decreases n - i,
    {
        proof {
            reveal_strlit("\n");
            assert(lines.take(i + 1).drop_last() =~= lines.take(i as int));
            assert("\n"@ =~= seq!['\n']);
        }
        if i > 0 {
            text.append("\n");
        }
        text.append(rows[i].as_str());
        assert(text@ =~= joined_lines(lines.take(i + 1)));
        i += 1;
    }
    assert(lines.take(n as int) =~= lines);
    text
}

/// The analytics of a period as CSV text.
///
/// An export is refused if the period holds fewer than five records. Otherwise the text
/// has 27 lines: the header, the 24 hours and the two totals.
pub fn analytics_csv(data: &AnalyticsData) -> (result: Result<String, ExportError>)
    requires
        data.wf(),
    ensures
        data.record_count < MIN_EXPORT_RECORDS <==> result is Err,
        result is Err ==> result->Err_0 is NotEnoughData,
        result is Ok ==> result->Ok_0@ == joined_lines(csv_lines(*data)),
{
    if data.record_count < MIN_EXPORT_RECORDS {
        return Err(ExportError::NotEnoughData);
    }
    let rows = csv_rows(data);
    Ok(join_lines(&rows))
}

/// What the `base64` crate makes of a text in the standard alphabet, with padding: the
/// bytes that it decodes to, or the words of the crate's error where it rejects the text.
pub uninterp spec fn base64_standard_decoded(payload: Seq<char>) -> Result<Seq<u8>, Seq<char>>;

/// `Engine::decode` of `base64::engine::general_purpose::STANDARD`: the bytes that
/// `payload` decodes to, or the crate's error, handed on as the text that its
/// `to_string` gives. The outcome is a function of the text alone.
#[verifier::external_body]
fn decode_standard(payload: &str) -> (decoded: Result<Vec<u8>, String>)
    ensures
        match base64_standard_decoded(payload@) {
            Ok(bytes) => decoded is Ok && decoded->Ok_0@ == bytes,
            Err(why) => decoded is Err && decoded->Err_0@ == why,
        },
{
    match base64::engine::general_purpose::STANDARD.decode(payload) {
        Ok(bytes) => Ok(bytes),
        Err(error) => Err(error.to_string()),
    }
}

/// The marker that a PNG image handed over as a data URI starts with.
pub open spec fn png_marker() -> Seq<char> {
    "data:image/png;base64,"@
}

/// What follows the marker in a data URI.
pub open spec fn png_payload(data_url: Seq<char>) -> Seq<char> {
    data_url.subrange(png_marker().len() as int, data_url.len() as int)
}

/// The bytes of the image, given what decoding its payload gave: the bytes, or the
/// decoder's words on why there are none.
pub fn png_bytes_from(decoded: Result<Vec<u8>, String>) -> (result: Result<Vec<u8>, ExportError>)
    ensures
        match decoded {
            Ok(bytes) => result == Ok::<Vec<u8>, ExportError>(bytes),
            Err(why) => result == Err::<Vec<u8>, ExportError>(ExportError::DecodeFailed(why)),
        },
{
    match decoded {
        Ok(bytes) => Ok(bytes),
        Err(why) => Err(ExportError::DecodeFailed(why)),
    }
}

/// The bytes of a PNG image that comes as a base64 data URI.
///
/// A text without the marker is refused as an invalid payload. What follows the marker
/// is decoded as standard base64; a text that does not decode is refused with the
/// decoder's reason.
pub fn decode_png_payload(data_url: &str) -> (result: Result<Vec<u8>, ExportError>)
    ensures
        !has_prefix(data_url@, png_marker()) <==> (result is Err
            && result->Err_0 is InvalidPayload),
        has_prefix(data_url@, png_marker()) ==> match base64_standard_decoded(
            png_payload(data_url@),
        ) {
            Ok(bytes) => result is Ok && result->Ok_0@ == bytes,
            Err(why) => result is Err && result->Err_0 is DecodeFailed
                && result->Err_0->DecodeFailed_0@ == why,
        },
{
    let marker = "data:image/png;base64,";
    if !starts_with(data_url, marker) {
        return Err(ExportError::InvalidPayload);
    }
    let payload = data_url.substring_char(marker.unicode_len(), data_url.unicode_len());
    png_bytes_from(decode_standard(payload))
}

/// The name of a CSV export: the period and the time of the export, which comes as
/// `stamp`.
pub open spec fn csv_file_name_text(period: Seq<char>, stamp: Seq<char>) -> Seq<char> {
    "standby_"@ + normalized_period(period) + "_analytics_"@ + stamp + ".csv"@
}

/// The name of a chart export made at the time `stamp`.
pub open spec fn png_file_name_text(stamp: Seq<char>) -> Seq<char> {
    "standby_24h_heatmap_"@ + stamp + ".png"@
}

/// Names the file of a CSV export.
pub fn csv_file_name(period: &str, stamp: &str) -> (name: String)
    ensures
        name@ == csv_file_name_text(period@, stamp@),
{
    let mut name = "standby_".to_owned();
    name.append(normalize_period(period));
    name.append("_analytics_");
    name.append(stamp);
    name.append(".csv");
    name
}

/// Names the file of a chart export.
pub fn png_file_name(stamp: &str) -> (name: String)
    ensures
        name@ == png_file_name_text(stamp@),
{
    let mut name = "standby_24h_heatmap_".to_owned();
    name.append(stamp);
    name.append(".png");
    name
}

/// A CSV export that is ready to be written.
pub struct CsvExport {
    pub file_name: String,
    pub contents: String,
}

/// A chart export that is ready to be written.
pub struct PngExport {
    pub file_name: String,
    pub bytes: Vec<u8>,
}

/// Prepares the CSV export of the period that `period` names, of today where none is
/// named. `stamp` is the time of the export as it goes into the file name.
///
/// The log is only read. The export is refused if the period holds fewer than five
/// records; else the contents are the 27 lines of the period's analytics.
pub fn export_analytics_csv(state: &AppState, period: Option<&str>, now: i64, stamp: &str) -> (result:
    Result<CsvExport, ExportError>)
    requires
        counters_fit(state@.reminder_events, state@.standup_events),
    ensures
        result is Err ==> result->Err_0 is NotEnoughData,
        result is Ok ==> result->Ok_0.file_name@ == csv_file_name_text(
            match period {
                Some(name) => name@,
                None => "daily"@,
            },
            stamp@,
        ),
        result is Ok ==> exists|data: AnalyticsData|
            #[trigger] is_period_tally(data, state@) && data.record_count >= MIN_EXPORT_RECORDS
                && result->Ok_0.contents@ == joined_lines(csv_lines(data)),
        result is Err ==> exists|data: AnalyticsData|
            #[trigger] is_period_tally(data, state@) && data.record_count < MIN_EXPORT_RECORDS,
{
    let name = match period {
        Some(name) => name,
        None => "daily",
    };
    let period_key = normalize_period(name);
    let data = build_analytics_for_period(state, period_key, now);
    match analytics_csv(&data) {
        Ok(contents) => {
            proof {
                lemma_normalize_period_is_idempotent(name@);
            }
            Ok(CsvExport { file_name: csv_file_name(period_key, stamp), contents })
        },
        Err(error) => Err(error),
    }
}

/// Prepares the export of a chart that comes as a base64 PNG data URI. `stamp` is the
/// time of the export as it goes into the file name.
pub fn export_analytics_png(data_url: &str, stamp: &str) -> (result: Result<PngExport, ExportError>)
    ensures
        !has_prefix(data_url@, png_marker()) <==> (result is Err
            && result->Err_0 is InvalidPayload),
        has_prefix(data_url@, png_marker()) ==> match base64_standard_decoded(
            png_payload(data_url@),
        ) {
            Ok(bytes) => result is Ok && result->Ok_0.bytes@ == bytes,
            Err(why) => result is Err && result->Err_0 is DecodeFailed
                && result->Err_0->DecodeFailed_0@ == why,
        },
        result is Ok ==> result->Ok_0.file_name@ == png_file_name_text(stamp@),
{
    match decode_png_payload(data_url) {
        Ok(bytes) => Ok(PngExport { file_name: png_file_name(stamp), bytes }),
        Err(error) => Err(error),
    }
}

} // verus!
