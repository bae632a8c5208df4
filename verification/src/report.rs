//! The printed table: one header line, then one line for each sample of the
//! forecast, in the order of the forecast, with the sample's time shown in the
//! time zone of the machine.

use vstd::prelude::*;
use crate::error::Failure;
use crate::structs::{Details, Timeseries, WeatherData};

verus! {

/// `chrono::NaiveDateTime`, carried from reading a time to writing it.
/// Nothing inside it is seen from here.
#[verifier::external_type_specification]
#[verifier::external_body]
pub struct ExNaiveDateTime(chrono::NaiveDateTime);

/// `chrono::format::ParseError`, the reason why a text is no time.
#[verifier::external_type_specification]
#[verifier::external_body]
pub struct ExParseError(chrono::format::ParseError);

/// What `chrono::NaiveDateTime::parse_from_str` reads from `time` by `format`:
/// the date and time, or `None` where it rejects the text.
pub uninterp spec fn chrono_reads(time: Seq<char>, format: Seq<char>) -> Option<
    chrono::NaiveDateTime,
>;

/// What chrono writes by `format` for the UTC time `utc`, seen from a zone
/// that is `offset` seconds east of UTC.
pub uninterp spec fn shown_at(utc: chrono::NaiveDateTime, offset: int, format: Seq<char>) -> Seq<
    char,
>;

/// Calls `chrono::NaiveDateTime::parse_from_str`. What it reads is chrono's to
/// say: the contract gives the outcome a name and claims nothing else.
#[verifier::external_body]
fn parse_naive(time: &str, format: &str) -> (parsed: Result<
    chrono::NaiveDateTime,
    chrono::format::ParseError,
>)
    ensures
        match parsed {
            Ok(utc) => chrono_reads(time@, format@) == Some(utc),
            Err(_) => chrono_reads(time@, format@) is None,
        },
{
    chrono::NaiveDateTime::parse_from_str(time, format)
}

/// Asks `chrono::Local` for the machine's offset from UTC at `utc`, with
/// `chrono::TimeZone::offset_from_utc_datetime`, and hands it out in seconds
/// east. Which offset it is depends on the machine; a `chrono::FixedOffset`
/// is always less than a day either way.
#[verifier::external_body]
fn local_offset(utc: &chrono::NaiveDateTime) -> (seconds: i32)
    ensures
        -86_400 < seconds < 86_400,
{
    chrono::TimeZone::offset_from_utc_datetime(&chrono::Local, utc).local_minus_utc()
}

/// Writes `utc` as seen `seconds` east of UTC: `chrono::FixedOffset::east_opt`
/// makes the offset, `chrono::TimeZone::from_utc_datetime` puts the time in
/// it, and `chrono::DateTime::format` writes it. The offset is held to those
/// that `east_opt` makes, and the format to the one that the table uses,
/// which chrono can write for every date and time.
#[verifier::external_body]
fn format_at(utc: &chrono::NaiveDateTime, seconds: i32, format: &str) -> (text: String)
    requires
        -86_400 < seconds < 86_400,
        format@ == shown_time_format(),
    ensures
        text@ == shown_at(*utc, seconds as int, format@),
{
    let offset = chrono::FixedOffset::east_opt(seconds).unwrap();
    chrono::TimeZone::from_utc_datetime(&offset, utc).format(format).to_string()
}

/// The form of a sample's time in the forecast: `YYYY-MM-DDTHH:MM:SSZ`.
pub open spec fn utc_time_format() -> Seq<char> {
    "%Y-%m-%dT%H:%M:%SZ"@
}

/// The form of a time in the table: `YYYY-MM-DD HH:MM:SS`.
pub open spec fn shown_time_format() -> Seq<char> {
    "%Y-%m-%d %H:%M:%S"@
}

/// Whether `time` is a UTC time in the forecast's form, as chrono reads that
/// form.
pub open spec fn is_utc_time(time: Seq<char>) -> bool {
    chrono_reads(time, utc_time_format()) is Some
}

/// What the table shows for the UTC time `time` of the forecast in a zone
/// that is `offset` seconds east of UTC.
pub open spec fn shown_time(time: Seq<char>, offset: int) -> Seq<char>
    recommends
        is_utc_time(time),
{
    shown_at(chrono_reads(time, utc_time_format())->0, offset, shown_time_format())
}

/// Whether `text` shows the UTC time `time` of the forecast in some zone:
/// one that is less than a day east or west of UTC.
pub open spec fn is_local_time_of(text: Seq<char>, time: Seq<char>) -> bool {
    exists|offset: int| -86_400 < offset < 86_400 && text == #[trigger] shown_time(time, offset)
}

/// What the table shows for a reading: its text, or `0.0` where the reading
/// is unknown. The stand-in exists only here, on the way to the screen.
pub open spec fn shown_reading(reading: Option<String>) -> Seq<char> {
    match reading {
        Some(text) => text@,
        None => "0.0"@,
    }
}

/// The table's first line.
pub open spec fn header_text() -> Seq<char> {
    "Time\t\t\tTemperature\tHumidity\tWind speed\tWind direction\tUltraviolet index"@
}

/// The line of one sample: local time, air temperature, relative humidity,
/// wind speed, wind direction and ultraviolet index, parted by tabs.
pub open spec fn row_text(local_time: Seq<char>, details: Details) -> Seq<char> {
    local_time + "\t"@ + shown_reading(details.air_temperature) + "\t\t"@ + shown_reading(
        details.relative_humidity,
    ) + "\t\t"@ + shown_reading(details.wind_speed) + "\t\t"@ + shown_reading(
        details.wind_from_direction,
    ) + "\t\t"@ + shown_reading(details.ultraviolet_index_clear_sky)
}

/// The header line and the lines of `series`, each ended by a line feed, where
/// `local_times` holds the local time of each sample.
pub open spec fn table_text(local_times: Seq<Seq<char>>, series: Seq<Timeseries>) -> Seq<char>
    recommends
        local_times.len() == series.len(),
    decreases series.len(),
{
    if series.len() == 0 || local_times.len() == 0 {
        header_text() + "\n"@
    } else {
        table_text(local_times.drop_last(), series.drop_last()) + row_text(
            local_times.last(),
            series.last().data.instant.details,
        ) + "\n"@
    }
}

/// Whether every sample of `series` has a time that `is_utc_time` accepts.
pub open spec fn all_times_accepted(series: Seq<Timeseries>) -> bool {
    forall|i: int| 0 <= i < series.len() ==> is_utc_time(#[trigger] series[i].time@)
}

/// A further sample adds its line at the end of the table and leaves the
/// lines before it as they were: the table follows the order of the samples.
pub proof fn lemma_table_text_push(
    local_times: Seq<Seq<char>>,
    series: Seq<Timeseries>,
    local_time: Seq<char>,
    sample: Timeseries,
)
    ensures
        table_text(local_times.push(local_time), series.push(sample)) == table_text(
            local_times,
            series,
        ) + row_text(local_time, sample.data.instant.details) + "\n"@,
{
    assert(local_times.push(local_time).drop_last() =~= local_times);
    assert(series.push(sample).drop_last() =~= series);
}

/// A sample of which none of the five shown readings is known has `0.0` in
/// each of the five columns behind its time.
pub proof fn lemma_unknown_readings_show_zero(local_time: Seq<char>, details: Details)
    requires
        details.air_temperature is None,
        details.relative_humidity is None,
        details.wind_speed is None,
        details.wind_from_direction is None,
        details.ultraviolet_index_clear_sky is None,
    ensures
        row_text(local_time, details) == local_time + "\t0.0\t\t0.0\t\t0.0\t\t0.0\t\t0.0"@,
{
    reveal_strlit("\t");
    reveal_strlit("\t\t");
    reveal_strlit("0.0");
    reveal_strlit("\t0.0\t\t0.0\t\t0.0\t\t0.0\t\t0.0");
    assert(row_text(local_time, details) =~= local_time
        + "\t0.0\t\t0.0\t\t0.0\t\t0.0\t\t0.0"@);
}

/// The table's first line, without its line feed.
pub fn header() -> (line: String)
    ensures
        line@ == header_text(),
{
    String::from_str(
        "Time\t\t\tTemperature\tHumidity\tWind speed\tWind direction\tUltraviolet index",
    )
}

/// The text that the table shows for `reading`: the reading's own, or `0.0`
/// for one that is unknown.
pub fn reading_or_zero(reading: &Option<String>) -> (text: &str)
    ensures
        text@ == shown_reading(*reading),
{
    match reading {
        Some(text) => text.as_str(),
        None => "0.0",
    }
}

/// The line of one sample, without its line feed, given the sample's time as
/// the table is to show it.
pub fn render_row(local_time: &str, details: &Details) -> (line: String)
    ensures
        line@ == row_text(local_time@, *details),
{
    let mut line = String::from_str(local_time);
    line.append("\t");
    line.append(reading_or_zero(&details.air_temperature));
    line.append("\t\t");
    line.append(reading_or_zero(&details.relative_humidity));
    line.append("\t\t");
    line.append(reading_or_zero(&details.wind_speed));
    line.append("\t\t");
    line.append(reading_or_zero(&details.wind_from_direction));
    line.append("\t\t");
    line.append(reading_or_zero(&details.ultraviolet_index_clear_sky));
    line
}

/// Reads `time` as a UTC time of the forecast and writes it as seen
/// `offset_seconds` east of UTC, for an offset of less than a day either way.
/// Fails exactly on a `time` that is not in the forecast's form, with that
/// `time` in the error.
pub fn timestamp_at(time: &str, offset_seconds: i32) -> (shown: Result<String, Failure>)
    requires
        -86_400 < offset_seconds < 86_400,
    ensures
        match shown {
            Ok(text) => is_utc_time(time@) && text@ == shown_time(time@, offset_seconds as int),
            Err(Failure::TimeParse { time: rejected }) => !is_utc_time(time@) && rejected@
                == time@,
            Err(_) => false,
        },
{
    match parse_naive(time, "%Y-%m-%dT%H:%M:%SZ") {
        Ok(utc) => Ok(format_at(&utc, offset_seconds, "%Y-%m-%d %H:%M:%S")),
        Err(_) => Err(Failure::TimeParse { time: String::from_str(time) }),
    }
}

/// Reads `time` as a UTC time of the forecast and writes it in the machine's
/// time zone: the text is that of `timestamp_at` for the offset that the
/// machine's zone has at that time. Fails exactly on a `time` that is not in
/// the forecast's form, with that `time` in the error.
pub fn local_timestamp(time: &str) -> (shown: Result<String, Failure>)
    ensures
        match shown {
            Ok(text) => is_utc_time(time@) && is_local_time_of(text@, time@),
            Err(Failure::TimeParse { time: rejected }) => !is_utc_time(time@) && rejected@
                == time@,
            Err(_) => false,
        },
{
    match parse_naive(time, "%Y-%m-%dT%H:%M:%SZ") {
        Ok(utc) => {
            let offset = local_offset(&utc);
            let text = format_at(&utc, offset, "%Y-%m-%d %H:%M:%S");
            assert(text@ == shown_time(time@, offset as int));
            Ok(text)
        },
        Err(_) => Err(Failure::TimeParse { time: String::from_str(time) }),
    }
}

/// The whole table for `weather`. Fails at the first sample whose time is not
/// in the forecast's form. Otherwise the result is `table_text` of the
/// samples, where the time of each row shows that sample's own time in some
/// zone.
pub fn render(weather: &WeatherData) -> (table: Result<String, Failure>)
    ensures
        table is Ok <==> all_times_accepted(weather.properties.timeseries@),
        table matches Ok(text) ==> exists|local_times: Seq<Seq<char>>|
            local_times.len() == weather.properties.timeseries@.len() && (forall|i: int|
                0 <= i < local_times.len() ==> is_local_time_of(
                    #[trigger] local_times[i],
                    weather.properties.timeseries@[i].time@,
                )) && text@ == table_text(local_times, weather.properties.timeseries@),
        table is Err ==> exists|at: int|
            0 <= at < weather.properties.timeseries@.len() && all_times_accepted(
                weather.properties.timeseries@.take(at),
            ) && !is_utc_time(weather.properties.timeseries@[at].time@) && (table matches Err(
                Failure::TimeParse { time: rejected },
            ) && rejected@ == weather.properties.timeseries@[at].time@),
{
    let series = &weather.properties.timeseries;
    let mut text = header();
    text.append("\n");
    let ghost mut local_times: Seq<Seq<char>> = Seq::empty();
    let mut at: usize = 0;
    while at < series.len()
        invariant
            series@ == weather.properties.timeseries@,
            at <= series@.len(),
            local_times.len() == at,
            forall|i: int|
                0 <= i < at ==> is_local_time_of(#[trigger] local_times[i], series@[i].time@),
            text@ == table_text(local_times, series@.take(at as int)),
            all_times_accepted(series@.take(at as int)),
        decreases series@.len() - at,
    {
        let sample = &series[at];
        match local_timestamp(sample.time.as_str()) {
            Ok(local_time) => {
                let line = render_row(local_time.as_str(), &sample.data.instant.details);
                proof {
                    let before = series@.take(at as int);
                    let after = series@.take(at + 1);
                    assert(after =~= before.push(*sample));
                    lemma_table_text_push(local_times, before, local_time@, *sample);
                    assert forall|i: int| 0 <= i < after.len() implies is_utc_time(
                        #[trigger] after[i].time@,
                    ) by {
                        if i < at {
                            assert(before[i] == after[i]);
                        }
                    }
                    local_times = local_times.push(local_time@);
                }
                text.append(line.as_str());
                text.append("\n");
            },
            Err(error) => {
                assert(!is_utc_time(series@[at as int].time@));
                return Err(error);
            },
        }
        at = at + 1;
    }
    proof {
        assert(series@.take(at as int) =~= series@);
    }
    Ok(text)
}

} // verus!
