use chrono::{Local, NaiveDate, TimeZone};
use gurka::error::Failure;
use gurka::report::{
    header, local_timestamp, reading_or_zero, render, render_row, timestamp_at,
};
use gurka::structs::{
    Data, Details, Geometry, Instant, Meta, Next1Hours, Properties, Summary, Timeseries, Units,
    WeatherData,
};

fn unknown() -> Details {
    Details {
        air_pressure_at_sea_level: None,
        air_temperature: None,
        cloud_area_fraction: None,
        relative_humidity: None,
        wind_from_direction: None,
        wind_speed: None,
        wind_speed_of_gust: None,
        ultraviolet_index_clear_sky: None,
    }
}

fn reading(value: f64) -> Option<String> {
    Some(value.to_string())
}

fn sample(time: &str, details: Details) -> Timeseries {
    Timeseries {
        time: time.to_string(),
        data: Data {
            instant: Instant { details },
            next_1_hours: None,
            next_6_hours: None,
            next_12_hours: None,
        },
    }
}

fn forecast(timeseries: Vec<Timeseries>) -> WeatherData {
    WeatherData {
        kind: "Feature".to_string(),
        geometry: Geometry {
            kind: "Point".to_string(),
            coordinates: vec!["12.1266".to_string(), "57.9603".to_string(), "52".to_string()],
        },
        properties: Properties {
            meta: Meta {
                updated_at: "2024-01-15T09:31:27Z".to_string(),
                units: Units {
                    air_pressure_at_sea_level: "hPa".to_string(),
                    air_temperature: "celsius".to_string(),
                    cloud_area_fraction: "%".to_string(),
                    precipitation_amount: "mm".to_string(),
                    relative_humidity: "%".to_string(),
                    wind_from_direction: "degrees".to_string(),
                    wind_speed: "m/s".to_string(),
                },
            },
            timeseries,
        },
    }
}

fn local(year: i32, month: u32, day: u32, hour: u32, minute: u32, second: u32) -> String {
    let utc = NaiveDate::from_ymd_opt(year, month, day)
        .unwrap()
        .and_hms_opt(hour, minute, second)
        .unwrap();
    Local.from_utc_datetime(&utc).format("%Y-%m-%d %H:%M:%S").to_string()
}

const HEADER: &str =
    "Time\t\t\tTemperature\tHumidity\tWind speed\tWind direction\tUltraviolet index";

#[test]
fn header_names_the_six_columns() {
    assert_eq!(header(), HEADER);
    let columns: Vec<&str> = HEADER.split('\t').filter(|column| !column.is_empty()).collect();
    assert_eq!(
        columns,
        vec![
            "Time",
            "Temperature",
            "Humidity",
            "Wind speed",
            "Wind direction",
            "Ultraviolet index"
        ]
    );
}

#[test]
fn unknown_reading_is_shown_as_zero() {
    assert_eq!(reading_or_zero(&None), "0.0");
}

#[test]
fn known_reading_is_shown_as_it_is() {
    assert_eq!(reading_or_zero(&reading(-3.4)), "-3.4");
    assert_eq!(reading_or_zero(&reading(0.0)), "0");
    assert_eq!(reading_or_zero(&Some("1013.2".to_string())), "1013.2");
}

#[test]
fn row_of_unknown_readings_shows_five_zeros() {
    assert_eq!(
        render_row("2024-01-15 10:00:00", &unknown()),
        "2024-01-15 10:00:00\t0.0\t\t0.0\t\t0.0\t\t0.0\t\t0.0"
    );
}

#[test]
fn row_shows_the_five_readings_in_order() {
    let details = Details {
        air_pressure_at_sea_level: reading(1013.2),
        air_temperature: reading(-3.4),
        cloud_area_fraction: reading(98.5),
        relative_humidity: reading(85.1),
        wind_from_direction: reading(271.3),
        wind_speed: reading(4.2),
        wind_speed_of_gust: reading(9.9),
        ultraviolet_index_clear_sky: reading(0.3),
    };
    assert_eq!(
        render_row("2024-01-15 11:00:00", &details),
        "2024-01-15 11:00:00\t-3.4\t\t85.1\t\t4.2\t\t271.3\t\t0.3"
    );
}

#[test]
fn row_mixes_known_and_unknown_readings() {
    let mut details = unknown();
    details.air_temperature = reading(12.0);
    details.wind_from_direction = reading(180.5);
    assert_eq!(render_row("t", &details), "t\t12\t\t0.0\t\t0.0\t\t180.5\t\t0.0");
}

#[test]
fn unknown_readings_stay_unknown_after_rendering() {
    let details = unknown();
    let _ = render_row("t", &details);
    assert_eq!(details, unknown());
    assert_eq!(details.air_temperature, None);
}

#[test]
fn utc_timestamp_in_a_utc_zone() {
    assert_eq!(timestamp_at("2024-01-15T10:00:00Z", 0), Ok("2024-01-15 10:00:00".to_string()));
}

#[test]
fn timestamp_east_and_west_of_utc() {
    let time = "2024-01-15T10:00:00Z";
    assert_eq!(timestamp_at(time, 3_600), Ok("2024-01-15 11:00:00".to_string()));
    assert_eq!(timestamp_at(time, -18_000), Ok("2024-01-15 05:00:00".to_string()));
    assert_eq!(timestamp_at(time, 19_800), Ok("2024-01-15 15:30:00".to_string()));
    assert_eq!(timestamp_at(time, 1), Ok("2024-01-15 10:00:01".to_string()));
}

#[test]
fn timestamp_crosses_the_day_the_month_and_the_year() {
    assert_eq!(timestamp_at("2024-02-29T23:30:00Z", 3_600), Ok("2024-03-01 00:30:00".to_string()));
    assert_eq!(timestamp_at("2024-01-01T00:00:00Z", -1), Ok("2023-12-31 23:59:59".to_string()));
    assert_eq!(
        timestamp_at("2023-12-31T12:00:00Z", 86_399),
        Ok("2024-01-01 11:59:59".to_string())
    );
    assert_eq!(
        timestamp_at("2024-01-01T12:00:00Z", -86_399),
        Ok("2023-12-31 12:00:01".to_string())
    );
}

#[test]
fn timestamp_at_rejects_what_is_no_time() {
    assert_eq!(
        timestamp_at("2024-01-15T10:00:00+01:00", 0),
        Err(Failure::TimeParse { time: "2024-01-15T10:00:00+01:00".to_string() })
    );
    assert_eq!(timestamp_at("", 3_600), Err(Failure::TimeParse { time: String::new() }));
}

#[test]
fn local_timestamp_is_the_timestamp_at_the_offset_of_the_machine() {
    for (time, year, month, day, hour) in [
        ("2024-01-15T10:00:00Z", 2024, 1, 15, 10),
        ("2024-07-15T22:00:00Z", 2024, 7, 15, 22),
        ("1970-01-01T00:00:00Z", 1970, 1, 1, 0),
    ] {
        let utc = NaiveDate::from_ymd_opt(year, month, day).unwrap().and_hms_opt(hour, 0, 0).unwrap();
        let offset = Local.offset_from_utc_datetime(&utc).local_minus_utc();
        assert_eq!(local_timestamp(time), timestamp_at(time, offset));
        assert_eq!(local_timestamp(time), Ok(local(year, month, day, hour, 0, 0)));
    }
}

#[test]
fn timestamp_follows_the_local_zone() {
    assert_eq!(local_timestamp("2023-07-01T23:59:59Z"), Ok(local(2023, 7, 1, 23, 59, 59)));
    assert_eq!(local_timestamp("1999-12-31T00:00:00Z"), Ok(local(1999, 12, 31, 0, 0, 0)));
}

#[test]
fn timestamp_in_another_form_is_a_time_failure() {
    for time in [
        "",
        "yesterday",
        "2024-01-15",
        "2024-01-15 10:00:00",
        "2024-01-15T10:00:00",
        "2024-01-15T10:00:00.000Z",
        "2024-01-15T10:00:00+01:00",
        "2024-01-15T10:00Z",
        "2024-13-01T00:00:00Z",
        "2024-02-30T00:00:00Z",
        "2024-01-15T24:00:00Z",
    ] {
        assert_eq!(
            local_timestamp(time),
            Err(Failure::TimeParse { time: time.to_string() }),
            "{:?}",
            time
        );
    }
}

#[test]
fn table_of_no_samples_is_the_header() {
    assert_eq!(render(&forecast(Vec::new())), Ok(format!("{}\n", HEADER)));
}

#[test]
fn table_has_one_line_for_each_sample_in_order() {
    let mut first = unknown();
    first.air_temperature = reading(-1.5);
    first.relative_humidity = reading(90.0);
    first.wind_speed = reading(3.1);
    first.wind_from_direction = reading(10.0);
    first.ultraviolet_index_clear_sky = reading(0.0);
    let weather = forecast(vec![
        sample("2024-01-15T12:00:00Z", first),
        sample("2024-01-15T10:00:00Z", unknown()),
    ]);
    let expected = format!(
        "{}\n{}\t-1.5\t\t90\t\t3.1\t\t10\t\t0\n{}\t0.0\t\t0.0\t\t0.0\t\t0.0\t\t0.0\n",
        HEADER,
        local(2024, 1, 15, 12, 0, 0),
        local(2024, 1, 15, 10, 0, 0)
    );
    assert_eq!(render(&weather), Ok(expected));
}

#[test]
fn table_shows_only_the_instant_readings() {
    let mut later = unknown();
    later.air_temperature = reading(99.0);
    let mut entry = sample("2024-01-15T10:00:00Z", unknown());
    entry.data.next_1_hours = Some(Next1Hours {
        summary: Summary { symbol_code: "cloudy".to_string() },
        details: Some(later),
    });
    let expected =
        format!("{}\n{}\t0.0\t\t0.0\t\t0.0\t\t0.0\t\t0.0\n", HEADER, local(2024, 1, 15, 10, 0, 0));
    assert_eq!(render(&forecast(vec![entry])), Ok(expected));
}

#[test]
fn table_fails_at_the_first_bad_time() {
    let weather = forecast(vec![
        sample("2024-01-15T10:00:00Z", unknown()),
        sample("2024-01-15T11:00:00+00:00", unknown()),
        sample("never", unknown()),
    ]);
    assert_eq!(
        render(&weather),
        Err(Failure::TimeParse { time: "2024-01-15T11:00:00+00:00".to_string() })
    );
}

#[test]
fn times_at_the_edges_are_shown() {
    for time in [
        "0000-01-01T00:00:00Z",
        "9999-12-31T23:59:59Z",
        "2016-12-31T23:59:60Z",
        "+10000-01-01T00:00:00Z",
        "-0001-06-15T12:00:00Z",
        "+262142-12-31T23:59:59Z",
        "-262143-01-01T00:00:00Z",
    ] {
        let shown = local_timestamp(time);
        assert!(shown.is_ok(), "{:?}: {:?}", time, shown);
    }
    assert_eq!(
        local_timestamp("+262143-01-01T00:00:00Z"),
        Err(Failure::TimeParse { time: "+262143-01-01T00:00:00Z".to_string() })
    );
}
