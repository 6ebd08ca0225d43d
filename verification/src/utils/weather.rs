//! The weather of a list of cities, and the weather codes of the weather
//! service in words and in pictures.
//!
//! Temperatures and coordinates are measured numbers. They are held here as
//! the texts under which they are written (see [`Number`]); reading a number
//! from a word and writing it are left to the caller.

use vstd::prelude::*;
use vstd::string::*;
use crate::consts;
use crate::messages::WeatherKey;
use crate::text::{
    concat, concat3, decimal, decimal_spec, join, join_spec, pad_right, pad_right_spec,
    parse_unsigned, parse_unsigned_spec, words_view,
};
use crate::utils::common::{display_width, pad_str, pad_to_width, MsgTemplate};
use crate::utils::time::{date_label, datetime_seconds, datetime_str_to_ts, format_date, ts_str, MAX_TS};

verus! {

/// The words for a weather code; the words for "unknown weather" for a
/// number that is no weather code.
pub open spec fn weather_code_spec(code: u8) -> Seq<char> {
    if code == 0 {
        "晴天"@
    } else if code == 1 {
        "多雲時晴"@
    } else if code == 2 {
        "局部多雲"@
    } else if code == 3 {
        "陰天"@
    } else if code == 45 {
        "有霧"@
    } else if code == 48 {
        "凍霧"@
    } else if code == 51 {
        "毛毛雨（小）"@
    } else if code == 53 {
        "毛毛雨（中）"@
    } else if code == 55 {
        "毛毛雨（大）"@
    } else if code == 56 {
        "凍雨（小）"@
    } else if code == 57 {
        "凍雨（大）"@
    } else if code == 61 {
        "小雨"@
    } else if code == 63 {
        "中雨"@
    } else if code == 65 {
        "大雨"@
    } else if code == 66 {
        "凍雨（小雨）"@
    } else if code == 67 {
        "凍雨（大雨）"@
    } else if code == 71 {
        "小雪"@
    } else if code == 73 {
        "中雪"@
    } else if code == 75 {
        "大雪"@
    } else if code == 77 {
        "雪粒"@
    } else if code == 80 {
        "小陣雨"@
    } else if code == 81 {
        "中陣雨"@
    } else if code == 82 {
        "強陣雨"@
    } else if code == 85 {
        "小陣雪"@
    } else if code == 86 {
        "大陣雪"@
    } else if code == 95 {
        "雷雨"@
    } else if code == 96 {
        "雷雨夾小冰雹"@
    } else if code == 99 {
        "雷雨夾大冰雹"@
    } else {
        "未知天氣"@
    }
}

/// The picture for a weather code; the words for "unknown weather" for a
/// number that is no weather code.
pub open spec fn weather_emoji_spec(code: u8) -> Seq<char> {
    if code == 0 {
        "☀️"@
    } else if code == 1 {
        "🌤️"@
    } else if code == 2 {
        "⛅"@
    } else if code == 3 {
        "☁️"@
    } else if code == 45 {
        "🌫️"@
    } else if code == 48 {
        "❄️"@
    } else if code == 51 {
        "🌧️"@
    } else if code == 53 {
        "🌧️"@
    } else if code == 55 {
        "🌧️"@
    } else if code == 56 {
        "❄️"@
    } else if code == 57 {
        "❄️"@
    } else if code == 61 {
        "🌧️"@
    } else if code == 63 {
        "🌧️"@
    } else if code == 65 {
        "🌧️"@
    } else if code == 66 {
        "❄️"@
    } else if code == 67 {
        "❄️"@
    } else if code == 71 {
        "🌨️"@
    } else if code == 73 {
        "🌨️"@
    } else if code == 75 {
        "🌨️"@
    } else if code == 77 {
        "❄️"@
    } else if code == 80 {
        "🌦️"@
    } else if code == 81 {
        "🌦️"@
    } else if code == 82 {
        "🌦️"@
    } else if code == 85 {
        "🌨️"@
    } else if code == 86 {
        "🌨️"@
    } else if code == 95 {
        "⛈️"@
    } else if code == 96 {
        "⛈️"@
    } else if code == 99 {
        "⛈️"@
    } else {
        "未知天氣"@
    }
}

/// The words for a weather code.
pub fn weather_code_str(code: u8) -> (out: &'static str)
    ensures
        out@ == weather_code_spec(code),
{
    if code == 0 {
        "晴天"
    } else if code == 1 {
        "多雲時晴"
    } else if code == 2 {
        "局部多雲"
    } else if code == 3 {
        "陰天"
    } else if code == 45 {
        "有霧"
    } else if code == 48 {
        "凍霧"
    } else if code == 51 {
        "毛毛雨（小）"
    } else if code == 53 {
        "毛毛雨（中）"
    } else if code == 55 {
        "毛毛雨（大）"
    } else if code == 56 {
        "凍雨（小）"
    } else if code == 57 {
        "凍雨（大）"
    } else if code == 61 {
        "小雨"
    } else if code == 63 {
        "中雨"
    } else if code == 65 {
        "大雨"
    } else if code == 66 {
        "凍雨（小雨）"
    } else if code == 67 {
        "凍雨（大雨）"
    } else if code == 71 {
        "小雪"
    } else if code == 73 {
        "中雪"
    } else if code == 75 {
        "大雪"
    } else if code == 77 {
        "雪粒"
    } else if code == 80 {
        "小陣雨"
    } else if code == 81 {
        "中陣雨"
    } else if code == 82 {
        "強陣雨"
    } else if code == 85 {
        "小陣雪"
    } else if code == 86 {
        "大陣雪"
    } else if code == 95 {
        "雷雨"
    } else if code == 96 {
        "雷雨夾小冰雹"
    } else if code == 99 {
        "雷雨夾大冰雹"
    } else {
        "未知天氣"
    }
}

/// The picture for a weather code.
pub fn weather_code_emoji(code: u8) -> (out: &'static str)
    ensures
        out@ == weather_emoji_spec(code),
{
    if code == 0 {
        "☀️"
    } else if code == 1 {
        "🌤️"
    } else if code == 2 {
        "⛅"
    } else if code == 3 {
        "☁️"
    } else if code == 45 {
        "🌫️"
    } else if code == 48 {
        "❄️"
    } else if code == 51 {
        "🌧️"
    } else if code == 53 {
        "🌧️"
    } else if code == 55 {
        "🌧️"
    } else if code == 56 {
        "❄️"
    } else if code == 57 {
        "❄️"
    } else if code == 61 {
        "🌧️"
    } else if code == 63 {
        "🌧️"
    } else if code == 65 {
        "🌧️"
    } else if code == 66 {
        "❄️"
    } else if code == 67 {
        "❄️"
    } else if code == 71 {
        "🌨️"
    } else if code == 73 {
        "🌨️"
    } else if code == 75 {
        "🌨️"
    } else if code == 77 {
        "❄️"
    } else if code == 80 {
        "🌦️"
    } else if code == 81 {
        "🌦️"
    } else if code == 82 {
        "🌦️"
    } else if code == 85 {
        "🌨️"
    } else if code == 86 {
        "🌨️"
    } else if code == 95 {
        "⛈️"
    } else if code == 96 {
        "⛈️"
    } else if code == 99 {
        "⛈️"
    } else {
        "未知天氣"
    }
}

/// A measured number, as the texts under which it is written: in full, to
/// one decimal place, and to the whole.
#[derive(Debug)]
pub struct Number {
    pub plain: String,
    pub tenths: String,
    pub whole: String,
}

/// What a [`Number`] holds.
pub struct NumberView {
    pub plain: Seq<char>,
    pub tenths: Seq<char>,
    pub whole: Seq<char>,
}

impl View for Number {
    type V = NumberView;

    open spec fn view(&self) -> NumberView {
        NumberView { plain: self.plain@, tenths: self.tenths@, whole: self.whole@ }
    }
}

impl NumberView {
    /// The texts of zero.
    pub open spec fn zero() -> NumberView {
        NumberView { plain: "0"@, tenths: "0.0"@, whole: "0"@ }
    }
}

impl Number {
    /// The texts of zero.
    pub fn zero() -> (out: Number)
        ensures
            out@ == NumberView::zero(),
    {
        Number {
            plain: String::from_str("0"),
            tenths: String::from_str("0.0"),
            whole: String::from_str("0"),
        }
    }

    /// The same number once more.
    pub fn copy(&self) -> (out: Number)
        ensures
            out@ == self@,
    {
        Number {
            plain: self.plain.clone(),
            tenths: self.tenths.clone(),
            whole: self.whole.clone(),
        }
    }
}

/// What each word of a command reads as a number, if it reads as one.
pub open spec fn numbers_view(numbers: Seq<Option<Number>>) -> Seq<Option<NumberView>> {
    Seq::new(
        numbers.len(),
        |i: int|
            match numbers[i] {
                Some(n) => Some(n@),
                None => None,
            },
    )
}

/// The number that word `i` reads as, if there is such a word and it reads
/// as a number.
pub open spec fn number_at(numbers: Seq<Option<NumberView>>, i: int) -> Option<NumberView> {
    if 0 <= i < numbers.len() {
        numbers[i]
    } else {
        None
    }
}

/// The weather of one day.
#[derive(Debug)]
pub struct WeatherDaily {
    pub time: String,
    pub temperature_2m_max: Number,
    pub temperature_2m_min: Number,
    pub precipitation_probability_max: u8,
    pub weather_code: u8,
}

/// What a [`WeatherDaily`] holds.
pub struct WeatherDailyView {
    pub time: Seq<char>,
    pub temperature_2m_max: NumberView,
    pub temperature_2m_min: NumberView,
    pub precipitation_probability_max: u8,
    pub weather_code: u8,
}

impl View for WeatherDaily {
    type V = WeatherDailyView;

    open spec fn view(&self) -> WeatherDailyView {
        WeatherDailyView {
            time: self.time@,
            temperature_2m_max: self.temperature_2m_max@,
            temperature_2m_min: self.temperature_2m_min@,
            precipitation_probability_max: self.precipitation_probability_max,
            weather_code: self.weather_code,
        }
    }
}

impl WeatherDailyView {
    /// A day of which nothing is known yet.
    pub open spec fn blank() -> WeatherDailyView {
        WeatherDailyView {
            time: ""@,
            temperature_2m_max: NumberView::zero(),
            temperature_2m_min: NumberView::zero(),
            precipitation_probability_max: 0,
            weather_code: 0,
        }
    }
}

impl WeatherDaily {
    /// A day of which nothing is known yet.
    pub fn blank() -> (out: WeatherDaily)
        ensures
            out@ == WeatherDailyView::blank(),
    {
        WeatherDaily {
            time: String::from_str(""),
            temperature_2m_max: Number::zero(),
            temperature_2m_min: Number::zero(),
            precipitation_probability_max: 0,
            weather_code: 0,
        }
    }
}

/// What a list of days holds.
pub open spec fn dailies_view(days: Seq<WeatherDaily>) -> Seq<WeatherDailyView> {
    Seq::new(days.len(), |i: int| days[i]@)
}

/// The weather of a city: as it is now, and day by day from today on.
#[derive(Debug)]
pub struct Weather {
    pub time: String,
    pub temperature: Number,
    pub weathercode: u8,
    pub daily: Vec<WeatherDaily>,
}

/// What a [`Weather`] holds.
pub struct WeatherView {
    pub time: Seq<char>,
    pub temperature: NumberView,
    pub weathercode: u8,
    pub daily: Seq<WeatherDailyView>,
}

impl View for Weather {
    type V = WeatherView;

    open spec fn view(&self) -> WeatherView {
        WeatherView {
            time: self.time@,
            temperature: self.temperature@,
            weathercode: self.weathercode,
            daily: dailies_view(self.daily@),
        }
    }
}

/// A city with its place on the globe and, once known, its weather.
#[derive(Debug)]
pub struct City {
    pub name: String,
    pub latitude: Number,
    pub longitude: Number,
    pub weather: Option<Weather>,
}

/// What a [`City`] holds.
pub struct CityView {
    pub name: Seq<char>,
    pub latitude: NumberView,
    pub longitude: NumberView,
    pub weather: Option<WeatherView>,
}

impl View for City {
    type V = CityView;

    open spec fn view(&self) -> CityView {
        CityView {
            name: self.name@,
            latitude: self.latitude@,
            longitude: self.longitude@,
            weather: match self.weather {
                Some(w) => Some(w@),
                None => None,
            },
        }
    }
}

/// What a list of cities holds.
pub open spec fn cities_view(cities: Seq<City>) -> Seq<CityView> {
    Seq::new(cities.len(), |i: int| cities[i]@)
}

/// The parameters of `add`, as warnings quote them.
pub const ADD_PARAMS: &'static str = "<name> <latitude> <longitude>";

/// The parameters of an update of the weather as it is now.
pub const SUMMARY_PARAMS: &'static str = "<city_name> <time> <temperature> <weathercode>";

/// The parameters of such an update that are numbers.
pub const SUMMARY_NUMBERS: &'static str = "<temperature> <weathercode>";

/// The parameters of an update of the weather of one day.
pub const DAILY_PARAMS: &'static str =
    "<city_name> <idx> <time> <temperature_2m_max> <temperature_2m_min> <precipitation_probability_max> <weather_code>";

/// The parameters of such an update that are numbers.
pub const DAILY_NUMBERS: &'static str =
    "<idx> <temperature_2m_max> <temperature_2m_min> <precipitation_probability_max> <weather_code>";

/// Why a command on the cities changed nothing.
#[derive(Clone, Copy, Debug, PartialEq, Eq, Structural)]
pub enum Reason {
    /// The command has too few words.
    Missing,
    /// A word that should be a number, or a key, is none.
    Invalid,
    /// The city to add is there already.
    Exists,
    /// The city to update is not there.
    NotFound,
}

/// A command that changed nothing: why, and the warning that says so.
#[derive(Debug)]
pub struct Refused {
    pub reason: Reason,
    pub warning: String,
}

/// What a [`Refused`] holds.
pub struct RefusedView {
    pub reason: Reason,
    pub warning: Seq<char>,
}

impl View for Refused {
    type V = RefusedView;

    open spec fn view(&self) -> RefusedView {
        RefusedView { reason: self.reason, warning: self.warning@ }
    }
}

/// The refusal of a command with too few words.
pub open spec fn lacking(what: Seq<char>, action: Seq<char>, parts: Seq<Seq<char>>) -> RefusedView {
    RefusedView {
        reason: Reason::Missing,
        warning: MsgTemplate::MissingParameters.format_spec(what, action, join_spec(parts, " "@)),
    }
}

/// The refusal of a command with a word that cannot be read.
pub open spec fn unreadable(what: Seq<char>, action: Seq<char>, parts: Seq<Seq<char>>) -> RefusedView {
    RefusedView {
        reason: Reason::Invalid,
        warning: MsgTemplate::InvalidParameters.format_spec(what, action, join_spec(parts, " "@)),
    }
}

/// The refusal to add a city twice.
pub open spec fn exists_already(name: Seq<char>) -> RefusedView {
    RefusedView { reason: Reason::Exists, warning: "City `"@ + name + "` already exists."@ }
}

/// The refusal to update a city that is not there.
pub open spec fn not_found(name: Seq<char>) -> RefusedView {
    RefusedView { reason: Reason::NotFound, warning: "City `"@ + name + "` not found."@ }
}

/// The line that reports a new city.
pub open spec fn added_text(name: Seq<char>, latitude: NumberView, longitude: NumberView) -> Seq<
    char,
> {
    "Added city: `"@ + name + "` ("@ + latitude.plain + ", "@ + longitude.plain + ")"@
}

/// Whether a city of this name is in the list.
pub open spec fn has_city(cities: Seq<CityView>, name: Seq<char>) -> bool {
    exists|i: int| 0 <= i < cities.len() && (#[trigger] cities[i]).name == name
}

/// Whether city `i` is the first of this name.
pub open spec fn is_first(cities: Seq<CityView>, name: Seq<char>, i: int) -> bool {
    0 <= i < cities.len() && cities[i].name == name && forall|j: int|
        0 <= j < i ==> (#[trigger] cities[j]).name != name
}

/// The place of the first city of this name, where there is one.
pub open spec fn first_city(cities: Seq<CityView>, name: Seq<char>) -> int {
    choose|i: int| is_first(cities, name, i)
}

/// The first city of a name is in one place only.
pub proof fn lemma_first_city(cities: Seq<CityView>, name: Seq<char>, i: int)
    requires
        is_first(cities, name, i),
    ensures
        first_city(cities, name) == i,
        has_city(cities, name),
{
    let k = first_city(cities, name);
    assert(is_first(cities, name, k));
    if k < i {
        assert(cities[k].name != name);
    }
    if i < k {
        assert(cities[i].name != name);
    }
}

/// The cities after a command, and what the command is answered with.
pub struct Added {
    pub cities: Seq<CityView>,
    pub told: Result<Seq<char>, RefusedView>,
}

/// The cities after an update, and the refusal if there was one.
pub struct Updated {
    pub cities: Seq<CityView>,
    pub refused: Option<RefusedView>,
}

/// `add ... <name> <latitude> <longitude>`, with the name as word `base`: a
/// new city joins the end of the list, unless a word is missing, a
/// coordinate is no number, or the name is taken.
pub open spec fn add_spec(
    cities: Seq<CityView>,
    parts: Seq<Seq<char>>,
    base: int,
    numbers: Seq<Option<NumberView>>,
) -> Added {
    if parts.len() < base + 3 {
        Added { cities, told: Err(lacking(ADD_PARAMS@, "add"@, parts)) }
    } else {
        match (number_at(numbers, base + 1), number_at(numbers, base + 2)) {
            (Some(latitude), Some(longitude)) => if has_city(cities, parts[base]) {
                Added { cities, told: Err(exists_already(parts[base])) }
            } else {
                Added {
                    cities: cities.push(
                        CityView { name: parts[base], latitude, longitude, weather: None },
                    ),
                    told: Ok(added_text(parts[base], latitude, longitude)),
                }
            },
            _ => Added { cities, told: Err(unreadable(ADD_PARAMS@, "add"@, parts)) },
        }
    }
}

/// A city with the weather as it is now set; the days that were known stay.
pub open spec fn with_summary(city: CityView, time: Seq<char>, temperature: NumberView, code: u8) -> CityView {
    CityView {
        weather: Some(
            WeatherView {
                time,
                temperature,
                weathercode: code,
                daily: match city.weather {
                    Some(w) => w.daily,
                    None => Seq::empty(),
                },
            },
        ),
        ..city
    }
}

/// `days` with day `idx` set, after blank days where the list was too
/// short.
pub open spec fn set_day(days: Seq<WeatherDailyView>, idx: int, day: WeatherDailyView) -> Seq<
    WeatherDailyView,
> {
    Seq::new(
        if days.len() <= idx {
            (idx + 1) as nat
        } else {
            days.len()
        },
        |i: int|
            if i == idx {
                day
            } else if i < days.len() {
                days[i]
            } else {
                WeatherDailyView::blank()
            },
    )
}

/// A city with the weather of day `idx` set. A city whose weather is not
/// known yet stays as it is.
pub open spec fn with_daily(city: CityView, idx: int, day: WeatherDailyView) -> CityView {
    match city.weather {
        Some(w) => CityView {
            weather: Some(WeatherView { daily: set_day(w.daily, idx, day), ..w }),
            ..city
        },
        None => city,
    }
}

/// `update ... summary <city_name> <time> <temperature> <weathercode>`, with
/// the name as word `base`: sets the weather of the first city of that name
/// as it is now.
pub open spec fn update_summary_spec(
    cities: Seq<CityView>,
    parts: Seq<Seq<char>>,
    base: int,
    numbers: Seq<Option<NumberView>>,
) -> Updated {
    if parts.len() < base + 4 {
        Updated { cities, refused: Some(lacking(SUMMARY_PARAMS@, "update"@, parts)) }
    } else if !has_city(cities, parts[base]) {
        Updated { cities, refused: Some(not_found(parts[base])) }
    } else {
        match (number_at(numbers, base + 2), parse_unsigned_spec(parts[base + 3], 255)) {
            (Some(temperature), Some(code)) => {
                let i = first_city(cities, parts[base]);
                Updated {
                    cities: cities.update(
                        i,
                        with_summary(cities[i], parts[base + 1], temperature, code as u8),
                    ),
                    refused: None,
                }
            },
            _ => Updated { cities, refused: Some(unreadable(SUMMARY_NUMBERS@, "update"@, parts)) },
        }
    }
}

/// The day that the words from `base` on describe, with its place in the
/// list of days, where all its numbers can be read.
pub open spec fn day_spec(parts: Seq<Seq<char>>, base: int, numbers: Seq<Option<NumberView>>) -> Option<
    (int, WeatherDailyView),
> {
    match (
        parse_unsigned_spec(parts[base + 1], (usize::MAX - 1) as nat),
        number_at(numbers, base + 3),
        number_at(numbers, base + 4),
        parse_unsigned_spec(parts[base + 5], 255),
        parse_unsigned_spec(parts[base + 6], 255),
    ) {
        (Some(idx), Some(max), Some(min), Some(rain), Some(code)) => Some(
            (
                idx as int,
                WeatherDailyView {
                    time: parts[base + 2],
                    temperature_2m_max: max,
                    temperature_2m_min: min,
                    precipitation_probability_max: rain as u8,
                    weather_code: code as u8,
                },
            ),
        ),
        _ => None,
    }
}

/// `update ... daily <city_name> <idx> <time> <temperature_2m_max>
/// <temperature_2m_min> <precipitation_probability_max> <weather_code>`,
/// with the name as word `base`: sets the weather of day `idx` of the first
/// city of that name.
pub open spec fn update_daily_spec(
    cities: Seq<CityView>,
    parts: Seq<Seq<char>>,
    base: int,
    numbers: Seq<Option<NumberView>>,
) -> Updated {
    if parts.len() < base + 7 {
        Updated { cities, refused: Some(lacking(DAILY_PARAMS@, "update"@, parts)) }
    } else if !has_city(cities, parts[base]) {
        Updated { cities, refused: Some(not_found(parts[base])) }
    } else {
        match day_spec(parts, base, numbers) {
            Some((idx, day)) => {
                let i = first_city(cities, parts[base]);
                Updated { cities: cities.update(i, with_daily(cities[i], idx, day)), refused: None }
            },
            None => Updated { cities, refused: Some(unreadable(DAILY_NUMBERS@, "update"@, parts)) },
        }
    }
}

/// `update ... <weather_key> ...`, with the key as word `key_at`.
pub open spec fn update_spec(
    cities: Seq<CityView>,
    parts: Seq<Seq<char>>,
    key_at: int,
    numbers: Seq<Option<NumberView>>,
) -> Updated {
    if parts.len() <= key_at {
        Updated { cities, refused: Some(lacking("<weather_key>"@, "update"@, parts)) }
    } else {
        match WeatherKey::named(parts[key_at]) {
            Some(WeatherKey::Summary) => update_summary_spec(cities, parts, key_at + 1, numbers),
            Some(WeatherKey::Daily) => update_daily_spec(cities, parts, key_at + 1, numbers),
            None => Updated {
                cities,
                refused: Some(
                    unreadable("<weather_key> (`"@ + parts[key_at] + "`)"@, "update"@, parts),
                ),
            },
        }
    }
}

/// What a page shows where there is nothing to show.
pub const NO_DATA: &'static str = "No data";

/// `s`, then spaces up to `width` terminal columns.
pub open spec fn columns(s: Seq<char>, width: nat) -> Seq<char> {
    pad_to_width(s, display_width(s), width)
}

/// A temperature as the pages show it.
pub open spec fn degrees(temperature: NumberView) -> Seq<char> {
    temperature.tenths + "°C"@
}

/// Whether `time` holds a date and time of day that can be shown.
pub open spec fn readable_time(time: Seq<char>) -> bool {
    datetime_seconds(time) matches Some(t) && 0 <= t <= MAX_TS
}

/// The head of the page of the weather as it is now.
pub open spec fn current_head() -> Seq<char> {
    pad_right_spec("City"@, 12) + " "@ + pad_right_spec("Update"@, 11) + " "@ + pad_right_spec(
        "Temp"@,
        7,
    ) + " "@ + pad_right_spec("Weather"@, 20)
}

/// One row of that page, for a city whose weather was last told at the
/// time that `stamp` shows.
pub open spec fn current_row(city: CityView, stamp: Seq<char>) -> Seq<char> {
    match city.weather {
        Some(w) => columns(city.name, 12) + " "@ + pad_right_spec(stamp, 11) + " "@
            + pad_right_spec(degrees(w.temperature), 7) + " "@ + pad_right_spec(
            weather_code_spec(w.weathercode),
            20,
        ),
        None => columns(city.name, 12) + " "@ + pad_right_spec(consts::NA@, 11) + " "@
            + pad_right_spec(consts::NA@, 7) + " "@ + pad_right_spec(consts::NA@, 20),
    }
}

/// The time shown for city `i`: the one of `stamps`, or `N/A` where
/// `stamps` has none for it.
pub open spec fn stamp_at(stamps: Seq<Seq<char>>, i: int) -> Seq<char> {
    if 0 <= i < stamps.len() {
        stamps[i]
    } else {
        consts::NA@
    }
}

/// The page of the weather as it is now, with its first `upto` cities.
pub open spec fn current_page(cities: Seq<CityView>, stamps: Seq<Seq<char>>, upto: nat) -> Seq<char>
    decreases upto,
{
    if upto == 0 {
        current_head()
    } else {
        current_page(cities, stamps, (upto - 1) as nat) + "\n"@ + current_row(
            cities[upto - 1],
            stamp_at(stamps, upto - 1),
        )
    }
}

/// Whether `stamps` says `N/A` for each city whose weather has a time that
/// cannot be shown.
pub open spec fn stamps_fit(cities: Seq<CityView>, stamps: Seq<Seq<char>>) -> bool {
    stamps.len() == cities.len() && forall|i: int|
        0 <= i < cities.len() && (#[trigger] cities[i]).weather is Some && !readable_time(
            cities[i].weather->0.time,
        ) ==> stamps[i] == consts::NA@
}

/// A date as the page of the coming days shows it; `N/A` for a text that
/// holds no date.
pub open spec fn date_text(time: Seq<char>) -> Seq<char> {
    match date_label(time) {
        Some(label) => label,
        None => consts::NA@,
    }
}

/// The head of the page of the coming days: the dates of the days
/// `1..upto`. Day 0 is today and is left out.
pub open spec fn daily_head(days: Seq<WeatherDailyView>, upto: nat) -> Seq<char>
    decreases upto,
{
    if upto <= 1 {
        pad_right_spec("City"@, 12) + " "@
    } else {
        daily_head(days, (upto - 1) as nat) + pad_right_spec(date_text(days[upto - 1].time), 27)
            + " "@
    }
}

/// The weather of one day as that page shows it.
pub open spec fn day_cell(day: WeatherDailyView) -> Seq<char> {
    columns(weather_emoji_spec(day.weather_code), 2) + " "@ + pad_right_spec(
        decimal_spec(day.precipitation_probability_max as nat) + "%"@,
        4,
    ) + " "@ + columns(day.temperature_2m_max.whole + "/"@ + day.temperature_2m_min.whole, 6)
        + " "@ + columns(weather_code_spec(day.weather_code), 13)
}

/// The weather of the days `1..upto`.
pub open spec fn day_cells(days: Seq<WeatherDailyView>, upto: nat) -> Seq<char>
    decreases upto,
{
    if upto <= 1 {
        Seq::empty()
    } else {
        day_cells(days, (upto - 1) as nat) + day_cell(days[upto - 1])
    }
}

/// The row of one city on that page.
pub open spec fn daily_row(city: CityView) -> Seq<char> {
    "\n"@ + columns(city.name, 12) + " "@ + match city.weather {
        Some(w) => day_cells(w.daily, w.daily.len()),
        None => Seq::empty(),
    }
}

/// The rows of the first `upto` cities.
pub open spec fn daily_rows(cities: Seq<CityView>, upto: nat) -> Seq<char>
    decreases upto,
{
    if upto == 0 {
        Seq::empty()
    } else {
        daily_rows(cities, (upto - 1) as nat) + daily_row(cities[upto - 1])
    }
}

/// The page of the coming days. Its head has the dates of the first city;
/// without a first city that has weather there is nothing to show.
pub open spec fn daily_page(cities: Seq<CityView>) -> Seq<char> {
    if cities.len() == 0 || cities[0].weather is None {
        NO_DATA@
    } else {
        daily_head(cities[0].weather->0.daily, cities[0].weather->0.daily.len()) + daily_rows(
            cities,
            cities.len(),
        )
    }
}

/// The temperature of a city, or `N/A` while it is not known.
pub open spec fn temperature_text(city: CityView) -> Seq<char> {
    match city.weather {
        Some(w) => degrees(w.temperature),
        None => consts::NA@,
    }
}

/// The list of the cities with their temperatures, line by line.
pub open spec fn show_lines_spec(cities: Seq<CityView>) -> Seq<Seq<char>> {
    seq!["  "@ + pad_right_spec("Name"@, 12) + " "@ + pad_right_spec("Temp"@, 7)] + Seq::new(
        cities.len(),
        |i: int|
            "  "@ + columns(cities[i].name, 12) + " "@ + pad_right_spec(
                temperature_text(cities[i]),
                7,
            ),
    )
}

/// What a command was answered with, as plain values.
pub open spec fn told_view(told: Result<String, Refused>) -> Result<Seq<char>, RefusedView> {
    match told {
        Ok(text) => Ok(text@),
        Err(refused) => Err(refused@),
    }
}

/// A refusal or none, as plain values.
pub open spec fn refused_view(refused: Option<Refused>) -> Option<RefusedView> {
    match refused {
        Some(refused) => Some(refused@),
        None => None,
    }
}

/// The number that word `i` reads as, if any.
fn number_of(numbers: &Vec<Option<Number>>, i: usize) -> (out: Option<&Number>)
    ensures
        match out {
            Some(n) => number_at(numbers_view(numbers@), i as int) == Some(n@),
            None => number_at(numbers_view(numbers@), i as int) is None,
        },
{
    if i < numbers.len() {
        match &numbers[i] {
            Some(n) => Some(n),
            None => None,
        }
    } else {
        None
    }
}

/// The refusal of a command with too few words.
fn lacking_of(what: &str, action: &str, cmd_parts: &Vec<String>) -> (out: Refused)
    ensures
        out@ == lacking(what@, action@, words_view(cmd_parts@)),
{
    let line = join(cmd_parts, " ");
    Refused {
        reason: Reason::Missing,
        warning: MsgTemplate::MissingParameters.format(what, action, line.as_str()),
    }
}

/// The refusal of a command with a word that cannot be read.
fn unreadable_of(what: &str, action: &str, cmd_parts: &Vec<String>) -> (out: Refused)
    ensures
        out@ == unreadable(what@, action@, words_view(cmd_parts@)),
{
    let line = join(cmd_parts, " ");
    Refused {
        reason: Reason::Invalid,
        warning: MsgTemplate::InvalidParameters.format(what, action, line.as_str()),
    }
}

/// The last place in a list of days that a command can name.
fn day_limit() -> (out: u64)
    ensures
        out == usize::MAX - 1,
{
    (usize::MAX - 1) as u64
}

/// The cities whose weather is followed, in the order in which they were
/// added.
#[derive(Debug)]
pub struct Cities {
    pub cities: Vec<City>,
}

impl View for Cities {
    type V = Seq<CityView>;

    open spec fn view(&self) -> Seq<CityView> {
        cities_view(self.cities@)
    }
}

impl Cities {
    /// No city.
    pub fn new() -> (out: Cities)
        ensures
            out@ == Seq::<CityView>::empty(),
    {
        let out = Cities { cities: Vec::new() };
        assert(out@ =~= Seq::<CityView>::empty());
        out
    }

    /// How many cities there are.
    pub fn len(&self) -> (out: usize)
        ensures
            out == self@.len(),
    {
        self.cities.len()
    }

    /// The place of the first city of this name.
    pub fn find(&self, name: &str) -> (out: Option<usize>)
        ensures
            match out {
                Some(i) => is_first(self@, name@, i as int),
                None => !has_city(self@, name@),
            },
    {
        let mut i: usize = 0;
        while i < self.cities.len()
            invariant
                i <= self.cities.len(),
                forall|j: int| 0 <= j < i ==> (#[trigger] self@[j]).name != name@,
            decreases self.cities.len() - i,
        {
            if self.cities[i].name.as_str().eq(name) {
                assert(self@[i as int].name == name@);
                return Some(i);
            }
            i += 1;
        }
        None
    }

    /// `add ... <name> <latitude> <longitude>`, with the name as word `base`
    /// of the command; `numbers` holds what each word reads as a number. See
    /// [`add_spec`].
    pub fn add(&mut self, cmd_parts: &Vec<String>, base: usize, numbers: &Vec<Option<Number>>) -> (out:
        Result<String, Refused>)
        requires
            base <= usize::MAX - 8,
        ensures
            final(self)@ == add_spec(
                old(self)@,
                words_view(cmd_parts@),
                base as int,
                numbers_view(numbers@),
            ).cities,
            told_view(out) == add_spec(
                old(self)@,
                words_view(cmd_parts@),
                base as int,
                numbers_view(numbers@),
            ).told,
    {
        if cmd_parts.len() < base + 3 {
            return Err(lacking_of(ADD_PARAMS, "add", cmd_parts));
        }
        let name = &cmd_parts[base];
        assert(words_view(cmd_parts@)[base as int] == name@);
        match (number_of(numbers, base + 1), number_of(numbers, base + 2)) {
            (Some(latitude), Some(longitude)) => {
                if self.find(name.as_str()).is_some() {
                    return Err(
                        Refused {
                            reason: Reason::Exists,
                            warning: concat3("City `", name.as_str(), "` already exists."),
                        },
                    );
                }
                let mut text = String::from_str("Added city: `");
                text.append(name.as_str());
                text.append("` (");
                text.append(latitude.plain.as_str());
                text.append(", ");
                text.append(longitude.plain.as_str());
                text.append(")");
                let city = City {
                    name: name.clone(),
                    latitude: latitude.copy(),
                    longitude: longitude.copy(),
                    weather: None,
                };
                self.cities.push(city);
                assert(self@ =~= old(self)@.push(
                    CityView {
                        name: name@,
                        latitude: latitude@,
                        longitude: longitude@,
                        weather: None,
                    },
                ));
                Ok(text)
            },
            _ => Err(unreadable_of(ADD_PARAMS, "add", cmd_parts)),
        }
    }

    /// The refusal to update a city that is not there.
    fn not_found_of(name: &str) -> (out: Refused)
        ensures
            out@ == not_found(name@),
    {
        Refused { reason: Reason::NotFound, warning: concat3("City `", name, "` not found.") }
    }

    /// `update ... summary <city_name> <time> <temperature> <weathercode>`,
    /// with the name as word `base` of the command. See
    /// [`update_summary_spec`].
    pub fn update_summary(
        &mut self,
        cmd_parts: &Vec<String>,
        base: usize,
        numbers: &Vec<Option<Number>>,
    ) -> (out: Option<Refused>)
        requires
            base <= usize::MAX - 8,
        ensures
            final(self)@ == update_summary_spec(
                old(self)@,
                words_view(cmd_parts@),
                base as int,
                numbers_view(numbers@),
            ).cities,
            refused_view(out) == update_summary_spec(
                old(self)@,
                words_view(cmd_parts@),
                base as int,
                numbers_view(numbers@),
            ).refused,
    {
        if cmd_parts.len() < base + 4 {
            return Some(lacking_of(SUMMARY_PARAMS, "update", cmd_parts));
        }
        let name = &cmd_parts[base];
        let ghost parts = words_view(cmd_parts@);
        assert(parts[base as int] == name@);
        assert(parts[base + 1] == cmd_parts@[base + 1]@);
        assert(parts[base + 3] == cmd_parts@[base + 3]@);
        let i = match self.find(name.as_str()) {
            Some(i) => i,
            None => {
                return Some(Self::not_found_of(name.as_str()));
            },
        };
        proof {
            lemma_first_city(self@, name@, i as int);
        }
        let code = parse_unsigned(cmd_parts[base + 3].as_str(), 255);
        match (number_of(numbers, base + 2), code) {
            (Some(temperature), Some(code)) => {
                let city = self.cities.remove(i);
                let ghost before = city@;
                assert(before == old(self)@[i as int]);
                let City { name: city_name, latitude, longitude, weather } = city;
                let daily: Vec<WeatherDaily> = match weather {
                    Some(w) => w.daily,
                    None => Vec::new(),
                };
                let changed = City {
                    name: city_name,
                    latitude,
                    longitude,
                    weather: Some(
                        Weather {
                            time: cmd_parts[base + 1].clone(),
                            temperature: temperature.copy(),
                            weathercode: code as u8,
                            daily,
                        },
                    ),
                };
                assert(changed@.weather->0.daily =~= with_summary(
                    before,
                    parts[base + 1],
                    temperature@,
                    code as u8,
                ).weather->0.daily);
                assert(changed@ == with_summary(before, parts[base + 1], temperature@, code as u8));
                self.cities.insert(i, changed);
                assert(self@ =~= old(self)@.update(i as int, changed@));
                None
            },
            _ => Some(unreadable_of(SUMMARY_NUMBERS, "update", cmd_parts)),
        }
    }

    /// The day that the words from `base` on describe, with its place in the
    /// list of days.
    fn day_of(cmd_parts: &Vec<String>, base: usize, numbers: &Vec<Option<Number>>) -> (out: Option<
        (usize, WeatherDaily),
    >)
        requires
            base <= usize::MAX - 8,
            cmd_parts.len() >= base + 7,
        ensures
            match out {
                Some((idx, day)) => idx < usize::MAX && day_spec(
                    words_view(cmd_parts@),
                    base as int,
                    numbers_view(numbers@),
                ) == Some((idx as int, day@)),
                None => day_spec(words_view(cmd_parts@), base as int, numbers_view(numbers@))
                    is None,
            },
    {
        let ghost parts = words_view(cmd_parts@);
        assert(parts[base + 1] == cmd_parts@[base + 1]@);
        assert(parts[base + 2] == cmd_parts@[base + 2]@);
        assert(parts[base + 5] == cmd_parts@[base + 5]@);
        assert(parts[base + 6] == cmd_parts@[base + 6]@);
        let limit: u64 = day_limit();
        let idx = parse_unsigned(cmd_parts[base + 1].as_str(), limit);
        let rain = parse_unsigned(cmd_parts[base + 5].as_str(), 255);
        let code = parse_unsigned(cmd_parts[base + 6].as_str(), 255);
        match (idx, number_of(numbers, base + 3), number_of(numbers, base + 4), rain, code) {
            (Some(idx), Some(max), Some(min), Some(rain), Some(code)) => Some(
                (
                    idx as usize,
                    WeatherDaily {
                        time: cmd_parts[base + 2].clone(),
                        temperature_2m_max: max.copy(),
                        temperature_2m_min: min.copy(),
                        precipitation_probability_max: rain as u8,
                        weather_code: code as u8,
                    },
                ),
            ),
            _ => None,
        }
    }

    /// `update ... daily <city_name> <idx> <time> <temperature_2m_max>
    /// <temperature_2m_min> <precipitation_probability_max> <weather_code>`,
    /// with the name as word `base` of the command. See
    /// [`update_daily_spec`].
    pub fn update_daily(
        &mut self,
        cmd_parts: &Vec<String>,
        base: usize,
        numbers: &Vec<Option<Number>>,
    ) -> (out: Option<Refused>)
        requires
            base <= usize::MAX - 8,
        ensures
            final(self)@ == update_daily_spec(
                old(self)@,
                words_view(cmd_parts@),
                base as int,
                numbers_view(numbers@),
            ).cities,
            refused_view(out) == update_daily_spec(
                old(self)@,
                words_view(cmd_parts@),
                base as int,
                numbers_view(numbers@),
            ).refused,
    {
        if cmd_parts.len() < base + 7 {
            return Some(lacking_of(DAILY_PARAMS, "update", cmd_parts));
        }
        let name = &cmd_parts[base];
        assert(words_view(cmd_parts@)[base as int] == name@);
        let i = match self.find(name.as_str()) {
            Some(i) => i,
            None => {
                return Some(Self::not_found_of(name.as_str()));
            },
        };
        proof {
            lemma_first_city(self@, name@, i as int);
        }
        let (idx, day) = match Self::day_of(cmd_parts, base, numbers) {
            Some(found) => found,
            None => {
                return Some(unreadable_of(DAILY_NUMBERS, "update", cmd_parts));
            },
        };
        let city = self.cities.remove(i);
        let ghost before = city@;
        assert(before == old(self)@[i as int]);
        let City { name: city_name, latitude, longitude, weather } = city;
        let weather = match weather {
            Some(w) => {
                let Weather { time, temperature, weathercode, daily } = w;
                let ghost days = dailies_view(daily@);
                let mut daily = daily;
                while daily.len() <= idx
                    invariant
                        idx < usize::MAX,
                        daily@.len() >= days.len(),
                        daily@.len() == days.len() || daily@.len() <= idx + 1,
                        forall|j: int|
                            0 <= j < daily@.len() ==> (#[trigger] daily@[j])@ == if j
                                < days.len() {
                                days[j]
                            } else {
                                WeatherDailyView::blank()
                            },
                    decreases idx + 1 - daily.len(),
                {
                    daily.push(WeatherDaily::blank());
                }
                let ghost day_view = day@;
                daily.set(idx, day);
                assert forall|j: int| 0 <= j < daily@.len() implies dailies_view(daily@)[j]
                    == set_day(days, idx as int, day_view)[j] by {
                    assert(dailies_view(daily@)[j] == daily@[j]@);
                }
                assert(dailies_view(daily@) =~= set_day(days, idx as int, day_view));
                Some(Weather { time, temperature, weathercode, daily })
            },
            None => None,
        };
        let changed = City { name: city_name, latitude, longitude, weather };
        assert(changed@ == with_daily(before, idx as int, day@)) by {
            if before.weather is Some {
                assert(changed@.weather->0 == with_daily(before, idx as int, day@).weather->0);
            }
        }
        self.cities.insert(i, changed);
        assert(self@ =~= old(self)@.update(i as int, changed@));
        None
    }

    /// `update ... <weather_key> ...`, with the key as word `key_at` of the
    /// command; `numbers` holds what each word reads as a number. See
    /// [`update_spec`].
    pub fn update(&mut self, cmd_parts: &Vec<String>, key_at: usize, numbers: &Vec<Option<Number>>) -> (out:
        Option<Refused>)
        requires
            key_at <= usize::MAX - 9,
        ensures
            final(self)@ == update_spec(
                old(self)@,
                words_view(cmd_parts@),
                key_at as int,
                numbers_view(numbers@),
            ).cities,
            refused_view(out) == update_spec(
                old(self)@,
                words_view(cmd_parts@),
                key_at as int,
                numbers_view(numbers@),
            ).refused,
    {
        if cmd_parts.len() <= key_at {
            return Some(lacking_of("<weather_key>", "update", cmd_parts));
        }
        let key = &cmd_parts[key_at];
        assert(words_view(cmd_parts@)[key_at as int] == key@);
        match WeatherKey::parse(key.as_str()) {
            Some(WeatherKey::Summary) => self.update_summary(cmd_parts, key_at + 1, numbers),
            Some(WeatherKey::Daily) => self.update_daily(cmd_parts, key_at + 1, numbers),
            None => {
                let what = concat3("<weather_key> (`", key.as_str(), "`)");
                Some(unreadable_of(what.as_str(), "update", cmd_parts))
            },
        }
    }

    /// One row of the page of the weather as it is now.
    fn current_row_of(city: &City, stamp: &str) -> (out: String)
        ensures
            out@ == current_row(city@, stamp@),
    {
        let mut out = pad_str(city.name.as_str(), 12);
        out.append(" ");
        match &city.weather {
            Some(w) => {
                out.append(pad_right(stamp, 11).as_str());
                out.append(" ");
                let shown = concat(w.temperature.tenths.as_str(), "°C");
                out.append(pad_right(shown.as_str(), 7).as_str());
                out.append(" ");
                out.append(pad_right(weather_code_str(w.weathercode), 20).as_str());
            },
            None => {
                out.append(pad_right(consts::NA, 11).as_str());
                out.append(" ");
                out.append(pad_right(consts::NA, 7).as_str());
                out.append(" ");
                out.append(pad_right(consts::NA, 20).as_str());
            },
        }
        out
    }

    /// Writes the page of the weather as it is now, given for each city the
    /// time at which its weather was last told, as text (see
    /// [`current_page`]).
    pub fn page_current_from(&self, stamps: &Vec<String>) -> (out: String)
        ensures
            out@ == current_page(self@, words_view(stamps@), self@.len()),
    {
        let mut out = pad_right("City", 12);
        out.append(" ");
        out.append(pad_right("Update", 11).as_str());
        out.append(" ");
        out.append(pad_right("Temp", 7).as_str());
        out.append(" ");
        out.append(pad_right("Weather", 20).as_str());
        let mut i: usize = 0;
        while i < self.cities.len()
            invariant
                i <= self.cities.len(),
                out@ == current_page(self@, words_view(stamps@), i as nat),
            decreases self.cities.len() - i,
        {
            assert(self@[i as int] == self.cities@[i as int]@);
            let row = if i < stamps.len() {
                assert(words_view(stamps@)[i as int] == stamps@[i as int]@);
                Self::current_row_of(&self.cities[i], stamps[i].as_str())
            } else {
                Self::current_row_of(&self.cities[i], consts::NA)
            };
            out.append("\n");
            out.append(row.as_str());
            i += 1;
        }
        out
    }

    /// The time of the weather of a city as the page shows it: the time of
    /// day in the time zone of this machine, or `N/A`.
    fn stamp_of(city: &City) -> (out: String)
        ensures
            city@.weather is Some && !readable_time(city@.weather->0.time) ==> out@ == consts::NA@,
    {
        match &city.weather {
            Some(w) => match datetime_str_to_ts(w.time.as_str()) {
                Some(t) => if t >= 0 && (t as u64) <= MAX_TS {
                    ts_str(t as u64)
                } else {
                    String::from_str(consts::NA)
                },
                None => String::from_str(consts::NA),
            },
            None => String::from_str(consts::NA),
        }
    }

    /// Writes the page of the weather as it is now, with the times in the
    /// time zone of this machine: the result of [`Cities::page_current_from`]
    /// for such times.
    pub fn page_current(&self) -> (out: String)
        ensures
            exists|stamps: Seq<Seq<char>>| #[trigger]
                stamps_fit(self@, stamps) && out@ == current_page(self@, stamps, self@.len()),
    {
        let mut stamps: Vec<String> = Vec::new();
        let mut i: usize = 0;
        while i < self.cities.len()
            invariant
                i <= self.cities.len(),
                stamps.len() == i,
                forall|j: int|
                    0 <= j < i && (#[trigger] self@[j]).weather is Some && !readable_time(
                        self@[j].weather->0.time,
                    ) ==> stamps@[j]@ == consts::NA@,
            decreases self.cities.len() - i,
        {
            assert(self@[i as int] == self.cities@[i as int]@);
            stamps.push(Self::stamp_of(&self.cities[i]));
            i += 1;
        }
        let out = self.page_current_from(&stamps);
        proof {
            let shown = words_view(stamps@);
            assert forall|j: int|
                0 <= j < self@.len() && (#[trigger] self@[j]).weather is Some && !readable_time(
                    self@[j].weather->0.time,
                ) implies shown[j] == consts::NA@ by {
                assert(shown[j] == stamps@[j]@);
            }
            assert(stamps_fit(self@, shown));
        }
        out
    }

    /// The weather of one day as the page of the coming days shows it.
    fn day_cell_of(day: &WeatherDaily) -> (out: String)
        ensures
            out@ == day_cell(day@),
    {
        let mut out = pad_str(weather_code_emoji(day.weather_code), 2);
        out.append(" ");
        let rain = concat(decimal(day.precipitation_probability_max as u64).as_str(), "%");
        out.append(pad_right(rain.as_str(), 4).as_str());
        out.append(" ");
        let range = concat3(
            day.temperature_2m_max.whole.as_str(),
            "/",
            day.temperature_2m_min.whole.as_str(),
        );
        out.append(pad_str(range.as_str(), 6).as_str());
        out.append(" ");
        out.append(pad_str(weather_code_str(day.weather_code), 13).as_str());
        out
    }

    /// The date of a day as the page of the coming days shows it.
    fn date_of(day: &WeatherDaily) -> (out: String)
        ensures
            out@ == date_text(day@.time),
    {
        match format_date(day.time.as_str()) {
            Some(label) => label,
            None => String::from_str(consts::NA),
        }
    }

    /// The head of the page of the coming days.
    fn daily_head_of(days: &Vec<WeatherDaily>) -> (out: String)
        ensures
            out@ == daily_head(dailies_view(days@), days@.len()),
    {
        let mut out = pad_right("City", 12);
        out.append(" ");
        let mut k: usize = 0;
        while k < days.len()
            invariant
                k <= days.len(),
                out@ == daily_head(dailies_view(days@), k as nat),
            decreases days.len() - k,
        {
            if k >= 1 {
                assert(dailies_view(days@)[k as int] == days@[k as int]@);
                out.append(pad_right(Self::date_of(&days[k]).as_str(), 27).as_str());
                out.append(" ");
            }
            k += 1;
        }
        out
    }

    /// The row of one city on the page of the coming days.
    fn daily_row_of(city: &City) -> (out: String)
        ensures
            out@ == daily_row(city@),
    {
        let mut out = String::from_str("\n");
        out.append(pad_str(city.name.as_str(), 12).as_str());
        out.append(" ");
        match &city.weather {
            Some(w) => {
                let mut cells = String::from_str("");
                proof {
                    reveal_strlit("");
                }
                assert(cells@ =~= Seq::<char>::empty());
                let mut k: usize = 0;
                while k < w.daily.len()
                    invariant
                        k <= w.daily.len(),
                        cells@ == day_cells(dailies_view(w.daily@), k as nat),
                    decreases w.daily.len() - k,
                {
                    if k >= 1 {
                        assert(dailies_view(w.daily@)[k as int] == w.daily@[k as int]@);
                        cells.append(Self::day_cell_of(&w.daily[k]).as_str());
                    }
                    k += 1;
                }
                out.append(cells.as_str());
            },
            None => {
                assert(out@ + Seq::<char>::empty() =~= out@);
            },
        }
        out
    }

    /// Writes the page of the coming days (see [`daily_page`]).
    pub fn page_daily(&self) -> (out: String)
        ensures
            out@ == daily_page(self@),
    {
        if self.cities.len() == 0 {
            return String::from_str(NO_DATA);
        }
        assert(self@[0] == self.cities@[0]@);
        let mut out = match &self.cities[0].weather {
            Some(w) => Self::daily_head_of(&w.daily),
            None => {
                return String::from_str(NO_DATA);
            },
        };
        let mut rows = String::from_str("");
        proof {
            reveal_strlit("");
        }
        assert(rows@ =~= Seq::<char>::empty());
        let mut i: usize = 0;
        while i < self.cities.len()
            invariant
                i <= self.cities.len(),
                rows@ == daily_rows(self@, i as nat),
            decreases self.cities.len() - i,
        {
            assert(self@[i as int] == self.cities@[i as int]@);
            rows.append(Self::daily_row_of(&self.cities[i]).as_str());
            i += 1;
        }
        out.append(rows.as_str());
        out
    }

    /// The list of the cities with their temperatures, line by line (see
    /// [`show_lines_spec`]).
    pub fn show_lines(&self) -> (out: Vec<String>)
        ensures
            words_view(out@) == show_lines_spec(self@),
    {
        let mut out: Vec<String> = Vec::new();
        let mut head = String::from_str("  ");
        head.append(pad_right("Name", 12).as_str());
        head.append(" ");
        head.append(pad_right("Temp", 7).as_str());
        out.push(head);
        let mut i: usize = 0;
        while i < self.cities.len()
            invariant
                i <= self.cities.len(),
                out@.len() == i + 1,
                forall|j: int| 0 <= j <= i ==> (#[trigger] out@[j])@ == show_lines_spec(self@)[j],
            decreases self.cities.len() - i,
        {
            assert(self@[i as int] == self.cities@[i as int]@);
            let city = &self.cities[i];
            let mut line = String::from_str("  ");
            line.append(pad_str(city.name.as_str(), 12).as_str());
            line.append(" ");
            let shown = match &city.weather {
                Some(w) => concat(w.temperature.tenths.as_str(), "°C"),
                None => String::from_str(consts::NA),
            };
            line.append(pad_right(shown.as_str(), 7).as_str());
            out.push(line);
            i += 1;
        }
        assert(words_view(out@) =~= show_lines_spec(self@));
        out
    }
}

} // verus!
