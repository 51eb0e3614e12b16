//! The one-line weather reports of the two weather services.

use vstd::prelude::*;

use crate::number::{natural_spec, parse_u64};
use crate::text::{field_spec, push_field, same_text, strip_suffix, strip_suffix_spec};
use vstd::string::StrSliceExecFns;

verus! {

/// An observation of the Finnish Meteorological Institute, as text.
#[derive(Debug)]
pub struct FmiWeather {
    pub place: Option<String>,
    pub temperature: Option<String>,
    pub wind: Option<String>,
    pub gust: Option<String>,
    pub feels_like: Option<String>,
    pub humidity: Option<String>,
    pub cloudiness: Option<String>,
    pub wawa: Option<String>,
}

/// The report of an observation: each known value with its label, separated
/// by commas, then the description of the weather.
pub open spec fn fmi_spec(d: FmiWeather) -> Seq<char> {
    strip_suffix_spec(
        field_spec(d.place, ""@, ": "@) + field_spec(d.temperature, "lämpötila: "@, "°C, "@)
            + field_spec(d.feels_like, "tuntuu kuin: "@, "°C, "@) + field_spec(
            d.wind,
            "tuulen nopeus: "@,
            "m/s, "@,
        ) + field_spec(d.gust, "puuskat: "@, "m/s, "@) + field_spec(
            d.humidity,
            "ilman kosteus: "@,
            "%, "@,
        ) + field_spec(d.cloudiness, "pilvisyys: "@, "/8, "@) + field_spec(d.wawa, ""@, ""@),
        ", "@,
    )
}

/// The report of an observation.
pub fn fmi_message(d: &FmiWeather) -> (r: String)
    ensures
        r@ == fmi_spec(*d),
{
    let mut msg = String::new();
    push_field(&mut msg, &d.place, "", ": ");
    push_field(&mut msg, &d.temperature, "lämpötila: ", "°C, ");
    push_field(&mut msg, &d.feels_like, "tuntuu kuin: ", "°C, ");
    push_field(&mut msg, &d.wind, "tuulen nopeus: ", "m/s, ");
    push_field(&mut msg, &d.gust, "puuskat: ", "m/s, ");
    push_field(&mut msg, &d.humidity, "ilman kosteus: ", "%, ");
    push_field(&mut msg, &d.cloudiness, "pilvisyys: ", "/8, ");
    push_field(&mut msg, &d.wawa, "", "");
    assert(msg@ =~= field_spec(d.place, ""@, ": "@) + field_spec(d.temperature, "lämpötila: "@, "°C, "@)
        + field_spec(d.feels_like, "tuntuu kuin: "@, "°C, "@) + field_spec(
        d.wind,
        "tuulen nopeus: "@,
        "m/s, "@,
    ) + field_spec(d.gust, "puuskat: "@, "m/s, "@) + field_spec(d.humidity, "ilman kosteus: "@, "%, "@)
        + field_spec(d.cloudiness, "pilvisyys: "@, "/8, "@) + field_spec(d.wawa, ""@, ""@));
    strip_suffix(msg.as_str(), ", ")
}

/// Current weather from OpenWeatherMap, as text.
#[derive(Debug)]
pub struct OwmWeather {
    pub place: Option<String>,
    pub temperature: Option<String>,
    pub wind: Option<String>,
    pub feels_like: Option<String>,
    pub humidity: Option<String>,
    pub cloudiness: Option<String>,
    pub description: Option<String>,
}

/// The report of the current weather, in the same shape as `fmi_spec`.
pub open spec fn owm_spec(d: OwmWeather) -> Seq<char> {
    strip_suffix_spec(
        field_spec(d.place, ""@, ": "@) + field_spec(d.temperature, "temperature: "@, "°C, "@)
            + field_spec(d.feels_like, "feels like: "@, "°C, "@) + field_spec(
            d.wind,
            "wind speed: "@,
            "m/s, "@,
        ) + field_spec(d.humidity, "humidity: "@, "%, "@) + field_spec(
            d.cloudiness,
            "cloudiness: "@,
            "%, "@,
        ) + field_spec(d.description, ""@, ""@),
        ", "@,
    )
}

/// The report of the current weather.
pub fn owm_message(d: &OwmWeather) -> (r: String)
    ensures
        r@ == owm_spec(*d),
{
    let mut msg = String::new();
    push_field(&mut msg, &d.place, "", ": ");
    push_field(&mut msg, &d.temperature, "temperature: ", "°C, ");
    push_field(&mut msg, &d.feels_like, "feels like: ", "°C, ");
    push_field(&mut msg, &d.wind, "wind speed: ", "m/s, ");
    push_field(&mut msg, &d.humidity, "humidity: ", "%, ");
    push_field(&mut msg, &d.cloudiness, "cloudiness: ", "%, ");
    push_field(&mut msg, &d.description, "", "");
    assert(msg@ =~= field_spec(d.place, ""@, ": "@) + field_spec(d.temperature, "temperature: "@, "°C, "@)
        + field_spec(d.feels_like, "feels like: "@, "°C, "@) + field_spec(
        d.wind,
        "wind speed: "@,
        "m/s, "@,
    ) + field_spec(d.humidity, "humidity: "@, "%, "@) + field_spec(d.cloudiness, "cloudiness: "@, "%, "@)
        + field_spec(d.description, ""@, ""@));
    strip_suffix(msg.as_str(), ", ")
}

/// The place asked about: the parameters when there are any, otherwise the
/// place stored for the asker, otherwise Helsinki.
pub open spec fn location_spec(params: Seq<char>, stored: Option<String>) -> Seq<char> {
    if params.len() > 0 {
        params
    } else {
        match stored {
            Some(l) => l@,
            None => "Helsinki"@,
        }
    }
}

/// The place that a weather command asks about.
pub fn weather_location(params: &str, stored: Option<String>) -> (r: String)
    ensures
        r@ == location_spec(params@, stored),
{
    if params.unicode_len() > 0 {
        params.to_owned()
    } else {
        match stored {
            Some(l) => l,
            None => "Helsinki".to_owned(),
        }
    }
}

/// The answer to a request to store a weather place: whether storing it succeeded.
pub fn weatherset_reply(stored: bool) -> (r: String)
    ensures
        r@ == (if stored {
            "Weather location set"@
        } else {
            "Database error"@
        }),
{
    if stored {
        "Weather location set".to_owned()
    } else {
        "Database error".to_owned()
    }
}

/// The description of present weather code `code` of the observation
/// stations (WMO code table 4680).
pub open spec fn wawa_spec(code: int) -> Option<Seq<char>> {
    if code == 4 || code == 5 {
        Some("auerta, savua tai ilmassa leijuvaa pölyä"@)
    } else if code == 20 || code == 30 || code == 31 || code == 32 || code == 33 || code == 34 {
        Some("sumua"@)
    } else if code == 21 || code == 40 {
        Some("sadetta"@)
    } else if code == 22 {
        Some("tihkusadetta tai lumijyväsiä"@)
    } else if code == 23 || code == 60 {
        Some("vesisadetta"@)
    } else if code == 24 || code == 70 {
        Some("lumisadetta"@)
    } else if code == 25 {
        Some("jäätävää vesisadetta tai jäätävää tihkua"@)
    } else if code == 41 {
        Some("heikkoa tai kohtalaista sadetta"@)
    } else if code == 42 {
        Some("kovaa sadetta"@)
    } else if code == 50 {
        Some("tihkusadetta"@)
    } else if code == 51 {
        Some("heikkoa tihkusadetta"@)
    } else if code == 52 {
        Some("kohtalaista tihkusadetta"@)
    } else if code == 53 {
        Some("kovaa tihkusadetta"@)
    } else if code == 54 {
        Some("jäätävää heikkoa tihkusadetta"@)
    } else if code == 55 {
        Some("jäätävää kohtalaista tihkusadetta"@)
    } else if code == 56 {
        Some("jäätävää kovaa tihkusadetta"@)
    } else if code == 61 {
        Some("heikkoa vesisadetta"@)
    } else if code == 62 {
        Some("kohtalaista vesisadetta"@)
    } else if code == 63 {
        Some("kovaa vesisadetta"@)
    } else if code == 64 {
        Some("jäätävää heikkoa vesisadetta"@)
    } else if code == 65 {
        Some("jäätävää kohtalaista vesisadetta"@)
    } else if code == 66 {
        Some("jäätävää kovaa vesisadetta"@)
    } else if code == 71 {
        Some("heikkoa lumisadetta"@)
    } else if code == 72 {
        Some("kohtalaista lumisadetta"@)
    } else if code == 73 {
        Some("tiheää lumisadetta"@)
    } else if code == 74 {
        Some("heikkoa jääjyväsadetta"@)
    } else if code == 75 {
        Some("kohtalaista jääjyväsadetta"@)
    } else if code == 76 {
        Some("kovaa jääjyväsadetta"@)
    } else if code == 77 {
        Some("lumijyväsiä"@)
    } else if code == 78 {
        Some("jääkiteitä"@)
    } else if code == 80 {
        Some("kuuroja tai ajoittaista sadetta"@)
    } else if code == 81 {
        Some("heikkoja vesikuuroja"@)
    } else if code == 82 {
        Some("kohtalaisia vesikuuroja"@)
    } else if code == 83 {
        Some("kovia vesikuuroja"@)
    } else if code == 84 {
        Some("ankaria vesikuuroja"@)
    } else if code == 85 {
        Some("heikkoja lumikuuroja"@)
    } else if code == 86 {
        Some("kohtalaisia lumikuuroja"@)
    } else if code == 87 {
        Some("kovia lumikuuroja"@)
    } else if code == 89 {
        Some("raekuuroja"@)
    } else {
        None
    }
}

/// The description of present weather code `code`.
pub fn wawa_text(code: u64) -> (r: Option<String>)
    ensures
        match wawa_spec(code as int) {
            Some(t) => r is Some && r.unwrap()@ == t,
            None => r is None,
        },
{
    if code == 4 || code == 5 {
        Some("auerta, savua tai ilmassa leijuvaa pölyä".to_owned())
    } else if code == 20 || code == 30 || code == 31 || code == 32 || code == 33 || code == 34 {
        Some("sumua".to_owned())
    } else if code == 21 || code == 40 {
        Some("sadetta".to_owned())
    } else if code == 22 {
        Some("tihkusadetta tai lumijyväsiä".to_owned())
    } else if code == 23 || code == 60 {
        Some("vesisadetta".to_owned())
    } else if code == 24 || code == 70 {
        Some("lumisadetta".to_owned())
    } else if code == 25 {
        Some("jäätävää vesisadetta tai jäätävää tihkua".to_owned())
    } else if code == 41 {
        Some("heikkoa tai kohtalaista sadetta".to_owned())
    } else if code == 42 {
        Some("kovaa sadetta".to_owned())
    } else if code == 50 {
        Some("tihkusadetta".to_owned())
    } else if code == 51 {
        Some("heikkoa tihkusadetta".to_owned())
    } else if code == 52 {
        Some("kohtalaista tihkusadetta".to_owned())
    } else if code == 53 {
        Some("kovaa tihkusadetta".to_owned())
    } else if code == 54 {
        Some("jäätävää heikkoa tihkusadetta".to_owned())
    } else if code == 55 {
        Some("jäätävää kohtalaista tihkusadetta".to_owned())
    } else if code == 56 {
        Some("jäätävää kovaa tihkusadetta".to_owned())
    } else if code == 61 {
        Some("heikkoa vesisadetta".to_owned())
    } else if code == 62 {
        Some("kohtalaista vesisadetta".to_owned())
    } else if code == 63 {
        Some("kovaa vesisadetta".to_owned())
    } else if code == 64 {
        Some("jäätävää heikkoa vesisadetta".to_owned())
    } else if code == 65 {
        Some("jäätävää kohtalaista vesisadetta".to_owned())
    } else if code == 66 {
        Some("jäätävää kovaa vesisadetta".to_owned())
    } else if code == 71 {
        Some("heikkoa lumisadetta".to_owned())
    } else if code == 72 {
        Some("kohtalaista lumisadetta".to_owned())
    } else if code == 73 {
        Some("tiheää lumisadetta".to_owned())
    } else if code == 74 {
        Some("heikkoa jääjyväsadetta".to_owned())
    } else if code == 75 {
        Some("kohtalaista jääjyväsadetta".to_owned())
    } else if code == 76 {
        Some("kovaa jääjyväsadetta".to_owned())
    } else if code == 77 {
        Some("lumijyväsiä".to_owned())
    } else if code == 78 {
        Some("jääkiteitä".to_owned())
    } else if code == 80 {
        Some("kuuroja tai ajoittaista sadetta".to_owned())
    } else if code == 81 {
        Some("heikkoja vesikuuroja".to_owned())
    } else if code == 82 {
        Some("kohtalaisia vesikuuroja".to_owned())
    } else if code == 83 {
        Some("kovia vesikuuroja".to_owned())
    } else if code == 84 {
        Some("ankaria vesikuuroja".to_owned())
    } else if code == 85 {
        Some("heikkoja lumikuuroja".to_owned())
    } else if code == 86 {
        Some("kohtalaisia lumikuuroja".to_owned())
    } else if code == 87 {
        Some("kovia lumikuuroja".to_owned())
    } else if code == 89 {
        Some("raekuuroja".to_owned())
    } else {
        None
    }
}

/// A time series of an observation station: its id and the value of its last point.
#[derive(Debug)]
pub struct Series {
    pub id: String,
    pub value: Option<String>,
}

/// How the value of a series is read.
#[derive(Debug, PartialEq, Eq, Structural, Clone, Copy)]
pub enum Reading {
    /// As it is.
    Plain,
    /// Without a trailing `.0`.
    Whole,
    /// As a present weather code, described in words.
    WeatherCode,
}

/// What series `s` says of the quantity with series id `id`, read as `how`;
/// nothing for another id, a missing value or `NaN`.
pub open spec fn series_value(s: Series, id: Seq<char>, how: Reading) -> Option<Seq<char>> {
    if s.id@ != id || s.value is None {
        None
    } else {
        let v = s.value.unwrap()@;
        match how {
            Reading::Plain => if v == "NaN"@ {
                None
            } else {
                Some(v)
            },
            Reading::Whole => if v == "NaN"@ {
                None
            } else {
                Some(strip_suffix_spec(v, ".0"@))
            },
            Reading::WeatherCode => {
                let w = strip_suffix_spec(v, ".0"@);
                if w != v && natural_spec(w) is Some && natural_spec(w).unwrap() <= u32::MAX {
                    wawa_spec(natural_spec(w).unwrap())
                } else {
                    None
                }
            },
        }
    }
}

/// The last value that the first `n` series give for `id`.
pub open spec fn last_value(series: Seq<Series>, n: int, id: Seq<char>, how: Reading) -> Option<Seq<char>>
    decreases n,
{
    if n <= 0 {
        None
    } else {
        match series_value(series[n - 1], id, how) {
            Some(v) => Some(v),
            None => last_value(series, n - 1, id, how),
        }
    }
}

/// What series `s` says of the quantity `id`, read as `how`.
fn series_value_exec(s: &Series, id: &str, how: Reading) -> (r: Option<String>)
    ensures
        match series_value(*s, id@, how) {
            Some(v) => r is Some && r.unwrap()@ == v,
            None => r is None,
        },
{
    if !same_text(s.id.as_str(), id) {
        return None;
    }
    let v = match &s.value {
        Some(v) => v,
        None => return None,
    };
    match how {
        Reading::Plain => if same_text(v.as_str(), "NaN") {
            None
        } else {
            Some(v.clone())
        },
        Reading::Whole => if same_text(v.as_str(), "NaN") {
            None
        } else {
            Some(strip_suffix(v.as_str(), ".0"))
        },
        Reading::WeatherCode => {
            let w = strip_suffix(v.as_str(), ".0");
            if same_text(w.as_str(), v.as_str()) {
                return None;
            }
            match parse_u64(w.as_str()) {
                Some(c) => if c <= 4294967295 {
                    wawa_text(c)
                } else {
                    None
                },
                None => None,
            }
        },
    }
}

pub open spec fn view_opt(o: Option<String>) -> Option<Seq<char>> {
    match o {
        Some(s) => Some(s@),
        None => None,
    }
}

/// The station's values, each from the last series with a usable value for it.
pub open spec fn readings_spec(series: Seq<Series>, n: int) -> Seq<Option<Seq<char>>> {
    seq![
        last_value(series, n, "obs-obs-1-1-t2m"@, Reading::Plain),
        last_value(series, n, "obs-obs-1-1-ws_10min"@, Reading::Plain),
        last_value(series, n, "obs-obs-1-1-wg_10min"@, Reading::Plain),
        last_value(series, n, "obs-obs-1-1-rh"@, Reading::Whole),
        last_value(series, n, "obs-obs-1-1-n_man"@, Reading::Whole),
        last_value(series, n, "obs-obs-1-1-wawa"@, Reading::WeatherCode),
    ]
}

pub open spec fn readings_of(w: FmiWeather) -> Seq<Option<Seq<char>>> {
    seq![
        view_opt(w.temperature),
        view_opt(w.wind),
        view_opt(w.gust),
        view_opt(w.humidity),
        view_opt(w.cloudiness),
        view_opt(w.wawa),
    ]
}

/// The observation that a station's series give: temperature, wind, gusts,
/// humidity, cloudiness and weather, each from the last series with a usable
/// value for it; an error when nothing at all is known. The feels-like
/// temperature is not derived here and stays absent.
pub fn weather_from_series(place: Option<String>, series: &Vec<Series>) -> (r: Result<FmiWeather, String>)
    ensures
        match r {
            Ok(w) => {
                &&& view_opt(w.place) == view_opt(place)
                &&& readings_of(w) == readings_spec(series@, series@.len() as int)
                &&& w.feels_like is None
                &&& (place is Some || exists|k: int| 0 <= k < 6 && (#[trigger] readings_of(w)[k]) is Some)
            },
            Err(e) => {
                &&& e@ == "Tietoja ei löytynyt"@
                &&& place is None
                &&& forall|k: int| 0 <= k < 6 ==> (#[trigger] readings_spec(series@, series@.len() as int)[k]) is None
            },
        },
{
    proof {
        reveal_strlit("obs-obs-1-1-t2m");
    }
    let mut temperature: Option<String> = None;
    let mut wind: Option<String> = None;
    let mut gust: Option<String> = None;
    let mut humidity: Option<String> = None;
    let mut cloudiness: Option<String> = None;
    let mut wawa: Option<String> = None;
    let mut i: usize = 0;
    while i < series.len()
        invariant
            i <= series@.len(),
            view_opt(temperature) == last_value(series@, i as int, "obs-obs-1-1-t2m"@, Reading::Plain),
            view_opt(wind) == last_value(series@, i as int, "obs-obs-1-1-ws_10min"@, Reading::Plain),
            view_opt(gust) == last_value(series@, i as int, "obs-obs-1-1-wg_10min"@, Reading::Plain),
            view_opt(humidity) == last_value(series@, i as int, "obs-obs-1-1-rh"@, Reading::Whole),
            view_opt(cloudiness) == last_value(series@, i as int, "obs-obs-1-1-n_man"@, Reading::Whole),
            view_opt(wawa) == last_value(series@, i as int, "obs-obs-1-1-wawa"@, Reading::WeatherCode),
        decreases series@.len() - i,
    {
        let s = &series[i];
        if let Some(v) = series_value_exec(s, "obs-obs-1-1-t2m", Reading::Plain) {
            temperature = Some(v);
        }
        if let Some(v) = series_value_exec(s, "obs-obs-1-1-ws_10min", Reading::Plain) {
            wind = Some(v);
        }
        if let Some(v) = series_value_exec(s, "obs-obs-1-1-wg_10min", Reading::Plain) {
            gust = Some(v);
        }
        if let Some(v) = series_value_exec(s, "obs-obs-1-1-rh", Reading::Whole) {
            humidity = Some(v);
        }
        if let Some(v) = series_value_exec(s, "obs-obs-1-1-n_man", Reading::Whole) {
            cloudiness = Some(v);
        }
        if let Some(v) = series_value_exec(s, "obs-obs-1-1-wawa", Reading::WeatherCode) {
            wawa = Some(v);
        }
        i = i + 1;
    }
    if place.is_none() && temperature.is_none() && wind.is_none() && gust.is_none()
        && humidity.is_none() && cloudiness.is_none() && wawa.is_none() {
        let e = "Tietoja ei löytynyt".to_owned();
        assert(readings_spec(series@, series@.len() as int)[0] is None);
        return Err(e);
    }
    let w = FmiWeather { place, temperature, wind, gust, feels_like: None, humidity, cloudiness, wawa };
    assert(readings_of(w) =~= readings_spec(series@, series@.len() as int));
    proof {
        if w.place is None {
            if w.temperature is Some {
                assert(readings_of(w)[0] is Some);
            } else if w.wind is Some {
                assert(readings_of(w)[1] is Some);
            } else if w.gust is Some {
                assert(readings_of(w)[2] is Some);
            } else if w.humidity is Some {
                assert(readings_of(w)[3] is Some);
            } else if w.cloudiness is Some {
                assert(readings_of(w)[4] is Some);
            } else {
                assert(readings_of(w)[5] is Some);
            }
        }
    }
    Ok(w)
}

} // verus!
