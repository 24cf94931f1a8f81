//! Rendering of replies: lines of text with light HTML emphasis, joined by
//! line breaks.
use vstd::prelude::*;
use crate::model::{WeatherJSONLocation, WeatherJSONCurrent};

verus! {

/// The lines joined by single line breaks.
pub open spec fn join_lines(lines: Seq<Seq<char>>) -> Seq<char>
    decreases lines.len(),
{
    if lines.len() == 0 {
        Seq::empty()
    } else if lines.len() == 1 {
        lines[0]
    } else {
        join_lines(lines.drop_last()) + "\n"@ + lines.last()
    }
}

/// The text of each string.
pub open spec fn texts(v: Seq<String>) -> Seq<Seq<char>> {
    v.map_values(|s: String| s@)
}

/// `prefix`, `value` and `suffix` one after another.
pub open spec fn framed(prefix: Seq<char>, value: Seq<char>, suffix: Seq<char>) -> Seq<char> {
    prefix + value + suffix
}

/// The lines that describe a place, as in both location replies.
pub open spec fn place_lines(l: WeatherJSONLocation) -> Seq<Seq<char>> {
    seq![
        "<b> Here you are! </b>"@,
        framed("<i> City: "@, l.name@, " </i>"@),
        framed("<i> Region: "@, l.region@, " </i>"@),
        framed("<i> Country: "@, l.country@, " </i>"@),
        "<i> Latitude: "@ + l.lat@ + ", Longitude: "@ + l.lon@ + " </i>"@,
        framed("<i> Your timezone: "@, l.tz_id@, " </i>"@),
    ]
}

/// The reply to a newly resolved location.
pub open spec fn found_text(l: WeatherJSONLocation) -> Seq<char> {
    join_lines(seq!["<b> Hey Hey Hey! </b>"@, "<b> We detected your location! </b>"@] + place_lines(l))
}

/// The reply that shows the location already held.
pub open spec fn place_text(l: WeatherJSONLocation) -> Seq<char> {
    join_lines(place_lines(l))
}

/// The lines of a weather report for place `l` under conditions `c`.
pub open spec fn weather_lines(l: WeatherJSONLocation, c: WeatherJSONCurrent) -> Seq<Seq<char>> {
    seq![
        "<b> Hi friend fom "@ + l.name@ + ", "@ + l.region@ + ", "@ + l.country@ + "!!! </b>"@,
        "<i> Current temperature: "@ + c.temp_c@ + "° Feels like "@ + c.feelslike_c@ + "° </i>"@,
        framed("<i> Seems to be "@, c.condition.text@, " </i>"@),
        "<i> Wind in "@ + c.wind_dir@ + " direction "@ + c.wind_kph@ + "km/h </i>"@,
        framed("<i> UV index "@, c.uv@, ", be careful</i>"@),
        "<b> UV index description! </b>"@,
        "<i> 0 to 2 - You can safely enjoy being outside!</i>"@,
        "<i> 3 to 7 - Seek shade during midday hours! Slip on a shirt, slop on sunscreen and slap on hat! </i>"@,
        "<i> 8 and above - Avoid being outside during midday hours! Make sure you seek shade! Shirt, sunscreen and hat are a must! </i>"@,
    ]
}

/// A weather report for place `l` under conditions `c`.
pub open spec fn weather_text(l: WeatherJSONLocation, c: WeatherJSONCurrent) -> Seq<char> {
    join_lines(weather_lines(l, c))
}

/// Joins the lines with single line breaks.
pub fn join(lines: &Vec<String>) -> (r: String)
    ensures
        r@ == join_lines(texts(lines@)),
{
    let mut out = String::new();
    let n = lines.len();
    let mut i: usize = 0;
    while i < n
        invariant
            n == lines@.len(),
            i <= n,
            out@ == join_lines(texts(lines@).take(i as int)),
        decreases n - i,
    {
        if i > 0 {
            out.append("\n");
        }
        out.append(lines[i].as_str());
        proof {
            let t = texts(lines@);
            assert(t.take(i + 1).drop_last() =~= t.take(i as int));
            assert(i == 0 ==> t.take(i as int) =~= Seq::<Seq<char>>::empty());
        }
        i = i + 1;
    }
    assert(texts(lines@).take(n as int) =~= texts(lines@));
    out
}

/// `prefix`, `value` and `suffix` as one string.
pub fn frame(prefix: &str, value: &str, suffix: &str) -> (r: String)
    ensures
        r@ == framed(prefix@, value@, suffix@),
{
    let mut s = String::from_str(prefix);
    s.append(value);
    s.append(suffix);
    s
}

fn place_rows(l: &WeatherJSONLocation, rows: &mut Vec<String>)
    ensures
        texts(final(rows)@) == texts(old(rows)@) + place_lines(*l),
{
    let ghost start = rows@;
    rows.push(String::from_str("<b> Here you are! </b>"));
    rows.push(frame("<i> City: ", l.name.as_str(), " </i>"));
    rows.push(frame("<i> Region: ", l.region.as_str(), " </i>"));
    rows.push(frame("<i> Country: ", l.country.as_str(), " </i>"));
    let mut coords = frame("<i> Latitude: ", l.lat.as_str(), ", Longitude: ");
    coords.append(l.lon.as_str());
    coords.append(" </i>");
    rows.push(coords);
    rows.push(frame("<i> Your timezone: ", l.tz_id.as_str(), " </i>"));
    assert(texts(rows@) =~= texts(start) + place_lines(*l));
}

/// The reply to a newly resolved location.
pub fn found_message(l: &WeatherJSONLocation) -> (r: String)
    ensures
        r@ == found_text(*l),
{
    let mut rows: Vec<String> = Vec::new();
    rows.push(String::from_str("<b> Hey Hey Hey! </b>"));
    rows.push(String::from_str("<b> We detected your location! </b>"));
    place_rows(l, &mut rows);
    assert(texts(rows@) =~= seq!["<b> Hey Hey Hey! </b>"@, "<b> We detected your location! </b>"@] + place_lines(*l));
    join(&rows)
}

/// The reply that shows the location already held.
pub fn place_message(l: &WeatherJSONLocation) -> (r: String)
    ensures
        r@ == place_text(*l),
{
    let mut rows: Vec<String> = Vec::new();
    place_rows(l, &mut rows);
    assert(texts(rows@) =~= place_lines(*l));
    join(&rows)
}

/// A weather report for place `l` under conditions `c`.
pub fn weather_message(l: &WeatherJSONLocation, c: &WeatherJSONCurrent) -> (r: String)
    ensures
        r@ == weather_text(*l, *c),
{
    let mut rows: Vec<String> = Vec::new();
    let mut head = frame("<b> Hi friend fom ", l.name.as_str(), ", ");
    head.append(l.region.as_str());
    head.append(", ");
    head.append(l.country.as_str());
    head.append("!!! </b>");
    rows.push(head);
    let mut temp = frame("<i> Current temperature: ", c.temp_c.as_str(), "° Feels like ");
    temp.append(c.feelslike_c.as_str());
    temp.append("° </i>");
    rows.push(temp);
    rows.push(frame("<i> Seems to be ", c.condition.text.as_str(), " </i>"));
    let mut wind = frame("<i> Wind in ", c.wind_dir.as_str(), " direction ");
    wind.append(c.wind_kph.as_str());
    wind.append("km/h </i>");
    rows.push(wind);
    rows.push(frame("<i> UV index ", c.uv.as_str(), ", be careful</i>"));
    rows.push(String::from_str("<b> UV index description! </b>"));
    rows.push(String::from_str("<i> 0 to 2 - You can safely enjoy being outside!</i>"));
    rows.push(String::from_str("<i> 3 to 7 - Seek shade during midday hours! Slip on a shirt, slop on sunscreen and slap on hat! </i>"));
    rows.push(String::from_str("<i> 8 and above - Avoid being outside during midday hours! Make sure you seek shade! Shirt, sunscreen and hat are a must! </i>"));
    assert(texts(rows@) =~= weather_lines(*l, *c));
    join(&rows)
}

} // verus!
