//! The one-line summary of current conditions.
//!
//! Pure presentation: a unit label from the units convention, a glyph
//! from the icon name, and the temperature to one decimal.  Unknown
//! inputs degrade (any unknown units code reads as Celsius, an unknown
//! icon as no glyph); nothing here can fail.

use crate::model::DarkskyResult;
use crate::model::DarkskyResultV;
use crate::strutil::append_str;
use crate::strutil::chars_to_string;
use crate::strutil::str_eq;
use vstd::prelude::*;

verus! {

/// The temperature unit label: `F` for the `us` convention, `C` for
/// every other value, recognized or not.
pub open spec fn unit_label(units: Seq<char>) -> Seq<char> {
    if units == "us"@ {
        "F"@
    } else {
        "C"@
    }
}

/// The glyph for an icon name; an unrecognized name has none.
pub open spec fn icon_glyph(icon: Seq<char>) -> Seq<char> {
    if icon == "clear-day"@ {
        "☀️"@
    } else if icon == "clear-night"@ {
        "🌙"@
    } else if icon == "rain"@ {
        "🌧"@
    } else if icon == "snow"@ {
        "🌨"@
    } else if icon == "sleet"@ {
        "🌨"@
    } else if icon == "wind"@ {
        "💨"@
    } else if icon == "fog"@ {
        "🌫"@
    } else if icon == "cloudy"@ {
        "☁️"@
    } else if icon == "partly-cloudy-day"@ {
        "⛅️"@
    } else if icon == "partly-cloudy-night"@ {
        "🌙"@
    } else if icon == "hail"@ {
        "🌧"@
    } else if icon == "thunderstorm"@ {
        "⛈"@
    } else if icon == "tornado"@ {
        "🌪"@
    } else {
        Seq::empty()
    }
}

pub fn get_weather_icon(iconstr: &str) -> (r: &str)
    ensures
        r@ == icon_glyph(iconstr@),
{
    if str_eq(iconstr, "clear-day") {
        "☀️"
    } else if str_eq(iconstr, "clear-night") {
        "🌙"
    } else if str_eq(iconstr, "rain") {
        "🌧"
    } else if str_eq(iconstr, "snow") {
        "🌨"
    } else if str_eq(iconstr, "sleet") {
        "🌨"
    } else if str_eq(iconstr, "wind") {
        "💨"
    } else if str_eq(iconstr, "fog") {
        "🌫"
    } else if str_eq(iconstr, "cloudy") {
        "☁️"
    } else if str_eq(iconstr, "partly-cloudy-day") {
        "⛅️"
    } else if str_eq(iconstr, "partly-cloudy-night") {
        "🌙"
    } else if str_eq(iconstr, "hail") {
        "🌧"
    } else if str_eq(iconstr, "thunderstorm") {
        "⛈"
    } else if str_eq(iconstr, "tornado") {
        "🌪"
    } else {
        proof {
            reveal_strlit("");
            assert(""@ =~= Seq::<char>::empty());
        }
        ""
    }
}

/// The whole summary line: temperature to one decimal, degree sign and
/// unit label, the icon glyph (possibly empty), and the summary text,
/// separated by single spaces.
pub open spec fn summary_line(m: DarkskyResultV) -> Seq<char> {
    m.currently.temperature.fixed1() + seq!['°'] + unit_label(m.flags.units) + seq![' ']
        + icon_glyph(m.currently.icon) + seq![' '] + m.currently.summary
}

impl DarkskyResult {
    pub fn get_unit(&self) -> (r: &str)
        ensures
            r@ == unit_label(self.flags.units@),
    {
        if str_eq(self.flags.units.as_str(), "us") {
            "F"
        } else {
            "C"
        }
    }

    /// Renders the summary.  Total: every syntactically valid result has
    /// a summary, whatever its units code or icon name.
    pub fn get_current_weather_str(&self) -> (r: String)
        ensures
            r@ == summary_line(self@),
    {
        let mut out: Vec<char> = self.currently.temperature.to_fixed1_chars();
        out.push('°');
        append_str(&mut out, self.get_unit());
        out.push(' ');
        append_str(&mut out, get_weather_icon(self.currently.icon.as_str()));
        out.push(' ');
        append_str(&mut out, self.currently.summary.as_str());
        proof {
            assert(out@ =~= summary_line(self@));
        }
        chars_to_string(&out)
    }
}

} // verus!
