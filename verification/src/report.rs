use vstd::prelude::*;

use vstd::string::StringExecFns;

use crate::records::Location;
use crate::records::PublicAddress;
use crate::records::WeatherReport;

verus! {

/// The command-line selection: each flag asks for one field of the report.
/// The flags are mutually exclusive by convention; when several are set, the
/// earliest in the declared order wins and the rest are silently ignored.
#[derive(Clone, Copy, PartialEq, Eq, Structural, Debug)]
pub struct Flags {
    pub temperature: bool,
    pub humidity: bool,
    pub apparent_temperature: bool,
    pub nightorday: bool,
    pub precipitation: bool,
    pub rain: bool,
    pub showers: bool,
    pub snowfall: bool,
    pub ip: bool,
}

impl Flags {
    /// The empty selection: no field asked for, so the full report is printed.
    pub fn all_clear() -> (f: Flags)
        ensures
            f == (Flags {
                temperature: false,
                humidity: false,
                apparent_temperature: false,
                nightorday: false,
                precipitation: false,
                rain: false,
                showers: false,
                snowfall: false,
                ip: false,
            }),
    {
        Flags {
            temperature: false,
            humidity: false,
            apparent_temperature: false,
            nightorday: false,
            precipitation: false,
            rain: false,
            showers: false,
            snowfall: false,
            ip: false,
        }
    }

    /// No flag of the selection is set.
    pub open spec fn none_set(self) -> bool {
        &&& !self.temperature
        &&& !self.humidity
        &&& !self.apparent_temperature
        &&& !self.nightorday
        &&& !self.precipitation
        &&& !self.rain
        &&& !self.showers
        &&& !self.snowfall
        &&& !self.ip
    }
}

/// The day/night label: zero is night, every other value is day.
pub open spec fn day_night_label(is_day: i64) -> Seq<char> {
    if is_day == 0 {
        "Night"@
    } else {
        "Day"@
    }
}

/// Decides the day/night label from the indicator.
pub fn day_label(is_day: i64) -> (r: &'static str)
    ensures
        r@ == day_night_label(is_day),
        is_day == 0 ==> r@ == "Night"@,
        is_day != 0 ==> r@ == "Day"@,
{
    if is_day == 0 {
        "Night"
    } else {
        "Day"
    }
}

/// Joins two pieces of text.
pub(crate) fn join2(a: &str, b: &str) -> (r: String)
    ensures
        r@ == a@ + b@,
{
    let mut s = a.to_owned();
    s.append(b);
    s
}

/// Joins four pieces of text.
pub(crate) fn join4(a: &str, b: &str, c: &str, d: &str) -> (r: String)
    ensures
        r@ == a@ + b@ + c@ + d@,
{
    let mut s = a.to_owned();
    s.append(b);
    s.append(c);
    s.append(d);
    s
}

/// Joins five pieces of text.
pub(crate) fn join5(a: &str, b: &str, c: &str, d: &str, e: &str) -> (r: String)
    ensures
        r@ == a@ + b@ + c@ + d@ + e@,
{
    let mut s = a.to_owned();
    s.append(b);
    s.append(c);
    s.append(d);
    s.append(e);
    s
}

/// The full multi-line report: the location line, the time line with the
/// day/night label, then one line per weather field with its unit label —
/// except apparent temperature, for which the service supplies no unit.
pub open spec fn full_report_lines(loc: Location, rep: WeatherReport) -> Seq<Seq<char>> {
    seq![
        "Location: "@ + loc.city@ + ", "@ + loc.country@,
        "Time: "@ + rep.current.time@ + " ("@ + day_night_label(rep.current.is_day) + ")"@,
        "Temperature: "@ + rep.current.temperature@ + " "@ + rep.units.temperature@,
        "Relative Humidity: "@ + rep.current.humidity@ + " "@ + rep.units.humidity@,
        "Apparent Temperature: "@ + rep.current.apparent_temperature@,
        "Precipitation: "@ + rep.current.precipitation@ + " "@ + rep.units.precipitation@,
        "Rain: "@ + rep.current.rain@ + " "@ + rep.units.rain@,
        "Showers: "@ + rep.current.showers@ + " "@ + rep.units.showers@,
        "Snowfall: "@ + rep.current.snowfall@ + " "@ + rep.units.snowfall@,
    ]
}

/// What the program prints, line by line: the first set flag, in the fixed
/// priority order, selects a single value; with no flag set, the full report.
pub open spec fn output_lines(
    flags: Flags,
    address: PublicAddress,
    loc: Location,
    rep: WeatherReport,
) -> Seq<Seq<char>> {
    if flags.temperature {
        seq![rep.current.temperature@]
    } else if flags.humidity {
        seq![rep.current.humidity@]
    } else if flags.apparent_temperature {
        seq![rep.current.apparent_temperature@]
    } else if flags.nightorday {
        seq![rep.current.is_day_text@]
    } else if flags.precipitation {
        seq![rep.current.precipitation@]
    } else if flags.rain {
        seq![rep.current.rain@]
    } else if flags.showers {
        seq![rep.current.showers@]
    } else if flags.snowfall {
        seq![rep.current.snowfall@]
    } else if flags.ip {
        seq![address.ip@]
    } else {
        full_report_lines(loc, rep)
    }
}

/// Renders the program output for a completed pipeline.
pub fn render_output(
    flags: &Flags,
    address: &PublicAddress,
    loc: &Location,
    rep: &WeatherReport,
) -> (out: Vec<String>)
    ensures
        out.deep_view() == output_lines(*flags, *address, *loc, *rep),
{
    let mut out: Vec<String> = Vec::new();
    if flags.temperature {
        out.push(rep.current.temperature.clone());
    } else if flags.humidity {
        out.push(rep.current.humidity.clone());
    } else if flags.apparent_temperature {
        out.push(rep.current.apparent_temperature.clone());
    } else if flags.nightorday {
        out.push(rep.current.is_day_text.clone());
    } else if flags.precipitation {
        out.push(rep.current.precipitation.clone());
    } else if flags.rain {
        out.push(rep.current.rain.clone());
    } else if flags.showers {
        out.push(rep.current.showers.clone());
    } else if flags.snowfall {
        out.push(rep.current.snowfall.clone());
    } else if flags.ip {
        out.push(address.ip.clone());
    } else {
        out.push(join4("Location: ", loc.city.as_str(), ", ", loc.country.as_str()));
        out.push(
            join5(
                "Time: ",
                rep.current.time.as_str(),
                " (",
                day_label(rep.current.is_day),
                ")",
            ),
        );
        out.push(
            join4(
                "Temperature: ",
                rep.current.temperature.as_str(),
                " ",
                rep.units.temperature.as_str(),
            ),
        );
        out.push(
            join4(
                "Relative Humidity: ",
                rep.current.humidity.as_str(),
                " ",
                rep.units.humidity.as_str(),
            ),
        );
        out.push(join2("Apparent Temperature: ", rep.current.apparent_temperature.as_str()));
        out.push(
            join4(
                "Precipitation: ",
                rep.current.precipitation.as_str(),
                " ",
                rep.units.precipitation.as_str(),
            ),
        );
        out.push(join4("Rain: ", rep.current.rain.as_str(), " ", rep.units.rain.as_str()));
        out.push(
            join4("Showers: ", rep.current.showers.as_str(), " ", rep.units.showers.as_str()),
        );
        out.push(
            join4("Snowfall: ", rep.current.snowfall.as_str(), " ", rep.units.snowfall.as_str()),
        );
    }
    proof {
        assert(out.deep_view() =~~= output_lines(*flags, *address, *loc, *rep));
    }
    out
}

/// Law: the earliest flag in the priority order wins. With `temperature` set,
/// the output is the temperature value alone, whatever else is set —
/// in particular when `humidity` is set beside it.
pub proof fn lemma_temperature_first(
    flags: Flags,
    address: PublicAddress,
    loc: Location,
    rep: WeatherReport,
)
    requires
        flags.temperature,
    ensures
        output_lines(flags, address, loc, rep) == seq![rep.current.temperature@],
{
}

/// Law: whenever any flag is set, the output is a single line.
pub proof fn lemma_single_value_output(
    flags: Flags,
    address: PublicAddress,
    loc: Location,
    rep: WeatherReport,
)
    requires
        !flags.none_set(),
    ensures
        output_lines(flags, address, loc, rep).len() == 1,
{
}

/// Law: with no flag set the output is the full report — the location line,
/// the time line, then one line per weather field, in the fixed order.
pub proof fn lemma_full_report_shape(
    flags: Flags,
    address: PublicAddress,
    loc: Location,
    rep: WeatherReport,
)
    requires
        flags.none_set(),
    ensures
        output_lines(flags, address, loc, rep) == full_report_lines(loc, rep),
        full_report_lines(loc, rep).len() == 9,
{
}

/// Law: on the full-report path the time line carries "Night" exactly when
/// the day/night indicator is zero, and "Day" for every non-zero value,
/// negative values included.
pub proof fn lemma_time_line_label(loc: Location, rep: WeatherReport)
    ensures
        full_report_lines(loc, rep)[1] == "Time: "@ + rep.current.time@ + " ("@
            + day_night_label(rep.current.is_day) + ")"@,
        rep.current.is_day == 0 ==> day_night_label(rep.current.is_day) == "Night"@,
        rep.current.is_day != 0 ==> day_night_label(rep.current.is_day) == "Day"@,
{
}

} // verus!
