//! System status, reports and statistics: requests, replies and the range
//! check on the statistics period.

use vstd::prelude::*;

use crate::api::ApiParams;
use crate::error::Error;
use crate::text::{push_str, spec_dec, u64_to_dec};
use crate::wire::{bool_word, opt_flag, opt_param, opt_wire, param, ParamView, Params, WireValue};

verus! {

/// A report, as `get_reports` lists it.
#[derive(Clone, Debug, Default, PartialEq)]
pub struct Report {
    pub report_id: u32,
    pub name: String,
}

/// One line of `get_daily_stat_summary`: an activity and how often it
/// happened.
#[derive(Clone, Debug, Default, PartialEq)]
pub struct DailyStat {
    pub activity_type: String,
    pub count: u64,
}

/// A JSON value of a reply, as far as a status check's `info` is read:
/// the server sends it as a number for some checks and as a string for the
/// others.
#[derive(Clone, Debug, PartialEq)]
pub enum Scalar {
    /// A JSON string.
    Text(String),
    /// A JSON number, by its text as `serde_json` writes it.
    Number(String),
    /// A JSON boolean.
    Bool(bool),
    /// `null`, an array or an object.
    Other,
}

/// The `info` of a status check as text: a string as it is, a number by
/// its text, a boolean as `true` or `false`, nothing for anything else.
pub fn scalar_as_string(v: Scalar) -> (r: Option<String>)
    ensures
        v matches Scalar::Text(s) ==> r == Some(s),
        v matches Scalar::Number(n) ==> r == Some(n),
        v matches Scalar::Bool(b) ==> (r matches Some(t) && t@ == bool_word(b)),
        v is Other ==> r is None,
{
    match v {
        Scalar::Text(s) => Some(s),
        Scalar::Number(n) => Some(n),
        Scalar::Bool(b) => Some(b.to_wire()),
        Scalar::Other => None,
    }
}

/// The message of a statistics period out of range: the field, the
/// `range` code, then the limits and the value given, in the form of the
/// `validator` crate's error (which lists the three in no fixed order; here
/// they come as min, max, value).
pub open spec fn days_range_message(days: u16) -> Seq<char> {
    "days: Validation error: range [{\"min\": Number(1), \"max\": Number(365), \"value\": Number("@
        + spec_dec(days as nat) + ")}]"@
}

/// Whether a statistics period is acceptable: unset, or 1 to 365 days.
pub open spec fn days_in_range(days: Option<u16>) -> bool {
    match days {
        Some(d) => 1 <= d && d <= 365,
        None => true,
    }
}

impl GetDailyStatSummaryRequest {
    /// Checks the period before the request is sent: `days`, when set,
    /// must be from 1 to 365.
    pub fn validate(&self) -> (r: Result<(), Error>)
        ensures
            r is Ok <==> days_in_range(self.days),
            r matches Err(e) ==> (e matches Error::Validation(m) && self.days matches Some(d)
                && m@ == days_range_message(d)),
    {
        match self.days {
            Some(d) => {
                if 1 <= d && d <= 365 {
                    Ok(())
                } else {
                    let mut m = String::from_str(
                        "days: Validation error: range [{\"min\": Number(1), \"max\": Number(365), \"value\": Number(",
                    );
                    let v = u64_to_dec(d as u64);
                    push_str(&mut m, v.as_str());
                    push_str(&mut m, ")}]");
                    Err(Error::Validation(m))
                }
            },
            None => Ok(()),
        }
    }
}

/// Parameters of `get_system_status`.
#[non_exhaustive]
#[derive(Clone, Debug, PartialEq)]
pub struct GetSystemStatusRequest {
    /// Whether to run only the basic checks.
    pub basic: Option<bool>,
}

impl GetSystemStatusRequest {
    /// A request for the full status.
    pub fn new() -> (r: Self)
        ensures
            r == (Self { basic: None }),
    {
        Self { basic: None }
    }

    /// Sets [`Self::basic`].
    pub fn basic(self, basic: bool) -> (r: Self)
        ensures
            r == (Self { basic: Some(basic), ..self }),
    {
        Self { basic: Some(basic), ..self }
    }
}

impl Default for GetSystemStatusRequest {
    fn default() -> (r: Self)
        ensures
            r == (Self { basic: None }),
    {
        Self::new()
    }
}

impl ApiParams for GetSystemStatusRequest {
    open spec fn spec_params(&self) -> Seq<ParamView> {
        opt_param("basic"@, opt_flag(self.basic))
    }

    fn to_params(&self) -> (r: Params) {
        let mut p = Params::new();
        p.push_opt_flag("basic", self.basic);
        p
    }
}

/// Parameters of `do_report`.
#[non_exhaustive]
#[derive(Clone, Debug, PartialEq)]
pub struct DoReportRequest {
    /// The report to run.
    pub report_ref: u32,
    /// Start of the period.
    pub from_date: Option<String>,
    /// End of the period.
    pub to_date: Option<String>,
}

impl DoReportRequest {
    /// A request with the given parameters; the optional ones are left unset.
    pub fn new(report_ref: u32) -> (r: Self)
        ensures
            r == (Self { report_ref, from_date: None, to_date: None }),
    {
        Self { report_ref, from_date: None, to_date: None }
    }

    /// Sets [`Self::from_date`].
    pub fn from_date(self, from_date: String) -> (r: Self)
        ensures
            r == (Self { from_date: Some(from_date), ..self }),
    {
        Self { from_date: Some(from_date), ..self }
    }

    /// Sets [`Self::to_date`].
    pub fn to_date(self, to_date: String) -> (r: Self)
        ensures
            r == (Self { to_date: Some(to_date), ..self }),
    {
        Self { to_date: Some(to_date), ..self }
    }
}

impl ApiParams for DoReportRequest {
    open spec fn spec_params(&self) -> Seq<ParamView> {
        param("report_ref"@, self.report_ref.wire())
            + opt_param("from_date"@, opt_wire(self.from_date))
            + opt_param("to_date"@, opt_wire(self.to_date))
    }

    fn to_params(&self) -> (r: Params) {
        let mut p = Params::new();
        p.push("report_ref", &self.report_ref);
        p.push_opt("from_date", &self.from_date);
        p.push_opt("to_date", &self.to_date);
        p
    }
}

/// Parameters of `get_daily_stat_summary`.
#[non_exhaustive]
#[derive(Clone, Debug, PartialEq)]
pub struct GetDailyStatSummaryRequest {
    /// Number of days to summarise, from 1 to 365.
    pub days: Option<u16>,
}

impl GetDailyStatSummaryRequest {
    /// A request for the server's default period.
    pub fn new() -> (r: Self)
        ensures
            r == (Self { days: None }),
    {
        Self { days: None }
    }

    /// Sets [`Self::days`].
    pub fn days(self, days: u16) -> (r: Self)
        ensures
            r == (Self { days: Some(days), ..self }),
    {
        Self { days: Some(days), ..self }
    }
}

impl Default for GetDailyStatSummaryRequest {
    fn default() -> (r: Self)
        ensures
            r == (Self { days: None }),
    {
        Self::new()
    }
}

impl ApiParams for GetDailyStatSummaryRequest {
    open spec fn spec_params(&self) -> Seq<ParamView> {
        opt_param("days"@, opt_wire(self.days))
    }

    fn to_params(&self) -> (r: Params) {
        let mut p = Params::new();
        p.push_opt("days", &self.days);
        p
    }
}

} // verus!
