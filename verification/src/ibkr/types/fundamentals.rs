//! Requests for fundamental data.

use vstd::prelude::*;

verus! {

/// A request for one report on one symbol.
#[derive(Debug, Clone)]
pub struct FundamentalDataRequest {
    pub symbol: String,
    pub report_type: FundamentalReportType,
}

/// The reports the gateway offers.
#[derive(Debug, Clone, Copy, PartialEq, Eq, Structural)]
pub enum FundamentalReportType {
    ReportsFinSummary,
    ReportsFinStatements,
    ReportsOwnership,
    ReportSnapshot,
    CalendarReport,
}

/// The name under which the gateway knows a report.
pub open spec fn report_name(t: FundamentalReportType) -> Seq<char> {
    match t {
        FundamentalReportType::ReportsFinSummary => "ReportsFinSummary"@,
        FundamentalReportType::ReportsFinStatements => "ReportsFinStatements"@,
        FundamentalReportType::ReportsOwnership => "ReportsOwnership"@,
        FundamentalReportType::ReportSnapshot => "ReportSnapshot"@,
        FundamentalReportType::CalendarReport => "CalendarReport"@,
    }
}

impl FundamentalReportType {
    /// The name under which the gateway knows this report.
    pub fn as_str(&self) -> (r: &'static str)
        ensures
            r@ == report_name(*self),
    {
        match self {
            FundamentalReportType::ReportsFinSummary => "ReportsFinSummary",
            FundamentalReportType::ReportsFinStatements => "ReportsFinStatements",
            FundamentalReportType::ReportsOwnership => "ReportsOwnership",
            FundamentalReportType::ReportSnapshot => "ReportSnapshot",
            FundamentalReportType::CalendarReport => "CalendarReport",
        }
    }
}

} // verus!
