use vstd::prelude::*;

verus! {

/// Time window for trending endpoints.
#[derive(Debug, Clone, Copy, PartialEq, Eq, Hash, Structural)]
pub enum TimeWindow {
    /// Results from the past day.
    Day,
    /// Results from the past week.
    Week,
}

/// The text of a time window, as shown to users and sent to providers.
pub open spec fn time_window_text(tw: TimeWindow) -> Seq<char> {
    match tw {
        TimeWindow::Day => "day"@,
        TimeWindow::Week => "week"@,
    }
}

impl TimeWindow {
    /// The display form of this time window: `"day"` or `"week"`.
    pub fn as_str(&self) -> (s: &'static str)
        ensures
            s@ == time_window_text(*self),
    {
        match self {
            TimeWindow::Day => "day",
            TimeWindow::Week => "week",
        }
    }
}

/// The text of a time window inside discovery endpoint names.
pub fn time_window_str(tw: TimeWindow) -> (s: &'static str)
    ensures
        s@ == time_window_text(tw),
{
    match tw {
        TimeWindow::Day => "day",
        TimeWindow::Week => "week",
    }
}

} // verus!
