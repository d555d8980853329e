//! The log that the host keeps: messages in the order in which they were
//! logged, each with the time at which it was.

use vstd::prelude::*;

verus! {

pub type LogDateTime = String;

pub type LogMessage = String;

pub type Logs = Vec<(LogDateTime, LogMessage)>;

/// The number of digits that a logged time has after the seconds.
pub const LOG_TIME_PRECISION: usize = 3;

/// The time that lies `time_ns` nanoseconds after the Unix epoch, as an
/// ISO 8601 date and time in UTC with as many digits after the seconds as
/// `precision` says, at most nine.
pub uninterp spec fn iso_datetime_text(time_ns: u64, precision: usize) -> Seq<char>;

/// `UTCDatetime::from` a duration and `as_iso_datetime` of the crate
/// utc-dt: the date and time in UTC that lies `time_ns` nanoseconds after
/// the Unix epoch, written as `YYYY-MM-DDThh:mm:ssZ` where `precision` is
/// 0, and else with `precision` digits after the seconds, as in
/// `YYYY-MM-DDThh:mm:ss.nnnZ`; the crate writes nine digits where
/// `precision` is above nine.
#[verifier::external_body]
fn iso_datetime(time_ns: u64, precision: usize) -> (text: String)
    ensures
        text@ == iso_datetime_text(time_ns, precision),
{
    utc_dt::UTCDatetime::from(std::time::Duration::from_nanos(time_ns)).as_iso_datetime(precision)
}

/// The entries as specifications see them.
pub open spec fn logs_view(logs: Seq<(LogDateTime, LogMessage)>) -> Seq<(Seq<char>, Seq<char>)> {
    Seq::new(logs.len(), |i: int| (logs[i].0@, logs[i].1@))
}

pub struct Logger {
    logs: Logs,
}

impl View for Logger {
    type V = Seq<(Seq<char>, Seq<char>)>;

    closed spec fn view(&self) -> Seq<(Seq<char>, Seq<char>)> {
        logs_view(self.logs@)
    }
}

impl Logger {
    pub fn new() -> (logger: Self)
        ensures
            logger@ == Seq::<(Seq<char>, Seq<char>)>::empty(),
    {
        let logger = Logger { logs: Vec::new() };
        assert(logger@ =~= Seq::<(Seq<char>, Seq<char>)>::empty());
        logger
    }

    /// Appends `message` with the time `time_ns`, in nanoseconds since the
    /// Unix epoch.
    pub fn log(&mut self, time_ns: u64, message: &str)
        ensures
            final(self)@ == old(self)@.push(
                (iso_datetime_text(time_ns, LOG_TIME_PRECISION), message@),
            ),
    {
        let utc_datetime = iso_datetime(time_ns, LOG_TIME_PRECISION);
        self.logs.push((utc_datetime, message.to_owned()));
        assert(self@ =~= old(self)@.push(
            (iso_datetime_text(time_ns, LOG_TIME_PRECISION), message@),
        ));
    }

    /// A copy of the log.
    pub fn get_logs(&self) -> (logs: Logs)
        ensures
            logs_view(logs@) == self@,
    {
        let mut logs: Logs = Vec::new();
        let mut i: usize = 0;
        while i < self.logs.len()
            invariant
                i <= self.logs.len(),
                logs.len() == i,
                forall|j: int|
                    0 <= j < i ==> logs[j].0@ == self.logs[j].0@ && logs[j].1@ == self.logs[j].1@,
            decreases self.logs.len() - i,
        {
            logs.push((self.logs[i].0.clone(), self.logs[i].1.clone()));
            i += 1;
        }
        assert(logs_view(logs@) =~= self@);
        logs
    }
}

/// Appends `message` to the log with the time `time_ns`.
pub fn log(logger: &mut Logger, time_ns: u64, message: &str)
    ensures
        final(logger)@ == old(logger)@.push(
            (iso_datetime_text(time_ns, LOG_TIME_PRECISION), message@),
        ),
{
    logger.log(time_ns, message);
}

/// A copy of the log.
pub fn get_logs(logger: &Logger) -> (logs: Logs)
    ensures
        logs_view(logs@) == logger@,
{
    logger.get_logs()
}

} // verus!
