use vstd::prelude::*;
use vstd::string::StringExecFns;
use crate::scope::seq_option;
use crate::table::{calendar, calendar_text, decimal_text, int_text};

verus! {

/// The period of the status poll, in milliseconds.
pub const POLL_INTERVAL_MS: u32 = 60000;

/// The text shown while no update time is known.
pub const UNKNOWN_UPDATE_TEXT: &'static str = "Last update: ...";

/// The whole minutes from `earlier` to `now` (both in epoch milliseconds),
/// rounded toward zero.
pub open spec fn minutes_between(earlier: int, now: int) -> int {
    let d = now - earlier;
    if d >= 0 { d / 60000 } else { -((-d) / 60000) }
}

/// The footer's update line, given the last update time and its calendar text.
pub open spec fn update_line(last: Option<i64>, cal: Option<Seq<char>>, now: int) -> Seq<char> {
    match (last, cal) {
        (Some(t), Some(s)) => "Last update: "@ + s + " UTC ("@ + decimal_text(minutes_between(t as int, now))
            + " minutes ago)"@,
        _ => UNKNOWN_UPDATE_TEXT@,
    }
}

/// The minutes from `earlier` to `now`, rounded toward zero.
pub fn minutes_since(earlier: i64, now: i64) -> (r: i64)
    ensures
        r as int == minutes_between(earlier as int, now as int),
{
    let d: i128 = now as i128 - earlier as i128;
    if d >= 0 {
        (d / 60000) as i64
    } else {
        let m: i128 = (0i128 - d) / 60000;
        (0i128 - m) as i64
    }
}

/// The footer's update line from the calendar text of `last_updated`, which
/// `calendar` holds: the date and the minutes since, or the unknown text where
/// there is no time or it has no calendar text.
pub fn update_line_from(last_updated: Option<i64>, calendar: Option<String>, now_ms: i64) -> (r: String)
    ensures
        r@ == update_line(last_updated, seq_option(calendar), now_ms as int),
{
    match (last_updated, calendar) {
        (Some(t), Some(s)) => {
            proof {
                reveal_strlit("Last update: ");
                reveal_strlit(" UTC (");
                reveal_strlit(" minutes ago)");
            }
            let minutes = int_text(minutes_since(t, now_ms));
            String::from_str("Last update: ").concat(s.as_str()).concat(" UTC (").concat(minutes.as_str()).concat(
                " minutes ago)",
            )
        },
        _ => String::from_str(UNKNOWN_UPDATE_TEXT),
    }
}

/// The footer's update line for the shared freshness state at time `now_ms`.
pub fn update_line_at(last_updated: Option<i64>, now_ms: i64) -> (r: String)
    ensures
        r@ == update_line(
            last_updated,
            match last_updated {
                Some(t) => calendar_text(t as int),
                None => None,
            },
            now_ms as int,
        ),
{
    let cal = match last_updated {
        Some(t) => calendar(t),
        None => None,
    };
    update_line_from(last_updated, cal, now_ms)
}

/// The shared freshness state: the server's last-update time, kept up to date
/// by a poll that runs for the whole session. Every tick sends a status
/// request; the requests are numbered so that an answer that comes after the
/// answer to a later request is dropped.
#[derive(Clone, Copy, Debug, PartialEq, Eq, Structural)]
pub struct Freshness {
    /// The last-update time the server reported, in epoch milliseconds.
    pub last_updated: Option<i64>,
    /// How many status requests were sent; the latest one has this number.
    pub issued: u64,
    /// The number of the request whose answer `last_updated` holds, 0 if none.
    pub applied: u64,
}

impl Freshness {
    /// No answer taken can be newer than the newest request.
    pub open spec fn wf(&self) -> bool {
        self.applied <= self.issued
    }

    /// Nothing known yet, nothing sent.
    pub fn new() -> (r: Freshness)
        ensures
            r.wf(),
            r.last_updated is None,
            r.issued == 0,
            r.applied == 0,
    {
        Freshness { last_updated: None, issued: 0, applied: 0 }
    }

    /// A tick of the poll timer (and the first poll at startup): a status
    /// request is always sent, also while earlier ones are still in flight.
    /// Returns its number.
    pub fn tick(&mut self) -> (r: u64)
        requires
            old(self).issued < u64::MAX,
        ensures
            r == old(self).issued + 1,
            final(self).issued == r,
            final(self).applied == old(self).applied,
            final(self).last_updated == old(self).last_updated,
            old(self).wf() ==> final(self).wf(),
    {
        self.issued = self.issued + 1;
        self.issued
    }

    /// The status request numbered `poll` finished: with the reported time on
    /// success, with nothing on failure. A success is taken unless an answer
    /// to a later request was taken already; a failure changes nothing and
    /// is not shown. Returns whether the time was taken.
    pub fn finish(&mut self, poll: u64, reported: Option<i64>) -> (r: bool)
        ensures
            r == (reported is Some && old(self).applied < poll <= old(self).issued),
            final(self).issued == old(self).issued,
            r ==> final(self).last_updated == reported && final(self).applied == poll,
            !r ==> final(self).last_updated == old(self).last_updated && final(self).applied == old(self).applied,
            old(self).wf() ==> final(self).wf(),
    {
        match reported {
            Some(t) => {
                if self.applied < poll && poll <= self.issued {
                    self.last_updated = Some(t);
                    self.applied = poll;
                    true
                } else {
                    false
                }
            },
            None => false,
        }
    }
}

} // verus!
