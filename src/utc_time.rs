//! Points in time as whole seconds and nanoseconds around the Unix epoch, and
//! their display in UTC.
use vstd::arithmetic::div_mod::lemma_fundamental_div_mod_converse;
use vstd::prelude::*;

verus! {

/// Nanoseconds in one second.
pub const NANOS_PER_SEC: u32 = 1_000_000_000;

/// The earliest second that chrono can display: January 1 of year -262143.
pub const MIN_UTC_SECS: i64 = -8_334_601_228_800;

/// The latest second that chrono can display: December 31 of year 262142, 23:59:59.
pub const MAX_UTC_SECS: i64 = 8_210_266_876_799;

/// How chrono writes the instant `secs` seconds and `nanos` nanoseconds after the
/// epoch: date, time and the zone name.
pub uninterp spec fn utc_text(secs: int, nanos: int) -> Seq<char>;

/// `s` ends with `suffix`.
pub open spec fn ends_with(s: Seq<char>, suffix: Seq<char>) -> bool {
    suffix.len() <= s.len() && s.subrange(s.len() - suffix.len(), s.len() as int) == suffix
}

/// The instants that chrono accepts as a `DateTime<Utc>`.
pub open spec fn displayable(secs: int, nanos: int) -> bool {
    &&& MIN_UTC_SECS <= secs <= MAX_UTC_SECS
    &&& (nanos < NANOS_PER_SEC || (nanos < 2 * NANOS_PER_SEC && secs % 60 == 59))
}

/// Relies on chrono's `DateTime::<Utc>::from_timestamp`, which gives `None` exactly
/// outside the range of years -262143 to 262142 or on an invalid nanosecond, and on
/// the `Display` of `DateTime<Utc>`, which writes the naive date and time, a space
/// and `UTC`.
#[verifier::external_body]
fn chrono_utc_string(secs: i64, nanos: u32) -> (r: Option<String>)
    ensures
        r.is_some() <==> displayable(secs as int, nanos as int),
        r matches Some(s) ==> s@ == utc_text(secs as int, nanos as int),
        r matches Some(s) ==> ends_with(s@, " UTC"@),
{
    match chrono::DateTime::<chrono::Utc>::from_timestamp(secs, nanos) {
        Some(d) => Some(d.to_string()),
        None => None,
    }
}

/// An instant: whole seconds since the Unix epoch (negative before it) and the
/// nanoseconds past that second.
#[derive(Clone, Copy, Debug, PartialEq, Eq, Structural)]
pub struct Timestamp {
    pub secs: i64,
    pub nanos: u32,
}

/// A duration measured from the Unix epoch, forwards or backwards, as the
/// operating system reports a file's modification time.
#[derive(Clone, Copy, Debug, PartialEq, Eq, Structural)]
pub struct EpochOffset {
    pub before_epoch: bool,
    pub secs: u64,
    pub nanos: u32,
}

impl Timestamp {
    pub open spec fn wf(&self) -> bool {
        self.nanos < NANOS_PER_SEC
    }

    /// The instant in nanoseconds since the epoch.
    pub open spec fn total_nanos(&self) -> int {
        self.secs * NANOS_PER_SEC + self.nanos
    }
}

impl EpochOffset {
    /// The signed offset in nanoseconds.
    pub open spec fn total_nanos(&self) -> int {
        let magnitude = self.secs * NANOS_PER_SEC + self.nanos;
        if self.before_epoch {
            -magnitude
        } else {
            magnitude
        }
    }

    /// The offset is a whole number of seconds that fits an `i64`, after rounding down.
    pub open spec fn fits(&self) -> bool {
        i64::MIN <= self.total_nanos() / (NANOS_PER_SEC as int) <= i64::MAX
    }
}

/// Splitting `q * 1_000_000_000 + r` with `0 <= r < 1_000_000_000` gives back `q` and `r`.
pub(crate) proof fn lemma_split_nanos(q: int, r: int)
    requires
        0 <= r < NANOS_PER_SEC,
    ensures
        (q * NANOS_PER_SEC + r) / (NANOS_PER_SEC as int) == q,
        (q * NANOS_PER_SEC + r) % (NANOS_PER_SEC as int) == r,
{
    lemma_fundamental_div_mod_converse(q * NANOS_PER_SEC + r, NANOS_PER_SEC as int, q, r);
}

impl Timestamp {
    /// The instant lying `off` away from the epoch, or `None` when its second does
    /// not fit an `i64`.
    pub fn from_epoch_offset(off: EpochOffset) -> (r: Option<Timestamp>)
        ensures
            r.is_some() <==> off.fits(),
            r matches Some(t) ==> t.wf() && t.total_nanos() == off.total_nanos(),
    {
        let carry: u64 = (off.nanos / NANOS_PER_SEC) as u64;
        let rem: u32 = off.nanos % NANOS_PER_SEC;
        let ghost whole: int = off.secs + carry;
        proof {
            assert(off.nanos == carry * NANOS_PER_SEC + rem);
            assert(off.secs * NANOS_PER_SEC + off.nanos == whole * NANOS_PER_SEC + rem)
                by (nonlinear_arith)
                requires
                    off.nanos == carry * NANOS_PER_SEC + rem,
                    whole == off.secs + carry,
            ;
            lemma_split_nanos(whole, rem as int);
            lemma_split_nanos(-whole, 0);
            if rem > 0 {
                lemma_split_nanos(-whole - 1, NANOS_PER_SEC - rem);
            }
            assert(-(whole * NANOS_PER_SEC + rem) == (-whole - 1) * NANOS_PER_SEC + (
            NANOS_PER_SEC - rem)) by (nonlinear_arith);
            assert(-(whole * NANOS_PER_SEC) == (-whole) * NANOS_PER_SEC) by (nonlinear_arith);
        }
        if off.secs > 0x8000_0000_0000_0000u64 {
            return None;
        }
        let whole_secs: u64 = off.secs + carry;
        if !off.before_epoch {
            if whole_secs > i64::MAX as u64 {
                None
            } else {
                Some(Timestamp { secs: whole_secs as i64, nanos: rem })
            }
        } else if rem == 0 {
            if whole_secs > 0x8000_0000_0000_0000u64 {
                None
            } else {
                let secs: i128 = 0 - whole_secs as i128;
                Some(Timestamp { secs: secs as i64, nanos: 0 })
            }
        } else {
            if whole_secs >= 0x8000_0000_0000_0000u64 {
                None
            } else {
                let secs: i128 = 0 - whole_secs as i128 - 1;
                Some(Timestamp { secs: secs as i64, nanos: NANOS_PER_SEC - rem })
            }
        }
    }
}

/// Writes `t` in UTC as chrono displays it, or gives `None` where chrono's date
/// range ends.
pub fn convert_date_to_string(t: Timestamp) -> (r: Option<String>)
    ensures
        r.is_some() <==> displayable(t.secs as int, t.nanos as int),
        r matches Some(s) ==> s@ == utc_text(t.secs as int, t.nanos as int),
        r matches Some(s) ==> s@.len() > 0,
        r matches Some(s) ==> ends_with(s@, " UTC"@),
{
    let r = chrono_utc_string(t.secs, t.nanos);
    proof {
        reveal_strlit(" UTC");
    }
    r
}

} // verus!
