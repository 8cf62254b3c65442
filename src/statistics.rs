//! Per-day session statistics: the records, and the date-range selection and
//! chronological order in which they are handed out.
use vstd::prelude::*;
use std::cmp::Ordering;
use std::path::PathBuf;

verus! {

#[verifier::external_type_specification]
#[verifier::external_body]
pub struct ExPathBuf(std::path::PathBuf);

/// One session as recorded in the statistics.
#[derive(Debug, Clone)]
pub struct SessionData {
    pub start_time: String,
    pub end_time: String,
    pub session_type: String,
    pub completed: bool,
}

/// The statistics of one day, keyed by its ISO-style `date`.
#[derive(Debug, Clone)]
pub struct TimerStatistic {
    pub id: String,
    pub date: String,
    pub completed_pomodoros: u32,
    pub total_work_time: u32,
    pub total_break_time: u32,
    pub sessions: Vec<SessionData>,
}

/// Lexicographic order of character sequences by code point, a proper prefix
/// first.
pub open spec fn text_cmp(a: Seq<char>, b: Seq<char>) -> Ordering
    decreases a.len(),
{
    if a.len() == 0 {
        if b.len() == 0 {
            Ordering::Equal
        } else {
            Ordering::Less
        }
    } else if b.len() == 0 {
        Ordering::Greater
    } else if (a[0] as u32) < (b[0] as u32) {
        Ordering::Less
    } else if (a[0] as u32) > (b[0] as u32) {
        Ordering::Greater
    } else {
        text_cmp(a.drop_first(), b.drop_first())
    }
}

/// Relies on `Ord for str`: strings are ordered lexicographically by their
/// bytes, which for UTF-8 is the order of their code points.
#[verifier::external_body]
fn compare_text(a: &str, b: &str) -> (r: Ordering)
    ensures
        r == text_cmp(a@, b@),
{
    a.cmp(b)
}

/// The characters of an optional bound.
pub open spec fn bound_of(b: Option<&str>) -> Option<Seq<char>> {
    match b {
        Some(x) => Some(x@),
        None => None,
    }
}

/// Whether `date` lies within the bounds, both inclusive, that are given.
pub open spec fn date_in_range(date: Seq<char>, from: Option<Seq<char>>, to: Option<Seq<char>>) -> bool {
    &&& (from matches Some(f) ==> text_cmp(date, f) != Ordering::Less)
    &&& (to matches Some(t) ==> text_cmp(date, t) != Ordering::Greater)
}

/// The records whose date is within the given bounds.
pub open spec fn dated_within(from: Option<Seq<char>>, to: Option<Seq<char>>) -> spec_fn(TimerStatistic) -> bool {
    |s: TimerStatistic| date_in_range(s.date@, from, to)
}

/// Whether `s` is in chronological order of dates.
pub open spec fn is_chronological(s: Seq<TimerStatistic>) -> bool {
    forall|i: int, j: int|
        0 <= i < j < s.len() ==> text_cmp(#[trigger] s[i].date@, #[trigger] s[j].date@)
            != Ordering::Greater
}

/// Compares two records by date.
pub fn date_order(a: &TimerStatistic, b: &TimerStatistic) -> (r: Ordering)
    ensures
        r == text_cmp(a.date@, b.date@),
{
    compare_text(a.date.as_str(), b.date.as_str())
}

/// Relies on `slice::sort_by`: the same records, in the order that
/// `date_order` gives.
#[verifier::external_body]
fn sort_by_date(v: Vec<TimerStatistic>) -> (r: Vec<TimerStatistic>)
    ensures
        r@.to_multiset() == v@.to_multiset(),
        is_chronological(r@),
{
    let mut v = v;
    v.sort_by(|a, b| date_order(a, b));
    v
}

/// Where the statistics of an application are kept.
pub struct StorageService {
    app_data_dir: PathBuf,
}

impl StorageService {
    pub fn with_data_dir(app_data_dir: PathBuf) -> (r: Self)
        ensures
            r.data_dir() == app_data_dir,
    {
        StorageService { app_data_dir }
    }

    pub closed spec fn data_dir(&self) -> PathBuf {
        self.app_data_dir
    }

    pub fn app_data_dir(&self) -> (r: &PathBuf)
        ensures
            *r == self.data_dir(),
    {
        &self.app_data_dir
    }

    /// Whether `date` lies within the given bounds, both inclusive, by
    /// lexicographic comparison; an absent bound does not restrict.
    pub fn is_date_in_range(&self, date: &str, from_date: Option<&str>, to_date: Option<&str>) -> (r: bool)
        ensures
            r == date_in_range(
                date@,
                bound_of(from_date),
                bound_of(to_date),
            ),
    {
        if let Some(from) = from_date {
            if matches!(compare_text(date, from), Ordering::Less) {
                return false;
            }
        }
        if let Some(to) = to_date {
            if matches!(compare_text(date, to), Ordering::Greater) {
                return false;
            }
        }
        true
    }

    /// The records whose date is within the bounds, in chronological order.
    pub fn select_statistics(
        &self,
        loaded: Vec<TimerStatistic>,
        from_date: Option<&str>,
        to_date: Option<&str>,
    ) -> (r: Vec<TimerStatistic>)
        ensures
            r@.to_multiset() == loaded@.filter(dated_within(bound_of(from_date), bound_of(to_date))).to_multiset(),
            is_chronological(r@),
    {
        let ghost keep = dated_within(bound_of(from_date), bound_of(to_date));
        let mut kept: Vec<TimerStatistic> = Vec::new();
        let mut rest = loaded;
        let ghost all = rest@;
        let mut i: usize = 0;
        let n = rest.len();
        while i < n
            invariant
                n == all.len(),
                i <= n,
                keep == dated_within(bound_of(from_date), bound_of(to_date)),
                rest@ == all.subrange(i as int, n as int),
                kept@ == all.subrange(0, i as int).filter(keep),
            decreases n - i,
        {
            let s = rest.remove(0);
            let ghost prefix = all.subrange(0, i as int + 1);
            proof {
                assert(prefix.drop_last() == all.subrange(0, i as int));
                assert(prefix.last() == s);
                reveal(Seq::filter);
            }
            let in_range = self.is_date_in_range(s.date.as_str(), from_date, to_date);
            assert(in_range == keep(s));
            if in_range {
                kept.push(s);
            }
            assert(kept@ == prefix.filter(keep));
            i = i + 1;
        }
        assert(all.subrange(0, n as int) == all);
        sort_by_date(kept)
    }
}

} // verus!
