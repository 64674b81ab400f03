use vstd::prelude::*;

verus! {

use vstd::std_specs::vec::vec_index_mut;

/// A calendar date, held as plain year, month and day numbers.
#[derive(Clone, Copy, Debug, PartialEq, Eq, Structural)]
pub struct Date {
    pub year: i32,
    pub month: u32,
    pub day: u32,
}

impl Date {
    /// Month and day lie in their calendar ranges.
    pub open spec fn wf(self) -> bool {
        &&& 1 <= self.month <= 12
        &&& 1 <= self.day <= 31
    }
}

/// How many work sessions were completed on one date.
#[derive(Clone, Copy, Debug, PartialEq, Eq, Structural)]
pub struct DailyCount {
    pub date: Date,
    pub count: u64,
}

/// Completed-session counters: a lifetime total and a per-date tally.
/// The tally behaves as a map from dates to counts; a date's count is the
/// one of its first entry, so entry order and duplicates never show.
#[derive(Clone, Debug)]
pub struct SessionStats {
    pub total_sessions: u64,
    pub daily_sessions: Vec<DailyCount>,
}

/// The tally `d` holds in `entries`: the count of its first entry, or zero
/// when it has none.
pub open spec fn sessions_on(entries: Seq<DailyCount>, d: Date) -> u64
    decreases entries.len(),
{
    if entries.len() == 0 {
        0
    } else if entries[0].date == d {
        entries[0].count
    } else {
        sessions_on(entries.drop_first(), d)
    }
}

/// Every per-date counter still has room for one more session.
pub open spec fn counts_below_max(entries: Seq<DailyCount>) -> bool {
    forall|i: int| 0 <= i < entries.len() ==> (#[trigger] entries[i]).count < u64::MAX
}

/// The per-date tallies of `post` are those of `pre`, with `d` one higher.
pub open spec fn daily_bumped(pre: Seq<DailyCount>, post: Seq<DailyCount>, d: Date) -> bool {
    &&& sessions_on(post, d) == sessions_on(pre, d) + 1
    &&& forall|d2: Date| d2 != d ==> sessions_on(post, d2) == sessions_on(pre, d2)
}

proof fn lemma_first_match_value(s: Seq<DailyCount>, d: Date, i: int)
    requires
        0 <= i < s.len(),
        forall|j: int| 0 <= j < i ==> (#[trigger] s[j]).date != d,
        s[i].date == d,
    ensures
        sessions_on(s, d) == s[i].count,
    decreases i,
{
    if i > 0 {
        assert(s[0].date != d);
        assert(forall|j: int| 0 <= j < i - 1 ==> (#[trigger] s.drop_first()[j]).date != d);
        lemma_first_match_value(s.drop_first(), d, i - 1);
    }
}

proof fn lemma_no_match_value(s: Seq<DailyCount>, d: Date)
    requires
        forall|j: int| 0 <= j < s.len() ==> (#[trigger] s[j]).date != d,
    ensures
        sessions_on(s, d) == 0,
    decreases s.len(),
{
    if s.len() > 0 {
        assert(forall|j: int| 0 <= j < s.len() - 1 ==> (#[trigger] s.drop_first()[j]).date != d);
        lemma_no_match_value(s.drop_first(), d);
    }
}

proof fn lemma_update_other(s: Seq<DailyCount>, i: int, e: DailyCount, d2: Date)
    requires
        0 <= i < s.len(),
        s[i].date != d2,
        e.date != d2,
    ensures
        sessions_on(s.update(i, e), d2) == sessions_on(s, d2),
    decreases s.len(),
{
    let t = s.update(i, e);
    if i == 0 {
        assert(t[0].date != d2);
        assert(t.drop_first() =~= s.drop_first());
    } else {
        assert(t[0] == s[0]);
        if s[0].date != d2 {
            assert(t.drop_first() =~= s.drop_first().update(i - 1, e));
            lemma_update_other(s.drop_first(), i - 1, e, d2);
        }
    }
}

proof fn lemma_push_no_match(s: Seq<DailyCount>, e: DailyCount, d: Date)
    requires
        forall|j: int| 0 <= j < s.len() ==> (#[trigger] s[j]).date != d,
    ensures
        sessions_on(s.push(e), d) == if e.date == d {
            e.count
        } else {
            0u64
        },
    decreases s.len(),
{
    if s.len() == 0 {
        assert(s.push(e)[0] == e);
        assert(s.push(e).drop_first() =~= Seq::<DailyCount>::empty());
        assert(sessions_on(Seq::<DailyCount>::empty(), d) == 0);
    } else {
        assert(s.push(e)[0] == s[0]);
        assert(s[0].date != d);
        assert(s.push(e).drop_first() =~= s.drop_first().push(e));
        assert(forall|j: int| 0 <= j < s.len() - 1 ==> (#[trigger] s.drop_first()[j]).date != d);
        lemma_push_no_match(s.drop_first(), e, d);
    }
}

proof fn lemma_push_other(s: Seq<DailyCount>, e: DailyCount, d2: Date)
    requires
        e.date != d2,
    ensures
        sessions_on(s.push(e), d2) == sessions_on(s, d2),
    decreases s.len(),
{
    if s.len() == 0 {
        assert(s.push(e)[0] == e);
        assert(s.push(e).drop_first() =~= Seq::<DailyCount>::empty());
        assert(sessions_on(Seq::<DailyCount>::empty(), d2) == 0);
    } else {
        assert(s.push(e)[0] == s[0]);
        if s[0].date != d2 {
            assert(s.push(e).drop_first() =~= s.drop_first().push(e));
            lemma_push_other(s.drop_first(), e, d2);
        }
    }
}

impl Default for SessionStats {
    /// Zero sessions ever, no per-date entries.
    fn default() -> (s: SessionStats)
        ensures
            s.total_sessions == 0,
            s.daily_sessions@ == Seq::<DailyCount>::empty(),
    {
        SessionStats { total_sessions: 0, daily_sessions: Vec::new() }
    }
}

/// Relies on chrono: `Local::now().date_naive()` is the current calendar
/// date in the local time zone, and `Datelike::year`, `month` and `day`
/// read its parts, month running from 1 to 12 and day from 1 to 31.
/// What date comes back depends on the clock, so nothing more is promised.
#[verifier::external_body]
fn today() -> (d: Date)
    ensures
        d.wf(),
{
    let now = chrono::Local::now().date_naive();
    Date {
        year: chrono::Datelike::year(&now),
        month: chrono::Datelike::month(&now),
        day: chrono::Datelike::day(&now),
    }
}

impl SessionStats {
    /// The lifetime total of completed work sessions.
    pub fn get_total_sessions(&self) -> (r: u64)
        ensures
            r == self.total_sessions,
    {
        self.total_sessions
    }

    /// The tally recorded for one date.
    pub fn get_sessions_for_date(&self, date: Date) -> (r: u64)
        ensures
            r == sessions_on(self.daily_sessions@, date),
    {
        let n = self.daily_sessions.len();
        let mut i: usize = 0;
        while i < n
            invariant
                i <= n,
                n == self.daily_sessions@.len(),
                forall|j: int| 0 <= j < i ==> (#[trigger] self.daily_sessions@[j]).date != date,
            decreases n - i,
        {
            let e = self.daily_sessions[i];
            if e.date == date {
                proof {
                    lemma_first_match_value(self.daily_sessions@, date, i as int);
                }
                return e.count;
            }
            i += 1;
        }
        proof {
            lemma_no_match_value(self.daily_sessions@, date);
        }
        0
    }

    /// The tally recorded for today.
    pub fn get_today_sessions(&self) -> (r: u64)
        ensures
            exists|d: Date| d.wf() && r == sessions_on(self.daily_sessions@, d),
    {
        let d = today();
        self.get_sessions_for_date(d)
    }

    /// Record one completed work session under the given date.
    pub fn increment_session_on(&mut self, date: Date)
        requires
            old(self).total_sessions < u64::MAX,
            counts_below_max(old(self).daily_sessions@),
        ensures
            final(self).total_sessions == old(self).total_sessions + 1,
            daily_bumped(old(self).daily_sessions@, final(self).daily_sessions@, date),
    {
        self.total_sessions = self.total_sessions + 1;
        let ghost s0 = self.daily_sessions@;
        let n = self.daily_sessions.len();
        let mut i: usize = 0;
        while i < n
            invariant
                i <= n,
                n == self.daily_sessions@.len(),
                self.daily_sessions@ == s0,
                s0 == old(self).daily_sessions@,
                self.total_sessions == old(self).total_sessions + 1,
                old(self).total_sessions < u64::MAX,
                counts_below_max(s0),
                forall|j: int| 0 <= j < i ==> (#[trigger] s0[j]).date != date,
            decreases n - i,
        {
            let e = self.daily_sessions[i];
            if e.date == date {
                let bumped = DailyCount { date, count: e.count + 1 };
                let slot = vec_index_mut(&mut self.daily_sessions, i);
                *slot = bumped;
                proof {
                    assert(self.daily_sessions@ == s0.update(i as int, bumped));
                    lemma_first_match_value(s0, date, i as int);
                    assert(forall|j: int|
                        0 <= j < i ==> (#[trigger] s0.update(i as int, bumped)[j]).date != date);
                    lemma_first_match_value(s0.update(i as int, bumped), date, i as int);
                    assert forall|d2: Date| d2 != date implies sessions_on(
                        self.daily_sessions@,
                        d2,
                    ) == sessions_on(s0, d2) by {
                        lemma_update_other(s0, i as int, bumped, d2);
                    }
                }
                return ;
            }
            i += 1;
        }
        let fresh = DailyCount { date, count: 1 };
        self.daily_sessions.push(fresh);
        proof {
            lemma_no_match_value(s0, date);
            lemma_push_no_match(s0, fresh, date);
            assert forall|d2: Date| d2 != date implies sessions_on(self.daily_sessions@, d2)
                == sessions_on(s0, d2) by {
                lemma_push_other(s0, fresh, d2);
            }
        }
    }

    /// Record one completed work session under today's date.
    pub fn increment_session(&mut self)
        requires
            old(self).total_sessions < u64::MAX,
            counts_below_max(old(self).daily_sessions@),
        ensures
            final(self).total_sessions == old(self).total_sessions + 1,
            exists|d: Date|
                d.wf() && #[trigger] daily_bumped(
                    old(self).daily_sessions@,
                    final(self).daily_sessions@,
                    d,
                ),
    {
        let d = today();
        self.increment_session_on(d);
    }
}

} // verus!
