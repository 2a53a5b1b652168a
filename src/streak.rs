//! How a check-in continues, restarts or repeats a streak.
use vstd::prelude::*;
use vstd::string::*;

use crate::calendar::{
    day_before, lemma_prev_of_next, parse_date, parsed_date, CalendarDate, DATE_PATTERN,
};
use crate::models::{copy_strings, texts, SigninData, SigninView};

verus! {

/// `last` names the calendar day right before the day that `today` names.
pub open spec fn follows_day(last: Seq<char>, today: Seq<char>) -> bool {
    match (parsed_date(last), parsed_date(today)) {
        (Some(l), Some(t)) => !t.is_earliest() && l == t.prev(),
        _ => false,
    }
}

/// The history with `today` added at its end, unless it is already there.
pub open spec fn with_day(history: Seq<Seq<char>>, today: Seq<char>) -> Seq<Seq<char>> {
    if history.contains(today) {
        history
    } else {
        history.push(today)
    }
}

/// A saved record carries on into `today` rather than restarting.
pub open spec fn continues(saved: Option<SigninView>, today: Seq<char>) -> bool {
    match saved {
        Some(d) => d.last_date != today && follows_day(d.last_date, today),
        None => false,
    }
}

/// The record to keep after a check-in by `name` on `today`, given the
/// record saved before, if any.
pub open spec fn next_record(saved: Option<SigninView>, name: Seq<char>, today: Seq<char>) -> SigninView {
    match saved {
        Some(d) => if d.last_date == today {
            d
        } else if follows_day(d.last_date, today) {
            SigninView {
                name,
                last_date: today,
                streak: d.streak + 1,
                history: with_day(d.history, today),
            }
        } else {
            SigninView { name, last_date: today, streak: 1, history: seq![today] }
        },
        None => SigninView { name, last_date: today, streak: 1, history: seq![today] },
    }
}

/// The content of an optional record.
pub open spec fn saved_view(data: Option<SigninData>) -> Option<SigninView> {
    match data {
        Some(d) => Some(d@),
        None => None,
    }
}

/// Whether the saved record's last day is the day before `today`.
pub fn should_continue_streak(data: &Option<SigninData>, today: &str) -> (r: bool)
    ensures
        r == (data matches Some(d) && follows_day(d.last_signin_date@, today@)),
{
    let saved = match data {
        Some(saved) => saved,
        None => return false,
    };
    let last = match parse_date(saved.last_signin_date.as_str(), DATE_PATTERN) {
        Some(last) => last,
        None => return false,
    };
    let day = match parse_date(today, DATE_PATTERN) {
        Some(day) => day,
        None => return false,
    };
    match day_before(day) {
        Some(yesterday) => last == yesterday,
        None => false,
    }
}

/// Whether `history` holds the text `day`.
fn contains_day(history: &Vec<String>, day: &String) -> (r: bool)
    ensures
        r == texts(history@).contains(day@),
{
    let mut i: usize = 0;
    while i < history.len()
        invariant
            i <= history@.len(),
            forall|j: int| 0 <= j < i ==> history@[j]@ != day@,
        decreases history@.len() - i,
    {
        if history[i] == *day {
            assert(texts(history@)[i as int] == day@);
            return true;
        }
        i = i + 1;
    }
    assert(!texts(history@).contains(day@)) by {
        if texts(history@).contains(day@) {
            let k = choose|k: int| 0 <= k < texts(history@).len() && texts(history@)[k] == day@;
            assert(history@[k]@ == day@);
        }
    }
    false
}

/// The message of the error returned when a streak cannot grow any longer.
pub const STREAK_OVERFLOW: &'static str = "Streak cannot grow any longer";

/// The record to keep after `name` checks in on `today`.
///
/// A first check-in, or one after a gap, starts a streak of one day; one on
/// the day after the last check-in lengthens the streak by a day; a second
/// check-in on the same day changes nothing. The only error comes when the
/// streak would outgrow its integer.
pub fn calculate_signin_data(saved_data: &Option<SigninData>, name: &str, today: &str) -> (r: Result<
    SigninData,
    String,
>)
    ensures
        r is Err <==> (continues(saved_view(*saved_data), today@) && saved_data->0.streak
            == i32::MAX),
        r matches Ok(d) ==> d@ == next_record(saved_view(*saved_data), name@, today@),
        r matches Err(e) ==> e@ == STREAK_OVERFLOW@,
{
    let today_text = String::from_str(today);
    let (new_streak, mut signin_history) = match saved_data {
        Some(data) => {
            if data.last_signin_date == today_text {
                return Ok(data.copied());
            }
            if should_continue_streak(saved_data, today) {
                if data.streak == i32::MAX {
                    return Err(String::from_str(STREAK_OVERFLOW));
                }
                (data.streak + 1, copy_strings(&data.signin_history))
            } else {
                (1i32, Vec::new())
            }
        },
        None => (1i32, Vec::new()),
    };
    let ghost before = signin_history@;
    if !contains_day(&signin_history, &today_text) {
        signin_history.push(today_text.clone());
    }
    proof {
        assert(texts(before.push(today_text)) =~= texts(before).push(today@));
        if before.len() == 0 {
            assert(texts(before) =~= Seq::<Seq<char>>::empty());
            assert(texts(before.push(today_text)) =~= seq![today@]);
        }
    }
    Ok(SigninData {
        name: String::from_str(name),
        last_signin_date: today_text,
        streak: new_streak,
        signin_history,
    })
}

/// The record after checking in on each of `days` in turn, starting from
/// `saved`.
pub open spec fn replay(saved: Option<SigninView>, name: Seq<char>, days: Seq<Seq<char>>) -> Option<
    SigninView,
>
    decreases days.len(),
{
    if days.len() == 0 {
        saved
    } else {
        Some(next_record(replay(saved, name, days.drop_last()), name, days.last()))
    }
}

/// Check-ins on `n` consecutive calendar days, starting from a record that
/// does not carry on into the first of them, leave a streak of `n` days
/// that ends on the last of them.
pub proof fn lemma_consecutive_days_count(
    saved: Option<SigninView>,
    name: Seq<char>,
    days: Seq<Seq<char>>,
    dates: Seq<CalendarDate>,
)
    requires
        days.len() >= 1,
        dates.len() == days.len(),
        forall|i: int| 0 <= i < days.len() ==> parsed_date(#[trigger] days[i]) == Some(dates[i]),
        forall|i: int| 0 <= i < dates.len() ==> (#[trigger] dates[i]).is_valid(),
        forall|i: int| 0 < i < dates.len() ==> #[trigger] dates[i] == dates[i - 1].next(),
        saved matches Some(s) ==> s.last_date != days[0] && !follows_day(s.last_date, days[0]),
    ensures
        replay(saved, name, days) matches Some(r) && r.streak == days.len() && r.last_date
            == days.last(),
    decreases days.len(),
{
    let n = days.len();
    if n == 1 {
        assert(days.drop_last().len() == 0);
    } else {
        let prefix = days.drop_last();
        let prefix_dates = dates.drop_last();
        assert(prefix[0] == days[0]);
        assert forall|i: int| 0 <= i < prefix.len() implies parsed_date(#[trigger] prefix[i])
            == Some(prefix_dates[i]) by {
            assert(prefix[i] == days[i]);
        }
        assert forall|i: int| 0 < i < prefix_dates.len() implies #[trigger] prefix_dates[i]
            == prefix_dates[i - 1].next() by {
            assert(dates[i] == dates[i - 1].next());
        }
        lemma_consecutive_days_count(saved, name, prefix, prefix_dates);
        let before = dates[n - 2];
        let day = dates[n - 1];
        assert(day == before.next());
        assert(before.is_valid());
        assert(day.is_valid());
        lemma_prev_of_next(before);
        assert(parsed_date(days[n - 2]) == Some(before));
        assert(parsed_date(days[n - 1]) == Some(day));
        assert(prefix.last() == days[n - 2]);
        assert(days[n - 2] != days[n - 1]) by {
            if days[n - 2] == days[n - 1] {
                assert(before == day);
                assert(day.prev() == before);
            }
        }
        assert(follows_day(days[n - 2], days[n - 1]));
    }
}

/// A check-in on a day that is neither the saved record's last day nor the
/// day after it starts the streak again, with only that day in its history.
pub proof fn lemma_gap_restarts(
    saved: SigninView,
    name: Seq<char>,
    today: Seq<char>,
    last: CalendarDate,
    day: CalendarDate,
)
    requires
        parsed_date(saved.last_date) == Some(last),
        parsed_date(today) == Some(day),
        day != last,
        day.is_earliest() || day.prev() != last,
    ensures
        next_record(Some(saved), name, today) == (SigninView {
            name,
            last_date: today,
            streak: 1,
            history: seq![today],
        }),
{
}

/// Checking in again on the last day checked in leaves the record as it was.
pub proof fn lemma_same_day_unchanged(saved: SigninView, name: Seq<char>)
    ensures
        next_record(Some(saved), name, saved.last_date) == saved,
{
}

} // verus!
