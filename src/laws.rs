//! Properties of line parsing and of whole runs, proved over the models that
//! the functions of `countdown` are specified by.
use crate::calendar::{day_number, naive_date_parse, CalendarDate};
use crate::countdown::{
    date_token, has_separator, is_skipped, label_of, line_outcome, normalize_separators,
    lemma_space_index, result_view, run_from, run_outcome, slash_to_dash, space_index, CountdownError, ErrorModel,
};
use crate::text::decimal;
use vstd::prelude::*;

verus! {

/// A date after the current day gives "距离 <label> 还有 <N> 天", where N is
/// the positive number of days from the current day to that date.
pub proof fn lemma_future_date(today: CalendarDate, line: Seq<char>, lineno: nat, y: int, m: int, d: int)
    requires
        has_separator(line),
        naive_date_parse(date_token(line)) == Ok::<(int, int, int), Seq<char>>((y, m, d)),
        day_number(y, m, d) > today.ordinal(),
    ensures
        line_outcome(today, line, lineno) == Ok::<Seq<char>, ErrorModel>(
            "距离 "@ + label_of(line) + " 还有 "@ + decimal((day_number(y, m, d) - today.ordinal()) as nat)
                + " 天"@,
        ),
{
}

/// A date before the current day gives "距离 <label> 已经过去了 <N> 天", where
/// N is the positive number of days from that date to the current day.
pub proof fn lemma_past_date(today: CalendarDate, line: Seq<char>, lineno: nat, y: int, m: int, d: int)
    requires
        has_separator(line),
        naive_date_parse(date_token(line)) == Ok::<(int, int, int), Seq<char>>((y, m, d)),
        day_number(y, m, d) < today.ordinal(),
    ensures
        line_outcome(today, line, lineno) == Ok::<Seq<char>, ErrorModel>(
            "距离 "@ + label_of(line) + " 已经过去了 "@ + decimal((today.ordinal() - day_number(y, m, d)) as nat)
                + " 天"@,
        ),
{
}

/// A date equal to the current day gives "<label> 就在今天", with no number.
pub proof fn lemma_same_date(today: CalendarDate, line: Seq<char>, lineno: nat)
    requires
        has_separator(line),
        naive_date_parse(date_token(line)) == Ok::<(int, int, int), Seq<char>>(
            (today.year_spec(), today.month_spec(), today.day_spec()),
        ),
    ensures
        line_outcome(today, line, lineno) == Ok::<Seq<char>, ErrorModel>(label_of(line) + " 就在今天"@),
{
}

/// Parsing is a function of the day, the line and its number: two results
/// that `parse_line` may give for the same three are the same.
pub proof fn lemma_parse_repeatable(
    today: CalendarDate,
    line: Seq<char>,
    lineno: nat,
    r1: Result<String, CountdownError>,
    r2: Result<String, CountdownError>,
)
    requires
        result_view(r1) == line_outcome(today, line, lineno),
        result_view(r2) == line_outcome(today, line, lineno),
    ensures
        result_view(r1) == result_view(r2),
{
}

/// A line without a space fails for want of a separator, whatever its date
/// part holds.
pub proof fn lemma_missing_separator_first(today: CalendarDate, line: Seq<char>, lineno: nat)
    requires
        forall|j: int| 0 <= j < line.len() ==> line[j] != ' ',
    ensures
        line_outcome(today, line, lineno) == Err::<Seq<char>, ErrorModel>(
            ErrorModel::MissingSeparator { line: lineno },
        ),
{
    lemma_space_index_props(line);
}

proof fn lemma_space_index_props(s: Seq<char>)
    ensures
        0 <= space_index(s) <= s.len(),
        forall|j: int| 0 <= j < space_index(s) ==> s[j] != ' ',
        space_index(s) < s.len() ==> s[space_index(s)] == ' ',
    decreases s.len(),
{
    if s.len() > 0 && s[0] != ' ' {
        let t = s.drop_first();
        lemma_space_index_props(t);
        assert forall|j: int| 0 <= j < space_index(s) implies s[j] != ' ' by {
            if j > 0 {
                assert(s[j] == t[j - 1]);
            }
        }
    }
}

/// `line` with each `/` of its date part (before the first space) written `-`.
pub open spec fn with_dashed_date(line: Seq<char>) -> Seq<char> {
    normalize_separators(line.subrange(0, space_index(line))) + line.subrange(
        space_index(line),
        line.len() as int,
    )
}

/// Writing the date with `/` or with `-` between its fields makes no difference:
/// `2024/3/5 X` and `2024-3-5 X` give the same outcome.
pub proof fn lemma_separator_style(today: CalendarDate, line: Seq<char>, lineno: nat)
    ensures
        line_outcome(today, line, lineno) == line_outcome(today, with_dashed_date(line), lineno),
{
    let i = space_index(line);
    let b = with_dashed_date(line);
    lemma_space_index_props(line);
    assert(b.len() == line.len());
    assert forall|j: int| 0 <= j < i implies b[j] != ' ' by {
        assert(b[j] == slash_to_dash(line[j]));
    }
    if i < line.len() {
        assert(b[i] == line[i]);
    }
    lemma_space_index(b, i);
    assert(b.subrange(0, i) =~= normalize_separators(line.subrange(0, i)));
    assert(normalize_separators(b.subrange(0, i)) =~= normalize_separators(line.subrange(0, i)));
    assert(date_token(b) == date_token(line));
    if i < line.len() {
        assert forall|k: int| i <= k < line.len() implies b[k] == line[k] by {
            assert(b[k] == line.subrange(i, line.len() as int)[k - i]);
        }
        assert(label_of(b) =~= label_of(line));
    }
}

/// A file of nothing but blank lines and comments prints nothing and ends
/// without error.
pub proof fn lemma_only_skipped_lines(today: CalendarDate, lines: Seq<Seq<char>>)
    requires
        forall|j: int| 0 <= j < lines.len() ==> is_skipped(#[trigger] lines[j]),
    ensures
        run_outcome(today, lines) == (Seq::<Seq<char>>::empty(), None::<ErrorModel>),
{
    lemma_skipped_from(today, lines, 0);
}

proof fn lemma_skipped_from(today: CalendarDate, lines: Seq<Seq<char>>, i: int)
    requires
        0 <= i,
        forall|j: int| 0 <= j < lines.len() ==> is_skipped(#[trigger] lines[j]),
    ensures
        run_from(today, lines, i) == (Seq::<Seq<char>>::empty(), None::<ErrorModel>),
    decreases lines.len() - i,
{
    if i < lines.len() {
        lemma_skipped_from(today, lines, i + 1);
    }
}

} // verus!
