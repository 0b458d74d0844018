use crate::calendar::{day_number, days_from_to, naive_date_parse, parse_iso_date, CalendarDate};
use crate::text::{chars_of, decimal, decimal_string, string_of};
use vstd::prelude::*;

verus! {

/// Why a run stopped.
#[derive(Clone, Debug, PartialEq, Eq)]
pub enum CountdownError {
    /// The date file could not be opened.
    FileOpen { path: String, reason: String },
    /// Reading the given line (counted from 1) of the date file failed.
    FileRead { path: String, line: usize, reason: String },
    /// The line holds no space between date and label.
    MissingSeparator { line: usize },
    /// The date part of the line, with `/` turned into `-`, is no date.
    InvalidDate { line: usize, token: String, reason: String },
}

/// The mathematical value of a `CountdownError`.
pub enum ErrorModel {
    FileOpen { path: Seq<char>, reason: Seq<char> },
    FileRead { path: Seq<char>, line: nat, reason: Seq<char> },
    MissingSeparator { line: nat },
    InvalidDate { line: nat, token: Seq<char>, reason: Seq<char> },
}

impl View for CountdownError {
    type V = ErrorModel;

    open spec fn view(&self) -> ErrorModel {
        match self {
            CountdownError::FileOpen { path, reason } => ErrorModel::FileOpen {
                path: path@,
                reason: reason@,
            },
            CountdownError::FileRead { path, line, reason } => ErrorModel::FileRead {
                path: path@,
                line: *line as nat,
                reason: reason@,
            },
            CountdownError::MissingSeparator { line } => ErrorModel::MissingSeparator {
                line: *line as nat,
            },
            CountdownError::InvalidDate { line, token, reason } => ErrorModel::InvalidDate {
                line: *line as nat,
                token: token@,
                reason: reason@,
            },
        }
    }
}

/// The text shown for an error.
pub open spec fn error_text(e: ErrorModel) -> Seq<char> {
    match e {
        ErrorModel::FileOpen { path, reason } => "Failed to open file \""@ + path + "\": "@
            + reason,
        ErrorModel::FileRead { path, line, reason } => "Failed to read file \""@ + path
            + "\":"@ + decimal(line) + ": "@ + reason,
        ErrorModel::MissingSeparator { line } => "Failed to parse line "@ + decimal(line)
            + ": No spaces found."@,
        ErrorModel::InvalidDate { line, token, reason } => "Failed to parse line "@ + decimal(
            line,
        ) + ": Illegal date expression "@ + token + ": "@ + reason + "."@,
    }
}

impl CountdownError {
    /// The message that reports this error.
    pub fn message(&self) -> (r: String)
        ensures
            r@ == error_text(self@),
    {
        match self {
            CountdownError::FileOpen { path, reason } => {
                let mut s = "Failed to open file \"".to_owned();
                s.append(path.as_str());
                s.append("\": ");
                s.append(reason.as_str());
                s
            },
            CountdownError::FileRead { path, line, reason } => {
                let mut s = "Failed to read file \"".to_owned();
                s.append(path.as_str());
                s.append("\":");
                s.append(decimal_string(*line as u64).as_str());
                s.append(": ");
                s.append(reason.as_str());
                s
            },
            CountdownError::MissingSeparator { line } => {
                let mut s = "Failed to parse line ".to_owned();
                s.append(decimal_string(*line as u64).as_str());
                s.append(": No spaces found.");
                s
            },
            CountdownError::InvalidDate { line, token, reason } => {
                let mut s = "Failed to parse line ".to_owned();
                s.append(decimal_string(*line as u64).as_str());
                s.append(": Illegal date expression ");
                s.append(token.as_str());
                s.append(": ");
                s.append(reason.as_str());
                s.append(".");
                s
            },
        }
    }
}

/// Position of the first space of `s`, or its length where it has none.
pub open spec fn space_index(s: Seq<char>) -> int
    decreases s.len(),
{
    if s.len() == 0 {
        0
    } else if s[0] == ' ' {
        0
    } else {
        1 + space_index(s.drop_first())
    }
}

pub open spec fn has_separator(line: Seq<char>) -> bool {
    space_index(line) < line.len()
}

pub open spec fn slash_to_dash(c: char) -> char {
    if c == '/' { '-' } else { c }
}

/// `s` with every `/` replaced by `-`.
pub open spec fn normalize_separators(s: Seq<char>) -> Seq<char> {
    s.map_values(|c: char| slash_to_dash(c))
}

/// The date part of a line (before its first space), separators normalized.
pub open spec fn date_token(line: Seq<char>) -> Seq<char> {
    normalize_separators(line.subrange(0, space_index(line)))
}

/// The label of a line: everything after its first space.
pub open spec fn label_of(line: Seq<char>) -> Seq<char> {
    line.subrange(space_index(line) + 1, line.len() as int)
}

/// The message for a date `diff` days after the current day (before it where
/// `diff` is negative).
pub open spec fn countdown_message(diff: int, label: Seq<char>) -> Seq<char> {
    if diff == 0 {
        label + " 就在今天"@
    } else if diff > 0 {
        "距离 "@ + label + " 还有 "@ + decimal(diff as nat) + " 天"@
    } else {
        "距离 "@ + label + " 已经过去了 "@ + decimal((-diff) as nat) + " 天"@
    }
}

/// What parsing `line` (number `lineno`) against the day `today` gives.
pub open spec fn line_outcome(today: CalendarDate, line: Seq<char>, lineno: nat) -> Result<
    Seq<char>,
    ErrorModel,
> {
    if !has_separator(line) {
        Err(ErrorModel::MissingSeparator { line: lineno })
    } else {
        match naive_date_parse(date_token(line)) {
            Ok(ymd) => Ok(
                countdown_message(day_number(ymd.0, ymd.1, ymd.2) - today.ordinal(), label_of(line)),
            ),
            Err(reason) => Err(
                ErrorModel::InvalidDate { line: lineno, token: date_token(line), reason },
            ),
        }
    }
}

pub open spec fn result_view(r: Result<String, CountdownError>) -> Result<Seq<char>, ErrorModel> {
    match r {
        Ok(s) => Ok(s@),
        Err(e) => Err(e@),
    }
}

/// Blank lines and comments (first character `#`) are passed over.
pub open spec fn is_skipped(line: Seq<char>) -> bool {
    line.len() == 0 || line[0] == '#'
}

/// The first space of `s` stands at `i` (or `s` has none and `i` is its length).
pub(crate) proof fn lemma_space_index(s: Seq<char>, i: int)
    requires
        0 <= i <= s.len(),
        forall|j: int| 0 <= j < i ==> s[j] != ' ',
        i == s.len() || s[i] == ' ',
    ensures
        space_index(s) == i,
    decreases i,
{
    if i > 0 {
        let t = s.drop_first();
        assert forall|j: int| 0 <= j < i - 1 implies t[j] != ' ' by {
            assert(t[j] == s[j + 1]);
        }
        lemma_space_index(t, i - 1);
    }
}

/// The messages printed for `lines[i..]` (line `j` numbered `j + 1`), and the
/// error that stops the run, if any: skipped lines print nothing, and the
/// first line that fails ends the run.
pub open spec fn run_from(today: CalendarDate, lines: Seq<Seq<char>>, i: int) -> (
    Seq<Seq<char>>,
    Option<ErrorModel>,
)
    decreases lines.len() - i,
{
    if i < 0 || i >= lines.len() {
        (Seq::empty(), None)
    } else if is_skipped(lines[i]) {
        run_from(today, lines, i + 1)
    } else {
        match line_outcome(today, lines[i], (i + 1) as nat) {
            Err(e) => (Seq::empty(), Some(e)),
            Ok(m) => {
                let rest = run_from(today, lines, i + 1);
                (seq![m] + rest.0, rest.1)
            },
        }
    }
}

/// What a run over the whole of `lines` prints, and how it ends.
pub open spec fn run_outcome(today: CalendarDate, lines: Seq<Seq<char>>) -> (
    Seq<Seq<char>>,
    Option<ErrorModel>,
) {
    run_from(today, lines, 0)
}

pub open spec fn string_views(v: Seq<String>) -> Seq<Seq<char>> {
    v.map_values(|s: String| s@)
}

pub open spec fn error_view(e: Option<CountdownError>) -> Option<ErrorModel> {
    match e {
        Some(x) => Some(x@),
        None => None,
    }
}

/// The messages of a run, in order, and the error that ended it early.
pub struct RunReport {
    pub printed: Vec<String>,
    pub error: Option<CountdownError>,
}

/// Countdown of a file of dated lines, against a fixed current day.
pub struct DateCountDown {
    today: CalendarDate,
    date_file_path: String,
}

impl DateCountDown {
    pub closed spec fn today_spec(&self) -> CalendarDate {
        self.today
    }

    pub closed spec fn path_spec(&self) -> Seq<char> {
        self.date_file_path@
    }

    pub open spec fn wf(&self) -> bool {
        self.today_spec().wf()
    }

    /// A countdown against the day `today`, reading the file at `date_file_path`.
    pub fn new(today: CalendarDate, date_file_path: String) -> (r: DateCountDown)
        requires
            today.wf(),
        ensures
            r.today_spec() == today,
            r.path_spec() == date_file_path@,
            r.wf(),
    {
        DateCountDown { today, date_file_path }
    }

    pub fn today(&self) -> (r: CalendarDate)
        ensures
            r == self.today_spec(),
    {
        self.today
    }

    pub fn date_file_path(&self) -> (r: &str)
        ensures
            r@ == self.path_spec(),
    {
        self.date_file_path.as_str()
    }

    /// The message for one line, `lineno` its number counted from 1.
    pub fn parse_line(&self, line: &str, lineno: usize) -> (r: Result<String, CountdownError>)
        requires
            self.wf(),
        ensures
            result_view(r) == line_outcome(self.today_spec(), line@, lineno as nat),
    {
        let cs = chars_of(line);
        let mut i: usize = 0;
        while i < cs.len() && cs[i] != ' '
            invariant
                0 <= i <= cs.len(),
                cs@ == line@,
                forall|j: int| 0 <= j < i ==> cs@[j] != ' ',
            decreases cs.len() - i,
        {
            i = i + 1;
        }
        proof {
            lemma_space_index(cs@, i as int);
        }
        if i == cs.len() {
            return Err(CountdownError::MissingSeparator { line: lineno });
        }
        let mut token: Vec<char> = Vec::new();
        let mut k: usize = 0;
        while k < i
            invariant
                0 <= k <= i < cs.len(),
                token@ =~= normalize_separators(cs@.subrange(0, k as int)),
            decreases i - k,
        {
            let c = cs[k];
            token.push(if c == '/' { '-' } else { c });
            k = k + 1;
            assert(normalize_separators(cs@.subrange(0, k as int)) =~= normalize_separators(
                cs@.subrange(0, k - 1),
            ).push(slash_to_dash(c)));
        }
        let mut label: Vec<char> = Vec::new();
        let mut k: usize = i + 1;
        while k < cs.len()
            invariant
                i < k <= cs.len(),
                label@ =~= cs@.subrange(i + 1, k as int),
            decreases cs.len() - k,
        {
            label.push(cs[k]);
            k = k + 1;
        }
        let token = string_of(token.as_slice());
        let label = string_of(label.as_slice());
        match parse_iso_date(token.as_str()) {
            Err(reason) => Err(CountdownError::InvalidDate { line: lineno, token, reason }),
            Ok(date) => Ok(self.message_for(&date, label.as_str())),
        }
    }

    /// The message for a date and its label, against the current day.
    pub fn message_for(&self, date: &CalendarDate, label: &str) -> (r: String)
        requires
            self.wf(),
            date.wf(),
        ensures
            r@ == countdown_message(date.ordinal() - self.today_spec().ordinal(), label@),
    {
        let diff = days_from_to(&self.today, date);
        if diff == 0 {
            let mut s = label.to_owned();
            s.append(" 就在今天");
            s
        } else if diff > 0 {
            let mut s = "距离 ".to_owned();
            s.append(label);
            s.append(" 还有 ");
            s.append(decimal_string(diff as u64).as_str());
            s.append(" 天");
            s
        } else {
            let n: u64 = ((-(diff + 1)) as u64) + 1;
            let mut s = "距离 ".to_owned();
            s.append(label);
            s.append(" 已经过去了 ");
            s.append(decimal_string(n).as_str());
            s.append(" 天");
            s
        }
    }

    /// The step for one line of the file: nothing for a blank line or a
    /// comment, else what `parse_line` gives.
    pub fn process_line(&self, line: &str, lineno: usize) -> (r: Result<Option<String>, CountdownError>)
        requires
            self.wf(),
        ensures
            is_skipped(line@) ==> r matches Ok(None),
            !is_skipped(line@) ==> match r {
                Ok(Some(m)) => line_outcome(self.today_spec(), line@, lineno as nat) == Ok::<
                    Seq<char>,
                    ErrorModel,
                >(m@),
                Err(e) => line_outcome(self.today_spec(), line@, lineno as nat) == Err::<
                    Seq<char>,
                    ErrorModel,
                >(e@),
                Ok(None) => false,
            },
    {
        if line.is_empty() {
            return Ok(None);
        }
        let cs = chars_of(line);
        if cs[0] == '#' {
            return Ok(None);
        }
        match self.parse_line(line, lineno) {
            Ok(m) => Ok(Some(m)),
            Err(e) => Err(e),
        }
    }

    /// Runs over the lines of the date file, in order: the messages of the
    /// lines that are not skipped, up to the first line that fails.
    pub fn run_lines(&self, lines: &Vec<String>) -> (r: RunReport)
        requires
            self.wf(),
        ensures
            (string_views(r.printed@), error_view(r.error)) == run_outcome(
                self.today_spec(),
                string_views(lines@),
            ),
    {
        let ghost all = string_views(lines@);
        let ghost t = self.today_spec();
        let mut printed: Vec<String> = Vec::new();
        let mut i: usize = 0;
        while i < lines.len()
            invariant
                self.wf(),
                t == self.today_spec(),
                all == string_views(lines@),
                0 <= i <= lines.len(),
                string_views(printed@) + run_from(t, all, i as int).0 == run_outcome(t, all).0,
                run_from(t, all, i as int).1 == run_outcome(t, all).1,
            decreases lines.len() - i,
        {
            assert(all[i as int] == lines@[i as int]@);
            match self.process_line(lines[i].as_str(), i + 1) {
                Ok(None) => {},
                Ok(Some(m)) => {
                    let ghost before = printed@;
                    printed.push(m);
                    assert(string_views(printed@) =~= string_views(before).push(m@));
                    assert(string_views(printed@) + run_from(t, all, i + 1).0 =~= string_views(
                        before,
                    ) + run_from(t, all, i as int).0);
                },
                Err(e) => {
                    assert(string_views(printed@) =~= string_views(printed@) + run_from(
                        t,
                        all,
                        i as int,
                    ).0);
                    return RunReport { printed, error: Some(e) };
                },
            }
            i = i + 1;
        }
        assert(string_views(printed@) =~= string_views(printed@) + run_from(t, all, i as int).0);
        RunReport { printed, error: None }
    }

    /// The error for a date file that could not be opened, for `reason`.
    pub fn open_error(&self, reason: String) -> (r: CountdownError)
        ensures
            r@ == (ErrorModel::FileOpen { path: self.path_spec(), reason: reason@ }),
    {
        CountdownError::FileOpen { path: self.date_file_path.clone(), reason }
    }

    /// The error for a failure to read line `lineno` of the date file.
    pub fn read_error(&self, lineno: usize, reason: String) -> (r: CountdownError)
        ensures
            r@ == (ErrorModel::FileRead { path: self.path_spec(), line: lineno as nat, reason: reason@ }),
    {
        CountdownError::FileRead { path: self.date_file_path.clone(), line: lineno, reason }
    }
}

} // verus!
