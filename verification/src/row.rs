use vstd::prelude::*;
use vstd::string::{StrSliceExecFns, StringExecFns};

use crate::text::{decimal, opt_str_view, push_decimal, trim, trim_str, views};

verus! {

/// Lengths above which an imported field draws a warning.
#[derive(Clone, Copy, Debug)]
pub struct ImportSettings {
    pub ticker_max_len: usize,
    pub company_name_max_len: usize,
    pub notes_max_len: usize,
}

/// A row that passed the checks, with its fields normalised.
#[derive(Debug)]
pub struct NormalizedRow {
    pub ticker: String,
    pub company_name: String,
    pub notes: Option<String>,
    pub enabled: bool,
    pub enabled_was_missing: bool,
}

impl NormalizedRow {
    /// A copy of this row.
    pub fn duplicate(&self) -> (r: NormalizedRow)
        ensures
            r@ == self@,
    {
        NormalizedRow {
            ticker: self.ticker.clone(),
            company_name: self.company_name.clone(),
            notes: match &self.notes {
                Some(n) => Some(n.clone()),
                None => None,
            },
            enabled: self.enabled,
            enabled_was_missing: self.enabled_was_missing,
        }
    }
}

/// The mathematical value of a [`NormalizedRow`].
pub struct RowView {
    pub ticker: Seq<char>,
    pub company_name: Seq<char>,
    pub notes: Option<Seq<char>>,
    pub enabled: bool,
    pub enabled_was_missing: bool,
}

impl View for NormalizedRow {
    type V = RowView;

    open spec fn view(&self) -> RowView {
        RowView {
            ticker: self.ticker@,
            company_name: self.company_name@,
            notes: match self.notes {
                Some(n) => Some(n@),
                None => None,
            },
            enabled: self.enabled,
            enabled_was_missing: self.enabled_was_missing,
        }
    }
}

/// How one imported row is treated.
#[derive(Debug)]
pub enum RowOutcome {
    /// Nothing was entered on the row.
    EmptySkip,
    /// A required column is incomplete.
    Broken { reason: String },
    /// The row is taken, possibly with warnings about unusual values.
    Valid { row: NormalizedRow, warnings: Vec<String> },
}

/// The mathematical value of a [`RowOutcome`].
pub enum Verdict {
    EmptySkip,
    Broken(Seq<char>),
    Valid(RowView, Seq<Seq<char>>),
}

impl View for RowOutcome {
    type V = Verdict;

    open spec fn view(&self) -> Verdict {
        match self {
            RowOutcome::EmptySkip => Verdict::EmptySkip,
            RowOutcome::Broken { reason } => Verdict::Broken(reason@),
            RowOutcome::Valid { row, warnings } => Verdict::Valid(row@, views(warnings@)),
        }
    }
}

/// The reason given when ticker or company name is missing on a row that is not wholly empty.
pub open spec fn pair_missing_reason() -> Seq<char> {
    "TickerとCompanyNameのどちらかが欠落しています"@
}

/// The reason given when the group name column is blank in a whole-account import.
pub open spec fn group_missing_reason() -> Seq<char> {
    "GroupNameが空です"@
}

/// The warning given when the enabled column is blank.
pub open spec fn enabled_missing_warning() -> Seq<char> {
    "EarningsWatch_Enabledが未入力のためtrueとして扱いました"@
}

/// The warning that a field is longer than `max` characters.
pub open spec fn over_limit_warning(label: Seq<char>, max: usize) -> Seq<char> {
    label + decimal(max as nat) + "文字を超えています"@
}

/// The notes column after trimming, with blank notes dropped.
pub open spec fn normalize_notes(notes: Option<Seq<char>>) -> Option<Seq<char>> {
    match notes {
        Some(n) => if trim(n).len() > 0 { Some(trim(n)) } else { None },
        None => None,
    }
}

/// The warnings raised on a valid row, in order.
pub open spec fn row_warnings(
    ticker: Seq<char>,
    company_name: Seq<char>,
    notes: Option<Seq<char>>,
    enabled: Option<bool>,
    s: ImportSettings,
) -> Seq<Seq<char>> {
    let w1 = if ticker.len() > s.ticker_max_len {
        seq![over_limit_warning("tickerが"@, s.ticker_max_len)]
    } else {
        Seq::empty()
    };
    let w2 = if company_name.len() > s.company_name_max_len {
        seq![over_limit_warning("company_nameが"@, s.company_name_max_len)]
    } else {
        Seq::empty()
    };
    let w3 = match notes {
        Some(n) => if n.len() > s.notes_max_len {
            seq![over_limit_warning("notesが"@, s.notes_max_len)]
        } else {
            Seq::empty()
        },
        None => Seq::empty(),
    };
    let w4 = if enabled is None {
        seq![enabled_missing_warning()]
    } else {
        Seq::empty()
    };
    w1 + w2 + w3 + w4
}

/// How a row is treated. `group` is present only in a whole-account import;
/// `normalized_ticker` is the canonical form of the trimmed ticker.
pub open spec fn classify(
    ticker: Seq<char>,
    company_name: Seq<char>,
    notes: Option<Seq<char>>,
    enabled: Option<bool>,
    group: Option<Seq<char>>,
    normalized_ticker: Seq<char>,
    s: ImportSettings,
) -> Verdict {
    let ticker_empty = trim(ticker).len() == 0;
    let company_empty = trim(company_name).len() == 0;
    let group_blank = match group {
        Some(g) => trim(g).len() == 0,
        None => true,
    };
    if ticker_empty && company_empty && group_blank {
        Verdict::EmptySkip
    } else if ticker_empty || company_empty {
        Verdict::Broken(pair_missing_reason())
    } else if group is Some && group_blank {
        Verdict::Broken(group_missing_reason())
    } else {
        let company = trim(company_name);
        let n = normalize_notes(notes);
        Verdict::Valid(
            RowView {
                ticker: normalized_ticker,
                company_name: company,
                notes: n,
                enabled: match enabled {
                    Some(b) => b,
                    None => true,
                },
                enabled_was_missing: enabled is None,
            },
            row_warnings(normalized_ticker, company, n, enabled, s),
        )
    }
}

/// The warning that a field is longer than `max` characters.
fn over_limit(label: &str, max: usize) -> (w: String)
    ensures
        w@ == over_limit_warning(label@, max),
{
    let mut w = String::from_str(label);
    push_decimal(&mut w, max);
    w.append("文字を超えています");
    w
}

/// Classifies one imported row. `group_name` is given only in a
/// whole-account import; `normalized_ticker` is the canonical form of
/// `ticker.trim()`, which the row takes as its ticker.
pub fn classify_row(
    ticker: &str,
    company_name: &str,
    notes: Option<&str>,
    enabled: Option<bool>,
    group_name: Option<&str>,
    normalized_ticker: &str,
    settings: &ImportSettings,
) -> (out: RowOutcome)
    ensures
        out@ == classify(
            ticker@,
            company_name@,
            opt_str_view(notes),
            enabled,
            opt_str_view(group_name),
            normalized_ticker@,
            *settings,
        ),
{
    let ticker_trimmed = trim_str(ticker);
    let company_trimmed = trim_str(company_name);
    let ticker_empty = ticker_trimmed.as_str().is_empty();
    let company_empty = company_trimmed.as_str().is_empty();
    let group_blank = match group_name {
        Some(g) => {
            let t = trim_str(g);
            t.as_str().is_empty()
        },
        None => true,
    };

    if ticker_empty && company_empty && group_blank {
        return RowOutcome::EmptySkip;
    }
    if ticker_empty || company_empty {
        return RowOutcome::Broken {
            reason: String::from_str("TickerとCompanyNameのどちらかが欠落しています"),
        };
    }
    if group_name.is_some() && group_blank {
        return RowOutcome::Broken { reason: String::from_str("GroupNameが空です") };
    }

    let ticker_out = normalized_ticker.to_owned();
    let notes_out: Option<String> = match notes {
        Some(n) => {
            let t = trim_str(n);
            if t.as_str().is_empty() {
                None
            } else {
                Some(t)
            }
        },
        None => None,
    };

    let ghost nv = normalize_notes(opt_str_view(notes));
    assert(nv == match notes_out {
        Some(n) => Some(n@),
        None => None::<Seq<char>>,
    });

    let mut warnings: Vec<String> = Vec::new();
    if ticker_out.as_str().unicode_len() > settings.ticker_max_len {
        warnings.push(over_limit("tickerが", settings.ticker_max_len));
    }
    let ghost after1 = views(warnings@);
    if company_trimmed.as_str().unicode_len() > settings.company_name_max_len {
        warnings.push(over_limit("company_nameが", settings.company_name_max_len));
    }
    let ghost after2 = views(warnings@);
    match &notes_out {
        Some(n) => {
            if n.as_str().unicode_len() > settings.notes_max_len {
                warnings.push(over_limit("notesが", settings.notes_max_len));
            }
        },
        None => {},
    }
    let ghost after3 = views(warnings@);
    let enabled_was_missing = enabled.is_none();
    if enabled_was_missing {
        warnings.push(String::from_str("EarningsWatch_Enabledが未入力のためtrueとして扱いました"));
    }
    proof {
        let s = *settings;
        let t = normalized_ticker@;
        let c = company_trimmed@;
        let w1 = if t.len() > s.ticker_max_len {
            seq![over_limit_warning("tickerが"@, s.ticker_max_len)]
        } else {
            Seq::empty()
        };
        let w2 = if c.len() > s.company_name_max_len {
            seq![over_limit_warning("company_nameが"@, s.company_name_max_len)]
        } else {
            Seq::empty()
        };
        let w3 = match nv {
            Some(n) => if n.len() > s.notes_max_len {
                seq![over_limit_warning("notesが"@, s.notes_max_len)]
            } else {
                Seq::empty()
            },
            None => Seq::empty(),
        };
        let w4 = if enabled is None {
            seq![enabled_missing_warning()]
        } else {
            Seq::empty()
        };
        assert(after1 =~= w1);
        assert(after2 =~= w1 + w2);
        assert(after3 =~= w1 + w2 + w3);
        assert(views(warnings@) =~= w1 + w2 + w3 + w4);
    }

    RowOutcome::Valid {
        row: NormalizedRow {
            ticker: ticker_out,
            company_name: company_trimmed,
            notes: notes_out,
            enabled: match enabled {
                Some(b) => b,
                None => true,
            },
            enabled_was_missing,
        },
        warnings,
    }
}

} // verus!
