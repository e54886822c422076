//! The layout of a ticker sheet: which row holds what.
//!
//! A ticker sheet has four sections below one another: the overview of the
//! company, its historical financials, the projections year by year, if there
//! are any, and the targets of the final year. The rows are written by one
//! request and formatted by another; both go by the layout that is fixed
//! here, so that the formats land on the rows they are meant for.

use vstd::prelude::*;

verus! {

/// What a row of a ticker sheet holds.
#[derive(Debug, Clone, Copy, PartialEq, Eq, Structural)]
pub enum TickerRow {
    OverviewHeader,
    Blank,
    Ticker,
    Company,
    Sector,
    MarketCap,
    CurrentPrice,
    PeRatio,
    Eps,
    HistoricalHeader,
    HistoricalTableHeader,
    /// The financials of the historical year with this position.
    Historical(usize),
    ProjectionsHeader,
    ProjectionsTableHeader,
    Baseline,
    /// The bear, base and bull scenario of the projected year with this
    /// position.
    Bear(usize),
    Base(usize),
    Bull(usize),
    TargetsHeader,
    TargetsTableHeader,
    TargetBase,
    TargetBear,
    TargetBull,
}

/// The rows of the overview.
pub open spec fn overview_rows() -> Seq<TickerRow> {
    seq![
        TickerRow::OverviewHeader,
        TickerRow::Blank,
        TickerRow::Ticker,
        TickerRow::Company,
        TickerRow::Sector,
        TickerRow::MarketCap,
        TickerRow::CurrentPrice,
        TickerRow::PeRatio,
        TickerRow::Eps,
        TickerRow::Blank,
    ]
}

/// The rows of the historical financials of `historical` years.
pub open spec fn historical_rows(historical: nat) -> Seq<TickerRow> {
    seq![TickerRow::HistoricalHeader, TickerRow::HistoricalTableHeader] + Seq::new(
        historical,
        |i: int| TickerRow::Historical(i as usize),
    ) + seq![TickerRow::Blank]
}

/// The row of a scenario: three rows to a year, bear, base and bull.
pub open spec fn scenario_row(j: int) -> TickerRow {
    if j % 3 == 0 {
        TickerRow::Bear((j / 3) as usize)
    } else if j % 3 == 1 {
        TickerRow::Base((j / 3) as usize)
    } else {
        TickerRow::Bull((j / 3) as usize)
    }
}

/// The rows of the projections of `years` years, with a row for the baseline
/// year before them if there is one.
pub open spec fn projection_rows(years: nat, baseline: bool) -> Seq<TickerRow> {
    seq![TickerRow::ProjectionsHeader, TickerRow::ProjectionsTableHeader] + (if baseline {
        seq![TickerRow::Baseline]
    } else {
        Seq::empty()
    }) + Seq::new(3 * years, |j: int| scenario_row(j)) + seq![TickerRow::Blank]
}

/// The rows of the targets.
pub open spec fn target_rows() -> Seq<TickerRow> {
    seq![
        TickerRow::TargetsHeader,
        TickerRow::TargetsTableHeader,
        TickerRow::TargetBase,
        TickerRow::TargetBear,
        TickerRow::TargetBull,
    ]
}

/// The rows of a ticker sheet, top down. `yearly` is the number of projected
/// years, if the sheet has projections year by year.
pub open spec fn rows_of(historical: nat, yearly: Option<nat>, baseline: bool) -> Seq<TickerRow> {
    overview_rows() + historical_rows(historical) + (match yearly {
        Some(years) => projection_rows(years, baseline),
        None => Seq::empty(),
    }) + target_rows()
}

/// The rows that are formatted, by their positions from the top.
#[derive(Debug, Clone)]
pub struct SheetLayout {
    pub overview_header_row: i32,
    pub historical_header_row: i32,
    pub historical_table_header: i32,
    pub projections_start: i32,
    pub projections_table_header: Option<i32>,
    pub baseline_row: Option<i32>,
    pub year_rows: Vec<i32>,
    pub targets_header_row: i32,
}

/// The position of the first scenario row.
pub open spec fn first_year_row(historical: nat, baseline: bool) -> int {
    15 + historical + if baseline {
        1int
    } else {
        0int
    }
}

/// The number of rows of a ticker sheet.
pub open spec fn row_count(historical: nat, yearly: Option<nat>, baseline: bool) -> int {
    match yearly {
        Some(years) => first_year_row(historical, baseline) + 3 * years + 6,
        None => 18 + historical as int,
    }
}

/// Whether `l` is the layout of a sheet with `historical` historical years
/// and, if `yearly` is given, that many projected years.
pub open spec fn is_layout(l: SheetLayout, historical: nat, yearly: Option<nat>, baseline: bool) -> bool {
    &&& l.overview_header_row == 0
    &&& l.historical_header_row == 10
    &&& l.historical_table_header == 11
    &&& l.projections_start == 13 + historical
    &&& match yearly {
        Some(years) => {
            &&& l.projections_table_header == Some((14 + historical) as i32)
            &&& l.baseline_row == if baseline {
                Some((15 + historical) as i32)
            } else {
                None
            }
            &&& l.year_rows@.len() == years
            &&& forall|i: int|
                0 <= i < years ==> #[trigger] l.year_rows@[i] == first_year_row(
                    historical,
                    baseline,
                ) + 3 * i
            &&& l.targets_header_row == first_year_row(historical, baseline) + 3 * years + 1
        },
        None => {
            &&& l.projections_table_header is None
            &&& l.baseline_row is None
            &&& l.year_rows@.len() == 0
            &&& l.targets_header_row == 13 + historical
        },
    }
}

/// The layout points at the rows it is named for: at each position that the
/// layout gives, the sheet holds the header, the baseline or the scenario that
/// is formatted there, and the sheet has as many rows as the layout counts.
pub proof fn law_layout_matches_rows(l: SheetLayout, historical: nat, yearly: Option<nat>, baseline: bool)
    requires
        is_layout(l, historical, yearly, baseline),
    ensures
        ({
            let rows = rows_of(historical, yearly, baseline);
            &&& rows.len() == row_count(historical, yearly, baseline)
            &&& rows[l.overview_header_row as int] == TickerRow::OverviewHeader
            &&& rows[l.historical_header_row as int] == TickerRow::HistoricalHeader
            &&& rows[l.historical_table_header as int] == TickerRow::HistoricalTableHeader
            &&& forall|i: int|
                0 <= i < historical ==> #[trigger] rows[12 + i] == TickerRow::Historical(i as usize)
            &&& rows[l.targets_header_row as int] == TickerRow::TargetsHeader
            &&& yearly is Some ==> rows[l.projections_start as int] == TickerRow::ProjectionsHeader
            &&& yearly is None ==> l.projections_start == l.targets_header_row
            &&& l.projections_table_header is Some ==> rows[l.projections_table_header->0 as int]
                == TickerRow::ProjectionsTableHeader
            &&& l.baseline_row is Some ==> rows[l.baseline_row->0 as int] == TickerRow::Baseline
            &&& forall|i: int|
                0 <= i < l.year_rows@.len() ==> rows[(#[trigger] l.year_rows@[i]) as int]
                    == TickerRow::Bear(i as usize) && rows[l.year_rows@[i] + 1] == TickerRow::Base(
                    i as usize,
                ) && rows[l.year_rows@[i] + 2] == TickerRow::Bull(i as usize)
        }),
{
    let rows = rows_of(historical, yearly, baseline);
    let a = overview_rows();
    let b = historical_rows(historical);
    assert(a.len() == 10);
    assert(b.len() == historical + 3);
    assert(target_rows().len() == 5);
    match yearly {
        Some(years) => {
            let c = projection_rows(years, baseline);
            let first = first_year_row(historical, baseline);
            assert(c.len() == first - 13 - historical + 3 * years + 1);
            assert(rows.len() == row_count(historical, yearly, baseline));
            assert forall|i: int| 0 <= i < historical implies #[trigger] rows[12 + i]
                == TickerRow::Historical(i as usize) by {
                assert(rows[12 + i] == b[2 + i]);
            }
            assert forall|i: int| 0 <= i < l.year_rows@.len() implies rows[(
            #[trigger] l.year_rows@[i]) as int] == TickerRow::Bear(i as usize) && rows[l.year_rows@[i]
                + 1] == TickerRow::Base(i as usize) && rows[l.year_rows@[i] + 2] == TickerRow::Bull(
                i as usize,
            ) by {
                let r = first + 3 * i;
                let off = first - 13 - historical;
                assert(rows[r] == c[off + 3 * i]);
                assert(rows[r + 1] == c[off + 3 * i + 1]);
                assert(rows[r + 2] == c[off + 3 * i + 2]);
                assert(c[off + 3 * i] == scenario_row(3 * i));
                assert(c[off + 3 * i + 1] == scenario_row(3 * i + 1));
                assert(c[off + 3 * i + 2] == scenario_row(3 * i + 2));
                assert((3 * i) % 3 == 0 && (3 * i) / 3 == i);
                assert((3 * i + 1) % 3 == 1 && (3 * i + 1) / 3 == i);
                assert((3 * i + 2) % 3 == 2 && (3 * i + 2) / 3 == i);
            }
            assert(rows[13 + historical as int] == c[0]);
            assert(rows[14 + historical as int] == c[1]);
            if baseline {
                assert(rows[15 + historical as int] == c[2]);
            }
            assert(rows[first + 3 * years + 1] == target_rows()[0]);
        },
        None => {
            assert(rows.len() == 18 + historical);
            assert forall|i: int| 0 <= i < historical implies #[trigger] rows[12 + i]
                == TickerRow::Historical(i as usize) by {
                assert(rows[12 + i] == b[2 + i]);
            }
            assert(rows[13 + historical as int] == target_rows()[0]);
        },
    }
    assert(rows[0] == a[0]);
    assert(rows[10] == b[0]);
    assert(rows[11] == b[1]);
}

/// The rows of a ticker sheet with `historical` historical years and, if
/// `yearly` is given, that many projected years, top down.
pub fn ticker_rows(historical: usize, yearly: Option<usize>, baseline: bool) -> (r: Vec<TickerRow>)
    ensures
        r@ == rows_of(
            historical as nat,
            match yearly {
                Some(n) => Some(n as nat),
                None => None,
            },
            baseline,
        ),
{
    let mut rows: Vec<TickerRow> = Vec::new();
    rows.push(TickerRow::OverviewHeader);
    rows.push(TickerRow::Blank);
    rows.push(TickerRow::Ticker);
    rows.push(TickerRow::Company);
    rows.push(TickerRow::Sector);
    rows.push(TickerRow::MarketCap);
    rows.push(TickerRow::CurrentPrice);
    rows.push(TickerRow::PeRatio);
    rows.push(TickerRow::Eps);
    rows.push(TickerRow::Blank);
    assert(rows@ =~= overview_rows());
    rows.push(TickerRow::HistoricalHeader);
    rows.push(TickerRow::HistoricalTableHeader);
    let mut i: usize = 0;
    while i < historical
        invariant
            i <= historical,
            rows@ == overview_rows() + seq![
                TickerRow::HistoricalHeader,
                TickerRow::HistoricalTableHeader,
            ] + Seq::new(i as nat, |k: int| TickerRow::Historical(k as usize)),
        decreases historical - i,
    {
        rows.push(TickerRow::Historical(i));
        assert(Seq::new((i + 1) as nat, |k: int| TickerRow::Historical(k as usize)) =~= Seq::new(
            i as nat,
            |k: int| TickerRow::Historical(k as usize),
        ).push(TickerRow::Historical(i)));
        i = i + 1;
    }
    rows.push(TickerRow::Blank);
    assert(rows@ =~= overview_rows() + historical_rows(historical as nat));
    let ghost upper = rows@;
    match yearly {
        Some(years) => {
            rows.push(TickerRow::ProjectionsHeader);
            rows.push(TickerRow::ProjectionsTableHeader);
            if baseline {
                rows.push(TickerRow::Baseline);
            }
            let ghost lead = seq![TickerRow::ProjectionsHeader, TickerRow::ProjectionsTableHeader]
                + (if baseline {
                seq![TickerRow::Baseline]
            } else {
                Seq::empty()
            });
            assert(rows@ =~= upper + lead);
            let mut y: usize = 0;
            while y < years
                invariant
                    y <= years,
                    rows@ == upper + lead + Seq::new(3 * (y as nat), |j: int| scenario_row(j)),
                decreases years - y,
            {
                let ghost before = rows@;
                rows.push(TickerRow::Bear(y));
                rows.push(TickerRow::Base(y));
                rows.push(TickerRow::Bull(y));
                proof {
                    let shorter = Seq::new(3 * (y as nat), |j: int| scenario_row(j));
                    let longer = Seq::new(3 * ((y + 1) as nat), |j: int| scenario_row(j));
                    assert((3 * y) % 3 == 0 && (3 * y) / 3 == y);
                    assert((3 * y + 1) % 3 == 1 && (3 * y + 1) / 3 == y);
                    assert((3 * y + 2) % 3 == 2 && (3 * y + 2) / 3 == y);
                    assert(longer =~= shorter.push(TickerRow::Bear(y)).push(
                        TickerRow::Base(y),
                    ).push(TickerRow::Bull(y)));
                    assert(rows@ =~= upper + lead + longer);
                }
                y = y + 1;
            }
            rows.push(TickerRow::Blank);
            assert(rows@ =~= upper + projection_rows(years as nat, baseline));
        },
        None => {
            assert(rows@ =~= upper + Seq::<TickerRow>::empty());
        },
    }
    let ghost above = rows@;
    rows.push(TickerRow::TargetsHeader);
    rows.push(TickerRow::TargetsTableHeader);
    rows.push(TickerRow::TargetBase);
    rows.push(TickerRow::TargetBear);
    rows.push(TickerRow::TargetBull);
    assert(rows@ =~= above + target_rows());
    rows
}

/// The rows to format on a ticker sheet with `historical` historical years
/// and, if `yearly` is given, that many projected years. There is no layout
/// for a sheet with more rows than a row number of 32 bits can count.
pub fn sheet_layout(historical: usize, yearly: Option<usize>, baseline: bool) -> (r: Option<
    SheetLayout,
>)
    ensures
        match r {
            Some(l) => is_layout(
                l,
                historical as nat,
                match yearly {
                    Some(n) => Some(n as nat),
                    None => None,
                },
                baseline,
            ),
            None => row_count(
                historical as nat,
                match yearly {
                    Some(n) => Some(n as nat),
                    None => None,
                },
                baseline,
            ) > i32::MAX,
        },
{
    let extra: u128 = if baseline {
        1
    } else {
        0
    };
    let total: u128 = match yearly {
        Some(years) => 15 + historical as u128 + extra + 3 * (years as u128) + 6,
        None => 18 + historical as u128,
    };
    if total > i32::MAX as u128 {
        return None;
    }
    let h: i32 = historical as i32;
    match yearly {
        Some(years) => {
            let first: i32 = 15 + h + if baseline {
                1
            } else {
                0
            };
            let mut year_rows: Vec<i32> = Vec::new();
            let mut i: usize = 0;
            while i < years
                invariant
                    i <= years,
                    first == first_year_row(historical as nat, baseline),
                    first + 3 * years + 6 <= i32::MAX,
                    year_rows@.len() == i,
                    forall|k: int| 0 <= k < i ==> #[trigger] year_rows@[k] == first + 3 * k,
                decreases years - i,
            {
                year_rows.push(first + 3 * (i as i32));
                i = i + 1;
            }
            Some(
                SheetLayout {
                    overview_header_row: 0,
                    historical_header_row: 10,
                    historical_table_header: 11,
                    projections_start: 13 + h,
                    projections_table_header: Some(14 + h),
                    baseline_row: if baseline {
                        Some(15 + h)
                    } else {
                        None
                    },
                    year_rows,
                    targets_header_row: first + 3 * (years as i32) + 1,
                },
            )
        },
        None => Some(
            SheetLayout {
                overview_header_row: 0,
                historical_header_row: 10,
                historical_table_header: 11,
                projections_start: 13 + h,
                projections_table_header: None,
                baseline_row: None,
                year_rows: Vec::new(),
                targets_header_row: 13 + h,
            },
        ),
    }
}

} // verus!
