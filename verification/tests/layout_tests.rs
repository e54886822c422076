use quantum_kapital::google_sheets::layout::{sheet_layout, ticker_rows, TickerRow};

#[test]
fn rows_of_a_sheet_without_projections() {
    let rows = ticker_rows(2, None, false);
    assert_eq!(
        rows,
        vec![
            TickerRow::OverviewHeader,
            TickerRow::Blank,
            TickerRow::Ticker,
            TickerRow::Company,
            TickerRow::Sector,
            TickerRow::MarketCap,
            TickerRow::CurrentPrice,
            TickerRow::PeRatio,
            TickerRow::Eps,
            TickerRow::Blank,
            TickerRow::HistoricalHeader,
            TickerRow::HistoricalTableHeader,
            TickerRow::Historical(0),
            TickerRow::Historical(1),
            TickerRow::Blank,
            TickerRow::TargetsHeader,
            TickerRow::TargetsTableHeader,
            TickerRow::TargetBase,
            TickerRow::TargetBear,
            TickerRow::TargetBull,
        ]
    );
    let layout = sheet_layout(2, None, false).unwrap();
    assert_eq!(layout.overview_header_row, 0);
    assert_eq!(layout.historical_header_row, 10);
    assert_eq!(layout.historical_table_header, 11);
    assert_eq!(layout.projections_start, 15);
    assert_eq!(layout.projections_table_header, None);
    assert_eq!(layout.baseline_row, None);
    assert!(layout.year_rows.is_empty());
    assert_eq!(layout.targets_header_row, 15);
}

#[test]
fn the_layout_points_at_its_rows() {
    for historical in 0..4usize {
        for years in 0..4usize {
            for baseline in [false, true] {
                let rows = ticker_rows(historical, Some(years), baseline);
                let layout = sheet_layout(historical, Some(years), baseline).unwrap();
                assert_eq!(rows[layout.overview_header_row as usize], TickerRow::OverviewHeader);
                assert_eq!(rows[layout.historical_header_row as usize], TickerRow::HistoricalHeader);
                assert_eq!(
                    rows[layout.historical_table_header as usize],
                    TickerRow::HistoricalTableHeader
                );
                assert_eq!(rows[layout.projections_start as usize], TickerRow::ProjectionsHeader);
                assert_eq!(
                    rows[layout.projections_table_header.unwrap() as usize],
                    TickerRow::ProjectionsTableHeader
                );
                assert_eq!(layout.baseline_row.is_some(), baseline);
                if let Some(row) = layout.baseline_row {
                    assert_eq!(rows[row as usize], TickerRow::Baseline);
                }
                assert_eq!(layout.year_rows.len(), years);
                for (i, row) in layout.year_rows.iter().enumerate() {
                    assert_eq!(rows[*row as usize], TickerRow::Bear(i));
                    assert_eq!(rows[*row as usize + 1], TickerRow::Base(i));
                    assert_eq!(rows[*row as usize + 2], TickerRow::Bull(i));
                }
                assert_eq!(rows[layout.targets_header_row as usize], TickerRow::TargetsHeader);
                assert_eq!(rows.len(), layout.targets_header_row as usize + 5);
            }
        }
    }
}

#[test]
fn a_sheet_with_two_projected_years() {
    let layout = sheet_layout(4, Some(2), true).unwrap();
    assert_eq!(layout.projections_start, 17);
    assert_eq!(layout.projections_table_header, Some(18));
    assert_eq!(layout.baseline_row, Some(19));
    assert_eq!(layout.year_rows, vec![20, 23]);
    assert_eq!(layout.targets_header_row, 27);
    let layout = sheet_layout(4, Some(2), false).unwrap();
    assert_eq!(layout.baseline_row, None);
    assert_eq!(layout.year_rows, vec![19, 22]);
    assert_eq!(layout.targets_header_row, 26);
}

#[test]
fn there_is_no_layout_beyond_the_row_numbers() {
    assert!(sheet_layout(usize::MAX, None, false).is_none());
    assert!(sheet_layout(0, Some(usize::MAX), true).is_none());
    assert!(sheet_layout(2_147_483_629, None, false).is_some());
    assert!(sheet_layout(2_147_483_630, None, false).is_none());
    assert!(sheet_layout(2_147_483_626, Some(0), false).is_some());
    assert!(sheet_layout(2_147_483_626, Some(0), true).is_none());
    assert!(sheet_layout(0, Some(715_827_876), false).is_none());
}
