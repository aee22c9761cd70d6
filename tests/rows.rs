use web_crawler::error::ExtractError;
use web_crawler::headers::column_headers_from;
use web_crawler::protocol::{banner_step, BannerAction, BannerEvent};
use web_crawler::rows::{assemble_row, RowBuilder};
use web_crawler::snapshot::TableSnapshot;

fn strings(items: &[&str]) -> Vec<String> {
    items.iter().map(|s| s.to_string()).collect()
}

fn oks(items: &[&str]) -> Vec<Result<String, ExtractError>> {
    items.iter().map(|s| Ok(s.to_string())).collect()
}

fn sequential(
    player: Option<String>,
    position: String,
    reads: Vec<Result<String, ExtractError>>,
) -> Result<Vec<String>, ExtractError> {
    let mut b = RowBuilder::start(player, position);
    for r in reads {
        if !b.push_read(r) {
            break;
        }
    }
    b.finish()
}

#[test]
fn row_holds_player_position_then_cells() {
    let row = assemble_row(Some("Aaron Judge".to_string()), "RF".to_string(), oks(&["NYY", "158", "0.322"]));
    assert_eq!(row, Ok(strings(&["Aaron Judge", "RF", "NYY", "158", "0.322"])));
}

#[test]
fn missing_player_label_is_empty() {
    let row = assemble_row(None, "C".to_string(), oks(&["SEA"]));
    assert_eq!(row, Ok(strings(&["", "C", "SEA"])));
}

#[test]
fn failed_cell_fails_row_with_first_error() {
    let mut reads = oks(&["NYY", "158"]);
    reads.push(Err(ExtractError::Timeout));
    reads.push(Ok("0.322".to_string()));
    reads.push(Err(ExtractError::NotFound));
    let row = assemble_row(Some("A".to_string()), "RF".to_string(), reads);
    assert_eq!(row, Err(ExtractError::Timeout));
}

#[test]
fn row_without_cells() {
    assert_eq!(assemble_row(None, "".to_string(), Vec::new()), Ok(strings(&["", ""])));
}

#[test]
fn sequential_and_joined_strategies_agree() {
    let cases: Vec<Vec<Result<String, ExtractError>>> = vec![
        oks(&["NYY", "158", "58", "0.322"]),
        Vec::new(),
        vec![Ok("a".to_string()), Err(ExtractError::NotFound), Err(ExtractError::Timeout)],
        vec![Err(ExtractError::NotClickable)],
    ];
    for reads in cases {
        let joined = assemble_row(Some("P".to_string()), "1B".to_string(), reads.clone());
        let seq = sequential(Some("P".to_string()), "1B".to_string(), reads);
        assert_eq!(joined, seq);
    }
}

#[test]
fn builder_stops_after_failure() {
    let mut b = RowBuilder::start(Some("P".to_string()), "SS".to_string());
    assert!(b.push_read(Ok("x".to_string())));
    assert!(!b.push_read(Err(ExtractError::Timeout)));
    assert!(!b.push_read(Ok("y".to_string())));
    assert_eq!(b.finish(), Err(ExtractError::Timeout));
}

#[test]
fn rows_align_with_headers() {
    let rendered = strings(&["PLAYER", "TEAM", "G", "AVG"]);
    let headers = column_headers_from(rendered);
    let rows = vec![
        assemble_row(Some("A".to_string()), "CF".to_string(), oks(&["LAD", "150", ".300"])).unwrap(),
        assemble_row(None, "DH".to_string(), oks(&["BOS", "12", ".211"])).unwrap(),
    ];
    for row in &rows {
        assert_eq!(row.len(), headers.len());
    }
    let snap = TableSnapshot::new(headers.clone(), rows.clone());
    assert_eq!(snap.columns(), &headers);
    assert_eq!(snap.rows(), &rows);
}

#[test]
fn banner_absence_is_no_error() {
    assert_eq!(banner_step(BannerEvent::Absent), BannerAction::Done);
}

#[test]
fn banner_present_is_waited_for_then_clicked() {
    assert_eq!(banner_step(BannerEvent::Present), BannerAction::WaitClickable);
    assert_eq!(banner_step(BannerEvent::Clickable), BannerAction::Click);
    assert_eq!(banner_step(BannerEvent::Clicked), BannerAction::Done);
    assert_eq!(
        banner_step(BannerEvent::ClickFailed(ExtractError::NotClickable)),
        BannerAction::Fail(ExtractError::NotClickable)
    );
    assert_eq!(
        banner_step(BannerEvent::WaitFailed(ExtractError::Timeout)),
        BannerAction::Fail(ExtractError::Timeout)
    );
}
