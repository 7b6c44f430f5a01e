use aws_crawler::fields::{Dec, Height, RainStatus, WindDirectionText};
use aws_crawler::page::{assemble_result, join_trimmed, parse_page, tokenize, PageError};
use aws_crawler::record::{Record, RowError};
use aws_crawler::timestamp::extract_observed_at;

fn strings(cells: &[&str]) -> Vec<String> {
    cells.iter().map(|c| c.to_string()).collect()
}

fn station_row(id: &str, name: &str) -> Vec<String> {
    strings(&[
        id, name, "10m", "●", "0.5", "1.0", "2.0", "3.0", "4.0", "5.5", "12.5", "230.1", "SW",
        "1.2", "225", "SW", "1.5", "60", "1013.2", "Seoul",
    ])
}

fn dec(mantissa: i128, scale: u32) -> Option<Dec> {
    Some(Dec { mantissa, scale })
}

#[test]
fn observed_at_from_caption() {
    assert_eq!(
        extract_observed_at("관측시각 2023.04.01.09:30"),
        Some("2023-04-01T09:30:00+0900".to_string())
    );
}

#[test]
fn observed_at_needs_stamp_at_end() {
    assert_eq!(extract_observed_at("2023.04.01.09:30 관측"), None);
    assert_eq!(extract_observed_at("관측시각"), None);
    assert_eq!(extract_observed_at(""), None);
    assert_eq!(extract_observed_at("2023.04.01.09-30"), None);
    assert_eq!(extract_observed_at("2023.04.01.9:300"), None);
}

#[test]
fn record_from_full_row() {
    let rec = Record::from_cells(&station_row("108", "서울")).unwrap();
    assert_eq!(rec.id, 108);
    assert_eq!(rec.name, "서울");
    assert_eq!(rec.height, Some(Height(10)));
    assert_eq!(rec.rain.is_raining, RainStatus::Rain);
    assert_eq!(rec.rain.rain15, dec(5, 1));
    assert_eq!(rec.rain.rainday, dec(55, 1));
    assert_eq!(rec.temperature, dec(125, 1));
    assert_eq!(rec.wind1.direction_code, dec(2301, 1));
    assert_eq!(rec.wind1.direction_text, WindDirectionText::SW);
    assert_eq!(rec.wind1.velocity, dec(12, 1));
    assert_eq!(rec.wind10.direction_code, dec(225, 0));
    assert_eq!(rec.wind10.velocity, dec(15, 1));
    assert_eq!(rec.humidity, dec(60, 0));
    assert_eq!(rec.atmospheric, dec(10132, 1));
    assert_eq!(rec.address, "Seoul");
}

#[test]
fn record_keeps_id_when_fields_fail() {
    let row = strings(&[
        "415", "", "", "", "", ".", "-", "", "x", "", "", "", "", "", "", "", "", "", "", "",
    ]);
    let rec = Record::from_cells(&row).unwrap();
    assert_eq!(rec.id, 415);
    assert_eq!(rec.height, None);
    assert_eq!(rec.rain.is_raining, RainStatus::Unknown);
    assert_eq!(rec.rain.rain15, None);
    assert_eq!(rec.temperature, None);
    assert_eq!(rec.wind1.direction_text, WindDirectionText::Unavailable);
    assert_eq!(rec.humidity, None);
}

#[test]
fn record_rejects_short_row() {
    let row = strings(&["1"; 17]);
    assert_eq!(Record::from_cells(&row), Err(RowError::TooFewCells));
    assert_eq!(Record::from_cells(&Vec::new()), Err(RowError::TooFewCells));
    let row19 = strings(&["1"; 19]);
    assert_eq!(Record::from_cells(&row19), Err(RowError::TooFewCells));
}

#[test]
fn record_rejects_bad_id() {
    assert_eq!(Record::from_cells(&station_row("지점", "x")), Err(RowError::InvalidId));
    assert_eq!(Record::from_cells(&station_row("", "x")), Err(RowError::InvalidId));
}

#[test]
fn result_skips_malformed_row() {
    let rows = vec![
        station_row("90", "속초"),
        strings(&["x"; 17]),
        station_row("93", "북춘천"),
    ];
    let res = assemble_result("관측시각 2023.04.01.09:30", &rows).unwrap();
    assert_eq!(res.observed_at, "2023-04-01T09:30:00+0900");
    assert_eq!(res.records.len(), 2);
    assert_eq!(res.records[0].id, 90);
    assert_eq!(res.records[1].id, 93);
    assert_eq!(res.records[1].name, "북춘천");
}

#[test]
fn result_with_no_records() {
    let res = assemble_result("2023.04.01.09:30", &Vec::new()).unwrap();
    assert_eq!(res.records.len(), 0);
}

#[test]
fn result_needs_timestamp() {
    let rows = vec![station_row("90", "속초")];
    assert_eq!(assemble_result("관측시각", &rows), Err(PageError::MissingTimestamp));
}

#[test]
fn tokenize_trims_each_cell() {
    let raw = strings(&[" 90 ", "\n", " 속초\t"]);
    assert_eq!(tokenize(&raw), strings(&["90", "", "속초"]));
}

#[test]
fn caption_joins_trimmed_texts() {
    let texts = strings(&["  관측시각 ", " 2023.04.01.09:30 "]);
    assert_eq!(join_trimmed(&texts), "관측시각2023.04.01.09:30");
}

fn cells_html(cells: &[&str]) -> String {
    let mut s = String::from("<tr>");
    for c in cells {
        s.push_str("<td> ");
        s.push_str(c);
        s.push_str(" </td>");
    }
    s.push_str("</tr>");
    s
}

#[test]
fn page_end_to_end() {
    let good1 = [
        "90", "속초", "18m", "○", ".", ".", ".", ".", ".", "0.0", "11.3", "270.4", "W", "2.1",
        "268", "W", "2.4", "45", "1015.0", "강원 속초",
    ];
    let mut good2 = good1;
    good2[0] = "93";
    let bad = ["x"; 17];
    let html = format!(
        "<html><body><span class=\"ehead\"> 관측시각 2023.04.01.09:30 </span>\
         <table><tr><td><table>{}{}{}</table></td></tr></table></body></html>",
        cells_html(&good1),
        cells_html(&bad),
        cells_html(&good2)
    );
    let res = parse_page(&html).unwrap();
    assert_eq!(res.observed_at, "2023-04-01T09:30:00+0900");
    assert_eq!(res.records.len(), 2);
    assert_eq!(res.records[0].id, 90);
    assert_eq!(res.records[0].name, "속초");
    assert_eq!(res.records[0].height, Some(Height(18)));
    assert_eq!(res.records[0].rain.is_raining, RainStatus::Clear);
    assert_eq!(res.records[0].temperature, Some(Dec { mantissa: 113, scale: 1 }));
    assert_eq!(res.records[0].address, "강원 속초");
    assert_eq!(res.records[1].id, 93);
}

#[test]
fn page_without_caption_fails() {
    let html = "<html><body><table><tr><td>1</td></tr></table></body></html>";
    assert_eq!(parse_page(html), Err(PageError::MissingTimestamp));
}
