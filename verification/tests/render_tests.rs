use match_table::describe::compose_description;
use match_table::describe::join_tags;
use match_table::records::Matches;
use match_table::records::PatternData;
use match_table::records::PrintMode;
use match_table::render::build_table;
use match_table::render::render;
use match_table::render::status_line;
use match_table::rows::build_headers;
use match_table::rows::build_row;
use match_table::rows::build_rows;

fn youtube_record() -> Matches {
    Matches {
        text: "UC11L3JDgDQMyH8iolKkVZ4w".to_string(),
        data: PatternData {
            name: "YouTube Channel ID".to_string(),
            description: Some("A channel on YouTube".to_string()),
            url: None,
            rarity: "0.5".to_string(),
            tags: vec!["video".to_string(), "social".to_string()],
        },
    }
}

#[test]
fn compose_description_and_url_present() {
    let description = Some("A channel on YouTube".to_string());
    let url = Some("https://youtube.com/channel/".to_string());
    let r = compose_description(&description, &url, "UC11L3JDgDQMyH8iolKkVZ4w");
    assert_eq!(
        r,
        "A channel on YouTube\n Check URL: https://youtube.com/channel/UC11L3JDgDQMyH8iolKkVZ4w"
    );
}

#[test]
fn compose_description_only() {
    let description = Some("A channel on YouTube".to_string());
    let r = compose_description(&description, &None, "UC11L3JDgDQMyH8iolKkVZ4w");
    assert_eq!(r, "A channel on YouTube");
}

#[test]
fn compose_url_only() {
    let url = Some("https://youtube.com/channel/".to_string());
    let r = compose_description(&None, &url, "UC11L3JDgDQMyH8iolKkVZ4w");
    assert_eq!(r, "URL:\n https://youtube.com/channel/UC11L3JDgDQMyH8iolKkVZ4w");
}

#[test]
fn compose_neither_present() {
    let r = compose_description(&None, &None, "UC11L3JDgDQMyH8iolKkVZ4w");
    assert_eq!(r, "None");
}

#[test]
fn join_tags_empty() {
    let tags: Vec<String> = Vec::new();
    assert_eq!(join_tags(&tags), "");
}

#[test]
fn join_tags_single() {
    let tags = vec!["a".to_string()];
    assert_eq!(join_tags(&tags), "a");
}

#[test]
fn join_tags_two() {
    let tags = vec!["a".to_string(), "b".to_string()];
    assert_eq!(join_tags(&tags), "a, b");
}

#[test]
fn headers_normal_has_three_fixed_cells() {
    let h = build_headers(PrintMode::Normal);
    assert_eq!(h, vec!["Matched text", "Identified as", "Description"]);
}

#[test]
fn headers_verbose_has_five_fixed_cells() {
    let h = build_headers(PrintMode::Verbose);
    assert_eq!(
        h,
        vec!["Matched text", "Identified as", "Description", "Rarity", "Tags"]
    );
}

#[test]
fn status_lines_hold_the_exact_literals() {
    assert_eq!(
        status_line(false),
        "\x1b[0;31mNo Possible Identifications :(\x1b[0m"
    );
    assert_eq!(
        status_line(true),
        "\x1b[0;32mFound Possible Identifications :)\x1b[0m"
    );
}

#[test]
fn empty_input_renders_only_the_negative_banner() {
    let out = render(&[], PrintMode::Normal);
    assert_eq!(out, "\x1b[0;31mNo Possible Identifications :(\x1b[0m\n");
    assert!(!out.contains("Matched text"));
    assert!(!out.contains('│'));
    let out_verbose = render(&[], PrintMode::Verbose);
    assert_eq!(out_verbose, "\x1b[0;31mNo Possible Identifications :(\x1b[0m\n");
}

#[test]
fn verbose_row_for_the_youtube_record() {
    let record = youtube_record();
    let row = build_row(&record, PrintMode::Verbose);
    assert_eq!(
        row,
        vec![
            "UC11L3JDgDQMyH8iolKkVZ4w",
            "YouTube Channel ID",
            "A channel on YouTube",
            "0.5",
            "video, social"
        ]
    );
}

#[test]
fn normal_row_appends_text_to_the_url() {
    let mut record = youtube_record();
    record.data.description = None;
    record.data.url = Some("https://youtube.com/channel/".to_string());
    let row = build_row(&record, PrintMode::Normal);
    assert_eq!(row.len(), 3);
    assert_eq!(
        row[2],
        "URL:\n https://youtube.com/channel/UC11L3JDgDQMyH8iolKkVZ4w"
    );
}

#[test]
fn rows_keep_input_order_one_per_record() {
    let mut second = youtube_record();
    second.text = "4111111111111111".to_string();
    second.data.name = "Credit Card".to_string();
    let records = vec![youtube_record(), second];
    let rows = build_rows(&records, PrintMode::Normal);
    assert_eq!(rows.len(), 2);
    assert_eq!(rows[0][0], "UC11L3JDgDQMyH8iolKkVZ4w");
    assert_eq!(rows[1][0], "4111111111111111");
    assert_eq!(rows[1][1], "Credit Card");
}

#[test]
fn render_found_output_holds_banner_and_table() {
    let records = vec![youtube_record()];
    let out = render(&records, PrintMode::Verbose);
    assert!(out.starts_with("\x1b[0;32mFound Possible Identifications :)\x1b[0m\n"));
    // The header and the row cells all appear in the drawn table.
    assert!(out.contains("Matched text"));
    assert!(out.contains("Rarity"));
    assert!(out.contains("Tags"));
    assert!(out.contains("UC11L3JDgDQMyH8iolKkVZ4w"));
    assert!(out.contains("YouTube Channel ID"));
    assert!(out.contains("A channel on YouTube"));
    assert!(out.contains("0.5"));
    assert!(out.contains("video, social"));
    // The UTF-8 box-drawing style replaced the default ASCII borders.
    assert!(out.contains('│'));
    assert!(!out.contains('+'));
    assert!(out.ends_with('\n'));
}

#[test]
fn render_normal_hides_the_verbose_columns() {
    let records = vec![youtube_record()];
    let out = render(&records, PrintMode::Normal);
    assert!(out.starts_with("\x1b[0;32mFound Possible Identifications :)\x1b[0m\n"));
    assert!(out.contains("Description"));
    assert!(!out.contains("Rarity"));
    assert!(!out.contains("video, social"));
}

#[test]
fn built_table_draws_one_line_per_row_between_borders() {
    // Three records give a table whose drawn body holds each matched
    // text exactly once, in input order.
    let mut records = Vec::new();
    for text in ["first-match", "second-match", "third-match"] {
        let mut r = youtube_record();
        r.text = text.to_string();
        r.data.description = None;
        r.data.url = None;
        records.push(r);
    }
    let table = build_table(&records, PrintMode::Normal);
    let drawn = table.to_string();
    let first = drawn.find("first-match").unwrap();
    let second = drawn.find("second-match").unwrap();
    let third = drawn.find("third-match").unwrap();
    assert!(first < second && second < third);
}
