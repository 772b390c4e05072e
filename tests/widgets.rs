use smartwp::content::{disk_line, network_lines};
use smartwp::date::{calendar_title, compute_calendar_facts, rows_in_month, CalendarFacts, Date};
use smartwp::layout::{
    anchor_resolve, effective_font_size, layout_calendar, layout_status, CalendarMetrics,
    DrawInstruction, Weight, Widget,
};
use smartwp::layout::layout_widget;
use smartwp::theme::Theme;
use smartwp::{Config, ConfigError};

fn config(theme: &str, start_x: i32, start_y: i32, right: bool, bottom: bool, center: bool) -> Config {
    Config {
        file_in: String::from("in.png"),
        start_x,
        start_y,
        font_size: 32,
        right,
        bottom,
        center,
        theme: Theme::new(theme).unwrap(),
        file_out: String::new(),
    }
}

fn facts(offset: u32, days: u32, today: u32) -> CalendarFacts {
    CalendarFacts {
        first_weekday_offset: offset,
        days_in_month: days,
        current_day: today,
        current_month_name: String::from("February"),
        current_year: 2021,
    }
}

fn metrics(days: u32) -> CalendarMetrics {
    CalendarMetrics {
        week_width: 490,
        title_width: 250,
        bold_height: 40,
        regular_height: 40,
        day_widths: (1..=days).map(|d| if d < 10 { 20 } else { 40 }).collect(),
    }
}

fn grid_rows(out: &[DrawInstruction]) -> usize {
    let mut ys: Vec<i128> = out[2..].iter().map(|d| d.y).collect();
    ys.dedup();
    ys.len()
}

#[test]
fn theme_gb_dark_colors() {
    let t = Theme::new("gb-dark").unwrap();
    assert_eq!(t.color_text, [251, 241, 199]);
    assert_eq!(t.color_highlighted, [254, 128, 25]);
    assert_eq!(t.color_headline, [235, 219, 178]);
}

#[test]
fn theme_monochrome_light_colors() {
    let t = Theme::new("monochrome-light").unwrap();
    assert_eq!(t.color_text, [89, 89, 89]);
    assert_eq!(t.color_highlighted, [25, 25, 25]);
    assert_eq!(t.color_headline, [77, 77, 77]);
}

#[test]
fn theme_unknown_is_error() {
    assert_eq!(Theme::new("solarized").unwrap_err(), ConfigError::UnknownTheme);
    assert_eq!(Theme::new("").unwrap_err(), ConfigError::UnknownTheme);
    assert_eq!(Theme::new("gb-dar").unwrap_err(), ConfigError::UnknownTheme);
}

#[test]
fn theme_resolution_twice_is_identical() {
    let a = Theme::new("gb-dark").unwrap();
    let b = Theme::new("gb-dark").unwrap();
    assert_eq!(a.color_text, b.color_text);
    assert_eq!(a.color_highlighted, b.color_highlighted);
    assert_eq!(a.color_headline, b.color_headline);
}

#[test]
fn rows_for_every_offset_and_length() {
    for offset in 1..=7u32 {
        for days in 28..=31u32 {
            let expected = if offset == 1 && days == 28 {
                4
            } else if (offset == 1 && days > 28) || (offset != 1 && days == 28) {
                5
            } else {
                6
            };
            let r = rows_in_month(offset, days);
            assert_eq!(r, expected);
            assert!((4..=6).contains(&r));
            assert!(offset - 1 + days <= 7 * r);
        }
    }
}

#[test]
fn facts_of_leap_february() {
    let f = compute_calendar_facts(&Date { year: 2024, month: 2, day: 14 });
    assert_eq!(f.first_weekday_offset, 4);
    assert_eq!(f.days_in_month, 29);
    assert_eq!(f.current_day, 14);
    assert_eq!(f.current_month_name, "February");
    assert_eq!(f.current_year, 2024);
}

#[test]
fn facts_of_month_starting_monday() {
    let f = compute_calendar_facts(&Date { year: 2021, month: 2, day: 1 });
    assert_eq!(f.first_weekday_offset, 1);
    assert_eq!(f.days_in_month, 28);
}

#[test]
fn facts_of_month_starting_sunday() {
    let f = compute_calendar_facts(&Date { year: 2023, month: 10, day: 31 });
    assert_eq!(f.first_weekday_offset, 7);
    assert_eq!(f.days_in_month, 31);
    assert_eq!(f.current_month_name, "October");
}

#[test]
fn facts_century_years() {
    assert_eq!(compute_calendar_facts(&Date { year: 1900, month: 2, day: 1 }).days_in_month, 28);
    assert_eq!(compute_calendar_facts(&Date { year: 2000, month: 2, day: 1 }).days_in_month, 29);
    assert_eq!(compute_calendar_facts(&Date { year: 2000, month: 4, day: 1 }).days_in_month, 30);
    assert_eq!(compute_calendar_facts(&Date { year: 2000, month: 1, day: 1 }).first_weekday_offset, 6);
}

#[test]
fn title_has_month_and_year() {
    assert_eq!(calendar_title(&facts(1, 28, 1)), "February 2021");
    let f = compute_calendar_facts(&Date { year: 1999, month: 12, day: 5 });
    assert_eq!(calendar_title(&f), "December 1999");
}

#[test]
fn font_size_at_reference_resolution() {
    assert_eq!(effective_font_size(32, 1920, 1080), Ok(32));
}

#[test]
fn font_size_at_four_times_area() {
    assert_eq!(effective_font_size(32, 3840, 2160), Ok(64));
}

#[test]
fn font_size_rounds_down() {
    // 32 * sqrt(2) = 45.25...
    assert_eq!(effective_font_size(32, 3840, 1080), Ok(45));
    // 32 * sqrt(1/4) = 16
    assert_eq!(effective_font_size(32, 960, 540), Ok(16));
}

#[test]
fn font_size_empty_image_is_error() {
    assert_eq!(effective_font_size(32, 0, 1080), Err(ConfigError::EmptyImage));
    assert_eq!(effective_font_size(32, 1920, 0), Err(ConfigError::EmptyImage));
}

#[test]
fn reference_scenario_positions() {
    let conf = config("gb-dark", 50, 50, false, false, false);
    let fs = effective_font_size(conf.font_size, 1920, 1080).unwrap();
    assert_eq!(fs, 32);
    let f = facts(1, 28, 10);
    let out = layout_calendar(&conf, fs, 1920, 1080, &f, &metrics(28));
    assert_eq!(out.len(), 30);
    assert_eq!(out[0].text, "February 2021");
    assert_eq!(out[0].y, 50);
    assert_eq!(out[0].x, 50 + (490 - 250) / 2);
    assert_eq!(out[0].weight, Weight::Regular);
    assert_eq!(out[1].text, "Mon Tue Wed Thu Fri Sat Sun");
    assert_eq!(out[1].y, 92);
    assert_eq!(out[1].x, 50);
    assert_eq!(out[1].color, [235, 219, 178]);
    assert_eq!(out[2].text, "1");
    assert_eq!(out[2].y, 134);
    // cell width 70, number width 20: 25 pixels in
    assert_eq!(out[2].x, 75);
    assert_eq!(out[3].x, 145);
}

#[test]
fn monday_february_has_four_rows() {
    let conf = config("gb-dark", 0, 0, false, false, false);
    let out = layout_calendar(&conf, 32, 1920, 1080, &facts(1, 28, 3), &metrics(28));
    assert_eq!(grid_rows(&out), 4);
    // day 1 is in the first cell, no blank cells before it
    assert_eq!(out[2].x, 25);
    assert_eq!(out[2].y, out[8].y);
    assert_eq!(out[29].y, 84 + 3 * 42);
}

#[test]
fn sunday_start_long_month_has_six_rows() {
    let conf = config("gb-dark", 0, 0, false, false, false);
    let out = layout_calendar(&conf, 32, 1920, 1080, &facts(7, 31, 3), &metrics(31));
    assert_eq!(grid_rows(&out), 6);
    let first_row: Vec<&DrawInstruction> = out[2..].iter().filter(|d| d.y == 84).collect();
    assert_eq!(first_row.len(), 1);
    assert_eq!(first_row[0].text, "1");
    // the Sunday cell: 6 * 70 + 25
    assert_eq!(first_row[0].x, 445);
}

#[test]
fn only_today_highlighted() {
    let conf = config("gb-dark", 0, 0, false, false, false);
    let out = layout_calendar(&conf, 32, 1920, 1080, &facts(3, 30, 17), &metrics(30));
    for (i, d) in out[2..].iter().enumerate() {
        let day = i as u32 + 1;
        assert_eq!(d.text, day.to_string());
        if day == 17 {
            assert_eq!(d.color, conf.theme.color_highlighted);
        } else {
            assert_eq!(d.color, conf.theme.color_text);
        }
    }
}

#[test]
fn calendar_layout_twice_is_identical() {
    let conf = config("gb-light", 10, 20, true, false, false);
    let a = layout_calendar(&conf, 32, 2560, 1440, &facts(5, 31, 9), &metrics(31));
    let b = layout_calendar(&conf, 32, 2560, 1440, &facts(5, 31, 9), &metrics(31));
    assert_eq!(a.len(), b.len());
    for (x, y) in a.iter().zip(b.iter()) {
        assert_eq!(x.text, y.text);
        assert_eq!((x.x, x.y, x.color, x.weight), (y.x, y.y, y.color, y.weight));
    }
}

#[test]
fn calendar_centered() {
    let conf = config("gb-dark", 999, 999, false, false, true);
    let out = layout_calendar(&conf, 32, 1920, 1080, &facts(1, 28, 3), &metrics(28));
    // height 40 + 50 * 5 = 290
    assert_eq!(out[1].x, (1920 - 490) / 2);
    assert_eq!(out[0].y, (1080 - 290) / 2);
}

#[test]
fn anchor_center_is_symmetric() {
    let conf = config("gb-dark", 7, 7, false, false, true);
    let (x, y) = anchor_resolve(&conf, 1921, 1080, 100, 41);
    assert_eq!(x, 910);
    assert_eq!(1921 - 100 - x, 911);
    assert_eq!(y, 519);
    let (x, _) = anchor_resolve(&conf, 100, 100, 300, 0);
    assert_eq!(x, -100);
    let (x, _) = anchor_resolve(&conf, 100, 100, 301, 0);
    assert_eq!(x, -101);
}

#[test]
fn anchor_right_and_bottom_use_margins() {
    let conf = config("gb-dark", 30, 40, true, true, false);
    assert_eq!(anchor_resolve(&conf, 1920, 1080, 200, 100), (1690, 940));
    let conf = config("gb-dark", 30, 40, true, false, false);
    assert_eq!(anchor_resolve(&conf, 1920, 1080, 200, 100), (1690, 40));
    let conf = config("gb-dark", 30, 40, false, false, false);
    assert_eq!(anchor_resolve(&conf, 1920, 1080, 200, 100), (30, 40));
}

#[test]
fn anchor_center_wins_over_edges() {
    let conf = config("gb-dark", 30, 40, true, true, true);
    assert_eq!(anchor_resolve(&conf, 1920, 1080, 200, 100), (860, 490));
}

#[test]
fn network_lines_in_order() {
    let lines = network_lines("eth0", "box", "10.0.0.2", "");
    assert_eq!(
        lines,
        vec!["Interface: eth0", "Hostname: box", "Local IP: 10.0.0.2", "Global IP: "]
    );
}

#[test]
fn disk_line_one_decimal() {
    let free = 10 * 1073741824 + 536870912; // 10.5 GiB
    let total = 100 * 1073741824;
    assert_eq!(disk_line("/dev/sda1", free, total), "In /dev/sda1 10.5Gb free from 100.0Gb");
    assert_eq!(disk_line("C:", 0, 1073741824 / 10), "In C: 0.0Gb free from 0.1Gb");
}

#[test]
fn disk_line_ties_round_to_even() {
    assert_eq!(disk_line("C:", 1342177280, 1073741824), "In C: 1.2Gb free from 1.0Gb");
    // 0.75 GiB and 1.75 GiB are exact halves too, with odd tenths below them
    assert_eq!(disk_line("C:", 805306368, 1879048192), "In C: 0.8Gb free from 1.8Gb");
    let free = 1073741824 + 1073741824 / 4 + 1; // just above 1.25 GiB
    assert_eq!(disk_line("C:", free, 1073741824), "In C: 1.3Gb free from 1.0Gb");
}

#[test]
fn status_layout_stacks_lines() {
    let conf = config("gb-dark", 100, 200, false, false, false);
    let lines: Vec<String> = network_lines("eth0", "box", "10.0.0.2", "1.2.3.4");
    let out = layout_status(&conf, 32, 1920, 1080, &lines, &vec![150, 160, 210, 190], Weight::Bold);
    assert_eq!(out.len(), 4);
    for (i, d) in out.iter().enumerate() {
        assert_eq!(d.x, 100);
        assert_eq!(d.y, 200 + 42 * i as i128);
        assert_eq!(d.text, lines[i]);
        assert_eq!(d.color, [251, 241, 199]);
    }
}

#[test]
fn status_layout_right_bottom_uses_widest_and_height() {
    let conf = config("gb-dark", 10, 20, true, true, false);
    let lines = vec![String::from("a"), String::from("bb")];
    let out = layout_status(&conf, 32, 1920, 1080, &lines, &vec![300, 500], Weight::Regular);
    assert_eq!(out[0].x, 1920 - 500 - 10);
    assert_eq!(out[0].y, 1080 - 84 - 20);
    assert_eq!(out[1].y, 1080 - 84 - 20 + 42);
    assert_eq!(out[1].weight, Weight::Regular);
}

#[test]
fn widget_layout_matches_each_kind() {
    let conf = config("gb-dark", 50, 50, false, true, false);
    let cal = Widget::Calendar { facts: facts(2, 29, 5), metrics: metrics(29) };
    let a = layout_widget(&conf, 32, 1920, 1080, &cal);
    let b = layout_calendar(&conf, 32, 1920, 1080, &facts(2, 29, 5), &metrics(29));
    assert_eq!(a.len(), 31);
    for (x, y) in a.iter().zip(b.iter()) {
        assert_eq!((x.x, x.y, &x.text), (y.x, y.y, &y.text));
    }
    // rows reserved for (2, 29): 6, height 40 + 50 * 7 = 390
    assert_eq!(a[0].y, 1080 - 390 - 50);
    let lines = vec![String::from("In C: 1.0Gb free from 2.0Gb")];
    let st = Widget::Status { lines: lines.clone(), widths: vec![400], weight: Weight::Regular };
    let c = layout_widget(&conf, 32, 1920, 1080, &st);
    assert_eq!(c.len(), 1);
    assert_eq!((c[0].x, c[0].y), (50, 1080 - 42 - 50));
    assert_eq!(c[0].text, lines[0]);
}
