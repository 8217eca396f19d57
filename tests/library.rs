use barsplice::crawl::{CrawlReply, CrawlStep, TitleCrawler};
use barsplice::matchers::{
    match_title, spotify_cleaner, spotify_matcher, supersonic_cleaner, supersonic_matcher,
};
use barsplice::song_title::{title_head, wrap_in_tags, SongTitlePlugin};
use barsplice::splice::{collect_statuses, is_header, process_i3status, process_line, split_prefix};
use barsplice::status::{Markup, Status};
use barsplice::uptime::{repr_time, UptimePlugin};
use barsplice::weather::{WeatherPlugin, WeatherReport};

fn status(name: &str, full: &str, short: &str, markup: Markup) -> Status {
    Status {
        name: String::from(name),
        full_text: String::from(full),
        short_text: String::from(short),
        markup,
    }
}

/// Reads a JSON string literal's body back: a backslash stands for the
/// character after it.
fn unescape(s: &str) -> String {
    let mut out = String::new();
    let mut chars = s.chars();
    while let Some(c) = chars.next() {
        if c == '\\' {
            if let Some(d) = chars.next() {
                out.push(d);
            }
        } else {
            out.push(c);
        }
    }
    out
}

#[test]
fn markup_names() {
    assert_eq!(Markup::Plain.name(), "none");
    assert_eq!(Markup::Pango.name(), "pango");
}

#[test]
fn to_json_exact() {
    let s = status("n", "a\"b\\c", "x", Markup::Plain);
    assert_eq!(
        s.to_json(),
        "{\"name\": \"n\",\"full_text\": \"a\\\"b\\\\c\",\"short_text\":\"x\",\"markup\": \"none\"}"
    );
}

#[test]
fn to_json_pango_markup() {
    let s = status("song_name", "t", "t", Markup::Pango);
    assert_eq!(
        s.to_json(),
        "{\"name\": \"song_name\",\"full_text\": \"t\",\"short_text\":\"t\",\"markup\": \"pango\"}"
    );
}

#[test]
fn escaping_round_trip() {
    let text = "back\\slash \"quoted\" \\\" mix";
    let s = status("n", text, "", Markup::Plain);
    let json = s.to_json();
    let start = json.find("\"full_text\": \"").unwrap() + "\"full_text\": \"".len();
    let end = json.find("\",\"short_text\"").unwrap();
    assert_eq!(unescape(&json[start..end]), text);
}

#[test]
fn supersonic_title_is_cleaned() {
    assert!(supersonic_matcher("Song Name · Supersonic", "anything"));
    assert_eq!(supersonic_cleaner("Song Name · Supersonic"), "Song Name");
    assert_eq!(
        match_title("Song Name · Supersonic", "whatever"),
        Some(String::from("Song Name"))
    );
}

#[test]
fn supersonic_needs_suffix() {
    assert!(!supersonic_matcher("Song Name · Supersonic extra", ""));
    assert!(!supersonic_matcher("", ""));
    assert_eq!(supersonic_cleaner("a · Supersonicb · Supersonic"), "ab");
}

#[test]
fn spotify_title_matches_on_class() {
    assert!(spotify_matcher("Track Title - Artist", "spotify-client"));
    assert!(!spotify_matcher("Track Title - Artist", "firefox"));
    assert!(!spotify_matcher("", "spotify"));
    assert_eq!(spotify_cleaner("Track Title - Artist"), "Track Title - Artist");
    assert_eq!(
        match_title("Track Title - Artist", "spotify-client"),
        Some(String::from("Track Title - Artist"))
    );
}

#[test]
fn spotify_idle_titles_never_match() {
    for t in ["Spotify", "SPOTIFY", "spotify", "Spotify Premium", "SPOTIFY premium", "spotify premium"] {
        for c in ["spotify", "spotify-client", "", "Supersonic"] {
            assert!(!spotify_matcher(t, c));
            assert_eq!(match_title(t, c), None);
        }
    }
}

#[test]
fn no_matcher_fires() {
    assert_eq!(match_title("Some Editor", "code"), None);
}

#[test]
fn title_head_cuts_at_first_dash() {
    assert_eq!(title_head("Track Title - Artist - Album"), "Track Title");
    assert_eq!(title_head("No separator-here"), "No separator-here");
    assert_eq!(title_head(" - x"), "");
}

#[test]
fn wrap_in_tags_exact() {
    assert_eq!(
        wrap_in_tags(String::from("Hi"), '/'),
        "🎵 (/) <span foreground=\"#FF9900\" font_weight=\"bold\">Hi</span> (/) 🎵"
    );
}

#[test]
fn spinner_wraps_after_four() {
    let mut p = SongTitlePlugin::new();
    assert_eq!(p.spinner_frame(), 0);
    p.update();
    assert_eq!(p.spinner_frame(), 1);
    p.update();
    p.update();
    assert_eq!(p.spinner_frame(), 3);
    p.update();
    assert_eq!(p.spinner_frame(), 0);
}

#[test]
fn song_status_full_and_short() {
    let mut p = SongTitlePlugin::default();
    p.update();
    let st = p.get_status(Some(String::from("Track Title - Artist"))).unwrap();
    assert_eq!(st.name, "song_name");
    assert_eq!(st.markup, Markup::Pango);
    assert!(st.full_text.contains("Track Title - Artist"));
    assert!(st.short_text.contains("Track Title"));
    assert!(!st.short_text.contains("Artist"));
    assert_eq!(
        st.short_text,
        "🎵 (/) <span foreground=\"#FF9900\" font_weight=\"bold\">Track Title</span> (/) 🎵"
    );
    assert!(p.get_status(None).is_none());
}

#[test]
fn crawl_finds_first_match_depth_first() {
    let (mut c, step) = TitleCrawler::start(1);
    assert!(matches!(step, CrawlStep::QueryTree(1)));
    let step = c.step(CrawlReply::Children(vec![2, 3]));
    assert!(matches!(step, CrawlStep::FetchProperties(2)));
    let step = c.step(CrawlReply::Properties { title: Some(String::from("Editor")), class: String::from("code") });
    assert!(matches!(step, CrawlStep::QueryTree(2)));
    let step = c.step(CrawlReply::Children(vec![4]));
    assert!(matches!(step, CrawlStep::FetchProperties(4)));
    let step = c.step(CrawlReply::Properties {
        title: Some(String::from("Song · Supersonic")),
        class: String::new(),
    });
    match step {
        CrawlStep::Finished(Some(t)) => assert_eq!(t, "Song"),
        _ => panic!("expected a title"),
    }
    assert!(matches!(c.step(CrawlReply::TreeFailed), CrawlStep::Finished(None)));
}

#[test]
fn crawl_skips_failures_and_ends_empty() {
    let (mut c, _) = TitleCrawler::start(1);
    assert!(matches!(c.step(CrawlReply::Children(vec![2, 3])), CrawlStep::FetchProperties(2)));
    assert!(matches!(c.step(CrawlReply::Properties { title: None, class: String::new() }), CrawlStep::QueryTree(2)));
    assert!(matches!(c.step(CrawlReply::TreeFailed), CrawlStep::FetchProperties(3)));
    assert!(matches!(
        c.step(CrawlReply::Properties { title: Some(String::new()), class: String::from("spotify") }),
        CrawlStep::QueryTree(3)
    ));
    assert!(matches!(c.step(CrawlReply::Children(vec![])), CrawlStep::Finished(None)));
}

#[test]
fn weather_rate_limit() {
    let mut w = WeatherPlugin::new();
    assert!(!w.wants_request(1000));
    w.setup(Some(String::from("SECRET-REDACTED")), String::from("riga"));
    assert!(w.wants_request(1000));
    w.record_attempt(1000, Some(WeatherReport { temperature: String::from("9"), summary: String::from("Sunny") }));
    assert!(!w.wants_request(1100));
    assert!(!w.wants_request(1216));
    assert!(w.wants_request(1217));
    w.record_attempt(1217, None);
    assert_eq!(w.last_request_time, 1217);
    assert!(!w.wants_request(1300));
    let st = w.get_status().unwrap();
    assert_eq!(st.full_text, "9 C° (Sunny)");
    assert_eq!(st.short_text, "9 C° (Sunny)");
    assert_eq!(st.name, "meteosource_weather");
    assert_eq!(st.markup, Markup::Plain);
}

#[test]
fn weather_needs_point_and_report() {
    let mut w = WeatherPlugin::default();
    w.setup(Some(String::from("k")), String::new());
    assert!(!w.wants_request(5000));
    assert!(w.get_status().is_none());
}

#[test]
fn weather_url() {
    let mut w = WeatherPlugin::new();
    w.setup(None, String::from("london"));
    assert_eq!(
        w.request_url(),
        "https://www.meteosource.com/api/v1/free/point?place_id=london&language=en&sections=current&units=metric"
    );
}

#[test]
fn header_lines() {
    assert!(is_header("{\"version\":1}\n"));
    assert!(is_header("[\n"));
    assert!(is_header("  [  \n"));
    assert!(!is_header(",[{\"full_text\":\"x\"}]\n"));
    let h = "{\"version\":1}\n";
    let out = format!("{}{}", process_line(h, &vec![]), process_line(h, &vec![status("a", "b", "c", Markup::Plain)]));
    assert_eq!(out, format!("{}{}", h, h));
}

#[test]
fn split_prefix_trims_and_strips_comma() {
    assert_eq!(split_prefix("  ,[1]  \n"), (String::from("[1]"), true));
    assert_eq!(split_prefix("[1]\n"), (String::from("[1]"), false));
}

#[test]
fn passthrough_without_blocks() {
    let line = ",[{\"full_text\":\"x\"}]\n";
    assert_eq!(process_line(line, &vec![]), line);
    let line = "[{\"full_text\":\"x\"}]\n";
    assert_eq!(process_line(line, &vec![]), line);
}

#[test]
fn blocks_come_first() {
    let sts = vec![status("a", "A", "A", Markup::Plain), status("b", "B", "B", Markup::Pango)];
    let out = process_line(",[{\"full_text\":\"x\"}]\n", &sts);
    assert_eq!(
        out,
        ",[{\"name\": \"a\",\"full_text\": \"A\",\"short_text\":\"A\",\"markup\": \"none\"},{\"name\": \"b\",\"full_text\": \"B\",\"short_text\":\"B\",\"markup\": \"pango\"},{\"full_text\":\"x\"}]\n"
    );
    assert_eq!(
        process_i3status("[1]", false, &vec![status("a", "A", "A", Markup::Plain)]),
        "[{\"name\": \"a\",\"full_text\": \"A\",\"short_text\":\"A\",\"markup\": \"none\"},1]"
    );
}

#[test]
fn uptime_text() {
    assert_eq!(repr_time(0), "UP 0m");
    assert_eq!(repr_time(3599), "UP 59m");
    assert_eq!(repr_time(3600), "UP 1h0m");
    assert_eq!(repr_time(7384), "UP 2h3m");
    assert_eq!(repr_time(360000), "UP 100h0m");
}

#[test]
fn uptime_status() {
    let p = UptimePlugin;
    assert!(p.get_status(None).is_none());
    let st = p.get_status(Some(125)).unwrap();
    assert_eq!(st.name, "uptime");
    assert_eq!(st.full_text, "UP 2m");
    assert_eq!(st.short_text, "UP 2m");
    assert_eq!(st.markup, Markup::Plain);
}

#[test]
fn empty_array_gets_no_dangling_comma() {
    let sts = vec![status("a", "A", "A", Markup::Plain)];
    assert_eq!(
        process_line(",[]\n", &sts),
        ",[{\"name\": \"a\",\"full_text\": \"A\",\"short_text\":\"A\",\"markup\": \"none\"}]\n"
    );
    assert_eq!(
        process_i3status("[ ]", false, &sts),
        "[{\"name\": \"a\",\"full_text\": \"A\",\"short_text\":\"A\",\"markup\": \"none\"} ]"
    );
}

#[test]
fn bare_bracket_echoed_twice() {
    let sts = vec![status("a", "A", "A", Markup::Plain)];
    let out = format!("{}{}", process_line("[\n", &sts), process_line("[\n", &vec![]));
    assert_eq!(out, "[\n[\n");
}

#[test]
fn unicode_white_space_is_trimmed() {
    assert_eq!(split_prefix("\u{a0}\t,[1]\u{3000}\r\n"), (String::from("[1]"), true));
    assert_eq!(split_prefix("x\u{200b}"), (String::from("x\u{200b}"), false));
}

#[test]
fn weather_setup_trims_place() {
    let mut w = WeatherPlugin::new();
    w.setup(Some(String::from("k")), String::from("  riga \n"));
    assert_eq!(w.point, "riga");
}

#[test]
fn collect_keeps_present_in_order() {
    let got = collect_statuses(vec![
        None,
        Some(status("a", "A", "A", Markup::Plain)),
        None,
        Some(status("b", "B", "B", Markup::Pango)),
    ]);
    assert_eq!(got.len(), 2);
    assert_eq!(got[0].name, "a");
    assert_eq!(got[1].name, "b");
    assert!(collect_statuses(vec![None, None]).is_empty());
}
