use buzkaaclicker_backend::bc::{ChartJson, DownloadCount, Version};
use buzkaaclicker_backend::online_users::ChartSample;

#[test]
fn version_text() {
    assert_eq!(Version(3).text(), "3");
    assert_eq!(Version(0).text(), "0");
    assert_eq!(Version(4_294_967_295).text(), "4294967295");
}

#[test]
fn chart_json_empty() {
    let chart = ChartJson::from_samples(&vec![]);
    assert_eq!(chart.json().unwrap(), "{\"labels\":[],\"data\":[]}");
}

#[test]
fn chart_json_render() {
    let samples = vec![
        ChartSample { month: 10, day: 4, hour: 12, minute: 5, count: 7 },
        ChartSample { month: 1, day: 31, hour: 23, minute: 59, count: 0 },
    ];
    let chart = ChartJson::from_samples(&samples);
    assert_eq!(
        chart.json().unwrap(),
        "{\"labels\":[\"04.10 12:05\",\"31.01 23:59\"],\"data\":[7,0]}"
    );
}

#[test]
fn chart_json_unavailable() {
    let chart = ChartJson::unavailable();
    assert!(chart.json().is_none());
}

#[test]
fn download_count_text() {
    assert_eq!(DownloadCount::from_count(207).text(), Some(String::from("207")));
    assert_eq!(DownloadCount::from_count(0).text(), Some(String::from("0")));
    assert_eq!(DownloadCount::unavailable().text(), None);
}
