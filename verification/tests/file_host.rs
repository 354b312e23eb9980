use buzkaaclicker_backend::file_host::FileHost;

fn host() -> FileHost {
    FileHost::new(
        String::from("BClickerDownloader"),
        vec![
            (
                String::from("BClickerDownloader"),
                String::from("./filehost/BClickerDownloader.zip"),
            ),
            (
                String::from("BuzkaaClicker"),
                String::from("./filehost/BuzkaaClicker-v16.rar"),
            ),
        ],
    )
}

#[test]
fn resolve_is_case_insensitive() {
    let host = host();
    assert_eq!(
        host.resolve(Some("buzkaaclicker")).unwrap(),
        "./filehost/BuzkaaClicker-v16.rar"
    );
    assert_eq!(
        host.resolve(Some("BUZKAACLICKER")).unwrap(),
        "./filehost/BuzkaaClicker-v16.rar"
    );
    assert_eq!(
        host.resolve(Some("BClickerDownloader")).unwrap(),
        "./filehost/BClickerDownloader.zip"
    );
}

#[test]
fn resolve_without_name_serves_the_default_file() {
    let host = host();
    assert_eq!(
        host.resolve(None).unwrap(),
        "./filehost/BClickerDownloader.zip"
    );
}

#[test]
fn resolve_unknown_name_is_none() {
    let host = host();
    assert!(host.resolve(Some("missing")).is_none());
    assert!(host.resolve(Some("")).is_none());
}

#[test]
fn duplicate_names_last_entry_wins() {
    let host = FileHost::new(
        String::from("a"),
        vec![
            (String::from("A"), String::from("first")),
            (String::from("a"), String::from("second")),
        ],
    );
    assert_eq!(host.resolve(Some("A")).unwrap(), "second");
    assert_eq!(host.resolve(None).unwrap(), "second");
}
