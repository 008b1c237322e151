use reiter::sattel::config::{
    apply_settings, bool_string, crawler_exists, delete_crawler, delete_crawler_in, is_known_type,
    load_document, parse_config, read_config, rename_crawler, render_valid, save_crawler,
    save_crawler_in,
    save_settings, section_name, write_crawler, Crawler, Error, Settings,
};
use reiter::sattel::document::Document;

const BASE: &str = "[DEFAULT]\nworking_dir = /data\ntype = kit-ilias-web\nauth = auth:a\n[auth:a]\nuser = me\n[crawl:alpha]\ntarget = 1\nvideos = yes\nextra = kept\n[crawl:gamma]\ntarget = 3\n";

fn crawler(name: &str, target: &str, crawler_type: &str, videos: bool) -> Crawler {
    Crawler {
        name: name.to_owned(),
        target: target.to_owned(),
        crawler_type: crawler_type.to_owned(),
        videos,
        auth: "auth:a".to_owned(),
    }
}

#[test]
fn small_helpers() {
    assert_eq!(section_name("alpha"), "crawl:alpha");
    assert_eq!(bool_string(true), "true");
    assert_eq!(bool_string(false), "false");
    assert!(is_known_type("kit-ilias-web"));
    assert!(is_known_type("kit-ipd"));
    assert!(is_known_type("ilias-web"));
    assert!(is_known_type("local"));
    assert!(!is_known_type("Local"));
    assert!(!is_known_type(""));
}

#[test]
fn save_settings_writes_working_dir_into_default_section() {
    let text = save_settings(BASE, &Settings { working_dir: "/elsewhere".to_owned() }, "\n").unwrap();
    assert_eq!(
        text,
        "[DEFAULT]\nworking_dir = /elsewhere\ntype = kit-ilias-web\nauth = auth:a\n\n[auth:a]\nuser = me\n\n[crawl:alpha]\ntarget = 1\nvideos = yes\nextra = kept\n\n[crawl:gamma]\ntarget = 3\n"
    );
    let config = parse_config(&text).unwrap();
    assert_eq!(config.settings.working_dir, "/elsewhere");
    assert_eq!(config.crawlers.len(), 2);
}

#[test]
fn save_settings_leaves_working_dir_alone_for_current_directory() {
    let text = save_settings(BASE, &Settings { working_dir: ".".to_owned() }, "\n").unwrap();
    assert_eq!(parse_config(&text).unwrap().settings.working_dir, "/data");
    let bare = "[DEFAULT]\n[auth:a]\n";
    let text = save_settings(bare, &Settings { working_dir: ".".to_owned() }, "\n").unwrap();
    assert_eq!(text, "[DEFAULT]\n\n[auth:a]\n");
}

#[test]
fn save_settings_adds_working_dir_where_it_was_missing() {
    let text = save_settings("[DEFAULT]\ntype = local\n", &Settings { working_dir: "/w".to_owned() }, "\n").unwrap();
    assert_eq!(text, "[DEFAULT]\ntype = local\nworking_dir = /w\n");
}

#[test]
fn saves_refuse_a_configuration_that_is_not_valid() {
    let broken = "[DEFAULT]\n[crawl:x]\ntype = local\nauth = nowhere\n";
    let expected = Err(Error::ConfigMissingAttr("target of crawler 'x'".to_owned()));
    assert_eq!(save_settings(broken, &Settings { working_dir: "/w".to_owned() }, "\n"), expected);
    assert_eq!(save_crawler(broken, None, crawler("y", "t", "local", false), "\n"), expected);
    assert_eq!(delete_crawler(broken, "x".to_owned(), "\n"), expected);
    assert_eq!(crawler_exists(broken, "x"), Err(Error::ConfigMissingAttr("target of crawler 'x'".to_owned())));
    let unreadable = "[DEFAULT\n";
    let expected = Err(Error::FailedConfigParse(
        "line 1: Found opening bracket for section name but no closing bracket".to_owned(),
    ));
    assert_eq!(save_settings(unreadable, &Settings { working_dir: "/w".to_owned() }, "\n"), expected);
}

#[test]
fn save_crawler_adds_a_new_section() {
    let text = save_crawler(BASE, None, crawler("beta", "2", "local", true), "\n").unwrap();
    let doc = Document::parse(&text).unwrap();
    assert_eq!(doc.get("crawl:beta", "target"), Some(Some("2".to_owned())));
    assert_eq!(doc.get("crawl:beta", "videos"), Some(Some("true".to_owned())));
    assert_eq!(doc.get("crawl:beta", "type"), Some(Some("local".to_owned())));
    assert_eq!(doc.get("crawl:beta", "auth"), Some(Some("auth:a".to_owned())));
    let config = parse_config(&text).unwrap();
    assert_eq!(config.crawlers.len(), 3);
    assert_eq!(config.crawlers[2], crawler("beta", "2", "local", true));
}

#[test]
fn save_crawler_updates_in_place_under_the_same_name() {
    let text = save_crawler(BASE, Some("alpha".to_owned()), crawler("alpha", "11", "kit-ipd", false), "\n").unwrap();
    assert_eq!(
        text,
        "[DEFAULT]\nworking_dir = /data\ntype = kit-ilias-web\nauth = auth:a\n\n[auth:a]\nuser = me\n\n[crawl:alpha]\ntarget = 11\nvideos = false\nextra = kept\ntype = kit-ipd\nauth = auth:a\n\n[crawl:gamma]\ntarget = 3\n"
    );
}

#[test]
fn renaming_a_crawler_keeps_its_keys_and_removes_the_old_section() {
    let text = "[DEFAULT]\ntype = local\nauth = auth:a\n[auth:a]\n[crawl:alpha]\ntarget = 1\nvideos = yes\nextra = kept\nbare\n";
    let saved = save_crawler(text, Some("alpha".to_owned()), crawler("beta", "2", "kit-ipd", false), "\n").unwrap();
    let doc = Document::parse(&saved).unwrap();
    assert!(!doc.has_section("crawl:alpha"));
    assert!(doc.has_section("crawl:beta"));
    assert_eq!(doc.get("crawl:beta", "extra"), Some(Some("kept".to_owned())));
    assert_eq!(doc.get("crawl:beta", "bare"), Some(None));
    assert_eq!(doc.get("crawl:beta", "target"), Some(Some("2".to_owned())));
    assert_eq!(doc.get("crawl:beta", "videos"), Some(Some("false".to_owned())));
    assert_eq!(doc.get("crawl:beta", "type"), Some(Some("kit-ipd".to_owned())));
    assert_eq!(doc.get("crawl:beta", "auth"), Some(Some("auth:a".to_owned())));
    assert_eq!(
        saved,
        "[DEFAULT]\ntype = local\nauth = auth:a\n\n[auth:a]\n\n[crawl:beta]\ntarget = 2\nvideos = false\nextra = kept\nbare\ntype = kit-ipd\nauth = auth:a\n"
    );
    assert_eq!(crawler_exists(&saved, "alpha"), Ok(false));
    assert_eq!(crawler_exists(&saved, "beta"), Ok(true));
}

#[test]
fn renaming_a_crawler_that_does_not_exist_fails() {
    assert_eq!(
        save_crawler(BASE, Some("nobody".to_owned()), crawler("beta", "2", "local", false), "\n"),
        Err(Error::CrawlerDoesNotExist("nobody".to_owned()))
    );
}

#[test]
fn delete_crawler_removes_the_section() {
    let text = delete_crawler(BASE, "alpha".to_owned(), "\n").unwrap();
    assert_eq!(
        text,
        "[DEFAULT]\nworking_dir = /data\ntype = kit-ilias-web\nauth = auth:a\n\n[auth:a]\nuser = me\n\n[crawl:gamma]\ntarget = 3\n"
    );
    assert_eq!(crawler_exists(&text, "alpha"), Ok(false));
    assert_eq!(crawler_exists(&text, "gamma"), Ok(true));
}

#[test]
fn delete_crawler_that_does_not_exist_fails() {
    assert_eq!(
        delete_crawler(BASE, "nobody".to_owned(), "\n"),
        Err(Error::CrawlerDoesNotExist("nobody".to_owned()))
    );
}

#[test]
fn crawler_exists_answers_for_valid_configurations() {
    assert_eq!(crawler_exists(BASE, "alpha"), Ok(true));
    assert_eq!(crawler_exists(BASE, "gamma"), Ok(true));
    assert_eq!(crawler_exists(BASE, "beta"), Ok(false));
    assert_eq!(crawler_exists(BASE, ""), Ok(false));
}

#[test]
fn saving_what_was_read_gives_the_same_configuration() {
    let config = parse_config(BASE).unwrap();
    let text = save_settings(BASE, &config.settings, "\n").unwrap();
    assert_eq!(parse_config(&text).unwrap(), config);
    let again = save_settings(&text, &config.settings, "\n").unwrap();
    assert_eq!(again, text);
    let mut text = text;
    for crawler in &config.crawlers {
        text = save_crawler(&text, Some(crawler.name.clone()), crawler.clone(), "\n").unwrap();
    }
    assert_eq!(parse_config(&text).unwrap(), config);
}

#[test]
fn edits_on_a_document_in_memory() {
    let mut doc = load_document(BASE).unwrap();
    assert_eq!(read_config(&doc).unwrap().crawlers.len(), 2);
    apply_settings(&mut doc, &Settings { working_dir: "/x".to_owned() });
    assert_eq!(doc.get("DEFAULT", "working_dir"), Some(Some("/x".to_owned())));
    write_crawler(&mut doc, &crawler("new", "t", "local", true));
    assert_eq!(doc.get("crawl:new", "videos"), Some(Some("true".to_owned())));
    assert!(rename_crawler(&mut doc, "new", "newer"));
    assert!(!doc.has_section("crawl:new"));
    assert_eq!(doc.get("crawl:newer", "target"), Some(Some("t".to_owned())));
    assert!(!rename_crawler(&mut doc, "new", "other"));
    assert!(!doc.has_section("crawl:other"));
    assert_eq!(save_crawler_in(&mut doc, &Some("gone".to_owned()), &crawler("c", "t", "local", false)),
        Err(Error::CrawlerDoesNotExist("gone".to_owned())));
    assert!(!doc.has_section("crawl:c"));
    assert_eq!(save_crawler_in(&mut doc, &None, &crawler("c", "t", "local", false)), Ok(()));
    assert!(doc.has_section("crawl:c"));
    assert_eq!(delete_crawler_in(&mut doc, "c"), Ok(()));
    assert!(!doc.has_section("crawl:c"));
    assert_eq!(delete_crawler_in(&mut doc, "c"), Err(Error::CrawlerDoesNotExist("c".to_owned())));
    assert_eq!(load_document("[x]\n").err(), Some(Error::FailedConfigParse("no default section".to_owned())));
}

#[test]
fn a_new_crawler_reads_back_where_the_default_section_has_no_auth() {
    let text = "[DEFAULT]\nworking_dir = /data\n[auth:a]\nuser = me\n";
    for (kind, videos) in [("kit-ilias-web", true), ("kit-ipd", false), ("ilias-web", true), ("local", false)] {
        let new_crawler = crawler("n", "t", kind, videos);
        let saved = save_crawler(text, None, new_crawler.clone(), "\n").unwrap();
        let config = parse_config(&saved).unwrap();
        assert_eq!(config.crawlers, vec![new_crawler]);
        assert_eq!(config.settings.working_dir, "/data");
    }
    let saved = save_crawler(text, None, crawler("n", "t", "local", true), "\n").unwrap();
    assert_eq!(
        saved,
        "[DEFAULT]\nworking_dir = /data\n\n[auth:a]\nuser = me\n\n[crawl:n]\ntarget = t\nvideos = true\ntype = local\nauth = auth:a\n"
    );
    assert_eq!(crawler_exists(&saved, "n"), Ok(true));
}

#[test]
fn saving_replaces_the_auth_of_a_crawler() {
    let text = "[DEFAULT]\n[auth:a]\n[auth:b]\n[crawl:n]\ntarget = t\ntype = local\nauth = auth:b\n";
    let saved = save_crawler(text, Some("n".to_owned()), crawler("n", "t", "local", false), "\n").unwrap();
    let config = parse_config(&saved).unwrap();
    assert_eq!(config.crawlers, vec![crawler("n", "t", "local", false)]);
    let renamed = save_crawler(&saved, Some("n".to_owned()), crawler("m", "u", "kit-ipd", true), "\n").unwrap();
    let config = parse_config(&renamed).unwrap();
    assert_eq!(config.crawlers, vec![crawler("m", "u", "kit-ipd", true)]);
}

#[test]
fn a_crawler_that_would_not_read_back_is_not_saved() {
    let text = "[DEFAULT]\n[auth:a]\n";
    let mut dangling = crawler("n", "t", "local", false);
    dangling.auth = "auth:gone".to_owned();
    assert_eq!(
        save_crawler(text, None, dangling, "\n"),
        Err(Error::FailedConfigParse("crawler 'n': auth section 'auth:gone' does not exist".to_owned()))
    );
    assert_eq!(
        save_crawler(text, None, crawler("n", "t", "ftp", false), "\n"),
        Err(Error::FailedConfigParse("crawler 'n': crawler type 'ftp' does not exist".to_owned()))
    );
}

#[test]
fn an_edit_that_breaks_another_crawler_is_not_saved() {
    let text = "[DEFAULT]\n[auth:a]\n[crawl:base]\ntarget = t\ntype = local\nauth = auth:a\n[crawl:user]\ntarget = t\ntype = local\nauth = crawl:base\n";
    assert_eq!(parse_config(text).unwrap().crawlers.len(), 2);
    assert_eq!(
        delete_crawler(text, "base".to_owned(), "\n"),
        Err(Error::FailedConfigParse("crawler 'user': auth section 'crawl:base' does not exist".to_owned()))
    );
    assert_eq!(
        save_crawler(text, Some("base".to_owned()), crawler("moved", "t", "local", false), "\n"),
        Err(Error::FailedConfigParse("crawler 'user': auth section 'crawl:base' does not exist".to_owned()))
    );
    assert!(delete_crawler(text, "user".to_owned(), "\n").is_ok());
}

#[test]
fn render_valid_refuses_what_is_no_configuration() {
    let doc = Document::parse("[DEFAULT]\n[auth:a]\n").unwrap();
    assert_eq!(render_valid(&doc, "\n"), Ok("[DEFAULT]\n\n[auth:a]\n".to_owned()));
    let doc = Document::parse("[auth:a]\n").unwrap();
    assert_eq!(render_valid(&doc, "\n"), Err(Error::FailedConfigParse("no default section".to_owned())));
}
