use reiter::sattel::config::{parse_config, Config, Crawler, Error, Settings};

const SAMPLE: &str = "[DEFAULT]\nworking_dir = /data\ntype = kit-ilias-web\nauth = auth:ilias\n\n[auth:ilias]\ntype = simple\n\n[crawl:algebra]\ntarget = 12345\nvideos = yes\n\n[crawl:local-notes]\ntarget = ./notes\ntype = local\n";

fn crawler(name: &str, target: &str, crawler_type: &str, videos: bool, auth: &str) -> Crawler {
    Crawler {
        name: name.to_owned(),
        target: target.to_owned(),
        crawler_type: crawler_type.to_owned(),
        videos,
        auth: auth.to_owned(),
    }
}

#[test]
fn parse_reads_settings_and_crawlers_in_order() {
    let config = parse_config(SAMPLE).unwrap();
    assert_eq!(
        config,
        Config {
            settings: Settings { working_dir: "/data".to_owned() },
            crawlers: vec![
                crawler("algebra", "12345", "kit-ilias-web", true, "auth:ilias"),
                crawler("local-notes", "./notes", "local", false, "auth:ilias"),
            ],
        }
    );
}

#[test]
fn working_dir_defaults_to_current_directory() {
    let config = parse_config("[DEFAULT]\n[auth:a]\n").unwrap();
    assert_eq!(config.settings.working_dir, ".");
    assert!(config.crawlers.is_empty());
    let config = parse_config("[DEFAULT]\nworking_dir\n").unwrap();
    assert_eq!(config.settings.working_dir, ".");
}

#[test]
fn missing_default_section_is_a_parse_error() {
    assert_eq!(
        parse_config("[auth:a]\nx = 1\n"),
        Err(Error::FailedConfigParse("no default section".to_owned()))
    );
}

#[test]
fn malformed_text_is_a_parse_error() {
    let outcome = parse_config("[DEFAULT\nworking_dir = x\n");
    assert_eq!(
        outcome,
        Err(Error::FailedConfigParse(
            "line 1: Found opening bracket for section name but no closing bracket".to_owned()
        ))
    );
}

#[test]
fn missing_target_names_crawler_and_attribute() {
    let outcome = parse_config("[DEFAULT]\ntype = local\nauth = a\n[a]\n[crawl:x]\nvideos = no\n");
    assert_eq!(outcome, Err(Error::ConfigMissingAttr("target of crawler 'x'".to_owned())));
    let outcome = parse_config("[DEFAULT]\ntype = local\nauth = a\n[a]\n[crawl:x]\ntarget\n");
    assert_eq!(outcome, Err(Error::ConfigMissingAttr("target of crawler 'x'".to_owned())));
}

#[test]
fn type_is_required_and_inherited() {
    let outcome = parse_config("[DEFAULT]\nauth = a\n[a]\n[crawl:x]\ntarget = t\n");
    assert_eq!(outcome, Err(Error::ConfigEmptyAttr("type of crawler 'x'".to_owned())));
    let outcome = parse_config("[DEFAULT]\nauth = a\n[a]\n[crawl:x]\ntarget = t\ntype\n");
    assert_eq!(outcome, Err(Error::ConfigMissingAttr("type of crawler 'x'".to_owned())));
    let config = parse_config("[DEFAULT]\nauth = a\ntype = kit-ipd\n[a]\n[crawl:x]\ntarget = t\n").unwrap();
    assert_eq!(config.crawlers[0].crawler_type, "kit-ipd");
}

#[test]
fn unknown_type_fails_validation() {
    let outcome = parse_config("[DEFAULT]\nauth = a\n[a]\n[crawl:x]\ntarget = t\ntype = ftp\n");
    assert_eq!(
        outcome,
        Err(Error::FailedConfigParse("crawler 'x': crawler type 'ftp' does not exist".to_owned()))
    );
}

#[test]
fn every_known_type_is_accepted() {
    for known in ["kit-ilias-web", "kit-ipd", "ilias-web", "local"] {
        let text = format!("[DEFAULT]\nauth = a\n[a]\n[crawl:x]\ntarget = t\ntype = {known}\n");
        let config = parse_config(&text).unwrap();
        assert_eq!(config.crawlers[0].crawler_type, known);
    }
}

#[test]
fn dangling_auth_fails_validation() {
    let outcome = parse_config("[DEFAULT]\n[crawl:x]\ntarget = t\ntype = local\nauth = nowhere\n");
    assert_eq!(
        outcome,
        Err(Error::FailedConfigParse("crawler 'x': auth section 'nowhere' does not exist".to_owned()))
    );
    let outcome = parse_config("[DEFAULT]\n[crawl:x]\ntarget = t\ntype = local\n");
    assert_eq!(outcome, Err(Error::ConfigEmptyAttr("auth of crawler 'x'".to_owned())));
    let outcome = parse_config("[DEFAULT]\n[crawl:x]\ntarget = t\ntype = local\nauth\n");
    assert_eq!(outcome, Err(Error::ConfigMissingAttr("auth of crawler 'x'".to_owned())));
}

#[test]
fn videos_are_read_leniently_and_inherited() {
    let config = parse_config("[DEFAULT]\nauth = a\ntype = local\nvideos = On\n[a]\n[crawl:x]\ntarget = t\n[crawl:y]\ntarget = t\nvideos = 0\n").unwrap();
    assert!(config.crawlers[0].videos);
    assert!(!config.crawlers[1].videos);
    let outcome = parse_config("[DEFAULT]\nauth = a\ntype = local\n[a]\n[crawl:x]\ntarget = t\nvideos = maybe\n");
    assert_eq!(
        outcome,
        Err(Error::FailedConfigParse("Unable to parse value into bool at crawl:x:videos".to_owned()))
    );
}

#[test]
fn first_invalid_crawler_decides_the_error() {
    let outcome = parse_config("[DEFAULT]\nauth = a\ntype = local\n[a]\n[crawl:one]\ntarget = t\ntype = bad\n[crawl:two]\n");
    assert_eq!(
        outcome,
        Err(Error::FailedConfigParse("crawler 'one': crawler type 'bad' does not exist".to_owned()))
    );
}

#[test]
fn error_messages_read_as_sentences() {
    assert_eq!(Error::FailedConfigParse("x".to_owned()).message(), "failed parsing config: x");
    assert_eq!(Error::FailedConfigWrite("x".to_owned()).message(), "failed writing config: x");
    assert_eq!(Error::ConfigEmptyAttr("x".to_owned()).message(), "config attribute can't be empty: x");
    assert_eq!(Error::ConfigMissingAttr("x".to_owned()).message(), "config missing attribute: x");
    assert_eq!(Error::CrawlerDoesNotExist("x".to_owned()).message(), "crawler does not exist: x");
}
