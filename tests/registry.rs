use sync_module::broadcast::Outcome;
use sync_module::error::Error;
use sync_module::models::{AddProxyRequest, DeleteProxyRequest, Proxy};
use sync_module::registry::{confirm_created, ProxyService};

fn urls(reg: &ProxyService) -> Vec<String> {
    reg.get_proxies().into_iter().map(|p| p.url).collect()
}

#[test]
fn add_proxy_should_success_test() {
    let mut reg = ProxyService::new();
    let added = reg.add_probed_proxy("http://localhost:3000", &Outcome::Delivered);
    assert_eq!(added, Ok(Proxy { url: "http://localhost:3000".to_string() }));
    assert_eq!(urls(&reg), vec!["http://localhost:3000".to_string()]);
    assert_eq!(reg.delete_proxy("http://localhost:3000"), Ok(()));
    assert!(urls(&reg).is_empty());
}

#[test]
fn add_proxy_should_fail_test() {
    let mut reg = ProxyService::new();
    let probe = Outcome::Failed("error sending request for url (http://invalid/health)".to_string());
    let added = reg.add_probed_proxy("http://invalid", &probe);
    assert_eq!(added, Err(Error::CannotReachProxy));
    assert_eq!(Error::CannotReachProxy.status_code(), 400);
    assert!(urls(&reg).is_empty());
}

#[test]
fn delete_proxy_should_success_test() {
    let mut reg = ProxyService::new();
    reg.add_probed_proxy("http://localhost:3000", &Outcome::Delivered).unwrap();
    assert_eq!(reg.delete_proxy("http://localhost:3000"), Ok(()));
    assert!(!reg.contains("http://localhost:3000"));
}

#[test]
fn delete_proxy_should_fail_test() {
    // Deleting an unknown url is no error.
    let mut reg = ProxyService::new();
    assert_eq!(reg.delete_proxy("http://invalid"), Ok(()));
    assert!(urls(&reg).is_empty());
}

#[test]
fn get_proxies_should_success_test() {
    let mut reg = ProxyService::new();
    reg.add_proxy("http://localhost:3000").unwrap();
    let listed = reg.get_proxies();
    assert_eq!(listed, vec![Proxy { url: "http://localhost:3000".to_string() }]);
}

#[test]
fn add_new_url_gives_one_record() {
    let mut reg = ProxyService::new();
    reg.add_proxy("http://a").unwrap();
    let p = reg.add_proxy("http://b").unwrap();
    assert_eq!(p.url, "http://b");
    let listed = urls(&reg);
    assert_eq!(listed, vec!["http://a".to_string(), "http://b".to_string()]);
    assert_eq!(listed.iter().filter(|u| u.as_str() == "http://b").count(), 1);
}

#[test]
fn add_duplicate_url_is_refused_and_changes_nothing() {
    let mut reg = ProxyService::new();
    reg.add_proxy("http://a").unwrap();
    reg.add_proxy("http://b").unwrap();
    assert_eq!(reg.add_proxy("http://a"), Err(Error::ProxyAlreadyExists));
    assert_eq!(
        reg.add_probed_proxy("http://b", &Outcome::Delivered),
        Err(Error::ProxyAlreadyExists)
    );
    assert_eq!(urls(&reg), vec!["http://a".to_string(), "http://b".to_string()]);
}

#[test]
fn failed_probe_wins_over_duplicate() {
    let mut reg = ProxyService::new();
    reg.add_proxy("http://a").unwrap();
    let probe = Outcome::Failed("timeout".to_string());
    assert_eq!(reg.add_probed_proxy("http://a", &probe), Err(Error::CannotReachProxy));
    assert_eq!(urls(&reg), vec!["http://a".to_string()]);
}

#[test]
fn remove_twice_is_no_error() {
    let mut reg = ProxyService::new();
    reg.add_proxy("http://a").unwrap();
    reg.add_proxy("http://b").unwrap();
    reg.add_proxy("http://c").unwrap();
    assert_eq!(reg.delete_proxy("http://b"), Ok(()));
    assert_eq!(reg.delete_proxy("http://b"), Ok(()));
    assert_eq!(urls(&reg), vec!["http://a".to_string(), "http://c".to_string()]);
    assert!(!reg.contains("http://b"));
}

#[test]
fn init_keeps_first_record_of_each_url() {
    let records = vec![
        Proxy { url: "http://a".to_string() },
        Proxy { url: "http://b".to_string() },
        Proxy { url: "http://a".to_string() },
    ];
    let reg = ProxyService::init(&records);
    assert_eq!(urls(&reg), vec!["http://a".to_string(), "http://b".to_string()]);
    assert!(urls(&ProxyService::init(&Vec::new())).is_empty());
}

#[test]
fn confirm_created_checks_id_and_read_back() {
    let p = Proxy { url: "http://a".to_string() };
    assert_eq!(confirm_created(true, Some(p.clone())), Ok(p.clone()));
    assert_eq!(confirm_created(true, None), Err(Error::CannotCreateProxy));
    assert_eq!(confirm_created(false, Some(p)), Err(Error::Generic));
}

#[test]
fn requests_convert_to_records() {
    let a = Proxy::from(AddProxyRequest { url: "http://a".to_string() });
    assert_eq!(a.url, "http://a");
    let d = Proxy::from(DeleteProxyRequest { url: "http://d".to_string() });
    assert_eq!(d.url, "http://d");
}
