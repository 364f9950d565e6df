use board::models::app::{find_label, ContainerInfo};
use board::models::category::LabelFilter;
use board::models::config::{
    get_default_docker_uri, get_default_expires, get_default_log_level, get_default_maxage,
    get_default_port,
};
use board::{get_default_apps, App, Category, Configuration, CustomError, User};

fn label(k: &str, v: &str) -> (String, String) {
    (k.to_string(), v.to_string())
}

fn container(labels: Option<Vec<(String, String)>>) -> ContainerInfo {
    ContainerInfo {
        labels,
        id: Some("c0ffee".to_string()),
        names: Some(vec!["/web".to_string()]),
        image: Some("nginx:latest".to_string()),
        image_id: Some("sha256:1".to_string()),
        state: Some("running".to_string()),
    }
}

fn app(name: &str, url: &str) -> App {
    App {
        name: name.to_string(),
        description: String::new(),
        url: url.to_string(),
        icon: String::new(),
        new_tab: true,
        container_id: None,
        container_name: None,
        image_name: None,
        image_id: None,
        state: None,
    }
}

fn user(name: &str, password: &str) -> User {
    User { name: name.to_string(), hashed_password: password.to_string(), active: true }
}

fn config() -> Configuration {
    Configuration {
        url: "http://localhost:6969".to_string(),
        port: 6969,
        log_level: "debug".to_string(),
        jwt_secret: "s3cret".to_string(),
        jwt_expires_in: "60m".to_string(),
        jwt_maxage: 60,
        board_name: "My board".to_string(),
        users: vec![user("ana", "pw1"), user("bob", "pw2"), user("ana", "other")],
        categories: vec![
            Category {
                name: "media".to_string(),
                icon: "film".to_string(),
                description: "Films".to_string(),
                apps: vec![app("jellyfin", "http://jf")],
            },
            Category { name: "tools".to_string(), icon: "wrench".to_string(), description: String::new(), apps: vec![] },
        ],
        docker_uri: Some("unix:///var/run/docker.sock".to_string()),
    }
}

#[test]
fn defaults_are_the_documented_ones() {
    assert_eq!(get_default_log_level(), "info");
    assert_eq!(get_default_port(), 6969);
    assert_eq!(get_default_expires(), "60m");
    assert_eq!(get_default_maxage(), 60);
    assert_eq!(get_default_docker_uri(), None);
    assert!(get_default_apps().is_empty());
}

#[test]
fn getters_read_the_configuration() {
    let c = config();
    assert_eq!(c.get_log_level(), "debug");
    assert_eq!(c.get_port(), 6969);
    assert_eq!(c.get_url(), "http://localhost:6969");
    assert_eq!(c.get_secret(), "s3cret");
    assert_eq!(c.get_board_name(), "My board");
    assert_eq!(c.get_categories().len(), 2);
    assert_eq!(c.get_docker_uri(), Some("unix:///var/run/docker.sock".to_string()));
}

#[test]
fn get_user_finds_the_first_user_with_the_name() {
    let c = config();
    let ana = c.get_user("ana").unwrap();
    assert_eq!(ana.name, "ana");
    assert_eq!(ana.hashed_password, "pw1");
    assert_eq!(c.get_user("bob").unwrap().hashed_password, "pw2");
    assert!(c.get_user("carol").is_none());
    assert!(c.get_user("Ana").is_none());
}

#[test]
fn get_category_by_name_copies_the_category() {
    let c = config();
    let media = c.get_category_by_name("media").unwrap();
    assert_eq!(media.icon, "film");
    assert_eq!(media.apps.len(), 1);
    assert_eq!(media.apps[0].name, "jellyfin");
    assert!(c.get_category_by_name("games").is_none());
}

#[test]
fn category_has_app_by_name_or_url() {
    let c = config();
    let media = &c.get_categories()[0];
    assert!(Configuration::category_has_app(media, &app("jellyfin", "http://other")));
    assert!(Configuration::category_has_app(media, &app("other", "http://jf")));
    assert!(!Configuration::category_has_app(media, &app("plex", "http://plex")));
    assert!(!Configuration::category_has_app(&c.get_categories()[1], &app("jellyfin", "http://jf")));
}

#[test]
fn add_app_in_category_answers_and_leaves_configuration_alone() {
    let mut c = config();
    assert_eq!(c.add_app_in_category("media", app("plex", "http://plex")), Ok("Added: plex".to_string()));
    assert_eq!(
        c.add_app_in_category("media", app("jellyfin", "http://x")),
        Err("Can not add. App exists: jellyfin".to_string())
    );
    assert_eq!(c.add_app_in_category("games", app("steam", "http://s")), Err("Can not add: steam".to_string()));
    // The check works on a copy: the configuration keeps its applications.
    assert_eq!(c.get_categories()[0].apps.len(), 1);
}

#[test]
fn custom_error_displays_its_message() {
    let e = CustomError::new("boom".to_string());
    assert_eq!(e.to_string(), "Error: boom");
    assert_eq!(e.clone().to_string(), "Error: boom");
}

#[test]
fn find_label_reads_the_first_binding() {
    let labels = vec![label("a", "1"), label("b", "2"), label("a", "3")];
    assert_eq!(find_label(&labels, "a"), Some("1".to_string()));
    assert_eq!(find_label(&labels, "b"), Some("2".to_string()));
    assert_eq!(find_label(&labels, "c"), None);
}

#[test]
fn from_summary_reads_labels_with_defaults() {
    let s = container(Some(vec![label("es.atareao.board.name", "Web")]));
    let a = App::from_summary(s);
    assert_eq!(a.name, "Web");
    assert_eq!(a.description, "");
    assert_eq!(a.url, "");
    assert_eq!(a.icon, "");
    assert!(a.new_tab);
    assert_eq!(a.container_id, Some("c0ffee".to_string()));
    assert_eq!(a.container_name, Some(vec!["/web".to_string()]));
    assert_eq!(a.image_name, Some("nginx:latest".to_string()));
    assert_eq!(a.image_id, Some("sha256:1".to_string()));
    assert_eq!(a.state, Some("running".to_string()));
}

#[test]
fn from_summary_reads_every_label() {
    let s = container(Some(vec![
        label("es.atareao.board.name", "Web"),
        label("es.atareao.board.description", "A web server"),
        label("es.atareao.board.url", "https://web"),
        label("es.atareao.board.icon", "globe"),
        label("es.atareao.board.new_tab", "false"),
    ]));
    let a = App::from_summary(s);
    assert_eq!(a.description, "A web server");
    assert_eq!(a.url, "https://web");
    assert_eq!(a.icon, "globe");
    assert!(!a.new_tab);
    let t = App::from_summary(container(Some(vec![
        label("es.atareao.board.name", "Web"),
        label("es.atareao.board.new_tab", "true"),
    ])));
    assert!(t.new_tab);
    let u = App::from_summary(container(Some(vec![
        label("es.atareao.board.name", "Web"),
        label("es.atareao.board.new_tab", "TRUE"),
    ])));
    assert!(!u.new_tab);
}

#[test]
fn app_clone_keeps_every_field() {
    let a = App::from_summary(container(Some(vec![label("es.atareao.board.name", "Web")])));
    let b = a.clone();
    assert_eq!(b.name, a.name);
    assert_eq!(b.container_name, a.container_name);
    assert_eq!(b.state, a.state);
}

#[test]
fn container_filters_select_the_category() {
    let c = Category { name: "media".to_string(), icon: String::new(), description: String::new(), apps: vec![] };
    let f = c.container_filters();
    assert_eq!(f.len(), 3);
    assert!(matches!(&f[0], LabelFilter::Label(k, v) if k == "es.atareao.board.active" && v == "true"));
    assert!(matches!(&f[1], LabelFilter::Label(k, v) if k == "es.atareao.board.category" && v == "media"));
    assert!(matches!(&f[2], LabelFilter::LabelKey(k) if k == "es.atareao.board.name"));
}

#[test]
fn init_fills_apps_from_the_listing() {
    let mut c = Category {
        name: "media".to_string(),
        icon: String::new(),
        description: String::new(),
        apps: vec![app("old", "http://old")],
    };
    c.init(Some(vec![
        container(Some(vec![label("es.atareao.board.name", "One")])),
        container(Some(vec![label("es.atareao.board.name", "Two"), label("es.atareao.board.url", "http://two")])),
    ]));
    assert_eq!(c.apps.len(), 2);
    assert_eq!(c.apps[0].name, "One");
    assert_eq!(c.apps[1].url, "http://two");
    assert_eq!(c.name, "media");
}

#[test]
fn init_without_listing_empties_the_category() {
    let mut c = Category {
        name: "media".to_string(),
        icon: String::new(),
        description: String::new(),
        apps: vec![app("old", "http://old")],
    };
    c.init(None);
    assert!(c.apps.is_empty());
    c.init(Some(vec![]));
    assert!(c.apps.is_empty());
}

#[test]
fn labels_with_distinct_keys_read_as_docker_label_map() {
    let labels = vec![
        label("es.atareao.board.name", "Web"),
        label("es.atareao.board.url", "http://web"),
        label("other", "x"),
    ];
    let map: std::collections::HashMap<String, String> = labels.iter().cloned().collect();
    for key in ["es.atareao.board.name", "es.atareao.board.url", "other", "missing"] {
        assert_eq!(find_label(&labels, key), map.get(key).cloned());
    }
}
