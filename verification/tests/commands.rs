use config_bridge::commands::{greet, load_service_config};
use config_bridge::loader::ReadFailure;
use config_bridge::locator::{BaseKind, ResolvedPath, ResourceLocator};
use std::cell::{Cell, RefCell};

const SERVICE_FILE: &str = "[service]\nport = 8080\nname = \"svc\"";
const INSTALLED_AT: &str = "/opt/app/resources/config/serviceConfig.toml";

fn installed(_locator: &ResourceLocator) -> Result<ResolvedPath, String> {
    Ok(ResolvedPath { path: INSTALLED_AT.to_string() })
}

#[test]
fn greet_ada() {
    assert_eq!(greet("Ada"), "Hello, Ada! You've been greeted from Rust!");
}

#[test]
fn greet_empty_name() {
    assert_eq!(greet(""), "Hello, ! You've been greeted from Rust!");
}

#[test]
fn greet_keeps_braces_verbatim() {
    assert_eq!(greet("{}"), "Hello, {}! You've been greeted from Rust!");
    assert_eq!(greet("a{}b{0}"), "Hello, a{}b{0}! You've been greeted from Rust!");
}

#[test]
fn greet_keeps_non_ascii_names() {
    assert_eq!(greet("Zoë 🦀"), "Hello, Zoë 🦀! You've been greeted from Rust!");
}

#[test]
fn greet_name_reads_back_from_greeting() {
    let prefix = "Hello, ";
    let suffix = "! You've been greeted from Rust!";
    for name in ["Ada", "", "{}", "! You've been greeted from Rust!", "Hello, "] {
        let greeting = greet(name);
        assert_eq!(greeting.len(), prefix.len() + name.len() + suffix.len());
        assert!(greeting.starts_with(prefix));
        assert!(greeting.ends_with(suffix));
        assert_eq!(&greeting[prefix.len()..greeting.len() - suffix.len()], name);
    }
}

#[test]
fn greet_distinct_names_give_distinct_greetings() {
    assert_ne!(greet("Ada"), greet("Ada "));
    assert_ne!(greet("a"), greet("b"));
}

#[test]
fn load_service_config_returns_service_table() {
    let document = load_service_config(installed, |_path: &ResolvedPath| {
        Ok(SERVICE_FILE.to_string())
    })
    .expect("a well-formed file loads");
    let service = document.get("service").expect("the key `service` is present");
    assert!(service.is_table());
    assert_eq!(service.get("port"), Some(&toml::Value::Integer(8080)));
    assert_eq!(service.get("name"), Some(&toml::Value::String("svc".to_string())));
    assert_eq!(service.as_table().map(|table| table.len()), Some(2));
    assert_eq!(document.as_table().map(|table| table.len()), Some(1));
}

#[test]
fn load_service_config_asks_for_the_bundled_resource() {
    let asked: RefCell<Vec<ResourceLocator>> = RefCell::new(Vec::new());
    let read: RefCell<Vec<String>> = RefCell::new(Vec::new());
    let out = load_service_config(
        |locator: &ResourceLocator| {
            asked.borrow_mut().push(locator.clone());
            Ok(ResolvedPath { path: INSTALLED_AT.to_string() })
        },
        |resolved: &ResolvedPath| {
            read.borrow_mut().push(resolved.path.clone());
            Ok(SERVICE_FILE.to_string())
        },
    );
    assert!(out.is_ok());
    assert_eq!(
        *asked.borrow(),
        vec![ResourceLocator {
            logical_path: "resources/config/serviceConfig.toml".to_string(),
            base: BaseKind::Resource,
        }]
    );
    assert_eq!(*read.borrow(), vec![INSTALLED_AT.to_string()]);
}

#[test]
fn load_service_config_reports_unresolved_path_as_text() {
    let reads = Cell::new(0u32);
    let out = load_service_config(
        |_locator: &ResourceLocator| Err("unknown path".to_string()),
        |_resolved: &ResolvedPath| {
            reads.set(reads.get() + 1);
            Ok(SERVICE_FILE.to_string())
        },
    );
    assert_eq!(out, Err("Failed to resolve config path: unknown path".to_string()));
    assert_eq!(reads.get(), 0);
}

#[test]
fn load_service_config_reports_missing_file_as_text() {
    let out = load_service_config(installed, |_resolved: &ResolvedPath| {
        Err(ReadFailure::Open { reason: "No such file or directory (os error 2)".to_string() })
    });
    assert_eq!(
        out,
        Err(format!(
            "Failed to open config file at {}: No such file or directory (os error 2)",
            INSTALLED_AT
        ))
    );
}

#[test]
fn load_service_config_reports_read_failure_as_text() {
    let out = load_service_config(installed, |_resolved: &ResolvedPath| {
        Err(ReadFailure::Read { reason: "stream did not contain valid UTF-8".to_string() })
    });
    assert_eq!(
        out,
        Err("Failed to read config file: stream did not contain valid UTF-8".to_string())
    );
}

#[test]
fn load_service_config_reports_malformed_file_as_text() {
    let out = load_service_config(installed, |_resolved: &ResolvedPath| {
        Ok("[service\nport = 8080".to_string())
    });
    let message = out.expect_err("an unterminated table header is refused");
    assert!(message.starts_with("Failed to parse TOML file: TOML parse error at line 1, column "));
}

#[test]
fn load_service_config_sees_the_file_as_it_is_now() {
    let version = Cell::new(0i64);
    let reader = |_resolved: &ResolvedPath| {
        version.set(version.get() + 1);
        Ok(format!("[service]\nport = {}", version.get()))
    };
    let first = load_service_config(installed, &reader).expect("loads");
    let second = load_service_config(installed, &reader).expect("loads");
    assert_eq!(first["service"]["port"], toml::Value::Integer(1));
    assert_eq!(second["service"]["port"], toml::Value::Integer(2));
}

#[test]
fn load_service_config_repeats_on_an_unchanged_file() {
    let reader = |_resolved: &ResolvedPath| Ok(SERVICE_FILE.to_string());
    let first = load_service_config(installed, &reader);
    for _ in 0..8 {
        assert_eq!(load_service_config(installed, &reader), first);
    }
    assert!(first.is_ok());
}
