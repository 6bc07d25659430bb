use portfolio_store::error::StoreError;
use portfolio_store::model::{AppInfo, Category, DesignTheme, ExportResult, Portfolio, PortfolioData};
use portfolio_store::repository::{export_file_name, load_outcome, upsert_fits, DATA_DIR, DATA_FILE};
use std::collections::HashMap;

fn record(id: &str, number: i32, name: &str) -> Portfolio {
    let mut tech = HashMap::new();
    tech.insert("Rust".to_string(), "1.75".to_string());
    Portfolio {
        id: id.to_string(),
        number,
        name: name.to_string(),
        category: Category {
            id: "tool".to_string(),
            name: "Tool".to_string(),
            icon: "T".to_string(),
        },
        platform: "desktop".to_string(),
        description: "a record".to_string(),
        design_theme: DesignTheme {
            name: "dark".to_string(),
            bg: "#000".to_string(),
            text: "#fff".to_string(),
            accent: "#f00".to_string(),
            border: "#333".to_string(),
        },
        features: vec!["one".to_string(), "two".to_string()],
        tech_stack: tech,
        screens: vec!["main".to_string()],
        usage_steps: vec!["open".to_string()],
        version: "1.0.0".to_string(),
        created_at: "2024-01-01T00:00:00Z".to_string(),
    }
}

fn ids(d: &PortfolioData) -> Vec<String> {
    d.portfolios.iter().map(|p| p.id.clone()).collect()
}

#[test]
fn missing_file_loads_empty_store() {
    let d = load_outcome(None).unwrap();
    assert!(d.portfolios.is_empty());
    assert_eq!(d.next_number, 1);
}

#[test]
fn found_file_outcome_is_passed_on() {
    let mut d = PortfolioData::empty();
    d.upsert(record("a", 3, "A"));
    assert_eq!(load_outcome(Some(Ok(d.clone()))), Ok(d));
    let e = StoreError::Parse("expected value".to_string());
    assert_eq!(load_outcome(Some(Err(e.clone()))), Err(e));
}

#[test]
fn upsert_new_goes_to_front() {
    let mut d = PortfolioData::empty();
    d.upsert(record("a", 1, "A"));
    d.upsert(record("b", 2, "B"));
    d.upsert(record("c", 3, "C"));
    assert_eq!(ids(&d), vec!["c", "b", "a"]);
    assert_eq!(d.next_number, 4);
}

#[test]
fn upsert_existing_replaces_in_place() {
    let mut d = PortfolioData::empty();
    d.upsert(record("a", 1, "A"));
    d.upsert(record("b", 2, "B"));
    d.upsert(record("c", 3, "C"));
    d.upsert(record("b", 9, "B2"));
    assert_eq!(ids(&d), vec!["c", "b", "a"]);
    assert_eq!(d.portfolios[1].name, "B2");
    assert_eq!(d.portfolios[1].number, 9);
    assert_eq!(d.next_number, 4);
}

#[test]
fn smaller_number_keeps_next_number() {
    let mut d = PortfolioData::empty();
    d.upsert(record("a", 10, "A"));
    assert_eq!(d.next_number, 11);
    d.upsert(record("b", 4, "B"));
    assert_eq!(d.next_number, 11);
    d.upsert(record("c", 10, "C"));
    assert_eq!(d.next_number, 11);
    d.upsert(record("d", 11, "D"));
    assert_eq!(d.next_number, 12);
}

#[test]
fn delete_absent_changes_nothing() {
    let mut d = PortfolioData::empty();
    d.upsert(record("a", 1, "A"));
    d.upsert(record("b", 2, "B"));
    let before = d.clone();
    d.remove_id(&"zzz".to_string());
    assert_eq!(d, before);
}

#[test]
fn delete_only_entry_removes_one() {
    let mut d = PortfolioData::empty();
    d.upsert(record("a", 1, "A"));
    d.upsert(record("b", 2, "B"));
    d.upsert(record("c", 3, "C"));
    d.remove_id(&"b".to_string());
    assert_eq!(ids(&d), vec!["c", "a"]);
    assert_eq!(d.next_number, 4);
}

#[test]
fn delete_removes_every_match() {
    let mut d = PortfolioData {
        portfolios: vec![record("x", 1, "X"), record("y", 2, "Y"), record("x", 3, "X")],
        next_number: 7,
    };
    d.remove_id(&"x".to_string());
    assert_eq!(ids(&d), vec!["y"]);
    assert_eq!(d.next_number, 7);
}

#[test]
fn delete_from_empty_store() {
    let mut d = PortfolioData::empty();
    d.remove_id(&"a".to_string());
    assert_eq!(d, PortfolioData::empty());
}

#[test]
fn example_session() {
    let mut d = PortfolioData::empty();
    d.upsert(record("a", 1, "X"));
    assert_eq!(ids(&d), vec!["a"]);
    assert_eq!(d.next_number, 2);
    d.upsert(record("b", 5, "Y"));
    assert_eq!(ids(&d), vec!["b", "a"]);
    assert_eq!(d.next_number, 6);
    d.upsert(record("a", 1, "X2"));
    assert_eq!(ids(&d), vec!["b", "a"]);
    assert_eq!(d.portfolios[1].name, "X2");
    assert_eq!(d.next_number, 6);
    d.remove_id(&"b".to_string());
    assert_eq!(ids(&d), vec!["a"]);
    let name = export_file_name(&d.portfolios[0].name);
    assert_eq!(name, "X2.md");
    let r = ExportResult::written("/home/u/Downloads/X2.md".to_string());
    assert!(r.success);
    assert_eq!(r.path, Some("/home/u/Downloads/X2.md".to_string()));
}

#[test]
fn position_of_finds_first_match() {
    let d = PortfolioData {
        portfolios: vec![record("x", 1, "X"), record("y", 2, "Y"), record("y", 3, "Y")],
        next_number: 4,
    };
    assert_eq!(d.position_of(&"y".to_string()), Some(1));
    assert_eq!(d.position_of(&"x".to_string()), Some(0));
    assert_eq!(d.position_of(&"z".to_string()), None);
}

#[test]
fn largest_number_only_fits_an_update() {
    let mut d = PortfolioData::empty();
    assert!(!upsert_fits(&d, &record("a", i32::MAX, "A")));
    assert!(upsert_fits(&d, &record("a", i32::MAX - 1, "A")));
    d.upsert(record("a", i32::MAX - 1, "A"));
    assert_eq!(d.next_number, i32::MAX);
    assert!(upsert_fits(&d, &record("a", i32::MAX, "A")));
    d.upsert(record("a", i32::MAX, "A"));
    assert_eq!(d.portfolios.len(), 1);
    assert_eq!(d.next_number, i32::MAX);
}

#[test]
fn export_name_replaces_spaces() {
    assert_eq!(export_file_name(&"My Cool  App".to_string()), "My_Cool__App.md");
    assert_eq!(export_file_name(&"".to_string()), ".md");
    assert_eq!(export_file_name(&"Café Ünï".to_string()), "Café_Ünï.md");
}

#[test]
fn error_messages() {
    assert_eq!(StoreError::HomeLocation.message(), "Failed to get home directory");
    assert_eq!(StoreError::DownloadsLocation.message(), "Failed to get downloads directory");
    assert_eq!(StoreError::Read("denied".to_string()).message(), "Failed to read data: denied");
    assert_eq!(StoreError::Parse("eof".to_string()).message(), "Failed to parse data: eof");
    assert_eq!(
        StoreError::Directory("denied".to_string()).message(),
        "Failed to create directory: denied"
    );
    assert_eq!(
        StoreError::Serialize("bad".to_string()).message(),
        "Failed to serialize data: bad"
    );
    assert_eq!(StoreError::Write("full".to_string()).message(), "Failed to write data: full");
    assert_eq!(StoreError::ExportWrite("full".to_string()).message(), "Failed to write file: full");
}

#[test]
fn app_info_and_location() {
    let info = AppInfo::describe("0.1.0".to_string(), "/home/u/.portfolio-generator/portfolios.json".to_string());
    assert_eq!(info.name, "Portfolio Generator");
    assert_eq!(info.version, "0.1.0");
    assert_eq!(info.data_path, "/home/u/.portfolio-generator/portfolios.json");
    assert_eq!(DATA_DIR, ".portfolio-generator");
    assert_eq!(DATA_FILE, "portfolios.json");
}
