use click_tracker::record::{ClickRecord, StoredClick};
use click_tracker::store::{
    insert_params, stored_click, StoreError, CREATE_TABLE, INSERT_CLICK, SELECT_CLICKS,
};

#[test]
fn create_table_is_repeatable() {
    assert!(CREATE_TABLE.starts_with("CREATE TABLE IF NOT EXISTS phishing_clicks ("));
    assert!(CREATE_TABLE.ends_with(")"));
}

#[test]
fn create_table_has_the_five_columns() {
    for column in [
        "id INT AUTO_INCREMENT PRIMARY KEY",
        "email VARCHAR(255) NOT NULL",
        "ip_address VARCHAR(50) NOT NULL",
        "user_agent TEXT NOT NULL",
        "clicked_at TIMESTAMP DEFAULT CURRENT_TIMESTAMP",
    ] {
        assert!(CREATE_TABLE.contains(column), "{}", column);
    }
    assert_eq!(CREATE_TABLE.matches(',').count(), 4);
}

#[test]
fn insert_has_three_placeholders() {
    assert_eq!(
        INSERT_CLICK,
        "INSERT INTO phishing_clicks (email, ip_address, user_agent) VALUES (?, ?, ?)"
    );
    assert_eq!(INSERT_CLICK.matches('?').count(), 3);
}

#[test]
fn select_reads_newest_first() {
    assert_eq!(
        SELECT_CLICKS,
        "SELECT email, ip_address, user_agent, clicked_at FROM phishing_clicks ORDER BY clicked_at DESC"
    );
}

#[test]
fn insert_params_follow_the_columns() {
    let record = ClickRecord {
        email: "alice@example.com".to_string(),
        ip_address: "10.0.0.5".to_string(),
        user_agent: "unknown".to_string(),
    };
    assert_eq!(
        insert_params(record),
        ("alice@example.com".to_string(), "10.0.0.5".to_string(), "unknown".to_string())
    );
}

#[test]
fn stored_click_follows_the_columns() {
    let row = (
        "alice@example.com".to_string(),
        "10.0.0.5".to_string(),
        "curl/8.5.0".to_string(),
        "2024-05-17 08:30:00".to_string(),
    );
    assert_eq!(
        stored_click(row),
        StoredClick {
            record: ClickRecord {
                email: "alice@example.com".to_string(),
                ip_address: "10.0.0.5".to_string(),
                user_agent: "curl/8.5.0".to_string(),
            },
            clicked_at: "2024-05-17 08:30:00".to_string(),
        }
    );
}

#[test]
fn row_of_inserted_params_is_the_record() {
    let record = ClickRecord {
        email: "e".to_string(),
        ip_address: "i".to_string(),
        user_agent: "u".to_string(),
    };
    let (email, ip_address, user_agent) = insert_params(record);
    let click = stored_click((email, ip_address, user_agent, "t".to_string()));
    assert_eq!(click.record.email, "e");
    assert_eq!(click.record.ip_address, "i");
    assert_eq!(click.record.user_agent, "u");
    assert_eq!(click.clicked_at, "t");
}

#[test]
fn store_errors_differ() {
    assert_ne!(StoreError::Connectivity, StoreError::Operation);
}
