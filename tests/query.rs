use tendhost::inventory::extract_table_name;
use tendhost::inventory::query::{self as queries, Query};

#[test]
fn test_query_builder() {
    let query = Query::new("deb_packages".to_string())
        .select(&["name", "version"])
        .where_eq("arch", "amd64")
        .limit(10);

    let sql = query.build();
    assert!(sql.contains("SELECT name, version FROM deb_packages"));
    assert!(sql.contains("WHERE arch = 'amd64'"));
    assert!(sql.contains("LIMIT 10"));
}

#[test]
fn test_query_where_like() {
    let query = Query::new("deb_packages".to_string()).where_like("name", "lib%");

    let sql = query.build();
    assert!(sql.contains("WHERE name LIKE 'lib%'"));
}

#[test]
fn test_predefined_queries() {
    let query = queries::system_info();
    let sql = query.build();
    assert!(sql.contains("SELECT"));
    assert!(sql.contains("FROM system_info"));
}

#[test]
fn test_sql_injection_prevention() {
    let query = Query::new("deb_packages".to_string()).where_eq("name", "test' OR '1'='1");

    let sql = query.build();
    // Single quotes should be escaped
    assert!(sql.contains("test'' OR ''1''=''1"));
}

#[test]
fn test_where_in() {
    let query = Query::new("deb_packages".to_string()).where_in("arch", &["amd64", "arm64"]);

    let sql = query.build();
    assert!(sql.contains("WHERE arch IN ('amd64', 'arm64')"));
}

#[test]
fn test_order_by() {
    let query = Query::new("deb_packages".to_string()).order_by("name", true);

    let sql = query.build();
    assert!(sql.contains("ORDER BY name ASC"));
}

#[test]
fn test_extract_table_name() {
    assert_eq!(
        extract_table_name("SELECT * FROM deb_packages"),
        Some("deb_packages".to_string())
    );
    assert_eq!(
        extract_table_name("SELECT * FROM os_version WHERE name = 'Ubuntu'"),
        Some("os_version".to_string())
    );
}

#[test]
fn full_query_text_is_exact() {
    let sql = Query::new("mounts".to_string())
        .select(&["device", "path"])
        .where_eq("type", "ext4")
        .where_like("path", "/var%")
        .order_by("device", false)
        .limit(3)
        .build();
    assert_eq!(
        sql,
        "SELECT device, path FROM mounts WHERE type = 'ext4' AND path LIKE '/var%' ORDER BY device DESC LIMIT 3"
    );
    assert_eq!(Query::new("uptime".to_string()).build(), "SELECT * FROM uptime");
}

#[test]
fn predefined_cpu_query_has_limit() {
    assert_eq!(
        queries::cpu_info().build(),
        "SELECT brand as model, vendor, physical_cores, logical_cores, max_mhz as mhz FROM cpu_info LIMIT 1"
    );
    assert_eq!(queries::kernel_info().to_string(), "SELECT version, arguments FROM kernel_info");
}

#[test]
fn table_name_in_any_letter_case() {
    assert_eq!(extract_table_name("select id from Docker_Images;"), Some("Docker_Images".to_string()));
    assert_eq!(extract_table_name("SELECT 1"), None);
}
