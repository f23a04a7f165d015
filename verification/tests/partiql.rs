use telemetry_rust::middleware::aws::instrumentation::fluent_builder::utils::partiql::{
    parse_partiql_statement, parse_table_identifier, TableReference,
};

#[test]
fn test_parse_statement() {
    let cases: Vec<(&str, &str, Option<&str>)> = vec![
        (r#"SELECT * FROM "Users" WHERE id = 1"#, "Users", None),
        ("SELECT * FROM Users WHERE id = 1", "Users", None),
        ("select * from Users where id = 1", "Users", None),
        (
            r#"SELECT * FROM "Users"."EmailIndex" WHERE email = 'test@example.com'"#,
            "Users",
            Some("EmailIndex"),
        ),
        (r#"INSERT INTO "Music" VALUE {'Artist': 'Acme Band', 'SongTitle': 'PartiQL Rocks'}"#, "Music", None),
        ("INSERT INTO Orders VALUE {'id': 1, 'total': 100}", "Orders", None),
        ("insert into Orders value {'id': 1, 'total': 100}", "Orders", None),
        (
            r#"
            INSERT
            INTO
            "Music"
            VALUE
            {'Artist': 'Acme Band', 'SongTitle': 'PartiQL Rocks'}
        "#,
            "Music",
            None,
        ),
        (r#"UPDATE "Music" SET AwardsWon=1 WHERE Artist='Acme Band'"#, "Music", None),
        ("UPDATE Orders SET total = 150 WHERE id = 1", "Orders", None),
        (r#"DELETE FROM "Music" WHERE Artist='Acme Band'"#, "Music", None),
        ("DELETE FROM Orders WHERE id = 1", "Orders", None),
        ("delete from Orders where id = 1", "Orders", None),
        (
            r#"
            SELECT OrderID, Total
            FROM "Orders"."StatusIndex"
            WHERE OrderID = 1
        "#,
            "Orders",
            Some("StatusIndex"),
        ),
        (
            r#"
            SELECT OrderID, Total
            FROM "Orders"
            WHERE OrderID IN [1, 2, 3]
            ORDER BY OrderID DESC
        "#,
            "Orders",
            None,
        ),
        ("INVALID STATEMENT", "", None),
    ];
    for (statement, expected_table_name, expected_index_name) in cases {
        let table = TableReference::from(statement);
        assert_eq!(table.name, expected_table_name, "{statement}");
        assert_eq!(table.index_name, expected_index_name, "{statement}");
    }
}

#[test]
fn partiql_statement_without_table_keyword_names_no_table() {
    assert!(parse_partiql_statement("SELECT 1").is_none());
    let table = parse_partiql_statement("SELECT a FROM T").expect("table");
    assert_eq!(table.name, "T");
}

#[test]
fn table_identifier_with_index() {
    let t = parse_table_identifier(r#""Users"."ByEmail""#);
    assert_eq!(t.name, "Users");
    assert_eq!(t.index_name, Some("ByEmail"));
    let plain = parse_table_identifier("Users");
    assert_eq!(plain.name, "Users");
    assert_eq!(plain.index_name, None);
}

#[test]
fn table_reference_index_attribute() {
    let t = TableReference::new("Users", Some("ByEmail"));
    let attr = t.index_name().expect("index attribute");
    assert_eq!(attr.key, "aws.dynamodb.index_name");
    let none = TableReference::new("Users", None);
    assert!(none.index_name().is_none());
}
