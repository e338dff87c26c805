use rdbs_interface::task::Job;

fn s(x: &str) -> String {
    x.to_string()
}

#[test]
fn list_publications_statement() {
    let job = Job::ListPublications;
    assert_eq!(job.statement(), "SELECT pubname FROM pg_publication;");
    assert!(job.parameters().is_empty());
    assert_eq!(job.column(), Some("pubname"));
}

#[test]
fn unpublished_tables_statement_binds_publication() {
    let job = Job::ListUnpublishedTables { publication: s("pub_a") };
    assert_eq!(
        job.statement(),
        "SELECT tablename FROM pg_tables WHERE schemaname = 'public' EXCEPT (SELECT tablename FROM pg_publication_tables WHERE schemaname = 'public' AND pubname = $1);"
    );
    assert_eq!(job.parameters(), vec![s("pub_a")]);
    assert_eq!(job.column(), Some("tablename"));
}

#[test]
fn add_table_statement() {
    let job = Job::AddTable { publication: s("pub_a"), table: s("orders") };
    assert_eq!(job.statement(), "ALTER PUBLICATION \"pub_a\" ADD TABLE public.\"orders\";");
    assert!(job.parameters().is_empty());
    assert_eq!(job.column(), None);
}

#[test]
fn rename_publication_plain_name_is_left_as_is() {
    let job = Job::RenamePublication { publication: s("pub_a"), new_name: s("pub_b") };
    assert_eq!(job.statement(), "ALTER PUBLICATION \"pub_a\" RENAME TO \"pub_b\";");
}

#[test]
fn rename_publication_quotes_mixed_case_name() {
    let job = Job::RenamePublication { publication: s("pub_a"), new_name: s("NewName") };
    assert_eq!(job.statement(), "ALTER PUBLICATION \"pub_a\" RENAME TO \"\"NewName\"\";");
}

#[test]
fn rename_publication_quotes_keyword() {
    let job = Job::RenamePublication { publication: s("p"), new_name: s("select") };
    assert_eq!(job.statement(), "ALTER PUBLICATION \"p\" RENAME TO \"\"select\"\";");
}

#[test]
fn rename_publication_doubles_embedded_quotes() {
    let job = Job::RenamePublication { publication: s("p"), new_name: s("a\"b") };
    assert_eq!(job.statement(), "ALTER PUBLICATION \"p\" RENAME TO \"\"a\"\"b\"\";");
}

#[test]
fn rename_publication_empty_name_is_not_quoted() {
    let job = Job::RenamePublication { publication: s("p"), new_name: s("") };
    assert_eq!(job.statement(), "ALTER PUBLICATION \"p\" RENAME TO \"\";");
}

#[test]
fn subscription_listing_statements() {
    assert_eq!(
        Job::ListEnabledSubscriptions.statement(),
        "SELECT subname FROM pg_subscription WHERE subenabled = 't';"
    );
    assert_eq!(Job::ListSubscriptions.statement(), "SELECT subname FROM pg_subscription;");
    assert_eq!(Job::ListEnabledSubscriptions.column(), Some("subname"));
    assert_eq!(Job::ListSubscriptions.column(), Some("subname"));
}

#[test]
fn disable_subscription_statement() {
    let job = Job::DisableSubscription { subscription: s("sub_1") };
    assert_eq!(job.statement(), "ALTER SUBSCRIPTION \"sub_1\" DISABLE;");
    assert_eq!(job.column(), None);
}

#[test]
fn rename_subscription_statement() {
    let plain = Job::RenameSubscription { subscription: s("sub_1"), new_name: s("sub_2") };
    assert_eq!(plain.statement(), "ALTER SUBSCRIPTION \"sub_1\" RENAME TO \"sub_2\";");
    let spaced = Job::RenameSubscription { subscription: s("sub_1"), new_name: s("my sub") };
    assert_eq!(spaced.statement(), "ALTER SUBSCRIPTION \"sub_1\" RENAME TO \"\"my sub\"\";");
    assert_eq!(spaced.column(), None);
}
