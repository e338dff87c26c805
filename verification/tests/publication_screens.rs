use std::sync::Arc;

use rdbs_interface::manage::publication::{add_table, delete_table, rename_publication};
use rdbs_interface::task::{Job, Outcome, Request, Task};
use rdbs_interface::traits::{GetDb, Viewable};

type Db = Arc<u32>;

fn s(x: &str) -> String {
    x.to_string()
}

#[test]
fn add_table_opens_by_listing_publications() {
    let (v, task) = add_table::View::new(Arc::new(1));
    assert!(v.table_list.is_empty() && v.pub_list.is_empty());
    assert!(v.table_curr.is_none() && v.pub_curr.is_none() && v.errmsg.is_none());
    assert!((task) == (Task::Perform(Request {
            job: Job::ListPublications,
            on_success: add_table::Message::Pubs(vec![]),
            on_failure: add_table::Message::Error("Error occurred while getting publications"),
        })));
    assert_eq!(*v.get_db(), 1);
}

#[test]
fn choosing_a_publication_lists_its_missing_tables() {
    let (mut v, _) = add_table::View::<Db>::new(Arc::new(1));
    let task = v.update(add_table::Message::PubSelected(s("pub_a")));
    assert_eq!(v.pub_curr.as_deref(), Some("pub_a"));
    assert!((task) == (Task::Perform(Request {
            job: Job::ListUnpublishedTables { publication: s("pub_a") },
            on_success: add_table::Message::Tables(vec![]),
            on_failure: add_table::Message::Error("Couldn't update tables"),
        })));
}

#[test]
fn add_table_needs_publication_then_table() {
    let (mut v, _) = add_table::View::<Db>::new(Arc::new(1));
    assert!((v.update(add_table::Message::AddTable)) == (Task::Done(add_table::Message::Error("No publication provided"))));
    let _ = v.update(add_table::Message::PubSelected(s("pub_a")));
    assert!(!v.can_add());
    assert!((v.update(add_table::Message::AddTable)) == (Task::Done(add_table::Message::Error("No table provided"))));
}

#[test]
fn add_table_adds_then_refreshes() {
    let (mut v, _) = add_table::View::<Db>::new(Arc::new(1));
    let _ = v.update(add_table::Message::PubSelected(s("pub_a")));
    let _ = v.update(add_table::Message::TableSelected(s("orders")));
    assert!(v.can_add());
    let task = v.update(add_table::Message::AddTable);
    assert!((task) == (Task::Chain(
            Request {
                job: Job::AddTable { publication: s("pub_a"), table: s("orders") },
                on_success: add_table::Message::Clear,
                on_failure: add_table::Message::Error("Couldn't add table"),
            },
            Request {
                job: Job::ListUnpublishedTables { publication: s("pub_a") },
                on_success: add_table::Message::Tables(vec![]),
                on_failure: add_table::Message::Error("Couldn't update tables"),
            }
        )));
}

#[test]
fn add_table_lists_and_clear() {
    let (mut v, _) = add_table::View::<Db>::new(Arc::new(1));
    assert!((v.update(add_table::Message::Pubs(vec![s("a"), s("b")]))) == (Task::Nothing));
    assert!((v.update(add_table::Message::Tables(vec![s("t")]))) == (Task::Nothing));
    let _ = v.update(add_table::Message::PubSelected(s("a")));
    let _ = v.update(add_table::Message::TableSelected(s("t")));
    let _ = v.update(add_table::Message::Error("Couldn't add table"));
    assert_eq!(v.errmsg, Some("Couldn't add table"));
    assert!((v.update(add_table::Message::Clear)) == (Task::Nothing));
    assert!(v.table_curr.is_none() && v.pub_curr.is_none() && v.errmsg.is_none());
    assert!(v.table_list.is_empty());
    assert_eq!(v.pub_list, vec![s("a"), s("b")]);
}

#[test]
fn add_table_back_is_for_the_menu() {
    let (mut v, _) = add_table::View::<Db>::new(Arc::new(1));
    assert_eq!(v.back(), add_table::Message::Back);
    assert!((v.update(add_table::Message::Back)) == (Task::Done(add_table::Message::Error("This should have been propagated higher"))));
}

#[test]
fn fetched_rows_fill_the_reply() {
    let request = Request {
        job: Job::ListUnpublishedTables { publication: s("p") },
        on_success: add_table::Message::Tables(vec![]),
        on_failure: add_table::Message::Error("Couldn't update tables"),
    };
    assert_eq!(
        request.clone().resolve(Outcome::Rows(vec![s("x"), s("y")])),
        add_table::Message::Tables(vec![s("x"), s("y")])
    );
    assert_eq!(
        request.resolve(Outcome::Failed),
        add_table::Message::Error("Couldn't update tables")
    );
    let add = Request {
        job: Job::AddTable { publication: s("p"), table: s("t") },
        on_success: add_table::Message::Clear,
        on_failure: add_table::Message::Error("Couldn't add table"),
    };
    assert_eq!(add.resolve(Outcome::Completed), add_table::Message::Clear);
}

#[test]
fn rename_publication_flow() {
    let (mut v, task) = rename_publication::View::<Db>::new(Arc::new(3));
    assert!((task) == (Task::Perform(Request {
            job: Job::ListPublications,
            on_success: rename_publication::Message::Pubs(vec![]),
            on_failure: rename_publication::Message::Error(
                "Error occurred while getting publications"
            ),
        })));
    assert!(!v.can_rename());
    assert!((v.update(rename_publication::Message::RenamePub)) == (Task::Done(rename_publication::Message::Error("No publication provided"))));
    assert!((v.update(rename_publication::Message::PubSelected(s("old")))) == (Task::Nothing));
    assert!((v.update(rename_publication::Message::NewName(s("New")))) == (Task::Nothing));
    assert!(v.can_rename());
    assert!((v.update(rename_publication::Message::RenamePub)) == (Task::Perform(Request {
            job: Job::RenamePublication { publication: s("old"), new_name: s("New") },
            on_success: rename_publication::Message::Clear,
            on_failure: rename_publication::Message::Error("Couldn't rename publication"),
        })));
    let _ = v.update(rename_publication::Message::Error("boom"));
    assert!((v.update(rename_publication::Message::Clear)) == (Task::Perform(Request {
            job: Job::ListPublications,
            on_success: rename_publication::Message::Pubs(vec![]),
            on_failure: rename_publication::Message::Error("Couldn't update publications"),
        })));
    assert!(v.pub_curr.is_none() && v.errmsg.is_none() && v.new_name.is_empty());
}

#[test]
fn delete_table_placeholder() {
    let (mut v, task) = delete_table::View::<Db>::new(Arc::new(4));
    assert!((task) == (Task::Nothing));
    assert_eq!(v.back(), delete_table::Message::Back);
    assert!((v.update(delete_table::Message::Back)) == (Task::Nothing));
    assert_eq!(*v.get_db(), 4);
}
