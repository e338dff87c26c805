use std::sync::Arc;

use rdbs_interface::manage::{self, publication, publication::add_table};
use rdbs_interface::manage::subscription::{self, rename_sub};
use rdbs_interface::root::{Message, View, ViewVariant};
use rdbs_interface::task::{Job, Outcome, Request, Task};

type Db = Arc<u32>;

fn s(x: &str) -> String {
    x.to_string()
}

#[test]
fn rows_reach_the_add_table_screen() {
    let request = Request {
        job: Job::ListPublications,
        on_success: add_table::Message::Pubs(vec![]),
        on_failure: add_table::Message::Error("Error occurred while getting publications"),
    };
    let lifted = request
        .lift::<publication::Message>()
        .lift::<manage::Message>()
        .lift::<Message<Db>>();
    assert!(lifted.job == Job::ListPublications);
    let delivered = lifted.clone().resolve(Outcome::Rows(vec![s("p1"), s("p2")]));
    assert!(
        delivered
            == Message::Manage(manage::Message::PubMsg(publication::Message::AddTableMsg(
                add_table::Message::Pubs(vec![s("p1"), s("p2")])
            )))
    );
    let failed = lifted.resolve(Outcome::Failed);
    assert!(
        failed
            == Message::Manage(manage::Message::PubMsg(publication::Message::AddTableMsg(
                add_table::Message::Error("Error occurred while getting publications")
            )))
    );
}

#[test]
fn rows_reach_the_rename_subscription_screen() {
    let request = Request {
        job: Job::ListSubscriptions,
        on_success: rename_sub::Message::Subs(vec![]),
        on_failure: rename_sub::Message::Error("Couldn't update subscriptions"),
    };
    let delivered = request
        .lift::<subscription::Message>()
        .lift::<manage::Message>()
        .lift::<Message<Db>>()
        .resolve(Outcome::Rows(vec![s("s1")]));
    assert!(
        delivered
            == Message::Manage(manage::Message::SubMsg(subscription::Message::RenameSub(
                rename_sub::Message::Subs(vec![s("s1")])
            )))
    );
}

#[test]
fn lifting_keeps_chains_and_focus() {
    let chain: Task<add_table::Message> = Task::Chain(
        Request {
            job: Job::AddTable { publication: s("p"), table: s("t") },
            on_success: add_table::Message::Clear,
            on_failure: add_table::Message::Error("Couldn't add table"),
        },
        Request {
            job: Job::ListUnpublishedTables { publication: s("p") },
            on_success: add_table::Message::Tables(vec![]),
            on_failure: add_table::Message::Error("Couldn't update tables"),
        },
    );
    let lifted = chain.lift::<publication::Message>();
    assert!(
        lifted
            == Task::Chain(
                Request {
                    job: Job::AddTable { publication: s("p"), table: s("t") },
                    on_success: publication::Message::AddTableMsg(add_table::Message::Clear),
                    on_failure: publication::Message::AddTableMsg(add_table::Message::Error(
                        "Couldn't add table"
                    )),
                },
                Request {
                    job: Job::ListUnpublishedTables { publication: s("p") },
                    on_success: publication::Message::AddTableMsg(add_table::Message::Tables(
                        vec![]
                    )),
                    on_failure: publication::Message::AddTableMsg(add_table::Message::Error(
                        "Couldn't update tables"
                    )),
                }
            )
    );
    assert!(Task::<add_table::Message>::FocusNext.lift::<publication::Message>() == Task::FocusNext);
    assert!(Task::<add_table::Message>::Nothing.lift::<publication::Message>() == Task::Nothing);
}

#[test]
fn fetched_publications_fill_the_open_screen() {
    let mut v = View::<Db>::default();
    let _ = v.update(Message::connected(Arc::new(3)));
    let _ = v.update(Message::Manage(manage::Message::PubChosen));
    let task = v.update(Message::Manage(manage::Message::PubMsg(publication::Message::AddTable)));
    let request = match task {
        Task::Perform(r) => r,
        _ => panic!("opening the add-table screen fetches the publications"),
    };
    assert!(request.job == Job::ListPublications);
    let reply = request.resolve(Outcome::Rows(vec![s("pub_a")]));
    assert!(v.update(reply) == Task::Nothing);
    match &v.view {
        ViewVariant::Manage(m) => match &m.view {
            manage::ViewVariant::Pub(p) => match &p.view {
                publication::ViewVariant::AddTable(a) => assert_eq!(a.pub_list, vec![s("pub_a")]),
                _ => panic!("the add-table screen should be open"),
            },
            _ => panic!("the publication manager should be open"),
        },
        _ => panic!("should be logged in"),
    }
}
