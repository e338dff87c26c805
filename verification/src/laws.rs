//! Properties of the screens as a whole, proved from their transition relations.
use vstd::prelude::*;

use crate::manage::publication::{self, add_table, rename_publication};
use crate::manage::subscription::{self, disable_sub, rename_sub};
use crate::manage;
use crate::root;
use crate::auth;
use crate::task::{Credentials, Job, Outcome, Request, Rows, Task, Wrap};

verus! {

/// Every message handled by the table-adding screen keeps its connection.
pub proof fn add_table_keeps_connection<DB>(
    v: add_table::View<DB>,
    m: add_table::Message,
    n: add_table::View<DB>,
    t: Task<add_table::Message>,
)
    requires
        v.step(m, n, t),
    ensures
        n.client == v.client,
{
}

/// Every message handled by the publication-renaming screen keeps its connection.
pub proof fn rename_publication_keeps_connection<DB>(
    v: rename_publication::View<DB>,
    m: rename_publication::Message,
    n: rename_publication::View<DB>,
    t: Task<rename_publication::Message>,
)
    requires
        v.step(m, n, t),
    ensures
        n.client == v.client,
{
}

/// Every message handled by the subscription-disabling screen keeps its connection.
pub proof fn disable_sub_keeps_connection<DB>(
    v: disable_sub::View<DB>,
    m: disable_sub::Message,
    n: disable_sub::View<DB>,
    t: Task<disable_sub::Message>,
)
    requires
        v.step(m, n, t),
    ensures
        n.client == v.client,
{
}

/// Every message handled by the subscription-renaming screen keeps its connection.
pub proof fn rename_sub_keeps_connection<DB>(
    v: rename_sub::View<DB>,
    m: rename_sub::Message,
    n: rename_sub::View<DB>,
    t: Task<rename_sub::Message>,
)
    requires
        v.step(m, n, t),
    ensures
        n.client == v.client,
{
}

/// Every message handled by the publication menu keeps its connection.
pub proof fn publication_keeps_connection<DB>(
    v: publication::View<DB>,
    m: publication::Message,
    n: publication::View<DB>,
    t: Task<publication::Message>,
)
    requires
        v.step(m, n, t),
    ensures
        n.client() == v.client(),
{
    match m {
        publication::Message::AddTableMsg(c) => {
            if let publication::ViewVariant::AddTable(a) = v.view {
                if !(c is Back) {
                    let (a2, ct) = choose|a2: add_table::View<DB>, ct: Task<add_table::Message>|
                        #[trigger] a.step(c, a2, ct) && v.opens(
                            n,
                            publication::ViewVariant::AddTable(a2),
                        ) && t == ct.lifted::<publication::Message>();
                }
            }
        },
        publication::Message::RenameTableMsg(c) => {
            if let publication::ViewVariant::RenameTable(a) = v.view {
                if !(c is Back) {
                    let (a2, ct) = choose|
                        a2: rename_publication::View<DB>,
                        ct: Task<rename_publication::Message>,
                    |
                        #[trigger] a.step(c, a2, ct) && v.opens(
                            n,
                            publication::ViewVariant::RenameTable(a2),
                        ) && t == ct.lifted::<publication::Message>();
                }
            }
        },
        _ => {},
    }
}

/// Every message handled by the subscription menu keeps its connection.
pub proof fn subscription_keeps_connection<DB>(
    v: subscription::View<DB>,
    m: subscription::Message,
    n: subscription::View<DB>,
    t: Task<subscription::Message>,
)
    requires
        v.step(m, n, t),
    ensures
        n.client() == v.client(),
{
    match m {
        subscription::Message::DisableSub(c) => {
            if let subscription::ViewVariant::DisableSub(a) = v.view {
                if !(c is Back) {
                    let (a2, ct) = choose|
                        a2: disable_sub::View<DB>,
                        ct: Task<disable_sub::Message>,
                    |
                        #[trigger] a.step(c, a2, ct) && v.opens(
                            n,
                            subscription::ViewVariant::DisableSub(a2),
                        ) && t == ct.lifted::<subscription::Message>();
                }
            }
        },
        subscription::Message::RenameSub(c) => {
            if let subscription::ViewVariant::RenameSub(a) = v.view {
                if !(c is Back) {
                    let (a2, ct) = choose|a2: rename_sub::View<DB>, ct: Task<rename_sub::Message>|
                        #[trigger] a.step(c, a2, ct) && v.opens(
                            n,
                            subscription::ViewVariant::RenameSub(a2),
                        ) && t == ct.lifted::<subscription::Message>();
                }
            }
        },
        _ => {},
    }
}

/// Every message handled by the manager chooser keeps its connection.
pub proof fn manage_keeps_connection<DB>(
    v: manage::View<DB>,
    m: manage::Message,
    n: manage::View<DB>,
    t: Task<manage::Message>,
)
    requires
        v.step(m, n, t),
    ensures
        n.client() == v.client(),
{
    match m {
        manage::Message::PubMsg(c) => {
            if !(c is Back) {
                if let manage::ViewVariant::Pub(p) = v.view {
                    let (p2, ct) = choose|
                        p2: publication::View<DB>,
                        ct: Task<publication::Message>,
                    |
                        #[trigger] p.step(c, p2, ct) && n == manage::View {
                            view: manage::ViewVariant::Pub(p2),
                            ..v
                        } && t == ct.lifted::<manage::Message>();
                    publication_keeps_connection(p, c, p2, ct);
                }
            }
        },
        manage::Message::SubMsg(c) => {
            if !(c is Back) {
                if let manage::ViewVariant::Sub(s) = v.view {
                    let (s2, ct) = choose|
                        s2: subscription::View<DB>,
                        ct: Task<subscription::Message>,
                    |
                        #[trigger] s.step(c, s2, ct) && n == manage::View {
                            view: manage::ViewVariant::Sub(s2),
                            ..v
                        } && t == ct.lifted::<manage::Message>();
                    subscription_keeps_connection(s, c, s2, ct);
                }
            }
        },
        _ => {},
    }
}

/// Once logged in, the connection changes only when a new one is delivered.
pub proof fn root_keeps_connection<DB>(
    v: root::View<DB>,
    m: root::Message<DB>,
    n: root::View<DB>,
    t: Task<root::Message<DB>>,
)
    requires
        v.step(m, n, t),
        v.view is Manage,
        n.view is Manage,
        !(m matches root::Message::Auth(crate::auth::Message::Connected(_))),
    ensures
        n.view->Manage_0.client() == v.view->Manage_0.client(),
{
    if let root::Message::Manage(c) = m {
        if !(c is Back) {
            if let root::ViewVariant::Manage(w) = v.view {
                let (w2, ct) = choose|w2: manage::View<DB>, ct: Task<manage::Message>|
                    #[trigger] w.step(c, w2, ct) && n == root::View {
                        view: root::ViewVariant::Manage(w2),
                        ..v
                    } && t == ct.lifted::<root::Message<DB>>();
                manage_keeps_connection(w, c, w2, ct);
            }
        }
    }
}

/// Going back from a sub-screen of the publication menu returns to the menu,
/// keeps the connection and asks for nothing.
pub proof fn publication_back_goes_up<DB>(
    v: publication::View<DB>,
    n: publication::View<DB>,
    t: Task<publication::Message>,
)
    requires
        v.step(v.back_message(), n, t),
        v.depth() > 0,
    ensures
        n.depth() == v.depth() - 1,
        n.client() == v.client(),
        t == Task::<publication::Message>::Nothing,
{
}

/// Going back from a sub-screen of the subscription menu returns to the menu,
/// keeps the connection and asks for nothing.
pub proof fn subscription_back_goes_up<DB>(
    v: subscription::View<DB>,
    n: subscription::View<DB>,
    t: Task<subscription::Message>,
)
    requires
        v.step(v.back_message(), n, t),
        v.depth() > 0,
    ensures
        n.depth() == v.depth() - 1,
        n.client() == v.client(),
        t == Task::<subscription::Message>::Nothing,
{
}

/// Going back inside the managers closes exactly one screen, keeps the
/// connection and asks for nothing.
pub proof fn manage_back_goes_up<DB>(
    v: manage::View<DB>,
    n: manage::View<DB>,
    t: Task<manage::Message>,
)
    requires
        v.step(v.back_message(), n, t),
        v.depth() > 0,
    ensures
        n.depth() == v.depth() - 1,
        n.client() == v.client(),
        t == Task::<manage::Message>::Nothing,
{
    match v.view {
        manage::ViewVariant::Pub(p) => {
            if p.depth() > 0 {
                let (p2, ct) = choose|p2: publication::View<DB>, ct: Task<publication::Message>|
                    #[trigger] p.step(p.back_message(), p2, ct) && n == manage::View {
                        view: manage::ViewVariant::Pub(p2),
                        ..v
                    } && t == ct.lifted::<manage::Message>();
                publication_back_goes_up(p, p2, ct);
            }
        },
        manage::ViewVariant::Sub(s) => {
            if s.depth() > 0 {
                let (s2, ct) = choose|s2: subscription::View<DB>, ct: Task<subscription::Message>|
                    #[trigger] s.step(s.back_message(), s2, ct) && n == manage::View {
                        view: manage::ViewVariant::Sub(s2),
                        ..v
                    } && t == ct.lifted::<manage::Message>();
                subscription_back_goes_up(s, s2, ct);
            }
        },
        _ => {},
    }
}

/// The Backspace shortcut, once its message is handled, closes the innermost
/// open screen; from the chooser it logs out.
pub proof fn little_back_goes_up<DB>(
    v: root::View<DB>,
    n1: root::View<DB>,
    m: root::Message<DB>,
    n2: root::View<DB>,
    t2: Task<root::Message<DB>>,
)
    requires
        v.view is Manage,
        v.step(root::Message::LittleBack, n1, Task::Done(m)),
        n1.step(m, n2, t2),
    ensures
        t2 == Task::<root::Message<DB>>::Nothing,
        v.view->Manage_0.depth() == 0 ==> n2.view is Auth,
        v.view->Manage_0.depth() > 0 ==> n2.view is Manage && n2.view->Manage_0.depth()
            == v.view->Manage_0.depth() - 1 && n2.view->Manage_0.client()
            == v.view->Manage_0.client(),
{
    let w = v.view->Manage_0;
    if w.depth() > 0 {
        let (w2, ct) = choose|w2: manage::View<DB>, ct: Task<manage::Message>|
            #[trigger] w.step(w.back_message(), w2, ct) && n2 == root::View {
                view: root::ViewVariant::Manage(w2),
                ..n1
            } && t2 == ct.lifted::<root::Message<DB>>();
        manage_back_goes_up(w, w2, ct);
    }
}

/// Rows fetched for the table-adding screen reach it through all enclosing screens.
pub proof fn rows_reach_add_table<DB>(r: Request<add_table::Message>, o: Outcome)
    ensures
        r.lifted::<publication::Message>().lifted::<manage::Message>().lifted::<
            root::Message<DB>,
        >().resolved(o) == root::Message::<DB>::Manage(
            manage::Message::PubMsg(publication::Message::AddTableMsg(r.resolved(o))),
        ),
{
}

/// Rows fetched for the publication-renaming screen reach it through all enclosing screens.
pub proof fn rows_reach_rename_publication<DB>(r: Request<rename_publication::Message>, o: Outcome)
    ensures
        r.lifted::<publication::Message>().lifted::<manage::Message>().lifted::<
            root::Message<DB>,
        >().resolved(o) == root::Message::<DB>::Manage(
            manage::Message::PubMsg(publication::Message::RenameTableMsg(r.resolved(o))),
        ),
{
}

/// Rows fetched for the subscription-disabling screen reach it through all enclosing screens.
pub proof fn rows_reach_disable_sub<DB>(r: Request<disable_sub::Message>, o: Outcome)
    ensures
        r.lifted::<subscription::Message>().lifted::<manage::Message>().lifted::<
            root::Message<DB>,
        >().resolved(o) == root::Message::<DB>::Manage(
            manage::Message::SubMsg(subscription::Message::DisableSub(r.resolved(o))),
        ),
{
}

/// Rows fetched for the subscription-renaming screen reach it through all enclosing screens.
pub proof fn rows_reach_rename_sub<DB>(r: Request<rename_sub::Message>, o: Outcome)
    ensures
        r.lifted::<subscription::Message>().lifted::<manage::Message>().lifted::<
            root::Message<DB>,
        >().resolved(o) == root::Message::<DB>::Manage(
            manage::Message::SubMsg(subscription::Message::RenameSub(r.resolved(o))),
        ),
{
}

/// A fetched list of tables delivered to the table-adding screen becomes its
/// table list, whatever it holds (the empty list too); nothing else changes and
/// nothing is asked for.
pub proof fn add_table_stores_fetched_tables<DB>(
    v: add_table::View<DB>,
    rows: Vec<String>,
    n: add_table::View<DB>,
    t: Task<add_table::Message>,
)
    requires
        v.step(add_table::Message::Tables(rows), n, t),
    ensures
        n.table_list == rows,
        n.client == v.client,
        n.pub_list == v.pub_list,
        n.table_curr == v.table_curr,
        n.pub_curr == v.pub_curr,
        n.errmsg == v.errmsg,
        t == Task::<add_table::Message>::Nothing,
{
}

/// A fetched list of publications delivered to the table-adding screen becomes
/// its publication list; nothing else changes and nothing is asked for.
pub proof fn add_table_stores_fetched_publications<DB>(
    v: add_table::View<DB>,
    rows: Vec<String>,
    n: add_table::View<DB>,
    t: Task<add_table::Message>,
)
    requires
        v.step(add_table::Message::Pubs(rows), n, t),
    ensures
        n.pub_list == rows,
        n.client == v.client,
        n.table_list == v.table_list,
        n.table_curr == v.table_curr,
        n.pub_curr == v.pub_curr,
        n.errmsg == v.errmsg,
        t == Task::<add_table::Message>::Nothing,
{
}

/// A fetched list of publications delivered to the publication-renaming screen
/// becomes its publication list; nothing else changes and nothing is asked for.
pub proof fn rename_publication_stores_fetched_publications<DB>(
    v: rename_publication::View<DB>,
    rows: Vec<String>,
    n: rename_publication::View<DB>,
    t: Task<rename_publication::Message>,
)
    requires
        v.step(rename_publication::Message::Pubs(rows), n, t),
    ensures
        n.pub_list == rows,
        n.client == v.client,
        n.pub_curr == v.pub_curr,
        n.new_name == v.new_name,
        n.errmsg == v.errmsg,
        t == Task::<rename_publication::Message>::Nothing,
{
}

/// A fetched list of enabled subscriptions delivered to the
/// subscription-disabling screen becomes its list, whatever it holds (the
/// empty list too); nothing else changes and nothing is asked for.
pub proof fn disable_sub_stores_fetched_subscriptions<DB>(
    v: disable_sub::View<DB>,
    rows: Vec<String>,
    n: disable_sub::View<DB>,
    t: Task<disable_sub::Message>,
)
    requires
        v.step(disable_sub::Message::Subs(rows), n, t),
    ensures
        n.sub_list == rows,
        n.client == v.client,
        n.sub_curr == v.sub_curr,
        n.errmsg == v.errmsg,
        t == Task::<disable_sub::Message>::Nothing,
{
}

/// A fetched list of subscriptions delivered to the subscription-renaming
/// screen becomes its list; nothing else changes and nothing is asked for.
pub proof fn rename_sub_stores_fetched_subscriptions<DB>(
    v: rename_sub::View<DB>,
    rows: Vec<String>,
    n: rename_sub::View<DB>,
    t: Task<rename_sub::Message>,
)
    requires
        v.step(rename_sub::Message::Subs(rows), n, t),
    ensures
        n.sub_list == rows,
        n.client == v.client,
        n.sub_curr == v.sub_curr,
        n.new_name == v.new_name,
        n.errmsg == v.errmsg,
        t == Task::<rename_sub::Message>::Nothing,
{
}

/// Filling a message that carries a list puts exactly the fetched rows in it,
/// and a request that fetches into such a message resolves, on rows, to that
/// message carrying the rows and, on failure, to its failure message.
pub proof fn add_table_replies_carry_rows(
    old_rows: Vec<String>,
    rows: Vec<String>,
    r: Request<add_table::Message>,
)
    ensures
        add_table::Message::Tables(old_rows).filled(rows) == add_table::Message::Tables(rows),
        add_table::Message::Pubs(old_rows).filled(rows) == add_table::Message::Pubs(rows),
        r.on_success is Tables ==> r.resolved(Outcome::Rows(rows)) == add_table::Message::Tables(
            rows,
        ),
        r.on_success is Pubs ==> r.resolved(Outcome::Rows(rows)) == add_table::Message::Pubs(
            rows,
        ),
        r.resolved(Outcome::Failed) == r.on_failure,
{
}

/// Filling a publication list puts exactly the fetched rows in it; a request
/// that fetches publications resolves, on rows, to the list of those rows.
pub proof fn rename_publication_replies_carry_rows(
    old_rows: Vec<String>,
    rows: Vec<String>,
    r: Request<rename_publication::Message>,
)
    ensures
        rename_publication::Message::Pubs(old_rows).filled(rows)
            == rename_publication::Message::Pubs(rows),
        r.on_success is Pubs ==> r.resolved(Outcome::Rows(rows))
            == rename_publication::Message::Pubs(rows),
        r.resolved(Outcome::Failed) == r.on_failure,
{
}

/// Filling a subscription list puts exactly the fetched rows in it; a request
/// that fetches enabled subscriptions resolves, on rows, to the list of those rows.
pub proof fn disable_sub_replies_carry_rows(
    old_rows: Vec<String>,
    rows: Vec<String>,
    r: Request<disable_sub::Message>,
)
    ensures
        disable_sub::Message::Subs(old_rows).filled(rows) == disable_sub::Message::Subs(rows),
        r.on_success is Subs ==> r.resolved(Outcome::Rows(rows)) == disable_sub::Message::Subs(
            rows,
        ),
        r.resolved(Outcome::Failed) == r.on_failure,
{
}

/// Filling a subscription list puts exactly the fetched rows in it; a request
/// that fetches subscriptions resolves, on rows, to the list of those rows.
pub proof fn rename_sub_replies_carry_rows(
    old_rows: Vec<String>,
    rows: Vec<String>,
    r: Request<rename_sub::Message>,
)
    ensures
        rename_sub::Message::Subs(old_rows).filled(rows) == rename_sub::Message::Subs(rows),
        r.on_success is Subs ==> r.resolved(Outcome::Rows(rows)) == rename_sub::Message::Subs(
            rows,
        ),
        r.resolved(Outcome::Failed) == r.on_failure,
{
}

/// Embedding a task into the enclosing screen keeps what the runtime must do:
/// the same kind of task, the same jobs and credentials, and each message
/// embedded as the enclosing screen's message.
pub proof fn lifting_keeps_the_work<M, P: Wrap<M>>(t: Task<M>)
    ensures
        t == Task::<M>::Nothing <==> t.lifted::<P>() == Task::<P>::Nothing,
        t == Task::<M>::FocusNext <==> t.lifted::<P>() == Task::<P>::FocusNext,
        t == Task::<M>::FocusPrevious <==> t.lifted::<P>() == Task::<P>::FocusPrevious,
        forall|m: M| t == Task::Done(m) ==> t.lifted::<P>() == Task::Done(P::wrapped(m)),
        forall|c: Credentials, m: M|
            t == Task::Connect(c, m) ==> t.lifted::<P>() == Task::Connect(c, P::wrapped(m)),
        forall|r: Request<M>|
            t == Task::Perform(r) ==> t.lifted::<P>() == Task::Perform(
                Request {
                    job: r.job,
                    on_success: P::wrapped(r.on_success),
                    on_failure: P::wrapped(r.on_failure),
                },
            ),
        forall|a: Request<M>, b: Request<M>|
            t == Task::Chain(a, b) ==> t.lifted::<P>() == Task::Chain(
                Request {
                    job: a.job,
                    on_success: P::wrapped(a.on_success),
                    on_failure: P::wrapped(a.on_failure),
                },
                Request {
                    job: b.job,
                    on_success: P::wrapped(b.on_success),
                    on_failure: P::wrapped(b.on_failure),
                },
            ),
{
}

/// Starting the login with every parameter entered asks the runtime to open a
/// connection with exactly those parameters, reporting "Couldn't connect to DB"
/// should it fail; the login screen's error is cleared and the screen shown
/// stays the same.
pub proof fn login_connects_with_entered_parameters<DB>(
    v: root::View<DB>,
    n: root::View<DB>,
    t: Task<root::Message<DB>>,
    username: String,
    password: String,
    host: String,
    dbname: String,
    port: u16,
)
    requires
        v.auth.username == Some(username),
        v.auth.password == Some(password),
        v.auth.host == Some(host),
        v.auth.dbname == Some(dbname),
        v.auth.port == Some(port),
        v.step(root::Message::Auth(auth::Message::Start), n, t),
    ensures
        t == Task::Connect(
            Credentials { username, password, host, port, dbname },
            root::Message::<DB>::Auth(auth::Message::Error("Couldn't connect to DB")),
        ),
        n.view == v.view,
        n.auth.errmsg is None,
        n.auth.username == v.auth.username,
        n.auth.password == v.auth.password,
        n.auth.host == v.auth.host,
        n.auth.dbname == v.auth.dbname,
        n.auth.port == v.auth.port,
{
    let (a, at) = choose|a: auth::View, at: Task<auth::Message<DB>>|
        #[trigger] v.auth.step(auth::Message::Start, a, at) && n.auth == a && t == at.lifted::<
            root::Message<DB>,
        >();
}

/// In the table-adding screen the chosen publication and table are kept, an
/// error is shown, choosing a publication asks for the tables it lacks, and
/// adding with both chosen adds exactly that table to exactly that
/// publication, then asks again for the tables it lacks.
pub proof fn add_table_acts_on_the_choice<DB>(
    v: add_table::View<DB>,
    m: add_table::Message,
    n: add_table::View<DB>,
    t: Task<add_table::Message>,
)
    requires
        v.step(m, n, t),
    ensures
        n.client == v.client,
        m matches add_table::Message::TableSelected(x) ==> n.table_curr == Some(x) && n.pub_curr
            == v.pub_curr && t == Task::<add_table::Message>::Nothing,
        m matches add_table::Message::PubSelected(x) ==> n.pub_curr == Some(x) && n.table_curr
            == v.table_curr && (t matches Task::Perform(r) && r.job == (Job::ListUnpublishedTables {
            publication: x,
        })),
        m matches add_table::Message::Error(e) ==> n.errmsg == Some(e) && n.table_list
            == v.table_list && t == Task::<add_table::Message>::Nothing,
        (m is AddTable && v.pub_curr is Some && v.table_curr is Some) ==> (t matches Task::Chain(
            a,
            b,
        ) && a.job == (Job::AddTable {
            publication: v.pub_curr.unwrap(),
            table: v.table_curr.unwrap(),
        }) && a.on_success == add_table::Message::Clear && b.job == (Job::ListUnpublishedTables {
            publication: v.pub_curr.unwrap(),
        })),
        (m is AddTable && (v.pub_curr is None || v.table_curr is None)) ==> n == v
            && t is Done,
        m is Clear ==> n.table_curr is None && n.pub_curr is None && n.errmsg is None
            && n.table_list@.len() == 0,
{
}

/// In the publication-renaming screen the chosen publication and the typed
/// name are kept, and renaming with a publication chosen renames exactly that
/// publication to exactly the typed name.
pub proof fn rename_publication_acts_on_the_choice<DB>(
    v: rename_publication::View<DB>,
    m: rename_publication::Message,
    n: rename_publication::View<DB>,
    t: Task<rename_publication::Message>,
)
    requires
        v.step(m, n, t),
    ensures
        n.client == v.client,
        m matches rename_publication::Message::PubSelected(x) ==> n.pub_curr == Some(x)
            && n.new_name == v.new_name && t == Task::<rename_publication::Message>::Nothing,
        m matches rename_publication::Message::NewName(x) ==> n.new_name == x && n.pub_curr
            == v.pub_curr && t == Task::<rename_publication::Message>::Nothing,
        m matches rename_publication::Message::Error(e) ==> n.errmsg == Some(e) && n.pub_list
            == v.pub_list && t == Task::<rename_publication::Message>::Nothing,
        (m is RenamePub && v.pub_curr is Some) ==> (t matches Task::Perform(r) && r.job == (
        Job::RenamePublication { publication: v.pub_curr.unwrap(), new_name: v.new_name })
            && r.on_success == rename_publication::Message::Clear),
        (m is RenamePub && v.pub_curr is None) ==> n == v && t is Done,
        m is Clear ==> n.pub_curr is None && n.errmsg is None && n.new_name@.len() == 0 && (
        t matches Task::Perform(r) && r.job == Job::ListPublications),
{
}

/// In the subscription-disabling screen the chosen subscription is kept, and
/// disabling with one chosen disables exactly it, then asks again for the
/// enabled subscriptions.
pub proof fn disable_sub_acts_on_the_choice<DB>(
    v: disable_sub::View<DB>,
    m: disable_sub::Message,
    n: disable_sub::View<DB>,
    t: Task<disable_sub::Message>,
)
    requires
        v.step(m, n, t),
    ensures
        n.client == v.client,
        m matches disable_sub::Message::SubSelected(x) ==> n.sub_curr == Some(x) && n.sub_list
            == v.sub_list && (t matches Task::Perform(r) && r.job
            == Job::ListEnabledSubscriptions),
        m matches disable_sub::Message::Error(e) ==> n.errmsg == Some(e) && n.sub_list
            == v.sub_list && t == Task::<disable_sub::Message>::Nothing,
        (m is DisableSub && v.sub_curr is Some) ==> (t matches Task::Chain(a, b) && a.job == (
        Job::DisableSubscription { subscription: v.sub_curr.unwrap() }) && a.on_success
            == disable_sub::Message::Clear && b.job == Job::ListEnabledSubscriptions),
        (m is DisableSub && v.sub_curr is None) ==> n == v && t is Done,
        m is Clear ==> n.sub_curr is None && n.errmsg is None && n.sub_list == v.sub_list,
{
}

/// In the subscription-renaming screen the chosen subscription and the typed
/// name are kept, and renaming with a subscription chosen renames exactly that
/// subscription to exactly the typed name.
pub proof fn rename_sub_acts_on_the_choice<DB>(
    v: rename_sub::View<DB>,
    m: rename_sub::Message,
    n: rename_sub::View<DB>,
    t: Task<rename_sub::Message>,
)
    requires
        v.step(m, n, t),
    ensures
        n.client == v.client,
        m matches rename_sub::Message::SubSelected(x) ==> n.sub_curr == Some(x) && n.new_name
            == v.new_name && t == Task::<rename_sub::Message>::Nothing,
        m matches rename_sub::Message::NewName(x) ==> n.new_name == x && n.sub_curr == v.sub_curr
            && t == Task::<rename_sub::Message>::Nothing,
        m matches rename_sub::Message::Error(e) ==> n.errmsg == Some(e) && n.sub_list
            == v.sub_list && t == Task::<rename_sub::Message>::Nothing,
        (m is RenameSub && v.sub_curr is Some) ==> (t matches Task::Perform(r) && r.job == (
        Job::RenameSubscription { subscription: v.sub_curr.unwrap(), new_name: v.new_name })
            && r.on_success == rename_sub::Message::Clear),
        (m is RenameSub && v.sub_curr is None) ==> n == v && t is Done,
        m is Clear ==> n.sub_curr is None && n.errmsg is None && n.new_name@.len() == 0 && (
        t matches Task::Perform(r) && r.job == Job::ListSubscriptions),
{
}

/// What is typed on the login screen is kept, and an error is shown.
pub proof fn login_keeps_the_input<DB>(
    v: auth::View,
    m: auth::Message<DB>,
    n: auth::View,
    t: Task<auth::Message<DB>>,
)
    requires
        v.step(m, n, t),
    ensures
        m matches auth::Message::UsernameInput(x) ==> n.username == Some(x) && n.password
            == v.password,
        m matches auth::Message::PasswordInput(x) ==> n.password == Some(x) && n.username
            == v.username,
        m matches auth::Message::HostInput(x) ==> n.host == Some(x) && n.dbname == v.dbname,
        m matches auth::Message::DbNameChange(x) ==> n.dbname == Some(x) && n.host == v.host,
        m matches auth::Message::PortInput(x) ==> n.port == Some(x) && n.host == v.host,
        m matches auth::Message::Error(e) ==> n.errmsg == Some(e) && n.username == v.username,
        (m is Start && v.username is None) ==> n == v && t == Task::Done(
            auth::Message::<DB>::Error("No username provided"),
        ),
{
}

} // verus!
