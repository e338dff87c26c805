//! The SQL text sent for each job.
use vstd::prelude::*;
use vstd::string::StringExecFns;

use crate::task::Job;

verus! {

/// What `pg_escape::quote_identifier` returns for an identifier.
pub uninterp spec fn quoted_identifier(identifier: Seq<char>) -> Seq<char>;

/// `s` with every double quote doubled.
pub open spec fn doubled_quotes(s: Seq<char>) -> Seq<char>
    decreases s.len(),
{
    if s.len() == 0 {
        Seq::empty()
    } else {
        let rest = doubled_quotes(s.drop_first());
        if s[0] == '"' {
            seq!['"', '"'] + rest
        } else {
            seq![s[0]] + rest
        }
    }
}

/// `s` in double quotes, with its own double quotes doubled.
pub open spec fn delimited(s: Seq<char>) -> Seq<char> {
    seq!['"'] + doubled_quotes(s) + seq!['"']
}

pub open spec fn lower_alphabetic_or_underscore(c: char) -> bool {
    ('a' <= c && c <= 'z') || c == '_'
}

pub open spec fn lower_alphanumeric_or_underscore(c: char) -> bool {
    lower_alphabetic_or_underscore(c) || ('0' <= c && c <= '9')
}

/// An identifier that Postgres reads unquoted, keywords aside: empty, or a
/// lowercase letter or underscore followed by lowercase letters, digits or
/// underscores.
pub open spec fn plain_identifier(s: Seq<char>) -> bool {
    s.len() == 0 || (lower_alphabetic_or_underscore(s[0]) && forall|i: int|
        1 <= i < s.len() ==> #[trigger] lower_alphanumeric_or_underscore(s[i]))
}

/// `pg_escape::quote_identifier`: the identifier as is when it is plain and
/// not a keyword, else the identifier in double quotes with its double quotes
/// doubled.
///
/// The contract states both outcomes and when quoting is certain (the
/// identifier is not plain). Which plain identifiers are keywords is the
/// crate's keyword table, which is left to the name `quoted_identifier`.
#[verifier::external_body]
fn quote_identifier(identifier: &str) -> (r: String)
    ensures
        r@ == quoted_identifier(identifier@),
        r@ == identifier@ || r@ == delimited(identifier@),
        !plain_identifier(identifier@) ==> r@ == delimited(identifier@),
        identifier@.len() == 0 ==> r@ == identifier@,
{
    pg_escape::quote_identifier(identifier).into_owned()
}

pub open spec fn list_publications_sql() -> Seq<char> {
    "SELECT pubname FROM pg_publication;"@
}

pub open spec fn list_unpublished_tables_sql() -> Seq<char> {
    "SELECT tablename FROM pg_tables WHERE schemaname = 'public' EXCEPT (SELECT tablename FROM pg_publication_tables WHERE schemaname = 'public' AND pubname = $1);"@
}

pub open spec fn add_table_sql(publication: Seq<char>, table: Seq<char>) -> Seq<char> {
    "ALTER PUBLICATION \""@ + publication + "\" ADD TABLE public.\""@ + table + "\";"@
}

pub open spec fn rename_publication_sql(publication: Seq<char>, new_name: Seq<char>) -> Seq<char> {
    "ALTER PUBLICATION \""@ + publication + "\" RENAME TO \""@ + quoted_identifier(new_name)
        + "\";"@
}

pub open spec fn list_enabled_subscriptions_sql() -> Seq<char> {
    "SELECT subname FROM pg_subscription WHERE subenabled = 't';"@
}

pub open spec fn list_subscriptions_sql() -> Seq<char> {
    "SELECT subname FROM pg_subscription;"@
}

pub open spec fn disable_subscription_sql(subscription: Seq<char>) -> Seq<char> {
    "ALTER SUBSCRIPTION \""@ + subscription + "\" DISABLE;"@
}

pub open spec fn rename_subscription_sql(subscription: Seq<char>, new_name: Seq<char>) -> Seq<
    char,
> {
    "ALTER SUBSCRIPTION \""@ + subscription + "\" RENAME TO \""@ + quoted_identifier(new_name)
        + "\";"@
}

/// `a + b + c + d + e` as one string.
fn join5(a: &str, b: &str, c: &str, d: &str, e: &str) -> (r: String)
    ensures
        r@ == a@ + b@ + c@ + d@ + e@,
{
    let mut r = String::from_str(a);
    r.append(b);
    r.append(c);
    r.append(d);
    r.append(e);
    r
}

impl Job {
    pub open spec fn sql(&self) -> Seq<char> {
        match self {
            Job::ListPublications => list_publications_sql(),
            Job::ListUnpublishedTables { .. } => list_unpublished_tables_sql(),
            Job::AddTable { publication, table } => add_table_sql(publication@, table@),
            Job::RenamePublication { publication, new_name } => rename_publication_sql(
                publication@,
                new_name@,
            ),
            Job::ListEnabledSubscriptions => list_enabled_subscriptions_sql(),
            Job::ListSubscriptions => list_subscriptions_sql(),
            Job::DisableSubscription { subscription } => disable_subscription_sql(subscription@),
            Job::RenameSubscription { subscription, new_name } => rename_subscription_sql(
                subscription@,
                new_name@,
            ),
        }
    }

    /// A job that fetches rows, as opposed to one that changes the database.
    pub open spec fn fetches(&self) -> bool {
        match self {
            Job::ListPublications
            | Job::ListUnpublishedTables { .. }
            | Job::ListEnabledSubscriptions
            | Job::ListSubscriptions => true,
            _ => false,
        }
    }

    /// The SQL text of the job.
    ///
    /// A new name that Postgres would not read unquoted (see
    /// [`plain_identifier`]) is sent in quotes with its own quotes doubled.
    pub fn statement(&self) -> (r: String)
        ensures
            r@ == self.sql(),
            match self {
                Job::RenamePublication { publication, new_name } => !plain_identifier(new_name@)
                    ==> r@ == "ALTER PUBLICATION \""@ + publication@ + "\" RENAME TO \""@
                    + delimited(new_name@) + "\";"@,
                Job::RenameSubscription { subscription, new_name } => !plain_identifier(
                    new_name@,
                ) ==> r@ == "ALTER SUBSCRIPTION \""@ + subscription@ + "\" RENAME TO \""@
                    + delimited(new_name@) + "\";"@,
                _ => true,
            },
    {
        match self {
            Job::ListPublications => String::from_str("SELECT pubname FROM pg_publication;"),
            Job::ListUnpublishedTables { .. } => String::from_str(
                "SELECT tablename FROM pg_tables WHERE schemaname = 'public' EXCEPT (SELECT tablename FROM pg_publication_tables WHERE schemaname = 'public' AND pubname = $1);",
            ),
            Job::AddTable { publication, table } => join5(
                "ALTER PUBLICATION \"",
                publication.as_str(),
                "\" ADD TABLE public.\"",
                table.as_str(),
                "\";",
            ),
            Job::RenamePublication { publication, new_name } => {
                let quoted = quote_identifier(new_name.as_str());
                join5(
                    "ALTER PUBLICATION \"",
                    publication.as_str(),
                    "\" RENAME TO \"",
                    quoted.as_str(),
                    "\";",
                )
            },
            Job::ListEnabledSubscriptions => String::from_str(
                "SELECT subname FROM pg_subscription WHERE subenabled = 't';",
            ),
            Job::ListSubscriptions => String::from_str("SELECT subname FROM pg_subscription;"),
            Job::DisableSubscription { subscription } => {
                let mut r = String::from_str("ALTER SUBSCRIPTION \"");
                r.append(subscription.as_str());
                r.append("\" DISABLE;");
                r
            },
            Job::RenameSubscription { subscription, new_name } => {
                let quoted = quote_identifier(new_name.as_str());
                join5(
                    "ALTER SUBSCRIPTION \"",
                    subscription.as_str(),
                    "\" RENAME TO \"",
                    quoted.as_str(),
                    "\";",
                )
            },
        }
    }

    /// The values bound to the statement's `$1`, `$2`, ... in order.
    pub fn parameters(&self) -> (r: Vec<String>)
        ensures
            match self {
                Job::ListUnpublishedTables { publication } => r@ == seq![*publication],
                _ => r@.len() == 0,
            },
    {
        match self {
            Job::ListUnpublishedTables { publication } => {
                let mut v = Vec::new();
                v.push(publication.clone());
                v
            },
            _ => Vec::new(),
        }
    }

    /// For a job that fetches rows, the column whose text values are its result.
    pub fn column(&self) -> (r: Option<&'static str>)
        ensures
            r is Some <==> self.fetches(),
            match self {
                Job::ListPublications => r == Some("pubname"),
                Job::ListUnpublishedTables { .. } => r == Some("tablename"),
                Job::ListEnabledSubscriptions | Job::ListSubscriptions => r == Some("subname"),
                _ => r is None,
            },
    {
        match self {
            Job::ListPublications => Some("pubname"),
            Job::ListUnpublishedTables { .. } => Some("tablename"),
            Job::ListEnabledSubscriptions | Job::ListSubscriptions => Some("subname"),
            _ => None,
        }
    }
}

} // verus!
