//! Queries on the account store, as values.
//!
//! A query is a list of conditions that a row must meet, all of them, an
//! optional column to order the rows by, and an optional limit on their
//! number. A row is taken as a map from column names to values.
//!
//! A query is written out as a `select` statement with a `?` for every value
//! and the values beside it, in the order of the marks. Column and table
//! names go into the statement as they are; values never do.
use crate::codec::{digit_char, hex_digit};
use crate::model::{RoleDao, UserDao, UserRole};
use crate::text::push_char;
use vstd::prelude::*;
use vstd::string::*;

verus! {

/// One condition on a row.
#[derive(Clone, Debug, PartialEq, Eq)]
pub enum Condition {
    /// The column holds the value.
    Equals { column: String, value: String },
    /// The column holds one of the values. With no values, no row passes.
    OneOf { column: String, values: Vec<String> },
}

/// The model of a [`Condition`].
pub enum ConditionView {
    Equals { column: Seq<char>, value: Seq<char> },
    OneOf { column: Seq<char>, values: Seq<Seq<char>> },
}

impl DeepView for Condition {
    type V = ConditionView;

    open spec fn deep_view(&self) -> ConditionView {
        match self {
            Condition::Equals { column, value } => ConditionView::Equals {
                column: column@,
                value: value@,
            },
            Condition::OneOf { column, values } => ConditionView::OneOf {
                column: column@,
                values: values.deep_view(),
            },
        }
    }
}

impl ConditionView {
    /// Whether a row meets the condition.
    pub open spec fn holds(self, row: Map<Seq<char>, Seq<char>>) -> bool {
        match self {
            ConditionView::Equals { column, value } => row.contains_key(column) && row[column]
                == value,
            ConditionView::OneOf { column, values } => row.contains_key(column) && values.contains(
                row[column],
            ),
        }
    }
}

/// A query.
#[derive(Clone, Debug, PartialEq, Eq)]
pub struct Query {
    pub conditions: Vec<Condition>,
    /// The column to order by, ascending.
    pub order_by: Option<String>,
    pub limit: Option<u64>,
}

/// The model of a [`Query`].
pub struct QueryView {
    pub conditions: Seq<ConditionView>,
    pub order_by: Option<Seq<char>>,
    pub limit: Option<u64>,
}

impl DeepView for Query {
    type V = QueryView;

    open spec fn deep_view(&self) -> QueryView {
        QueryView {
            conditions: self.conditions.deep_view(),
            order_by: self.order_by.deep_view(),
            limit: self.limit,
        }
    }
}

impl QueryView {
    /// Whether a row meets every condition of the query.
    pub open spec fn passes(self, row: Map<Seq<char>, Seq<char>>) -> bool {
        forall|i: int| 0 <= i < self.conditions.len() ==> (#[trigger] self.conditions[i]).holds(row)
    }

    /// The query with the conditions given, unordered and unlimited.
    pub open spec fn of(conditions: Seq<ConditionView>) -> QueryView {
        QueryView { conditions, order_by: None, limit: None }
    }
}

/// The conditions of a lookup in one tenant, if one is given.
pub open spec fn in_tenant(
    conditions: Seq<ConditionView>,
    domain_id: Option<Seq<char>>,
) -> Seq<ConditionView> {
    match domain_id {
        Some(id) => conditions.push(ConditionView::Equals { column: "domain_id"@, value: id }),
        None => conditions,
    }
}

impl Query {
    /// The query without conditions: every row passes.
    pub fn all() -> (q: Query)
        ensures
            q.deep_view() == QueryView::of(Seq::empty()),
    {
        let q = Query { conditions: Vec::new(), order_by: None, limit: None };
        assert(q.conditions.deep_view() =~= Seq::<ConditionView>::empty());
        q
    }

    /// Adds the condition that `column` holds `value`.
    pub fn equals(self, column: &str, value: String) -> (q: Query)
        ensures
            q.deep_view() == (QueryView {
                conditions: self.deep_view().conditions.push(
                    ConditionView::Equals { column: column@, value: value@ },
                ),
                ..self.deep_view()
            }),
    {
        let ghost before = self.conditions.deep_view();
        let mut conditions = self.conditions;
        conditions.push(Condition::Equals { column: String::from_str(column), value });
        assert(conditions.deep_view() =~= before.push(
            ConditionView::Equals { column: column@, value: value@ },
        ));
        Query { conditions, order_by: self.order_by, limit: self.limit }
    }

    /// Adds the condition that `column` holds one of `values`.
    pub fn one_of(self, column: &str, values: Vec<String>) -> (q: Query)
        ensures
            q.deep_view() == (QueryView {
                conditions: self.deep_view().conditions.push(
                    ConditionView::OneOf { column: column@, values: values.deep_view() },
                ),
                ..self.deep_view()
            }),
    {
        let ghost before = self.conditions.deep_view();
        let ghost added = values.deep_view();
        let mut conditions = self.conditions;
        conditions.push(Condition::OneOf { column: String::from_str(column), values });
        assert(conditions.deep_view() =~= before.push(
            ConditionView::OneOf { column: column@, values: added },
        ));
        Query { conditions, order_by: self.order_by, limit: self.limit }
    }

    /// Adds the condition that the row belongs to the tenant, if one is
    /// given.
    pub fn in_domain(self, domain_id: Option<String>) -> (q: Query)
        ensures
            q.deep_view() == (QueryView {
                conditions: in_tenant(self.deep_view().conditions, domain_id.deep_view()),
                ..self.deep_view()
            }),
    {
        match domain_id {
            Some(id) => self.equals("domain_id", id),
            None => self,
        }
    }
}

impl RoleDao {
    /// The query for the roles with one of the ids, in the tenant if one is
    /// given. With no ids no row passes the query.
    pub fn find_by_ids(id: Vec<String>, domain_id: Option<String>) -> (q: Query)
        ensures
            q.deep_view() == QueryView::of(
                in_tenant(
                    seq![ConditionView::OneOf { column: "id"@, values: id.deep_view() }],
                    domain_id.deep_view(),
                ),
            ),
            forall|row: Map<Seq<char>, Seq<char>>| #[trigger]
                q.deep_view().passes(row) ==> row.contains_key("id"@) && id.deep_view().contains(
                    row["id"@],
                ),
            forall|row: Map<Seq<char>, Seq<char>>| #[trigger]
                q.deep_view().passes(row) ==> (domain_id.deep_view() matches Some(tenant)
                    ==> row.contains_key("domain_id"@) && row["domain_id"@] == tenant),
    {
        let q = Query::all().one_of("id", id).in_domain(domain_id);
        proof {
            let first = ConditionView::OneOf { column: "id"@, values: id.deep_view() };
            assert(Seq::<ConditionView>::empty().push(first) =~= seq![first]);
            assert forall|row: Map<Seq<char>, Seq<char>>| #[trigger]
                q.deep_view().passes(row) implies row.contains_key("id"@)
                && id.deep_view().contains(row["id"@]) by {
                assert(q.deep_view().conditions[0].holds(row));
            }
            assert forall|row: Map<Seq<char>, Seq<char>>| #[trigger]
                q.deep_view().passes(row) implies (domain_id.deep_view() matches Some(tenant)
                ==> row.contains_key("domain_id"@) && row["domain_id"@] == tenant) by {
                if domain_id.deep_view() is Some {
                    assert(q.deep_view().conditions[1].holds(row));
                }
            }
        }
        q
    }

    /// The query for all roles, of the tenant if one is given.
    pub fn find_all(domain_id: Option<String>) -> (q: Query)
        ensures
            q.deep_view() == QueryView::of(in_tenant(Seq::empty(), domain_id.deep_view())),
    {
        Query::all().in_domain(domain_id)
    }
}

impl UserDao {
    /// The query for the first row, by `id`, of those that pass `w`.
    pub fn find_one(w: Query) -> (q: Query)
        ensures
            q.deep_view() == (QueryView {
                order_by: Some("id"@),
                limit: Some(1u64),
                ..w.deep_view()
            }),
    {
        Query { conditions: w.conditions, order_by: Some(String::from_str("id")), limit: Some(1) }
    }
}

impl UserRole {
    /// The query for the grant of one role to one user.
    pub fn find_by_id(user_id: &str, role_id: &str) -> (q: Query)
        ensures
            q.deep_view() == QueryView::of(
                seq![
                    ConditionView::Equals { column: "user_id"@, value: user_id@ },
                    ConditionView::Equals { column: "role_id"@, value: role_id@ },
                ],
            ),
    {
        let q = Query::all().equals("user_id", String::from_str(user_id)).equals(
            "role_id",
            String::from_str(role_id),
        );
        assert(q.deep_view().conditions =~= seq![
            ConditionView::Equals { column: "user_id"@, value: user_id@ },
            ConditionView::Equals { column: "role_id"@, value: role_id@ },
        ]);
        q
    }

    /// The query for all grants of one user.
    pub fn find_by_user(user_id: &str) -> (q: Query)
        ensures
            q.deep_view() == QueryView::of(
                seq![ConditionView::Equals { column: "user_id"@, value: user_id@ }],
            ),
    {
        let q = Query::all().equals("user_id", String::from_str(user_id));
        assert(q.deep_view().conditions =~= seq![
            ConditionView::Equals { column: "user_id"@, value: user_id@ },
        ]);
        q
    }

    /// The query for all grants of one role.
    pub fn find_by_role(role_id: &str) -> (q: Query)
        ensures
            q.deep_view() == QueryView::of(
                seq![ConditionView::Equals { column: "role_id"@, value: role_id@ }],
            ),
    {
        let q = Query::all().equals("role_id", String::from_str(role_id));
        assert(q.deep_view().conditions =~= seq![
            ConditionView::Equals { column: "role_id"@, value: role_id@ },
        ]);
        q
    }
}

/// A statement with a `?` for every value, and the values in the order of
/// the marks.
#[derive(Clone, Debug, PartialEq, Eq)]
pub struct Statement {
    pub sql: String,
    pub args: Vec<String>,
}

/// The model of a [`Statement`].
pub struct StatementView {
    pub sql: Seq<char>,
    pub args: Seq<Seq<char>>,
}

impl DeepView for Statement {
    type V = StatementView;

    open spec fn deep_view(&self) -> StatementView {
        StatementView { sql: self.sql@, args: self.args.deep_view() }
    }
}

/// A number in decimal digits.
pub open spec fn decimal_text(n: nat) -> Seq<char>
    decreases n,
{
    if n < 10 {
        seq![hex_digit(n as int)]
    } else {
        decimal_text(n / 10).push(hex_digit((n % 10) as int))
    }
}

/// `count` marks, separated by commas.
pub open spec fn marks(count: nat) -> Seq<char>
    decreases count,
{
    if count == 0 {
        Seq::empty()
    } else if count == 1 {
        "?"@
    } else {
        marks((count - 1) as nat) + ", ?"@
    }
}

impl ConditionView {
    /// The condition as it stands in a statement. A choice among no values
    /// is written as a condition that no row meets.
    pub open spec fn sql(self) -> Seq<char> {
        match self {
            ConditionView::Equals { column, value } => column + " = ?"@,
            ConditionView::OneOf { column, values } => if values.len() == 0 {
                "1 = 0"@
            } else {
                column + " in ("@ + marks(values.len()) + ")"@
            },
        }
    }

    /// The values of the condition, in the order of its marks.
    pub open spec fn args(self) -> Seq<Seq<char>> {
        match self {
            ConditionView::Equals { column, value } => seq![value],
            ConditionView::OneOf { column, values } => values,
        }
    }
}

/// The conditions as they stand in a statement: nothing if there is none,
/// else `where` and the conditions joined by `and`.
pub open spec fn conditions_sql(conditions: Seq<ConditionView>) -> Seq<char>
    decreases conditions.len(),
{
    if conditions.len() == 0 {
        Seq::empty()
    } else if conditions.len() == 1 {
        " where "@ + conditions.last().sql()
    } else {
        conditions_sql(conditions.drop_last()) + " and "@ + conditions.last().sql()
    }
}

/// The values of the conditions, in the order of their marks.
pub open spec fn conditions_args(conditions: Seq<ConditionView>) -> Seq<Seq<char>>
    decreases conditions.len(),
{
    if conditions.len() == 0 {
        Seq::empty()
    } else {
        conditions_args(conditions.drop_last()) + conditions.last().args()
    }
}

impl QueryView {
    /// The end of the statement: the order and the limit, where given.
    pub open spec fn tail_sql(self) -> Seq<char> {
        (match self.order_by {
            Some(column) => " order by "@ + column + " asc"@,
            None => Seq::empty(),
        }) + (match self.limit {
            Some(limit) => " limit "@ + decimal_text(limit as nat),
            None => Seq::empty(),
        })
    }

    /// The `select` statement for the rows of `table` that pass the query.
    pub open spec fn select(self, table: Seq<char>) -> StatementView {
        StatementView {
            sql: "select * from "@ + table + conditions_sql(self.conditions) + self.tail_sql(),
            args: conditions_args(self.conditions),
        }
    }
}

fn write_decimal(out: &mut String, n: u64)
    ensures
        final(out)@ == old(out)@ + decimal_text(n as nat),
    decreases n,
{
    if n < 10 {
        push_char(out, digit_char(n as u8));
        assert(out@ =~= old(out)@ + decimal_text(n as nat));
    } else {
        write_decimal(out, n / 10);
        push_char(out, digit_char((n % 10) as u8));
        assert(out@ =~= old(out)@ + decimal_text(n as nat));
    }
}

fn write_marks(out: &mut String, count: usize)
    ensures
        final(out)@ == old(out)@ + marks(count as nat),
{
    let mut i: usize = 0;
    assert(out@ =~= old(out)@ + marks(0));
    while i < count
        invariant
            i <= count,
            out@ == old(out)@ + marks(i as nat),
        decreases count - i,
    {
        if i == 0 {
            out.append("?");
        } else {
            out.append(", ?");
        }
        i += 1;
        assert(out@ =~= old(out)@ + marks(i as nat));
    }
}

impl Condition {
    /// Writes the condition into a statement and puts its values behind
    /// those that are there.
    pub fn write(&self, sql: &mut String, args: &mut Vec<String>)
        ensures
            final(sql)@ == old(sql)@ + self.deep_view().sql(),
            final(args).deep_view() == old(args).deep_view() + self.deep_view().args(),
    {
        let ghost before = args.deep_view();
        match self {
            Condition::Equals { column, value } => {
                sql.append(column.as_str());
                sql.append(" = ?");
                args.push(value.clone());
                proof {
                    assert(sql@ =~= old(sql)@ + self.deep_view().sql());
                    assert(args.deep_view() =~= before + self.deep_view().args());
                }
            },
            Condition::OneOf { column, values } => {
                if values.len() == 0 {
                    sql.append("1 = 0");
                } else {
                    sql.append(column.as_str());
                    sql.append(" in (");
                    write_marks(sql, values.len());
                    sql.append(")");
                }
                let mut i: usize = 0;
                proof {
                    assert(sql@ =~= old(sql)@ + self.deep_view().sql());
                    assert(args.deep_view() =~= before + values.deep_view().take(0));
                }
                while i < values.len()
                    invariant
                        i <= values.len(),
                        args.deep_view() == before + values.deep_view().take(i as int),
                    decreases values.len() - i,
                {
                    let ghost so_far = args.deep_view();
                    args.push(values[i].clone());
                    i += 1;
                    proof {
                        assert(args.deep_view() =~= so_far.push(values@[i - 1]@));
                        assert(args.deep_view() =~= before + values.deep_view().take(i as int));
                    }
                }
                proof {
                    assert(values.deep_view().take(values.len() as int) =~= values.deep_view());
                }
            },
        }
    }
}

impl Query {
    /// Writes the query out as the `select` statement for `table`.
    pub fn select(&self, table: &str) -> (statement: Statement)
        ensures
            statement.deep_view() == self.deep_view().select(table@),
    {
        let ghost all = self.conditions.deep_view();
        let mut sql = String::from_str("select * from ");
        sql.append(table);
        let ghost head = sql@;
        let mut args: Vec<String> = Vec::new();
        let mut i: usize = 0;
        proof {
            assert(all.take(0) =~= Seq::<ConditionView>::empty());
            assert(sql@ =~= head + conditions_sql(all.take(0)));
            assert(args.deep_view() =~= conditions_args(all.take(0)));
        }
        while i < self.conditions.len()
            invariant
                i <= self.conditions.len(),
                all == self.conditions.deep_view(),
                sql@ == head + conditions_sql(all.take(i as int)),
                args.deep_view() == conditions_args(all.take(i as int)),
            decreases self.conditions.len() - i,
        {
            if i == 0 {
                sql.append(" where ");
            } else {
                sql.append(" and ");
            }
            self.conditions[i].write(&mut sql, &mut args);
            proof {
                let next = all.take(i + 1);
                assert(next.drop_last() =~= all.take(i as int));
                assert(next.last() == self.conditions@[i as int].deep_view());
                assert(sql@ =~= head + conditions_sql(next));
            }
            i += 1;
        }
        proof {
            assert(all.take(all.len() as int) =~= all);
        }
        let ghost body = sql@;
        match &self.order_by {
            Some(column) => {
                sql.append(" order by ");
                sql.append(column.as_str());
                sql.append(" asc");
            },
            None => {},
        }
        match self.limit {
            Some(limit) => {
                sql.append(" limit ");
                write_decimal(&mut sql, limit);
            },
            None => {},
        }
        proof {
            assert(sql@ =~= body + self.deep_view().tail_sql());
            assert(sql@ =~= "select * from "@ + table@ + conditions_sql(all)
                + self.deep_view().tail_sql());
        }
        Statement { sql, args }
    }
}

} // verus!
