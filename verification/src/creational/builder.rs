//! Builder: the construction of a complex value is kept apart from its
//! representation, so that one construction process serves many values.
//!
//! Here the value is the text of a database query, put together from the
//! table's name and the clauses that were asked for.

use crate::text::{append_decimal, decimal};
use vstd::prelude::*;

verus! {

/// What a [`QueryBuilder`] has been told so far.
pub struct QueryParts {
    pub table: Seq<char>,
    pub select: Option<Seq<char>>,
    pub limit: Option<i64>,
    pub offset: Option<i64>,
    pub order_by: Option<Seq<char>>,
}

impl QueryParts {
    /// The text of the query: the columns (all of them, `*`, where none
    /// were chosen) and the table, then the limit, the offset and the order,
    /// each only if it was given.
    pub open spec fn text(self) -> Seq<char> {
        "SELECT "@ + (match self.select {
            Some(columns) => columns,
            None => "*"@,
        }) + " from "@ + self.table + (match self.limit {
            Some(limit) => " LIMIT "@ + decimal(limit as int),
            None => Seq::empty(),
        }) + (match self.offset {
            Some(offset) => " OFFSET "@ + decimal(offset as int),
            None => Seq::empty(),
        }) + (match self.order_by {
            Some(order) => " order by "@ + order,
            None => Seq::empty(),
        })
    }
}

/// Collects the parts of a query on one table and builds its text.
pub struct QueryBuilder<'a> {
    table: &'a str,
    select: Option<&'a str>,
    limit: Option<i64>,
    offset: Option<i64>,
    order_by: Option<&'a str>,
}

impl<'a> View for QueryBuilder<'a> {
    type V = QueryParts;

    closed spec fn view(&self) -> QueryParts {
        QueryParts {
            table: self.table@,
            select: match self.select {
                Some(columns) => Some(columns@),
                None => None,
            },
            limit: self.limit,
            offset: self.offset,
            order_by: match self.order_by {
                Some(order) => Some(order@),
                None => None,
            },
        }
    }
}

impl<'a> QueryBuilder<'a> {
    /// A query on `table` with no clause yet.
    pub fn new(table: &'a str) -> (builder: Self)
        ensures
            builder@ == (QueryParts {
                table: table@,
                select: None,
                limit: None,
                offset: None,
                order_by: None,
            }),
    {
        Self { table, select: None, limit: None, offset: None, order_by: None }
    }

    /// Asks for at most `limit` rows.
    pub fn limit(&mut self, limit: i64) -> (builder: &mut Self)
        ensures
            builder@ == (QueryParts { limit: Some(limit), ..old(self)@ }),
            *final(self) == *final(builder),
    {
        self.limit = Some(limit);
        self
    }

    /// Asks to skip the first `offset` rows.
    pub fn offset(&mut self, offset: i64) -> (builder: &mut Self)
        ensures
            builder@ == (QueryParts { offset: Some(offset), ..old(self)@ }),
            *final(self) == *final(builder),
    {
        self.offset = Some(offset);
        self
    }

    /// Asks for the rows in the order `order_by`.
    pub fn order_by(&mut self, order_by: &'a str) -> (builder: &mut Self)
        ensures
            builder@ == (QueryParts { order_by: Some(order_by@), ..old(self)@ }),
            *final(self) == *final(builder),
    {
        self.order_by = Some(order_by);
        self
    }

    /// Asks for the columns `select`.
    pub fn select(&mut self, select: &'a str) -> (builder: &mut Self)
        ensures
            builder@ == (QueryParts { select: Some(select@), ..old(self)@ }),
            *final(self) == *final(builder),
    {
        self.select = Some(select);
        self
    }

    /// The text of the query.
    pub fn build(&self) -> (query: String)
        ensures
            query@ == self@.text(),
    {
        let mut query = "SELECT ".to_owned();
        match self.select {
            Some(columns) => query.append(columns),
            None => query.append("*"),
        }
        query.append(" from ");
        query.append(self.table);
        if let Some(limit) = self.limit {
            query.append(" LIMIT ");
            append_decimal(&mut query, limit);
        }
        if let Some(offset) = self.offset {
            query.append(" OFFSET ");
            append_decimal(&mut query, offset);
        }
        if let Some(order) = self.order_by {
            query.append(" order by ");
            query.append(order);
        }
        query
    }
}

} // verus!
