use vstd::prelude::*;

verus! {

/// The SQL types that an expression can carry.
#[derive(Clone, Copy, Debug, PartialEq, Eq, Structural)]
pub enum SqlType {
    Ltree,
    Lquery,
    Ltxtquery,
    Int4,
    Text,
    Bool,
}

/// The name under which the database's type catalog knows a type that the
/// ltree extension installs; `None` for the built-in types.
pub open spec fn catalog_name(t: SqlType) -> Option<Seq<char>> {
    match t {
        SqlType::Ltree => Some(seq!['l', 't', 'r', 'e', 'e']),
        SqlType::Lquery => Some(seq!['l', 'q', 'u', 'e', 'r', 'y']),
        SqlType::Ltxtquery => Some(seq!['l', 't', 'x', 't', 'q', 'u', 'e', 'r', 'y']),
        _ => None,
    }
}

impl SqlType {
    /// The catalog name to look this type up by, for the ltree extension's types.
    pub fn catalog_name(&self) -> (r: Option<&'static str>)
        ensures
            r is Some <==> catalog_name(*self) is Some,
            r is Some ==> r->0@ == catalog_name(*self)->0,
    {
        match self {
            SqlType::Ltree => {
                proof { reveal_strlit("ltree"); }
                Some("ltree")
            },
            SqlType::Lquery => {
                proof { reveal_strlit("lquery"); }
                Some("lquery")
            },
            SqlType::Ltxtquery => {
                proof { reveal_strlit("ltxtquery"); }
                Some("ltxtquery")
            },
            _ => None,
        }
    }
}

/// Type token for a hierarchical label path (`ltree`).
#[derive(Clone, Copy, Debug)]
pub struct Ltree;

/// Type token for a path pattern (`lquery`).
#[derive(Clone, Copy, Debug)]
pub struct Lquery;

/// Type token for a full-text query over labels (`ltxtquery`).
#[derive(Clone, Copy, Debug)]
pub struct Ltxtquery;

impl Ltree {
    pub fn sql_type() -> (r: SqlType)
        ensures
            r == SqlType::Ltree,
    {
        SqlType::Ltree
    }

    /// The catalog name used for the metadata lookup.
    pub fn catalog_name() -> (r: &'static str)
        ensures
            Some(r@) == catalog_name(SqlType::Ltree),
    {
        proof { reveal_strlit("ltree"); }
        "ltree"
    }
}

impl Lquery {
    pub fn sql_type() -> (r: SqlType)
        ensures
            r == SqlType::Lquery,
    {
        SqlType::Lquery
    }

    /// The catalog name used for the metadata lookup.
    pub fn catalog_name() -> (r: &'static str)
        ensures
            Some(r@) == catalog_name(SqlType::Lquery),
    {
        proof { reveal_strlit("lquery"); }
        "lquery"
    }
}

impl Ltxtquery {
    pub fn sql_type() -> (r: SqlType)
        ensures
            r == SqlType::Ltxtquery,
    {
        SqlType::Ltxtquery
    }

    /// The catalog name used for the metadata lookup.
    pub fn catalog_name() -> (r: &'static str)
        ensures
            Some(r@) == catalog_name(SqlType::Ltxtquery),
    {
        proof { reveal_strlit("ltxtquery"); }
        "ltxtquery"
    }
}

} // verus!
