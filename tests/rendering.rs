use diesel_ltree::{
    index, lquery, ltree2text, ltxtquery, nlevel, subltree, subpath, text2ltree, Expr, Func,
    LqueryExtensions, LtreeExtensions, LtxtqueryExtensions, Lquery, Ltree, Ltxtquery, Operator,
    SqlType, TypeError, Value,
};

fn path() -> Expr {
    Expr::column("path", SqlType::Ltree)
}

fn text(s: &str, ty: SqlType) -> Expr {
    Expr::text(s, ty).unwrap()
}

fn render(e: &Expr) -> (String, Vec<Value>) {
    e.to_sql()
}

#[test]
fn matches_literal_pattern_binds_it() {
    let e = LtreeExtensions::matches(path(), text("a.b.*", SqlType::Lquery)).unwrap();
    let (sql, binds) = render(&e);
    assert_eq!(sql, "path ~ $1");
    assert_eq!(binds, vec![Value::Text("a.b.*".to_string())]);
    assert_eq!(e.sql_type(), SqlType::Bool);
}

#[test]
fn nlevel_of_text2ltree() {
    let e = nlevel(text2ltree(text("a.b.c", SqlType::Text)).unwrap()).unwrap();
    let (sql, binds) = render(&e);
    assert_eq!(sql, "nlevel(text2ltree($1))");
    assert_eq!(binds, vec![Value::Text("a.b.c".to_string())]);
    assert_eq!(e.sql_type(), SqlType::Int4);
}

#[test]
fn functions_render_name_and_ordered_args() {
    let e = subltree(path(), Expr::int4(1), Expr::int4(2)).unwrap();
    assert_eq!(render(&e), ("subltree(path, $1, $2)".to_string(), vec![Value::Int4(1), Value::Int4(2)]));
    let e = subpath(path(), Expr::int4(0), Expr::int4(-1)).unwrap();
    assert_eq!(render(&e), ("subpath(path, $1, $2)".to_string(), vec![Value::Int4(0), Value::Int4(-1)]));
    let e = index(path(), text("b.c", SqlType::Ltree)).unwrap();
    assert_eq!(render(&e).0, "index(path, $1)");
    assert_eq!(e.sql_type(), SqlType::Int4);
    let e = ltree2text(path()).unwrap();
    assert_eq!(render(&e).0, "ltree2text(path)");
    assert_eq!(e.sql_type(), SqlType::Text);
    let e = lquery(Expr::column("pattern", SqlType::Text)).unwrap();
    assert_eq!(render(&e).0, "lquery(pattern)");
    assert_eq!(e.sql_type(), SqlType::Lquery);
    let e = ltxtquery(text("a & b", SqlType::Text)).unwrap();
    assert_eq!(render(&e).0, "ltxtquery($1)");
    assert_eq!(e.sql_type(), SqlType::Ltxtquery);
}

#[test]
fn operators_render_with_one_space_each_side() {
    let other = || Expr::column("other", SqlType::Ltree);
    assert_eq!(render(&path().contains(other()).unwrap()).0, "path @> other");
    assert_eq!(render(&path().contained_by(other()).unwrap()).0, "path <@ other");
    assert_eq!(render(&path().concat(other()).unwrap()).0, "path || other");
    let q = Expr::column("q", SqlType::Ltxtquery);
    assert_eq!(render(&LtreeExtensions::tmatches(path(), q).unwrap()).0, "path @ q");
    let q = Expr::column("q", SqlType::Ltxtquery);
    assert_eq!(render(&LtxtqueryExtensions::tmatches(q, path()).unwrap()).0, "q @ path");
    let p = Expr::column("p", SqlType::Lquery);
    assert_eq!(render(&LqueryExtensions::matches(p, path()).unwrap()).0, "p ~ path");
}

#[test]
fn operator_result_types() {
    let other = Expr::column("other", SqlType::Ltree);
    assert_eq!(path().concat(other).unwrap().sql_type(), SqlType::Ltree);
    let other = Expr::column("other", SqlType::Ltree);
    assert_eq!(path().contains(other).unwrap().sql_type(), SqlType::Bool);
}

#[test]
fn tmatches_on_two_ltrees_is_refused() {
    let r = LtreeExtensions::tmatches(path(), Expr::column("other", SqlType::Ltree));
    assert_eq!(
        r,
        Err(TypeError::Operand { op: Operator::TMatches, left: SqlType::Ltree, right: SqlType::Ltree })
    );
    let r = LtxtqueryExtensions::tmatches(path(), Expr::column("other", SqlType::Ltree));
    assert!(r.is_err());
}

#[test]
fn predicate_cannot_be_matched_again() {
    let p = path().contains(Expr::column("other", SqlType::Ltree)).unwrap();
    let r = LtreeExtensions::matches(p, text("a.*", SqlType::Lquery));
    assert_eq!(
        r,
        Err(TypeError::Operand { op: Operator::Matches, left: SqlType::Bool, right: SqlType::Lquery })
    );
}

#[test]
fn text_round_trip_keeps_ltree_type() {
    let e = text2ltree(ltree2text(path()).unwrap()).unwrap();
    assert_eq!(e.sql_type(), SqlType::Ltree);
    assert_eq!(render(&e).0, "text2ltree(ltree2text(path))");
}

#[test]
fn wrong_argument_type_is_reported_by_position() {
    let r = subltree(path(), Expr::int4(1), text("x", SqlType::Text));
    assert_eq!(
        r,
        Err(TypeError::Argument {
            func: Func::Subltree,
            position: 2,
            expected: SqlType::Int4,
            found: SqlType::Text
        })
    );
    let r = nlevel(text("a.b", SqlType::Text));
    assert_eq!(
        r,
        Err(TypeError::Argument { func: Func::Nlevel, position: 0, expected: SqlType::Ltree, found: SqlType::Text })
    );
}

#[test]
fn text_cannot_be_bound_as_integer() {
    assert_eq!(
        Expr::text("1", SqlType::Int4),
        Err(TypeError::Literal { ty: SqlType::Int4 })
    );
    assert!(Expr::text("a", SqlType::Bool).is_err());
}

#[test]
fn placeholders_count_past_nine() {
    let mut e = path();
    for i in 0..11 {
        e = e.concat(text(&format!("l{}", i), SqlType::Ltree)).unwrap();
    }
    let (sql, binds) = render(&e);
    assert_eq!(binds.len(), 11);
    assert!(sql.ends_with("|| $10 || $11"));
    assert!(sql.starts_with("path || $1 || $2"));
}

#[test]
fn catalog_names() {
    assert_eq!(Ltree::catalog_name(), "ltree");
    assert_eq!(Lquery::catalog_name(), "lquery");
    assert_eq!(Ltxtquery::catalog_name(), "ltxtquery");
    assert_eq!(SqlType::Ltxtquery.catalog_name(), Some("ltxtquery"));
    assert_eq!(SqlType::Int4.catalog_name(), None);
    assert_eq!(Ltree::sql_type(), SqlType::Ltree);
}

#[test]
fn write_sql_numbers_after_existing_params() {
    let mut out = String::from("WHERE ");
    let mut params = vec![Value::Int4(7)];
    let e = LtreeExtensions::matches(path(), text("*.x", SqlType::Lquery)).unwrap();
    e.write_sql(&mut out, &mut params);
    assert_eq!(out, "WHERE path ~ $2");
    assert_eq!(params, vec![Value::Int4(7), Value::Text("*.x".to_string())]);
}

#[test]
fn function_names_and_operator_texts() {
    assert_eq!(Func::Text2ltree.name(), "text2ltree");
    assert_eq!(Operator::ContainedBy.text(), "<@");
}
