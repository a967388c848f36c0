//! Schema extraction: the relations that `CREATE TABLE` statements declare.
use vstd::prelude::*;
use crate::ast::{Cmd, ColumnDefinition, CreateTableBody, Stmt};
use crate::error::{result_view, Error, ErrorView, UnsupportedConstruct};
use crate::types::{
    builtin_type, builtin_view, lower_of, type_from_type_name, type_of_lowered_name, BuiltinType, Col,
    ColTypeView, ColView, Constraint, may_be_null, NamedRelation, NamedRelationView, TypeKind,
};
use crate::util::{in_main, main_qualified, unquote_ident, unquoted};

verus! {

/// Whether the column declares `NOT NULL`.
pub open spec fn has_not_null(c: ColumnDefinition) -> bool {
    exists|i: int| 0 <= i < c.constraints@.len() && c.constraints@[i] == Constraint::NotNull
}

/// The type union of the column's declared type, or `Unspecified` when it
/// declares none.
pub open spec fn declared_type_view(c: ColumnDefinition) -> ColTypeView {
    match c.col_type {
        Some(t) => type_of_lowered_name(lower_of(t@), t@),
        None => builtin_view(BuiltinType::Unspecified),
    }
}

/// The column that a column definition declares: its unquoted name, and its
/// declared type with `Null` added unless it is `NOT NULL`.
pub open spec fn column_view(c: ColumnDefinition) -> ColView {
    (
        unquoted(c.col_name@),
        if has_not_null(c) {
            declared_type_view(c)
        } else {
            declared_type_view(c) + builtin_view(BuiltinType::Null)
        },
    )
}

/// The relation that a statement declares, if it is a `CREATE TABLE`.
pub open spec fn record_view(stmt: Stmt) -> Result<Option<NamedRelationView>, ErrorView> {
    match stmt {
        Stmt::CreateTable { tbl_name, body } => match body {
            CreateTableBody::AsSelect => Err(
                ErrorView::Unsupported(UnsupportedConstruct::CreateTableAsSelect),
            ),
            CreateTableBody::ColumnsAndConstraints { columns } => Ok(
                Some((in_main(unquoted(tbl_name@)), columns@.map_values(|c| column_view(c)))),
            ),
        },
        _ => Ok(None),
    }
}

/// The relations that a batch of statements declares, in statement order;
/// the first failing statement fails the batch.
pub open spec fn relation_shapes(cmds: Seq<Cmd>) -> Result<Seq<NamedRelationView>, ErrorView>
    decreases cmds.len(),
{
    if cmds.len() == 0 {
        Ok(seq![])
    } else {
        match relation_shapes(cmds.drop_last()) {
            Err(e) => Err(e),
            Ok(prev) => match cmds.last() {
                Cmd::Stmt(s) => match record_view(s) {
                    Err(e) => Err(e),
                    Ok(Some(r)) => Ok(prev.push(r)),
                    Ok(None) => Ok(prev),
                },
                _ => Ok(prev),
            },
        }
    }
}

/// A failure within the first `k` statements is the failure of the whole
/// batch.
proof fn lemma_shapes_fail_fast(cmds: Seq<Cmd>, k: int)
    requires
        0 <= k <= cmds.len(),
        relation_shapes(cmds.take(k)) is Err,
    ensures
        relation_shapes(cmds) == relation_shapes(cmds.take(k)),
    decreases cmds.len(),
{
    if k < cmds.len() {
        assert(cmds.drop_last().take(k) =~= cmds.take(k));
        lemma_shapes_fail_fast(cmds.drop_last(), k);
    } else {
        assert(cmds.take(k) =~= cmds);
    }
}

pub fn get_relation_shapes(cmds: &Vec<Cmd>) -> (r: Result<Vec<NamedRelation>, Error>)
    ensures
        result_view(r) == relation_shapes(cmds@),
{
    let mut ret: Vec<NamedRelation> = Vec::new();
    let mut i: usize = 0;
    assert(cmds@.take(0) =~= Seq::<Cmd>::empty());
    assert(ret.deep_view() =~= Seq::<NamedRelationView>::empty());
    while i < cmds.len()
        invariant
            i <= cmds.len(),
            relation_shapes(cmds@.take(i as int)) == Ok::<_, ErrorView>(ret.deep_view()),
        decreases cmds.len() - i,
    {
        assert(cmds@.take(i + 1).drop_last() =~= cmds@.take(i as int));
        if let Cmd::Stmt(stmt) = &cmds[i] {
            match maybe_record(stmt) {
                Err(e) => {
                    assert(cmds@.take(i + 1).last() == cmds@[i as int]);
                    proof {
                        lemma_shapes_fail_fast(cmds@, i + 1);
                    }
                    return Err(e);
                },
                Ok(Some(record)) => {
                    let ghost before = ret.deep_view();
                    ret.push(record);
                    assert(ret.deep_view() =~= before.push(record.deep_view()));
                },
                Ok(None) => {},
            }
        }
        i = i + 1;
    }
    assert(cmds@.take(i as int) =~= cmds@);
    Ok(ret)
}

fn maybe_record(stmt: &Stmt) -> (r: Result<Option<NamedRelation>, Error>)
    ensures
        result_view(r) == record_view(*stmt),
{
    match stmt {
        Stmt::CreateTable { tbl_name, body } => {
            let name = main_qualified(unquote_ident(tbl_name.as_str()));
            match get_properties(body) {
                Ok(cols) => Ok(Some((name, cols))),
                Err(e) => Err(e),
            }
        },
        _ => Ok(None),
    }
}

fn get_properties(body: &CreateTableBody) -> (r: Result<Vec<Col>, Error>)
    ensures
        result_view(r) == match *body {
            CreateTableBody::AsSelect => Err(
                ErrorView::Unsupported(UnsupportedConstruct::CreateTableAsSelect),
            ),
            CreateTableBody::ColumnsAndConstraints { columns } => Ok(
                columns@.map_values(|c| column_view(c)),
            ),
        },
{
    match body {
        CreateTableBody::AsSelect => Err(Error::Unsupported(UnsupportedConstruct::CreateTableAsSelect)),
        CreateTableBody::ColumnsAndConstraints { columns } => {
            let mut ret: Vec<Col> = Vec::new();
            let mut i: usize = 0;
            assert(ret.deep_view() =~= columns@.take(0).map_values(|c| column_view(c)));
            while i < columns.len()
                invariant
                    i <= columns.len(),
                    ret.deep_view() == columns@.take(i as int).map_values(|c| column_view(c)),
                decreases columns.len() - i,
            {
                let col = column_as_property(&columns[i]);
                let ghost before = ret.deep_view();
                ret.push(col);
                assert(ret.deep_view() =~= before.push(col.deep_view()));
                assert(columns@.take(i + 1) =~= columns@.take(i as int).push(columns@[i as int]));
                assert(ret.deep_view() =~= columns@.take(i + 1).map_values(|c| column_view(c)));
                i = i + 1;
            }
            assert(columns@.take(i as int) =~= columns@);
            Ok(ret)
        },
    }
}

fn column_as_property(column: &ColumnDefinition) -> (r: Col)
    ensures
        r.deep_view() == column_view(*column),
{
    let mut col_type = match &column.col_type {
        Some(t) => type_from_type_name(t.clone()),
        None => builtin_type(BuiltinType::Unspecified),
    };
    let mut not_null = false;
    let mut i: usize = 0;
    while i < column.constraints.len()
        invariant
            i <= column.constraints.len(),
            not_null == exists|j: int| 0 <= j < i && column.constraints@[j] == Constraint::NotNull,
        decreases column.constraints.len() - i,
    {
        if column.constraints[i] == Constraint::NotNull {
            not_null = true;
        }
        i = i + 1;
    }
    if !not_null {
        let ghost before = col_type.deep_view();
        col_type.push((TypeKind::Builtin, Some(BuiltinType::Null), None));
        assert(col_type.deep_view() =~= before + builtin_view(BuiltinType::Null));
    }
    (String::from_str(unquote_ident(column.col_name.as_str())), col_type)
}

/// A column declared without `NOT NULL` may be null: its type union holds a
/// `Null` atom.  A column declared `NOT NULL` holds none.
pub proof fn lemma_column_nullability(c: ColumnDefinition)
    ensures
        may_be_null(column_view(c).1) <==> !has_not_null(c),
{
    let d = declared_type_view(c);
    assert(d.len() == 1 && d[0].1 != Some(BuiltinType::Null));
    if !has_not_null(c) {
        let t = d + builtin_view(BuiltinType::Null);
        assert(t[1].1 == Some(BuiltinType::Null));
    }
}

/// Whether `cmd` is a `CREATE TABLE` with declared columns, and `r` has one
/// column for each of them, which may be null exactly when the declared
/// column is not `NOT NULL`.
pub open spec fn nullability_follows(cmd: Cmd, r: NamedRelationView) -> bool {
    &&& cmd matches Cmd::Stmt(
        Stmt::CreateTable { body: CreateTableBody::ColumnsAndConstraints { columns }, .. },
    )
    &&& r.1.len() == columns@.len()
    &&& forall|i: int|
        0 <= i < r.1.len() ==> (may_be_null(#[trigger] r.1[i].1) <==> !has_not_null(
            columns@[i],
        ))
}

/// Of a batch of statements, every relation extracted comes from a
/// `CREATE TABLE` of the batch, and each of its columns may be null exactly
/// when its declaration lacks `NOT NULL`.
pub proof fn lemma_shapes_nullability(cmds: Seq<Cmd>)
    ensures
        relation_shapes(cmds) matches Ok(rels) ==> forall|k: int|
            0 <= k < rels.len() ==> exists|j: int|
                0 <= j < cmds.len() && nullability_follows(cmds[j], #[trigger] rels[k]),
    decreases cmds.len(),
{
    if cmds.len() > 0 {
        lemma_shapes_nullability(cmds.drop_last());
        if let Ok(rels) = relation_shapes(cmds) {
            let prev = relation_shapes(cmds.drop_last())->Ok_0;
            assert forall|k: int| 0 <= k < rels.len() implies exists|j: int|
                0 <= j < cmds.len() && nullability_follows(cmds[j], #[trigger] rels[k]) by {
                if k < prev.len() {
                    assert(rels[k] == prev[k]);
                    let j = choose|j: int|
                        0 <= j < cmds.drop_last().len() && nullability_follows(
                            cmds.drop_last()[j],
                            prev[k],
                        );
                    assert(cmds[j] == cmds.drop_last()[j]);
                } else {
                    let j = cmds.len() - 1;
                    if let Cmd::Stmt(Stmt::CreateTable { tbl_name, body }) = cmds[j] {
                        if let CreateTableBody::ColumnsAndConstraints { columns } = body {
                            let r = rels[k];
                            assert forall|i: int| 0 <= i < r.1.len() implies (may_be_null(
                                #[trigger] r.1[i].1,
                            ) <==> !has_not_null(columns@[i])) by {
                                lemma_column_nullability(columns@[i]);
                            }
                            assert(nullability_follows(cmds[j], rels[k]));
                        }
                    }
                }
            }
        }
    }
}

} // verus!
